//! Login items, LaunchAgents, LaunchDaemons, and failing services.
use vstd::prelude::*;

use crate::checker::{Checker, all_sound, lemma_empty_sound, lemma_extend_sound, 
    CheckResult, CheckResultView, Finding, FindingView, Level, empty_result, extend, issue_view,
    ok_view, opt_view,
};
use crate::checkers::logs::{ext_and_stem, file_ext};
use crate::text::{
    chars_of, count_or_zero, count_or_zero_exec, dec, dec_lit, dec_string, join, join_exec,
    lit_dec_lit, split_all, split_all_exec,
};

verus! {

pub const LOGIN_CRITICAL_FIX: &'static str = "Remove unnecessary items: System Settings → General → Login Items.\nKeep only items you actively need at every startup.";

pub const LOGIN_WARN_FIX: &'static str = "Review System Settings → General → Login Items.\nDisable apps you don't need at every login.";

pub const AGENTS_FIX: &'static str = "Review ~/Library/LaunchAgents for plists from uninstalled apps.\nUse AppCleaner (free) to fully remove apps including their agents.";

pub const FAILING_FIX: &'static str = "Run: launchctl list | awk '$1 != 0 && $1 != \"-\"'\nto identify failing services. Remove orphaned plists from ~/Library/LaunchAgents.";

/// What the startup checker reads: the login-item names `osascript`
/// printed, the file names in the three LaunchAgents/LaunchDaemons
/// directories (empty when unreadable), and the failing-service count the
/// `launchctl` pipeline printed.
pub struct StartupReadings {
    pub login_items: Option<String>,
    pub user_agents: Vec<String>,
    pub library_agents: Vec<String>,
    pub library_daemons: Vec<String>,
    pub failing_services: Option<String>,
}

pub struct StartupReadingsView {
    pub login_items: Option<Seq<char>>,
    pub user_agents: Seq<Seq<char>>,
    pub library_agents: Seq<Seq<char>>,
    pub library_daemons: Seq<Seq<char>>,
    pub failing_services: Option<Seq<char>>,
}

impl View for StartupReadings {
    type V = StartupReadingsView;

    open spec fn view(&self) -> StartupReadingsView {
        StartupReadingsView {
            login_items: opt_view(self.login_items),
            user_agents: self.user_agents@.map_values(|s: String| s@),
            library_agents: self.library_agents@.map_values(|s: String| s@),
            library_daemons: self.library_daemons@.map_values(|s: String| s@),
            failing_services: opt_view(self.failing_services),
        }
    }
}

/// Number of `.plist` files among the names.
pub open spec fn plist_count(names: Seq<Seq<char>>) -> nat
    decreases names.len(),
{
    if names.len() == 0 {
        0
    } else {
        plist_count(names.drop_last()) + if file_ext(names.last()) == Some("plist"@) {
            1nat
        } else {
            0nat
        }
    }
}

/// Counts the `.plist` files among directory entries.
pub fn count_plists(names: &Vec<String>) -> (n: usize)
    ensures
        n == plist_count(names@.map_values(|s: String| s@)),
{
    let ghost nv = names@.map_values(|s: String| s@);
    let plist = chars_of("plist");
    let mut n: usize = 0;
    for i in 0..names.len()
        invariant
            nv == names@.map_values(|s: String| s@),
            plist@ == "plist"@,
            n == plist_count(nv.take(i as int)),
            n <= i,
    {
        assert(nv.take(i + 1).drop_last() =~= nv.take(i as int));
        assert(nv[i as int] == names@[i as int]@);
        let (e, _) = ext_and_stem(&chars_of(names[i].as_str()));
        let is_plist = match &e {
            Some(e) => crate::text::chars_eq(e, &plist),
            None => false,
        };
        if is_plist {
            n = n + 1;
        }
    }
    assert(nv.take(names@.len() as int) =~= nv);
    n
}

pub open spec fn login_details(r: StartupReadingsView) -> Seq<(Seq<char>, Seq<char>)> {
    match r.login_items {
        Some(s) if s.len() > 0 => {
            let items = split_all(s, ", "@);
            seq![("GUI Login Items"@, dec(items.len()) + " items"@), ("Items"@, join(items, ", "@))]
        },
        _ => seq![("GUI Login Items"@, "Unavailable (permission denied)"@)],
    }
}

pub open spec fn login_findings(r: StartupReadingsView) -> Seq<FindingView> {
    match r.login_items {
        Some(s) if s.len() > 0 => {
            let count = split_all(s, ", "@).len();
            if count > 15 {
                seq![issue_view(Level::Critical, dec(count) + " login items — excessive startup apps slow boot and consume RAM."@, LOGIN_CRITICAL_FIX@, 10)]
            } else if count > 8 {
                seq![issue_view(Level::Warn, dec(count) + " login items found. Consider trimming."@, LOGIN_WARN_FIX@, 5)]
            } else {
                seq![ok_view(dec(count) + " login items — healthy count."@)]
            }
        },
        _ => seq![],
    }
}

pub open spec fn agent_total(r: StartupReadingsView) -> nat {
    plist_count(r.user_agents) + plist_count(r.library_agents) + plist_count(r.library_daemons)
}

pub open spec fn agent_details(r: StartupReadingsView) -> Seq<(Seq<char>, Seq<char>)> {
    seq![
        ("~/Library/LaunchAgents"@, dec(plist_count(r.user_agents)) + " agents"@),
        ("/Library/LaunchAgents"@, dec(plist_count(r.library_agents)) + " agents"@),
        ("/Library/LaunchDaemons"@, dec(plist_count(r.library_daemons)) + " agents"@),
        ("Total Agents / Daemons"@, dec(agent_total(r))),
    ]
}

pub open spec fn agent_findings(r: StartupReadingsView) -> Seq<FindingView> {
    let total = agent_total(r);
    if total > 50 {
        seq![issue_view(Level::Warn, "High agent/daemon count ("@ + dec(total) + ") — may include orphaned software."@, AGENTS_FIX@, 5)]
    } else {
        seq![ok_view("Background agent count is normal ("@ + dec(total) + " total)."@)]
    }
}

pub open spec fn failing_details(r: StartupReadingsView) -> Seq<(Seq<char>, Seq<char>)> {
    seq![("Failing User Services"@, dec(count_or_zero(r.failing_services)))]
}

pub open spec fn failing_findings(r: StartupReadingsView) -> Seq<FindingView> {
    let n = count_or_zero(r.failing_services);
    if n > 15 {
        seq![issue_view(Level::Warn, dec(n) + " user services have non-zero exit codes (respawn loops waste CPU)."@, FAILING_FIX@, 5)]
    } else {
        seq![ok_view(dec(n) + " services with non-zero exits (normal range)."@)]
    }
}

/// The startup section for the given readings.
pub open spec fn startup_report(r: StartupReadingsView) -> CheckResultView {
    let r0 = empty_result("Startup Items & Background Agents"@);
    let r1 = extend(r0, login_details(r), login_findings(r));
    let r2 = extend(r1, agent_details(r), agent_findings(r));
    extend(r2, failing_details(r), failing_findings(r))
}

fn add_login_part(r: &mut CheckResult, readings: &StartupReadings)
    ensures
        final(r)@ == extend(old(r)@, login_details(readings@), login_findings(readings@)),
{
    let mut shown = false;
    match &readings.login_items {
        Some(s) => {
            let sc = chars_of(s.as_str());
            if sc.len() > 0 {
                shown = true;
                proof {
                    reveal_strlit(", ");
                }
                let items = split_all_exec(&sc, &chars_of(", "));
                let count = items.len();
                let c = dec_lit(count as u64, " items");
                r.add_detail("GUI Login Items", c.as_str());
                let j = join_exec(&items, ", ");
                r.add_detail("Items", j.as_str());
                if count > 15 {
                    let m = dec_lit(count as u64, " login items — excessive startup apps slow boot and consume RAM.");
                    r.add_finding(Finding::critical(m.as_str(), LOGIN_CRITICAL_FIX, 10));
                } else if count > 8 {
                    let m = dec_lit(count as u64, " login items found. Consider trimming.");
                    r.add_finding(Finding::warn(m.as_str(), LOGIN_WARN_FIX, 5));
                } else {
                    let m = dec_lit(count as u64, " login items — healthy count.");
                    r.add_finding(Finding::ok(m.as_str()));
                }
            }
        },
        None => {},
    }
    if !shown {
        r.add_detail("GUI Login Items", "Unavailable (permission denied)");
    }
    assert(final(r)@.details =~= old(r)@.details + login_details(readings@));
    assert(final(r)@.findings =~= old(r)@.findings + login_findings(readings@));
}

proof fn lemma_plist_bound(names: Seq<Seq<char>>)
    ensures
        plist_count(names) <= names.len(),
    decreases names.len(),
{
    if names.len() > 0 {
        lemma_plist_bound(names.drop_last());
    }
}

fn add_agent_part(r: &mut CheckResult, readings: &StartupReadings)
    requires
        readings.user_agents@.len() + readings.library_agents@.len() + readings.library_daemons@.len()
            <= usize::MAX,
    ensures
        final(r)@ == extend(old(r)@, agent_details(readings@), agent_findings(readings@)),
{
    let a = count_plists(&readings.user_agents);
    let b = count_plists(&readings.library_agents);
    let c = count_plists(&readings.library_daemons);
    let d1 = dec_lit(a as u64, " agents");
    r.add_detail("~/Library/LaunchAgents", d1.as_str());
    let d2 = dec_lit(b as u64, " agents");
    r.add_detail("/Library/LaunchAgents", d2.as_str());
    let d3 = dec_lit(c as u64, " agents");
    r.add_detail("/Library/LaunchDaemons", d3.as_str());
    proof {
        lemma_plist_bound(readings@.user_agents);
        lemma_plist_bound(readings@.library_agents);
        lemma_plist_bound(readings@.library_daemons);
    }
    let total_n: usize = a + b + c;
    let total = total_n as u64;
    let t = dec_string(total);
    r.add_detail("Total Agents / Daemons", t.as_str());
    if total > 50 {
        let m = lit_dec_lit("High agent/daemon count (", total, ") — may include orphaned software.");
        r.add_finding(Finding::warn(m.as_str(), AGENTS_FIX, 5));
    } else {
        let m = lit_dec_lit("Background agent count is normal (", total, " total).");
        r.add_finding(Finding::ok(m.as_str()));
    }
    assert(final(r)@.details =~= old(r)@.details + agent_details(readings@));
    assert(final(r)@.findings =~= old(r)@.findings + agent_findings(readings@));
}

fn add_failing_part(r: &mut CheckResult, readings: &StartupReadings)
    ensures
        final(r)@ == extend(old(r)@, failing_details(readings@), failing_findings(readings@)),
{
    let n = count_or_zero_exec(&readings.failing_services);
    let d = dec_string(n as u64);
    r.add_detail("Failing User Services", d.as_str());
    if n > 15 {
        let m = dec_lit(n as u64, " user services have non-zero exit codes (respawn loops waste CPU).");
        r.add_finding(Finding::warn(m.as_str(), FAILING_FIX, 5));
    } else {
        let m = dec_lit(n as u64, " services with non-zero exits (normal range).");
        r.add_finding(Finding::ok(m.as_str()));
    }
    assert(final(r)@.details =~= old(r)@.details + failing_details(readings@));
    assert(final(r)@.findings =~= old(r)@.findings + failing_findings(readings@));
}

/// Login items, LaunchAgents, LaunchDaemons, and failing services.
pub struct StartupChecker;

impl Checker for StartupChecker {
    /// Short, unique name used in `--only <name>` filtering.
    fn name(&self) -> (r: &'static str)
        ensures
            r@ == "startup"@,
    {
        "startup"
    }

    /// One-line description shown in `--list` output.
    fn description(&self) -> (r: &'static str)
        ensures
            r@ == "Login items, LaunchAgents, LaunchDaemons, and failing services"@,
    {
        "Login items, LaunchAgents, LaunchDaemons, and failing services"
    }
}

impl StartupChecker {

    /// The startup section for the given readings.
    pub fn assess(readings: &StartupReadings) -> (r: CheckResult)
        requires
            readings.user_agents@.len() + readings.library_agents@.len()
                + readings.library_daemons@.len() <= usize::MAX,
        ensures
            r@ == startup_report(readings@),
    {
        let mut r = CheckResult::new("Startup Items & Background Agents");
        add_login_part(&mut r, readings);
        add_agent_part(&mut r, readings);
        add_failing_part(&mut r, readings);
        r
    }
}

/// Every finding of the startup section is sound: exactly its warnings and
/// critical findings carry a fix and deduct points.
pub proof fn law_startup_findings_sound(r: StartupReadingsView)
    ensures
        all_sound(startup_report(r).findings),
{
    lemma_empty_sound("Startup Items & Background Agents"@);
    let r0 = empty_result("Startup Items & Background Agents"@);
    assert(all_sound(login_findings(r)));
    lemma_extend_sound(r0, login_details(r), login_findings(r));
    let r1 = extend(r0, login_details(r), login_findings(r));
    assert(all_sound(agent_findings(r)));
    lemma_extend_sound(r1, agent_details(r), agent_findings(r));
    let r2 = extend(r1, agent_details(r), agent_findings(r));
    assert(all_sound(failing_findings(r)));
    lemma_extend_sound(r2, failing_details(r), failing_findings(r));
}

/// The startup section shows each directory's `.plist` count and, as the
/// agent total, the sum of all three (user agents, library agents, library
/// daemons); above 50 in all it warns of orphaned software (5 points, with the
/// agents fix), otherwise it reports a normal count, naming that sum.
pub proof fn law_agent_total_counts_every_directory(r: StartupReadingsView)
    ensures
        ({
            let a = plist_count(r.user_agents);
            let b = plist_count(r.library_agents);
            let c = plist_count(r.library_daemons);
            let t = a + b + c;
            let rep = startup_report(r);
            &&& exists|i: int| 0 <= i < rep.details.len() && #[trigger] rep.details[i] == ("~/Library/LaunchAgents"@, dec(a) + " agents"@)
            &&& exists|i: int| 0 <= i < rep.details.len() && #[trigger] rep.details[i] == ("/Library/LaunchAgents"@, dec(b) + " agents"@)
            &&& exists|i: int| 0 <= i < rep.details.len() && #[trigger] rep.details[i] == ("/Library/LaunchDaemons"@, dec(c) + " agents"@)
            &&& exists|i: int| 0 <= i < rep.details.len() && #[trigger] rep.details[i] == ("Total Agents / Daemons"@, dec(t))
            &&& t > 50 ==> exists|j: int|
                0 <= j < rep.findings.len() && #[trigger] rep.findings[j] == issue_view(
                    Level::Warn,
                    "High agent/daemon count ("@ + dec(t) + ") — may include orphaned software."@,
                    AGENTS_FIX@,
                    5,
                )
            &&& t <= 50 ==> exists|j: int|
                0 <= j < rep.findings.len() && #[trigger] rep.findings[j] == ok_view(
                    "Background agent count is normal ("@ + dec(t) + " total)."@,
                )
        }),
{
    let rep = startup_report(r);
    let k: int = login_details(r).len() as int;
    assert(rep.details =~= Seq::<(Seq<char>, Seq<char>)>::empty() + login_details(r) + agent_details(r) + failing_details(r));
    assert(rep.details[k] == agent_details(r)[0]);
    assert(rep.details[k + 1] == agent_details(r)[1]);
    assert(rep.details[k + 2] == agent_details(r)[2]);
    assert(rep.details[k + 3] == agent_details(r)[3]);
    let j = login_findings(r).len();
    assert(rep.findings =~= Seq::<FindingView>::empty() + login_findings(r) + agent_findings(r) + failing_findings(r));
    assert(rep.findings[j as int] == agent_findings(r)[0]);
}

} // verus!
