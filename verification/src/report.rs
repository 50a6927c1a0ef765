//! The plain-text report: every section, the score and verdict with the
//! erase advice, the issues with their fixes, and the quick-win commands.
use vstd::prelude::*;

use crate::actions::{QuickWinCmd, QuickWinView, commands_view};
use crate::checker::{CheckResult, CheckResultView, FindingView, Level, findings_view, results_view};
use crate::scorer::{EraseRecommendation, HealthScore, Verdict, erase_advice};
use crate::text::{chars_of, dec, owned, push_dec, push_repeat, repeat_char, replace_all, replace_exec, to_uppercase, uppercase};

verus! {

/// Width of the rules between sections.
pub const WIDTH: usize = 72;

pub const BANNER: &'static str = "═══════════════════ alchemy-cleaner — macOS System Health Diagnostic ═══════════════════";

pub const SMART_NOTICE: &'static str = "  ⚠  HARDWARE ISSUE — S.M.A.R.T. failure detected. Back up NOW and book Apple Support.\n  Erasing will NOT fix failing hardware.";

pub const CAPACITY_ADVICE: &'static str = "  If issues are memory/swap related: this is a capacity problem.\n  Close unused apps, quit browser tabs, or restart to free RAM.\n  Erasing macOS will NOT fix RAM exhaustion — only more RAM or fewer apps will.";

pub const CAPACITY_ADVICE_LONG: &'static str = "  If issues are memory/swap related: this is a capacity problem.\n  Close unused apps, quit browser tabs, or restart to free RAM.\n  Erasing macOS will NOT fix RAM exhaustion — only more RAM or fewer apps will.\n  If issues are service/startup related: try Safe Mode (hold Shift at boot)\n  then run Disk Utility → First Aid before considering a reinstall.";

pub const ERASE_APPLE_SILICON: &'static str = "  Apple Silicon: System Settings → General → Transfer or Reset → Erase All Content.";

pub const ERASE_INTEL: &'static str = "  Intel: hold ⌘+R at boot → Disk Utility Erase → Reinstall macOS.";

/// The views of a list of lines.
pub open spec fn lines_view(v: Seq<String>) -> Seq<Seq<char>> {
    v.map_values(|s: String| s@)
}

/// The marker for a finding's level.
pub open spec fn level_icon(l: Level) -> Seq<char> {
    match l {
        Level::Okay => "✅"@,
        Level::Warn => "⚠️ "@,
        Level::Critical => "❌"@,
    }
}

/// `s` padded with spaces to at least `w` characters (`{:<w}`).
pub open spec fn pad_right(s: Seq<char>, w: nat) -> Seq<char> {
    s + repeat_char(' ', if s.len() < w { (w - s.len()) as nat } else { 0 })
}

pub open spec fn detail_line(d: (Seq<char>, Seq<char>)) -> Seq<char> {
    "  "@ + pad_right(d.0, 24) + " "@ + d.1
}

pub open spec fn finding_line(f: FindingView) -> Seq<char> {
    "  ["@ + level_icon(f.level) + "] "@ + f.message
}

/// Section `num`: a rule, the numbered upper-case title, a rule, the
/// details, then the findings.
pub open spec fn section_block(num: nat, r: CheckResultView) -> Seq<Seq<char>> {
    seq![
        seq!['\n'] + repeat_char('═', 72),
        "  "@ + dec(num) + ". "@ + uppercase(r.section),
        repeat_char('─', 72),
    ] + r.details.map_values(|d: (Seq<char>, Seq<char>)| detail_line(d)) + r.findings.map_values(
        |f: FindingView| finding_line(f),
    )
}

/// All sections, numbered from 1.
pub open spec fn sections_block(rs: Seq<CheckResultView>) -> Seq<Seq<char>>
    decreases rs.len(),
{
    if rs.len() == 0 {
        seq![]
    } else {
        sections_block(rs.drop_last()) + section_block(rs.len(), rs.last())
    }
}

/// The score bar of `width` cells.
pub open spec fn bar_of(score: nat, width: nat) -> Seq<char> {
    repeat_char('█', score * width / 100) + repeat_char(
        '░',
        if score * width / 100 >= width { 0nat } else { (width - score * width / 100) as nat },
    )
}

pub open spec fn verdict_label(v: Verdict) -> Seq<char> {
    match v {
        Verdict::Healthy => "HEALTHY"@,
        Verdict::NeedsAttention => "NEEDS ATTENTION"@,
        Verdict::Degraded => "DEGRADED — ACTION REQUIRED"@,
        Verdict::Critical => "CRITICAL — CONSIDER REINSTALL"@,
    }
}

pub open spec fn verdict_icon(v: Verdict) -> Seq<char> {
    match v {
        Verdict::Healthy => "✅"@,
        Verdict::NeedsAttention => "⚠️ "@,
        Verdict::Degraded => "❌"@,
        Verdict::Critical => "🚨"@,
    }
}

/// The erase advice lines: the hardware notice on a S.M.A.R.T. failure,
/// otherwise the recommendation for the verdict (the capacity advice in its
/// long form when `long`).
pub open spec fn advice_block(h: HealthScore, long: bool) -> Seq<Seq<char>> {
    if h.smart_failure {
        seq![SMART_NOTICE@]
    } else {
        match erase_advice(h.verdict, h.panic_count, h.smart_failure) {
            EraseRecommendation::NotNeeded => seq!["  ✅  NOT recommended. Score "@ + dec(h.score as nat) + "/100 — fix the issues below first."@],
            EraseRecommendation::TryOtherFirst => seq![
                "  ⚠️   Score "@ + dec(h.score as nat) + "/100 — action needed, but no evidence of software corruption."@,
                if long { CAPACITY_ADVICE_LONG@ } else { CAPACITY_ADVICE@ },
            ],
            EraseRecommendation::Recommended => seq![
                "  🚨  Score "@ + dec(h.score as nat) + "/100 + "@ + dec(h.panic_count as nat) + " kernel panic(s) detected → ERASE & REINSTALL recommended."@,
                ERASE_APPLE_SILICON@,
                ERASE_INTEL@,
            ],
        }
    }
}

/// The score, verdict and erase-advice lines.
pub open spec fn score_block(h: HealthScore, long: bool) -> Seq<Seq<char>> {
    seq![
        seq!['\n'],
        "═══ FINAL HEALTH SCORE & VERDICT ═══"@,
        "  Health Score: "@ + dec(h.score as nat) + "/100"@ + "  ["@ + bar_of(h.score as nat, 40) + "]"@,
        "  Verdict     : "@ + verdict_icon(h.verdict) + " "@ + verdict_label(h.verdict),
        "\n  Should you erase and reinstall macOS?"@,
        "  (\"Erase All Content and Settings\" / Recovery Mode)"@,
    ] + advice_block(h, long)
}

/// A finding with a fix that costs points.
pub open spec fn actionable(f: FindingView) -> bool {
    f.solution is Some && f.score_deduction > 0
}

/// The actionable findings of the findings, in order.
pub open spec fn actionable_in(fs: Seq<FindingView>) -> Seq<FindingView>
    decreases fs.len(),
{
    if fs.len() == 0 {
        seq![]
    } else {
        actionable_in(fs.drop_last()) + if actionable(fs.last()) {
            seq![fs.last()]
        } else {
            seq![]
        }
    }
}

/// The actionable findings of all sections, in order.
pub open spec fn all_actionable(rs: Seq<CheckResultView>) -> Seq<FindingView>
    decreases rs.len(),
{
    if rs.len() == 0 {
        seq![]
    } else {
        all_actionable(rs.drop_last()) + actionable_in(rs.last().findings)
    }
}

/// The two lines of issue `num`: the message, and the fix indented.
pub open spec fn issue_lines(num: nat, f: FindingView) -> Seq<Seq<char>> {
    seq![
        "\n  Issue "@ + dec(num) + ": → "@ + f.message,
        "  Fix:\n    "@ + replace_all(f.solution.unwrap(), seq!['\n'], "\n    "@),
    ]
}

/// The numbered issues, from 1.
pub open spec fn issues_list(fs: Seq<FindingView>) -> Seq<Seq<char>>
    decreases fs.len(),
{
    if fs.len() == 0 {
        seq![]
    } else {
        issues_list(fs.drop_last()) + issue_lines(fs.len(), fs.last())
    }
}

pub open spec fn issues_block(rs: Seq<CheckResultView>) -> Seq<Seq<char>> {
    let acts = all_actionable(rs);
    if acts.len() == 0 {
        seq!["\n  No issues found — system is in great shape!"@]
    } else {
        seq!["\n═══ ISSUES & SOLUTIONS ═══"@] + issues_list(acts)
    }
}

/// The quick-win commands, label then command.
pub open spec fn quick_wins_list(cs: Seq<QuickWinView>) -> Seq<Seq<char>>
    decreases cs.len(),
{
    if cs.len() == 0 {
        seq![]
    } else {
        quick_wins_list(cs.drop_last()) + seq!["  # "@ + cs.last().label, "  "@ + cs.last().cmd + seq!['\n']]
    }
}

pub open spec fn quick_wins_block(cs: Seq<QuickWinView>) -> Seq<Seq<char>> {
    seq!["\n⚡ QUICK WIN COMMANDS"@] + quick_wins_list(cs)
}

/// The whole plain-text report.
pub open spec fn report(rs: Seq<CheckResultView>, h: HealthScore, cs: Seq<QuickWinView>, long: bool) -> Seq<Seq<char>> {
    seq![BANNER@] + sections_block(rs) + score_block(h, long) + issues_block(rs) + quick_wins_block(cs)
}

fn push_line(lines: &mut Vec<String>, s: String)
    ensures
        lines_view(final(lines)@) == lines_view(old(lines)@).push(s@),
{
    lines.push(s);
    assert(lines_view(lines@) =~= lines_view(old(lines)@).push(s@));
}

fn level_icon_exec(l: Level) -> (r: &'static str)
    ensures
        r@ == level_icon(l),
{
    match l {
        Level::Okay => "✅",
        Level::Warn => "⚠️ ",
        Level::Critical => "❌",
    }
}

fn push_section(lines: &mut Vec<String>, num: usize, r: &CheckResult)
    ensures
        lines_view(final(lines)@) == lines_view(old(lines)@) + section_block(num as nat, r@),
{
    let ghost base = lines_view(lines@);
    let mut rule1 = String::new();
    crate::text::push_char(&mut rule1, '\n');
    push_repeat(&mut rule1, '═', WIDTH);
    push_line(lines, rule1);
    let mut header = owned("  ");
    push_dec(&mut header, num as u64);
    header.append(". ");
    let up = to_uppercase(r.section.as_str());
    header.append(up.as_str());
    push_line(lines, header);
    let mut rule2 = String::new();
    push_repeat(&mut rule2, '─', WIDTH);
    push_line(lines, rule2);
    let ghost head = lines_view(lines@);
    assert(head =~= base + seq![seq!['\n'] + repeat_char('═', 72), "  "@ + dec(num as nat) + ". "@ + uppercase(r@.section), repeat_char('─', 72)]);
    let ghost dv = r@.details;
    for i in 0..r.details.len()
        invariant
            dv == r@.details,
            lines_view(lines@) == head + dv.take(i as int).map_values(|d: (Seq<char>, Seq<char>)| detail_line(d)),
    {
        let (k, v) = &r.details[i];
        assert(dv[i as int] == (k@, v@));
        let kc = chars_of(k.as_str());
        let mut line = owned("  ");
        line.append(k.as_str());
        let pad: usize = if kc.len() < 24 { 24 - kc.len() } else { 0 };
        push_repeat(&mut line, ' ', pad);
        line.append(" ");
        line.append(v.as_str());
        assert(line@ == detail_line(dv[i as int]));
        push_line(lines, line);
        assert(dv.take(i + 1) =~= dv.take(i as int).push(dv[i as int]));
        assert(dv.take(i + 1).map_values(|d: (Seq<char>, Seq<char>)| detail_line(d)) =~= dv.take(i as int).map_values(|d: (Seq<char>, Seq<char>)| detail_line(d)).push(detail_line(dv[i as int])));
    }
    assert(dv.take(dv.len() as int) =~= dv);
    let ghost mid = lines_view(lines@);
    let ghost fv = r@.findings;
    for i in 0..r.findings.len()
        invariant
            fv == r@.findings,
            lines_view(lines@) == mid + fv.take(i as int).map_values(|f: FindingView| finding_line(f)),
    {
        let f = &r.findings[i];
        assert(fv[i as int] == f@);
        let mut line = owned("  [");
        line.append(level_icon_exec(f.level));
        line.append("] ");
        line.append(f.message.as_str());
        push_line(lines, line);
        assert(fv.take(i + 1) =~= fv.take(i as int).push(fv[i as int]));
        assert(fv.take(i + 1).map_values(|f: FindingView| finding_line(f)) =~= fv.take(i as int).map_values(|f: FindingView| finding_line(f)).push(finding_line(fv[i as int])));
    }
    assert(fv.take(fv.len() as int) =~= fv);
    assert(lines_view(lines@) =~= base + section_block(num as nat, r@));
}

fn push_score(lines: &mut Vec<String>, h: &HealthScore, long: bool)
    requires
        h.score * 40 <= usize::MAX,
    ensures
        lines_view(final(lines)@) == lines_view(old(lines)@) + score_block(*h, long),
{
    let ghost base = lines_view(lines@);
    let mut nl = String::new();
    crate::text::push_char(&mut nl, '\n');
    push_line(lines, nl);
    push_line(lines, owned("═══ FINAL HEALTH SCORE & VERDICT ═══"));
    let mut s = owned("  Health Score: ");
    push_dec(&mut s, h.score as u64);
    s.append("/100");
    s.append("  [");
    let bar = h.bar(40);
    s.append(bar.as_str());
    s.append("]");
    push_line(lines, s);
    let mut v = owned("  Verdict     : ");
    v.append(h.verdict.icon());
    v.append(" ");
    v.append(h.verdict.label());
    push_line(lines, v);
    push_line(lines, owned("\n  Should you erase and reinstall macOS?"));
    push_line(lines, owned("  (\"Erase All Content and Settings\" / Recovery Mode)"));
    if h.smart_failure {
        push_line(lines, owned(SMART_NOTICE));
    } else {
        match h.verdict.erase_recommendation(h.panic_count, h.smart_failure) {
            EraseRecommendation::NotNeeded => {
                let mut m = owned("  ✅  NOT recommended. Score ");
                push_dec(&mut m, h.score as u64);
                m.append("/100 — fix the issues below first.");
                push_line(lines, m);
            },
            EraseRecommendation::TryOtherFirst => {
                let mut m = owned("  ⚠️   Score ");
                push_dec(&mut m, h.score as u64);
                m.append("/100 — action needed, but no evidence of software corruption.");
                push_line(lines, m);
                if long {
                    push_line(lines, owned(CAPACITY_ADVICE_LONG));
                } else {
                    push_line(lines, owned(CAPACITY_ADVICE));
                }
            },
            EraseRecommendation::Recommended => {
                let mut m = owned("  🚨  Score ");
                push_dec(&mut m, h.score as u64);
                m.append("/100 + ");
                push_dec(&mut m, h.panic_count as u64);
                m.append(" kernel panic(s) detected → ERASE & REINSTALL recommended.");
                push_line(lines, m);
                push_line(lines, owned(ERASE_APPLE_SILICON));
                push_line(lines, owned(ERASE_INTEL));
            },
        }
    }
    assert(lines_view(lines@) =~= base + score_block(*h, long));
}

fn push_issues(lines: &mut Vec<String>, results: &[CheckResult])
    ensures
        lines_view(final(lines)@) == lines_view(old(lines)@) + issues_block(results_view(results@)),
{
    let ghost rs = results_view(results@);
    // Collect the actionable findings.
    let mut acts: Vec<(String, String)> = Vec::new();
    for i in 0..results.len()
        invariant
            rs == results_view(results@),
            acts@.map_values(|p: (String, String)| (p.0@, p.1@)) == all_actionable(rs.take(i as int)).map_values(|f: FindingView| (f.message, f.solution.unwrap())),
    {
        assert(rs.take(i + 1).drop_last() =~= rs.take(i as int));
        assert(rs[i as int] == results@[i as int]@);
        let r = &results[i];
        let ghost fv = r@.findings;
        let ghost before = acts@.map_values(|p: (String, String)| (p.0@, p.1@));
        for j in 0..r.findings.len()
            invariant
                fv == r@.findings,
                acts@.map_values(|p: (String, String)| (p.0@, p.1@)) == before + actionable_in(fv.take(j as int)).map_values(|f: FindingView| (f.message, f.solution.unwrap())),
        {
            let f = &r.findings[j];
            assert(fv[j as int] == f@);
            assert(fv.take(j + 1).drop_last() =~= fv.take(j as int));
            let ghost prev = acts@;
            match &f.solution {
                Some(sol) => {
                    if f.score_deduction > 0 {
                        acts.push((f.message.clone(), sol.clone()));
                        assert(acts@.map_values(|p: (String, String)| (p.0@, p.1@)) =~= prev.map_values(|p: (String, String)| (p.0@, p.1@)).push((f.message@, sol@)));
                    }
                },
                None => {},
            }
            assert(acts@.map_values(|p: (String, String)| (p.0@, p.1@)) =~= before + actionable_in(fv.take(j + 1)).map_values(|f: FindingView| (f.message, f.solution.unwrap())));
        }
        assert(fv.take(fv.len() as int) =~= fv);
    }
    assert(rs.take(rs.len() as int) =~= rs);
    let ghost av = all_actionable(rs);
    let ghost pairs = av.map_values(|f: FindingView| (f.message, f.solution.unwrap()));
    let ghost base = lines_view(lines@);
    if acts.len() == 0 {
        push_line(lines, owned("\n  No issues found — system is in great shape!"));
    } else {
        push_line(lines, owned("\n═══ ISSUES & SOLUTIONS ═══"));
        let ghost head = lines_view(lines@);
        assert(pairs.len() == av.len());
        let nl = chars_of("\n");
        let indent = chars_of("\n    ");
        proof {
            reveal_strlit("\n");
        }
        assert(nl@ =~= seq!['\n']);
        for k in 0..acts.len()
            invariant
                pairs == acts@.map_values(|p: (String, String)| (p.0@, p.1@)),
                pairs == av.map_values(|f: FindingView| (f.message, f.solution.unwrap())),
                av.len() == acts@.len(),
                nl@ == seq!['\n'],
                indent@ == "\n    "@,
                lines_view(lines@) == head + issues_list(av.take(k as int)),
        {
            let (msg, sol) = &acts[k];
            assert(pairs[k as int] == (msg@, sol@));
            assert(av[k as int].message == msg@ && av[k as int].solution.unwrap() == sol@);
            let mut a = owned("\n  Issue ");
            push_dec(&mut a, (k + 1) as u64);
            a.append(": → ");
            a.append(msg.as_str());
            push_line(lines, a);
            let mut b = owned("  Fix:\n    ");
            let rep = replace_exec(&chars_of(sol.as_str()), &nl, &indent);
            b.append(rep.as_str());
            push_line(lines, b);
            assert(av.take(k + 1).drop_last() =~= av.take(k as int));
            assert(issues_list(av.take(k + 1)) =~= issues_list(av.take(k as int)) + issue_lines((k + 1) as nat, av[k as int]));
        }
        assert(av.take(av.len() as int) =~= av);
    }
    assert(lines_view(lines@) =~= base + issues_block(rs));
}

fn push_quick_wins(lines: &mut Vec<String>, cmds: &Vec<QuickWinCmd>)
    ensures
        lines_view(final(lines)@) == lines_view(old(lines)@) + quick_wins_block(commands_view(cmds@)),
{
    let ghost cv = commands_view(cmds@);
    let ghost base = lines_view(lines@);
    push_line(lines, owned("\n⚡ QUICK WIN COMMANDS"));
    let ghost head = lines_view(lines@);
    for i in 0..cmds.len()
        invariant
            cv == commands_view(cmds@),
            lines_view(lines@) == head + quick_wins_list(cv.take(i as int)),
    {
        let c = cmds[i];
        assert(cv[i as int] == c@);
        let mut a = owned("  # ");
        a.append(c.label);
        push_line(lines, a);
        let mut b = owned("  ");
        b.append(c.cmd);
        crate::text::push_char(&mut b, '\n');
        assert(b@ =~= "  "@ + c.cmd@ + seq!['\n']);
        let ghost prev = lines_view(lines@);
        push_line(lines, b);
        assert(cv.take(i + 1).drop_last() =~= cv.take(i as int));
        assert(cv.take(i + 1).last() == c@);
        assert(lines_view(lines@) =~= head + quick_wins_list(cv.take(i + 1)));
    }
    assert(cv.take(cv.len() as int) =~= cv);
    assert(lines_view(lines@) =~= base + quick_wins_block(cv));
}

/// The lines of the plain-text report: banner, sections, score and erase
/// advice (the capacity advice in its long form when `long_advice`), issues
/// with fixes, and the quick-win commands.
pub fn report_lines(results: &[CheckResult], health: &HealthScore, cmds: &Vec<QuickWinCmd>, long_advice: bool) -> (lines: Vec<String>)
    requires
        health.score * 40 <= usize::MAX,
    ensures
        lines_view(lines@) == report(results_view(results@), *health, commands_view(cmds@), long_advice),
{
    let ghost rs = results_view(results@);
    let mut lines: Vec<String> = Vec::new();
    push_line(&mut lines, owned(BANNER));
    let ghost head = lines_view(lines@);
    for i in 0..results.len()
        invariant
            rs == results_view(results@),
            lines_view(lines@) == head + sections_block(rs.take(i as int)),
    {
        assert(rs[i as int] == results@[i as int]@);
        push_section(&mut lines, i + 1, &results[i]);
        assert(rs.take(i + 1).drop_last() =~= rs.take(i as int));
    }
    assert(rs.take(rs.len() as int) =~= rs);
    push_score(&mut lines, health, long_advice);
    push_issues(&mut lines, results);
    push_quick_wins(&mut lines, cmds);
    assert(lines_view(lines@) =~= report(rs, *health, commands_view(cmds@), long_advice));
    lines
}

/// The icon for a completed section: the marker of its highest severity.
pub fn section_icon(result: &CheckResult) -> (r: &'static str)
    ensures
        r@ == level_icon(crate::checker::max_level(result@.findings)),
{
    level_icon_exec(result.max_level())
}

} // verus!
