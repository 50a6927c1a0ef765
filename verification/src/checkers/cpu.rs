//! CPU load averages and instantaneous usage.
use vstd::prelude::*;

use crate::checker::{Checker, all_sound, lemma_sound_concat, 
    CheckResult, CheckResultView, Finding, FindingView, Level, empty_result, extend, finding_if,
    issue_view, ok_view, opt_view,
};
use crate::text::{chars_of, dec, dec_string, owned, parse_nat, parse_u32, push_dec};

verus! {

pub const LOAD_CRITICAL_FIX: &'static str = "Open Activity Monitor → CPU tab, sort by '% CPU' descending.\nIdentify the top offender; if it's a background service you don't recognise,\nforce-quit it and research the process name.";

pub const LOAD_HIGH_FIX: &'static str = "Check Activity Monitor → CPU for processes consuming >50% continuously.";

pub const LOAD_MILD_FIX: &'static str = "Monitor over the next few minutes; brief spikes are normal.";

pub const USAGE_CRITICAL_FIX: &'static str = "Check Activity Monitor for runaway processes.";

pub const USAGE_HIGH_FIX: &'static str = "Normal for short bursts; investigate if sustained.";

/// What the CPU checker reads: the `hw.logicalcpu` sysctl output; the load
/// averages as `{:.2}` prints them; the 5-minute load as the least whole
/// number of hundredths not below it (so the load exceeds `k` hundredths
/// exactly when this exceeds `k`); the instantaneous usage as `{:.1}` prints
/// it; and the usage as the least whole number of tenths of a percent not
/// below it.
pub struct CpuReadings {
    pub logical_cpu: Option<String>,
    pub load_one: String,
    pub load_five: String,
    pub load_fifteen: String,
    pub load_five_ceil_centi: u64,
    pub usage: String,
    pub usage_ceil_deci: u64,
}

pub struct CpuReadingsView {
    pub logical_cpu: Option<Seq<char>>,
    pub load_one: Seq<char>,
    pub load_five: Seq<char>,
    pub load_fifteen: Seq<char>,
    pub load_five_ceil_centi: u64,
    pub usage: Seq<char>,
    pub usage_ceil_deci: u64,
}

impl View for CpuReadings {
    type V = CpuReadingsView;

    open spec fn view(&self) -> CpuReadingsView {
        CpuReadingsView {
            logical_cpu: opt_view(self.logical_cpu),
            load_one: self.load_one@,
            load_five: self.load_five@,
            load_fifteen: self.load_fifteen@,
            load_five_ceil_centi: self.load_five_ceil_centi,
            usage: self.usage@,
            usage_ceil_deci: self.usage_ceil_deci,
        }
    }
}

/// The logical core count (1 when the sysctl output is missing or not a `u32`).
pub open spec fn logical_cores(o: Option<Seq<char>>) -> nat {
    match o {
        Some(s) => match parse_nat(s, u32::MAX as nat) {
            Some(v) => v,
            None => 1,
        },
        None => 1,
    }
}

/// The finding on the 5-minute load against the core count `c`: above
/// 1.5 × `c` critical, above `c` a warning, above 0.75 × `c` a mild warning.
pub open spec fn load_finding(r: CpuReadingsView) -> FindingView {
    let c = logical_cores(r.logical_cpu);
    let five = r.load_five_ceil_centi as nat;
    if five > c * 150 {
        issue_view(Level::Critical, "5-minute load ("@ + r.load_five + ") is >1.5× core count ("@ + dec(c) + ") — CPU is severely saturated."@, LOAD_CRITICAL_FIX@, 15)
    } else if five > c * 100 {
        issue_view(Level::Warn, "5-minute load ("@ + r.load_five + ") exceeds core count ("@ + dec(c) + ") — CPU under sustained stress."@, LOAD_HIGH_FIX@, 8)
    } else if five > c * 75 {
        issue_view(Level::Warn, "5-minute load ("@ + r.load_five + ") is at 75%+ of capacity ("@ + dec(c) + " cores) — mild pressure."@, LOAD_MILD_FIX@, 3)
    } else {
        ok_view("CPU load is healthy (5m="@ + r.load_five + " vs "@ + dec(c) + " logical cores)."@)
    }
}

/// Usage above 90% is critical, above 70% a warning.
pub open spec fn usage_findings(r: CpuReadingsView) -> Seq<FindingView> {
    let u = r.usage_ceil_deci as nat;
    if u > 900 {
        seq![issue_view(Level::Critical, "Instantaneous CPU usage is critically high: "@ + r.usage + "%"@, USAGE_CRITICAL_FIX@, 10)]
    } else if u > 700 {
        seq![issue_view(Level::Warn, "Instantaneous CPU usage elevated: "@ + r.usage + "%"@, USAGE_HIGH_FIX@, 3)]
    } else {
        seq![]
    }
}

/// The CPU section for the given readings.
pub open spec fn cpu_report(r: CpuReadingsView) -> CheckResultView {
    let c = logical_cores(r.logical_cpu);
    extend(
        empty_result("CPU Analysis"@),
        seq![
            ("Logical Cores"@, dec(c)),
            ("Load Average (1m/5m/15m)"@, r.load_one + " / "@ + r.load_five + " / "@ + r.load_fifteen),
            ("Saturation threshold"@, ">"@ + dec(c) + " = saturated"@),
            ("Current CPU Usage"@, r.usage + "%"@),
        ],
        seq![load_finding(r)] + usage_findings(r),
    )
}

fn load_text(a: &str, five: &String, b: &str, c: u64, d: &str) -> (m: String)
    ensures
        m@ == a@ + five@ + b@ + dec(c as nat) + d@,
{
    let mut m = owned(a);
    m.append(five.as_str());
    m.append(b);
    push_dec(&mut m, c);
    m.append(d);
    m
}

fn usage_text(a: &str, u: &String) -> (m: String)
    ensures
        m@ == a@ + u@ + "%"@,
{
    let mut m = owned(a);
    m.append(u.as_str());
    m.append("%");
    m
}

/// CPU load averages and instantaneous usage.
pub struct CpuChecker;

impl Checker for CpuChecker {
    /// Short, unique name used in `--only <name>` filtering.
    fn name(&self) -> (r: &'static str)
        ensures
            r@ == "cpu"@,
    {
        "cpu"
    }

    /// One-line description shown in `--list` output.
    fn description(&self) -> (r: &'static str)
        ensures
            r@ == "CPU load averages and instantaneous usage"@,
    {
        "CPU load averages and instantaneous usage"
    }
}

impl CpuChecker {

    /// The CPU section for the given readings.
    pub fn assess(readings: &CpuReadings) -> (r: CheckResult)
        ensures
            r@ == cpu_report(readings@),
    {
        let mut r = CheckResult::new("CPU Analysis");
        let c: u64 = match &readings.logical_cpu {
            Some(s) => match parse_u32(&chars_of(s.as_str())) {
                Some(v) => v as u64,
                None => 1,
            },
            None => 1,
        };
        assert(c == logical_cores(readings@.logical_cpu));
        let cs = dec_string(c);
        r.add_detail("Logical Cores", cs.as_str());
        let mut load = String::new();
        load.append(readings.load_one.as_str());
        load.append(" / ");
        load.append(readings.load_five.as_str());
        load.append(" / ");
        load.append(readings.load_fifteen.as_str());
        proof {
            reveal_strlit("");
        }
        assert(load@ =~= readings@.load_one + " / "@ + readings@.load_five + " / "@ + readings@.load_fifteen);
        r.add_detail("Load Average (1m/5m/15m)", load.as_str());
        let mut sat = owned(">");
        push_dec(&mut sat, c);
        sat.append(" = saturated");
        r.add_detail("Saturation threshold", sat.as_str());
        let five = &readings.load_five;
        let five_w = readings.load_five_ceil_centi as u128;
        let c_w = c as u128;
        if five_w > c_w * 150 {
            let m = load_text("5-minute load (", five, ") is >1.5× core count (", c, ") — CPU is severely saturated.");
            r.add_finding(Finding::critical(m.as_str(), LOAD_CRITICAL_FIX, 15));
        } else if five_w > c_w * 100 {
            let m = load_text("5-minute load (", five, ") exceeds core count (", c, ") — CPU under sustained stress.");
            r.add_finding(Finding::warn(m.as_str(), LOAD_HIGH_FIX, 8));
        } else if five_w > c_w * 75 {
            let m = load_text("5-minute load (", five, ") is at 75%+ of capacity (", c, " cores) — mild pressure.");
            r.add_finding(Finding::warn(m.as_str(), LOAD_MILD_FIX, 3));
        } else {
            let m = load_text("CPU load is healthy (5m=", five, " vs ", c, " logical cores).");
            r.add_finding(Finding::ok(m.as_str()));
        }
        let u = readings.usage_ceil_deci;
        let us = usage_text("", &readings.usage);
        assert(us@ =~= readings@.usage + "%"@);
        r.add_detail("Current CPU Usage", us.as_str());
        if u > 900 {
            let m = usage_text("Instantaneous CPU usage is critically high: ", &readings.usage);
            r.add_finding(Finding::critical(m.as_str(), USAGE_CRITICAL_FIX, 10));
        } else if u > 700 {
            let m = usage_text("Instantaneous CPU usage elevated: ", &readings.usage);
            r.add_finding(Finding::warn(m.as_str(), USAGE_HIGH_FIX, 3));
        }
        assert(r@.details =~= cpu_report(readings@).details);
        assert(r@.findings =~= cpu_report(readings@).findings);
        r
    }
}

/// Every finding of the CPU section is sound: exactly its warnings and
/// critical findings carry a fix and deduct points.
pub proof fn law_cpu_findings_sound(r: CpuReadingsView)
    ensures
        all_sound(cpu_report(r).findings),
{
    let a = seq![load_finding(r)];
    let b = usage_findings(r);
    assert(all_sound(a));
    assert(all_sound(b));
    lemma_sound_concat(a, b);
    lemma_sound_concat(Seq::<FindingView>::empty(), a + b);
    assert(cpu_report(r).findings =~= Seq::<FindingView>::empty() + (a + b));
}

} // verus!
