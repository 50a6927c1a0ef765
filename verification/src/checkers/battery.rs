//! Battery condition, cycle count, and charge capacity.
use vstd::prelude::*;

use crate::checker::{Checker, all_sound, lemma_empty_sound, lemma_extend_sound, lemma_sound_concat, 
    CheckResult, CheckResultView, Finding, FindingView, Level, detail_if, empty_result, extend,
    issue_view, ok_view, opt_view,
};
use crate::text::{
    chars_of, contains, contains_exec, dec, dec_string, lines, lit_dec_lit, lowercase,
    lowercase_chars, owned, parse_nat, parse_u32, second_piece, second_piece_exec, split_lines,
    string_of, trim, trim_exec, views,
};

verus! {

pub const REPLACE_FIX: &'static str = "A degraded battery causes macOS to throttle the CPU to prevent shutdowns.\nBook a Genius Bar appointment. Battery replacement is far cheaper than a new Mac.";

pub const SERVICE_FIX: &'static str = "Schedule a battery check with Apple Support soon to avoid performance throttling.";

pub const CYCLES_HIGH_FIX: &'static str = "Consider battery replacement if you experience:\n→ Unexpected shutdowns\n→ Capacity below 80%\n→ Excessive heat\nReplacement cost is typically $100–$200 at an Apple Store.";

pub const CYCLES_NEAR_FIX: &'static str = "Start planning for battery replacement. Back up regularly.";

/// Index of the first line, from `i` on, whose lowercase form contains `label`.
pub open spec fn labelled_line_from(ls: Seq<Seq<char>>, label: Seq<char>, i: int) -> Option<int>
    decreases ls.len() - i,
{
    if i < 0 || i >= ls.len() {
        None
    } else if contains(lowercase(ls[i]), label) {
        Some(i)
    } else {
        labelled_line_from(ls, label, i + 1)
    }
}

/// The value after the first `:` of the first line that mentions `label`
/// (case-insensitively), trimmed.
pub open spec fn battery_field(out: Seq<char>, label: Seq<char>) -> Option<Seq<char>> {
    let ls = lines(out);
    match labelled_line_from(ls, lowercase(label), 0) {
        Some(i) => match second_piece(ls[i], seq![':']) {
            Some(v) => Some(trim(v)),
            None => None,
        },
        None => None,
    }
}

/// A field's value, or `Unknown`.
pub open spec fn field_or_unknown(out: Seq<char>, label: Seq<char>) -> Seq<char> {
    match battery_field(out, label) {
        Some(v) => v,
        None => "Unknown"@,
    }
}

/// The cycle count, when present and a valid `u32`.
pub open spec fn cycle_count(out: Seq<char>) -> Option<nat> {
    match battery_field(out, "Cycle Count"@) {
        Some(v) => parse_nat(v, u32::MAX as nat),
        None => None,
    }
}

pub open spec fn battery_details(out: Seq<char>) -> Seq<(Seq<char>, Seq<char>)> {
    let full = battery_field(out, "Full Charge Capacity (mAh)"@);
    let design = battery_field(out, "Design Capacity (mAh)"@);
    seq![
        ("Battery Condition"@, field_or_unknown(out, "Condition"@)),
        ("Maximum Capacity"@, field_or_unknown(out, "Maximum Capacity"@)),
        ("Power Adapter"@, field_or_unknown(out, "Connected"@)),
    ] + detail_if(cycle_count(out) is Some, "Cycle Count"@, dec(cycle_count(out).unwrap()))
        + detail_if(
        full is Some && design is Some,
        "Full / Design Capacity"@,
        full.unwrap() + " / "@ + design.unwrap() + " mAh"@,
    )
}

pub open spec fn condition_finding(out: Seq<char>) -> FindingView {
    let c = field_or_unknown(out, "Condition"@);
    let l = lowercase(c);
    if contains(l, "replace"@) {
        issue_view(Level::Critical, "Battery condition: '"@ + c + "' — replacement required."@, REPLACE_FIX@, 20)
    } else if contains(l, "service"@) {
        issue_view(Level::Warn, "Battery condition: '"@ + c + "' — service recommended."@, SERVICE_FIX@, 10)
    } else if l == "normal"@ || l == "good"@ {
        ok_view("Battery condition is good: '"@ + c + "'."@)
    } else {
        ok_view("Battery condition: '"@ + c + "'."@)
    }
}

pub open spec fn cycle_findings(out: Seq<char>) -> Seq<FindingView> {
    match cycle_count(out) {
        Some(cc) => if cc > 1000 {
            seq![issue_view(Level::Warn, "Cycle count "@ + dec(cc) + " exceeds Apple's rated 1000-cycle design life."@, CYCLES_HIGH_FIX@, 8)]
        } else if cc > 750 {
            seq![issue_view(Level::Warn, "Cycle count "@ + dec(cc) + " is approaching end of rated lifespan (1000 cycles)."@, CYCLES_NEAR_FIX@, 3)]
        } else {
            seq![ok_view("Cycle count "@ + dec(cc) + " is well within healthy range (<1000)."@)]
        },
        None => seq![],
    }
}

/// The battery section for `system_profiler SPPowerDataType` output (absent
/// when the command failed).
pub open spec fn battery_report(profile: Option<Seq<char>>) -> CheckResultView {
    let r0 = empty_result("Battery Health"@);
    match profile {
        Some(out) if out.len() > 0 => extend(r0, battery_details(out), seq![condition_finding(out)] + cycle_findings(out)),
        _ => extend(r0, seq![], seq![ok_view("Battery information not available (desktop Mac or system_profiler failed)."@)]),
    }
}

fn field_exec(ls: &Vec<Vec<char>>, label: &str) -> (r: Option<Vec<char>>)
    ensures
        r matches Some(v) ==> (match labelled_line_from(views(ls@), lowercase(label@), 0) {
            Some(i) => match second_piece(views(ls@)[i], seq![':']) {
                Some(x) => Some(trim(x)),
                None => None,
            },
            None => None,
        }) == Some(v@),
        r is None ==> (match labelled_line_from(views(ls@), lowercase(label@), 0) {
            Some(i) => match second_piece(views(ls@)[i], seq![':']) {
                Some(x) => Some(trim(x)),
                None => None,
            },
            None => None,
        }) is None,
{
    let ghost lv = views(ls@);
    let want = lowercase_chars(&chars_of(label));
    let colon: Vec<char> = vec![':'];
    assert(colon@ =~= seq![':']);
    let mut i: usize = 0;
    while i < ls.len()
        invariant
            lv == views(ls@),
            want@ == lowercase(label@),
            colon@ == seq![':'],
            i <= ls@.len(),
            labelled_line_from(lv, lowercase(label@), 0) == labelled_line_from(lv, lowercase(label@), i as int),
        decreases ls@.len() - i,
    {
        assert(lv[i as int] == ls@[i as int]@);
        if contains_exec(&lowercase_chars(&ls[i]), &want) {
            return match second_piece_exec(&ls[i], &colon) {
                Some(v) => Some(trim_exec(&v)),
                None => None,
            };
        }
        i = i + 1;
    }
    None
}

fn or_unknown(v: Option<Vec<char>>) -> (s: String)
    ensures
        s@ == match v {
            Some(x) => x@,
            None => "Unknown"@,
        },
{
    match v {
        Some(x) => string_of(&x),
        None => owned("Unknown"),
    }
}

fn quoted(a: &str, c: &String, b: &str) -> (m: String)
    ensures
        m@ == a@ + c@ + b@,
{
    let mut m = String::new();
    m.append(a);
    m.append(c.as_str());
    m.append(b);
    m
}

/// Battery condition, cycle count, and charge capacity.
pub struct BatteryChecker;

impl Checker for BatteryChecker {
    /// Short, unique name used in `--only <name>` filtering.
    fn name(&self) -> (r: &'static str)
        ensures
            r@ == "battery"@,
    {
        "battery"
    }

    /// One-line description shown in `--list` output.
    fn description(&self) -> (r: &'static str)
        ensures
            r@ == "Battery health, cycle count, and charge capacity"@,
    {
        "Battery health, cycle count, and charge capacity"
    }
}

impl BatteryChecker {

    /// The battery section for `system_profiler SPPowerDataType` output.
    pub fn assess(profile: &Option<String>) -> (r: CheckResult)
        ensures
            r@ == battery_report(opt_view(*profile)),
    {
        let mut r = CheckResult::new("Battery Health");
        let out = match profile {
            Some(s) => {
                let c = chars_of(s.as_str());
                if c.len() > 0 {
                    c
                } else {
                    r.add_finding(Finding::ok("Battery information not available (desktop Mac or system_profiler failed)."));
                    assert(r@ =~= battery_report(opt_view(*profile)));
                    return r;
                }
            },
            None => {
                r.add_finding(Finding::ok("Battery information not available (desktop Mac or system_profiler failed)."));
                assert(r@ =~= battery_report(opt_view(*profile)));
                return r;
            },
        };
        let ghost o = out@;
        let ls = split_lines(&out);
        let condition = or_unknown(field_exec(&ls, "Condition"));
        let cycles: Option<u32> = match field_exec(&ls, "Cycle Count") {
            Some(v) => parse_u32(&v),
            None => None,
        };
        let max_capacity = or_unknown(field_exec(&ls, "Maximum Capacity"));
        let adapter = or_unknown(field_exec(&ls, "Connected"));
        let full = field_exec(&ls, "Full Charge Capacity (mAh)");
        let design = field_exec(&ls, "Design Capacity (mAh)");
        let ghost r0 = r@;
        r.add_detail("Battery Condition", condition.as_str());
        r.add_detail("Maximum Capacity", max_capacity.as_str());
        r.add_detail("Power Adapter", adapter.as_str());
        match cycles {
            Some(cc) => {
                let d = dec_string(cc as u64);
                r.add_detail("Cycle Count", d.as_str());
            },
            None => {},
        }
        match (&full, &design) {
            (Some(fc), Some(dc)) => {
                let mut v = string_of(fc);
                v.append(" / ");
                let d = string_of(dc);
                v.append(d.as_str());
                v.append(" mAh");
                r.add_detail("Full / Design Capacity", v.as_str());
            },
            _ => {},
        }
        assert(r@.details =~= r0.details + battery_details(o));
        let ghost r1 = r@;
        let low = lowercase_chars(&chars_of(condition.as_str()));
        if contains_exec(&low, &chars_of("replace")) {
            let m = quoted("Battery condition: '", &condition, "' — replacement required.");
            r.add_finding(Finding::critical(m.as_str(), REPLACE_FIX, 20));
        } else if contains_exec(&low, &chars_of("service")) {
            let m = quoted("Battery condition: '", &condition, "' — service recommended.");
            r.add_finding(Finding::warn(m.as_str(), SERVICE_FIX, 10));
        } else if crate::text::chars_eq(&low, &chars_of("normal")) || crate::text::chars_eq(&low, &chars_of("good")) {
            let m = quoted("Battery condition is good: '", &condition, "'.");
            r.add_finding(Finding::ok(m.as_str()));
        } else {
            let m = quoted("Battery condition: '", &condition, "'.");
            r.add_finding(Finding::ok(m.as_str()));
        }
        match cycles {
            Some(cc) => {
                if cc > 1000 {
                    let m = lit_dec_lit("Cycle count ", cc as u64, " exceeds Apple's rated 1000-cycle design life.");
                    r.add_finding(Finding::warn(m.as_str(), CYCLES_HIGH_FIX, 8));
                } else if cc > 750 {
                    let m = lit_dec_lit("Cycle count ", cc as u64, " is approaching end of rated lifespan (1000 cycles).");
                    r.add_finding(Finding::warn(m.as_str(), CYCLES_NEAR_FIX, 3));
                } else {
                    let m = lit_dec_lit("Cycle count ", cc as u64, " is well within healthy range (<1000).");
                    r.add_finding(Finding::ok(m.as_str()));
                }
            },
            None => {},
        }
        assert(r@.findings =~= r0.findings + (seq![condition_finding(o)] + cycle_findings(o)));
        assert(r@ =~= battery_report(opt_view(*profile)));
        r
    }
}

/// Every finding of the battery section is sound: exactly its warnings and
/// critical findings carry a fix and deduct points.
pub proof fn law_battery_findings_sound(profile: Option<Seq<char>>)
    ensures
        all_sound(battery_report(profile).findings),
{
    lemma_empty_sound("Battery Health"@);
    let r0 = empty_result("Battery Health"@);
    if let Some(out) = profile {
        if out.len() > 0 {
            let a = seq![condition_finding(out)];
            assert(all_sound(a));
            assert(all_sound(cycle_findings(out)));
            lemma_sound_concat(a, cycle_findings(out));
            lemma_extend_sound(r0, battery_details(out), a + cycle_findings(out));
            return;
        }
    }
    let n = seq![ok_view("Battery information not available (desktop Mac or system_profiler failed)."@)];
    assert(all_sound(n));
    lemma_extend_sound(r0, seq![], n);
}

/// With `system_profiler` output, the battery section's first finding grades
/// the reported condition by its lower-cased text: one that mentions
/// "replace" is critical (20 points, with the replacement fix); otherwise one
/// that mentions "service" is a warning (10 points, with the service fix);
/// otherwise it is an informational finding that deducts nothing.
pub proof fn law_battery_condition_grading(out: Seq<char>)
    requires
        out.len() > 0,
    ensures
        ({
            let c = field_or_unknown(out, "Condition"@);
            let l = lowercase(c);
            let f = battery_report(Some(out)).findings[0];
            &&& battery_report(Some(out)).findings.len() > 0
            &&& contains(l, "replace"@) ==> f == issue_view(
                Level::Critical,
                "Battery condition: '"@ + c + "' — replacement required."@,
                REPLACE_FIX@,
                20,
            )
            &&& !contains(l, "replace"@) && contains(l, "service"@) ==> f == issue_view(
                Level::Warn,
                "Battery condition: '"@ + c + "' — service recommended."@,
                SERVICE_FIX@,
                10,
            )
            &&& !contains(l, "replace"@) && !contains(l, "service"@) ==> f.level == Level::Okay
                && f.score_deduction == 0 && f.solution is None
        }),
{
    let fs = battery_report(Some(out)).findings;
    assert(fs =~= Seq::<FindingView>::empty() + (seq![condition_finding(out)] + cycle_findings(out)));
    assert(fs[0] == condition_finding(out));
}

} // verus!
