use alchemy_cleaner::checker::{CheckResult, Finding, Level};
use alchemy_cleaner::scorer::{EraseRecommendation, HealthScore, Verdict};

fn section(name: &str, deductions: &[u32]) -> CheckResult {
    let mut r = CheckResult::new(name);
    for &d in deductions {
        r.add_finding(Finding::warn("an issue", "a fix", d));
    }
    r
}

fn score_of(total: u32) -> HealthScore {
    HealthScore::compute(&[section("Memory Analysis", &[total])])
}

#[test]
fn verdict_bands_follow_the_score_table() {
    // 80 – 100 healthy, 55 – 79 needs attention, 30 – 54 degraded, 0 – 29 critical.
    assert_eq!(score_of(0).verdict, Verdict::Healthy);
    assert_eq!(score_of(20).verdict, Verdict::Healthy);
    assert_eq!(score_of(21).verdict, Verdict::NeedsAttention);
    assert_eq!(score_of(45).verdict, Verdict::NeedsAttention);
    assert_eq!(score_of(46).verdict, Verdict::Degraded);
    assert_eq!(score_of(70).verdict, Verdict::Degraded);
    assert_eq!(score_of(71).verdict, Verdict::Critical);
    assert_eq!(score_of(100).verdict, Verdict::Critical);
}

#[test]
fn score_is_one_hundred_minus_all_deductions() {
    let results = vec![section("CPU Analysis", &[10, 5]), section("Memory Analysis", &[8])];
    let h = HealthScore::compute(&results);
    assert_eq!(h.score, 77);
    assert_eq!(h.verdict, Verdict::NeedsAttention);
    assert!(!h.smart_failure);
    assert_eq!(h.panic_count, 0);
}

#[test]
fn score_saturates_at_zero() {
    let h = HealthScore::compute(&[section("A", &[60]), section("B", &[70])]);
    assert_eq!(h.score, 0);
    assert_eq!(h.verdict, Verdict::Critical);
}

#[test]
fn score_of_no_results_is_perfect() {
    let h = HealthScore::compute(&[]);
    assert_eq!(h.score, 100);
    assert_eq!(h.verdict, Verdict::Healthy);
}

#[test]
fn more_sections_never_raise_the_score() {
    let a = vec![section("A", &[12])];
    let mut b = vec![section("A", &[12])];
    b.push(section("B", &[3]));
    assert!(HealthScore::compute(&b).score <= HealthScore::compute(&a).score);
    assert_eq!(HealthScore::compute(&b).score, 85);
}

#[test]
fn smart_failure_comes_from_a_critical_finding_only() {
    let mut disk = CheckResult::new("Storage & Disk Health");
    disk.add_finding(Finding::critical(
        "S.M.A.R.T. Status: Failing — drive hardware is failing.",
        "Back up",
        40,
    ));
    assert!(HealthScore::compute(&[disk]).smart_failure);

    let mut warn_only = CheckResult::new("Storage & Disk Health");
    warn_only.add_finding(Finding::warn("s.m.a.r.t. looks odd", "check", 1));
    assert!(!HealthScore::compute(&[warn_only]).smart_failure);

    let mut upper = CheckResult::new("Storage & Disk Health");
    upper.add_finding(Finding::critical("DRIVE S.M.A.R.T FAILURE", "Back up", 1));
    assert!(HealthScore::compute(&[upper]).smart_failure);
}

#[test]
fn panic_count_is_read_from_the_crash_section() {
    let mut logs = CheckResult::new("Crash & System Log History");
    logs.add_detail("Kernel panics (30d)", "3");
    let h = HealthScore::compute(&[section("CPU Analysis", &[]), logs]);
    assert_eq!(h.panic_count, 3);
}

#[test]
fn panic_count_is_zero_without_a_parsable_detail() {
    let mut logs = CheckResult::new("Crash & System Log History");
    logs.add_detail("Kernel panics (30d)", "many");
    assert_eq!(HealthScore::compute(&[logs]).panic_count, 0);

    let mut other = CheckResult::new("Memory Analysis");
    other.add_detail("Kernel panics (30d)", "4");
    assert_eq!(HealthScore::compute(&[other]).panic_count, 0);
}

#[test]
fn erase_needs_evidence_of_corruption() {
    assert_eq!(Verdict::Healthy.erase_recommendation(5, true), EraseRecommendation::NotNeeded);
    assert_eq!(Verdict::NeedsAttention.erase_recommendation(5, true), EraseRecommendation::NotNeeded);
    assert_eq!(Verdict::Degraded.erase_recommendation(5, true), EraseRecommendation::TryOtherFirst);
    assert_eq!(Verdict::Critical.erase_recommendation(0, false), EraseRecommendation::TryOtherFirst);
    assert_eq!(Verdict::Critical.erase_recommendation(1, false), EraseRecommendation::Recommended);
    assert_eq!(Verdict::Critical.erase_recommendation(0, true), EraseRecommendation::Recommended);
}

#[test]
fn critical_score_with_panics_recommends_reinstall() {
    let mut logs = CheckResult::new("Crash & System Log History");
    logs.add_detail("Kernel panics (30d)", "6");
    logs.add_finding(Finding::critical("6 kernel panics in 30 days — serious instability", "fix", 25));
    let results = vec![section("Memory Analysis", &[25, 20, 10]), logs];
    let h = HealthScore::compute(&results);
    assert_eq!(h.score, 20);
    assert_eq!(h.verdict, Verdict::Critical);
    assert_eq!(h.panic_count, 6);
    assert_eq!(h.verdict.erase_recommendation(h.panic_count, h.smart_failure), EraseRecommendation::Recommended);
}

#[test]
fn verdict_labels_and_icons() {
    assert_eq!(Verdict::Healthy.label(), "HEALTHY");
    assert_eq!(Verdict::NeedsAttention.label(), "NEEDS ATTENTION");
    assert_eq!(Verdict::Degraded.label(), "DEGRADED — ACTION REQUIRED");
    assert_eq!(Verdict::Critical.label(), "CRITICAL — CONSIDER REINSTALL");
    assert_eq!(Verdict::Healthy.icon(), "✅");
    assert_eq!(Verdict::Critical.icon(), "🚨");
}

#[test]
fn bar_fills_in_proportion_to_the_score() {
    let h = HealthScore { score: 87, verdict: Verdict::Healthy, smart_failure: false, panic_count: 0 };
    let bar = h.bar(40);
    assert_eq!(bar, format!("{}{}", "█".repeat(34), "░".repeat(6)));
    let half = HealthScore { score: 50, verdict: Verdict::Degraded, smart_failure: false, panic_count: 0 };
    assert_eq!(half.bar(36), format!("{}{}", "█".repeat(18), "░".repeat(18)));
    let full = HealthScore { score: 100, verdict: Verdict::Healthy, smart_failure: false, panic_count: 0 };
    assert_eq!(full.bar(10), "█".repeat(10));
}

#[test]
fn finding_constructors_and_totals() {
    let ok = Finding::ok("fine");
    assert_eq!(ok.level, Level::Okay);
    assert_eq!(ok.solution, None);
    assert_eq!(ok.score_deduction, 0);
    let w = Finding::warn("m", "s", 7);
    assert_eq!(w.level, Level::Warn);
    assert_eq!(w.solution.as_deref(), Some("s"));
    let mut r = CheckResult::new("S");
    assert_eq!(r.max_level(), Level::Okay);
    r.add_finding(w);
    r.add_finding(Finding::critical("c", "s", 3));
    r.add_finding(Finding::ok("o"));
    assert_eq!(r.total_deduction(), 10);
    assert_eq!(r.max_level(), Level::Critical);
    r.add_detail("k", "v");
    assert_eq!(r.details, vec![("k".to_string(), "v".to_string())]);
}
