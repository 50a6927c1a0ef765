use alchemy_cleaner::actions::{needs_sudo, quick_win_commands};
use alchemy_cleaner::checker::{CheckResult, Finding};
use alchemy_cleaner::report::{report_lines, section_icon, BANNER, CAPACITY_ADVICE, CAPACITY_ADVICE_LONG, SMART_NOTICE};
use alchemy_cleaner::scorer::{HealthScore, Verdict};

fn sample() -> Vec<CheckResult> {
    let mut mem = CheckResult::new("Memory Analysis");
    mem.add_detail("Swap Used", "1024 MB");
    mem.add_finding(Finding::warn("Elevated swap usage", "Close apps.\nRestart.", 10));
    mem.add_finding(Finding::ok("Memory pressure is at a normal level."));
    let mut cpu = CheckResult::new("CPU Analysis");
    cpu.add_finding(Finding::critical("CPU on fire", "Cool it", 15));
    vec![mem, cpu]
}

fn health(score: u32, verdict: Verdict, smart: bool, panics: u32) -> HealthScore {
    HealthScore { score, verdict, smart_failure: smart, panic_count: panics }
}

#[test]
fn quick_wins_are_user_space_only() {
    let cmds = quick_win_commands();
    assert_eq!(cmds.len(), 24);
    assert!(cmds.iter().all(|c| !c.cmd.contains("sudo rm -rf")));
    assert_eq!(cmds[0].label, "Purge inactive memory");
    assert_eq!(cmds[0].cmd, "sudo purge");
    assert_eq!(cmds[23].label, "Open Disk Utility");
}

#[test]
fn sudo_warning_only_for_sudo_commands() {
    let cmds = quick_win_commands();
    let sudo: Vec<usize> = (0..cmds.len()).filter(|&i| cmds[i].cmd.contains("sudo")).collect();
    let plain: Vec<usize> = (0..cmds.len()).filter(|&i| !cmds[i].cmd.contains("sudo")).collect();
    assert!(needs_sudo(&cmds, &vec![sudo[0]]));
    assert!(needs_sudo(&cmds, &vec![plain[0], sudo[0]]));
    assert!(!needs_sudo(&cmds, &plain));
    assert!(!needs_sudo(&cmds, &Vec::new()));
}

#[test]
fn report_sections_and_score() {
    let cmds = quick_win_commands();
    let lines = report_lines(&sample(), &health(75, Verdict::NeedsAttention, false, 0), &cmds, false);
    assert_eq!(lines[0], BANNER);
    assert_eq!(lines[1], format!("\n{}", "═".repeat(72)));
    assert_eq!(lines[2], "  1. MEMORY ANALYSIS");
    assert_eq!(lines[3], "─".repeat(72));
    assert_eq!(lines[4], format!("  {:<24} {}", "Swap Used", "1024 MB"));
    assert_eq!(lines[5], "  [⚠️ ] Elevated swap usage");
    assert_eq!(lines[6], "  [✅] Memory pressure is at a normal level.");
    assert_eq!(lines[8], "  2. CPU ANALYSIS");
    assert_eq!(lines[10], "  [❌] CPU on fire");
    assert_eq!(lines[11], "\n");
    assert_eq!(lines[12], "═══ FINAL HEALTH SCORE & VERDICT ═══");
    assert_eq!(lines[13], format!("  Health Score: 75/100  [{}{}]", "█".repeat(30), "░".repeat(10)));
    assert_eq!(lines[14], "  Verdict     : ⚠️  NEEDS ATTENTION");
    assert_eq!(lines[15], "\n  Should you erase and reinstall macOS?");
    assert_eq!(lines[16], "  (\"Erase All Content and Settings\" / Recovery Mode)");
    assert_eq!(lines[17], "  ✅  NOT recommended. Score 75/100 — fix the issues below first.");
    assert_eq!(lines[18], "\n═══ ISSUES & SOLUTIONS ═══");
    assert_eq!(lines[19], "\n  Issue 1: → Elevated swap usage");
    assert_eq!(lines[20], "  Fix:\n    Close apps.\n    Restart.");
    assert_eq!(lines[21], "\n  Issue 2: → CPU on fire");
    assert_eq!(lines[22], "  Fix:\n    Cool it");
    assert_eq!(lines[23], "\n⚡ QUICK WIN COMMANDS");
    assert_eq!(lines[24], "  # Purge inactive memory");
    assert_eq!(lines[25], "  sudo purge\n");
    assert_eq!(lines.len(), 24 + 2 * cmds.len());
}

#[test]
fn erase_advice_in_the_report() {
    let cmds = quick_win_commands();
    let none: Vec<CheckResult> = Vec::new();

    let smart = report_lines(&none, &health(10, Verdict::Critical, true, 3), &cmds, false);
    assert_eq!(smart[7], SMART_NOTICE);
    assert_eq!(smart[8], "\n  No issues found — system is in great shape!");

    let short = report_lines(&none, &health(40, Verdict::Degraded, false, 0), &cmds, false);
    assert_eq!(short[7], "  ⚠️   Score 40/100 — action needed, but no evidence of software corruption.");
    assert_eq!(short[8], CAPACITY_ADVICE);
    let long = report_lines(&none, &health(40, Verdict::Degraded, false, 0), &cmds, true);
    assert_eq!(long[8], CAPACITY_ADVICE_LONG);

    let erase = report_lines(&none, &health(12, Verdict::Critical, false, 2), &cmds, false);
    assert_eq!(erase[7], "  🚨  Score 12/100 + 2 kernel panic(s) detected → ERASE & REINSTALL recommended.");
    assert_eq!(erase[8], "  Apple Silicon: System Settings → General → Transfer or Reset → Erase All Content.");
    assert_eq!(erase[9], "  Intel: hold ⌘+R at boot → Disk Utility Erase → Reinstall macOS.");
}

#[test]
fn ok_findings_and_free_warnings_are_not_issues() {
    let mut r = CheckResult::new("X");
    r.add_finding(Finding::warn("no cost", "do nothing", 0));
    r.add_finding(Finding::ok("fine"));
    let lines = report_lines(&[r], &health(100, Verdict::Healthy, false, 0), &quick_win_commands(), false);
    assert!(lines.iter().any(|l| l == "\n  No issues found — system is in great shape!"));
    assert!(!lines.iter().any(|l| l.starts_with("\n  Issue")));
}

#[test]
fn section_icons_follow_the_worst_finding() {
    let mut r = CheckResult::new("X");
    assert_eq!(section_icon(&r), "✅");
    r.add_finding(Finding::warn("w", "s", 1));
    assert_eq!(section_icon(&r), "⚠️ ");
    r.add_finding(Finding::critical("c", "s", 1));
    r.add_finding(Finding::ok("o"));
    assert_eq!(section_icon(&r), "❌");
}
