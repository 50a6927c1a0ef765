use alchemy_cleaner::checker::{CheckResult, Finding};
use alchemy_cleaner::scorer::Verdict;
use alchemy_cleaner::tui::{DetailLine, Key, Mode, ScanMsg, ScanState, TuiState, NOTHING_SELECTED, SCAN_IN_PROGRESS};

fn names() -> Vec<String> {
    vec!["cpu".to_string(), "memory".to_string(), "disk".to_string()]
}

fn with_deduction(name: &str, d: u32) -> CheckResult {
    let mut r = CheckResult::new(name);
    if d == 0 {
        r.add_finding(Finding::ok("fine"));
    } else if d >= 20 {
        r.add_finding(Finding::critical("bad", "fix", d));
    } else {
        r.add_finding(Finding::warn("meh", "fix", d));
    }
    r
}

fn finished() -> TuiState {
    let mut t = TuiState::new(names(), Some("/tmp/report.txt".to_string()), 4);
    t.apply_msg(ScanMsg::Started(0));
    t.apply_msg(ScanMsg::Done(0, with_deduction("CPU Analysis", 0)));
    t.apply_msg(ScanMsg::Done(2, with_deduction("Storage", 25)));
    t.apply_msg(ScanMsg::Done(1, with_deduction("Memory Analysis", 10)));
    t
}

#[test]
fn fresh_view_is_all_pending() {
    let t = TuiState::new(names(), None, 4);
    assert_eq!(t.total, 3);
    assert!(t.states.iter().all(|s| matches!(s, ScanState::Pending)));
    assert_eq!(t.selected(), 0);
    assert_eq!(t.mode, Mode::Browse);
    assert_eq!(t.action_checked, vec![false; 4]);
    assert!(t.health.is_none());
    assert_eq!(t.stats(), (0, 0, 0, 3));
}

#[test]
fn scan_messages_update_slots_and_score_once_complete() {
    let mut t = TuiState::new(names(), None, 4);
    t.apply_msg(ScanMsg::Started(1));
    assert!(matches!(t.states[1], ScanState::Running));
    t.apply_msg(ScanMsg::Done(1, with_deduction("Memory Analysis", 10)));
    assert_eq!(t.done_count, 1);
    assert!(t.health.is_none());
    assert_eq!(t.stats(), (0, 1, 0, 2));

    let t = finished();
    assert_eq!(t.done_count, 3);
    let h = t.health.expect("health once all are done");
    assert_eq!(h.score, 65);
    assert_eq!(h.verdict, Verdict::NeedsAttention);
    assert_eq!(t.stats(), (1, 1, 1, 0));
}

#[test]
fn browsing_moves_and_scrolls() {
    let mut t = TuiState::new(names(), None, 4);
    t.on_browse_key(Key::Up);
    assert_eq!(t.selected(), 0);
    t.on_browse_key(Key::Down);
    t.on_browse_key(Key::Char('j'));
    t.on_browse_key(Key::Down);
    assert_eq!(t.selected(), 2);
    t.on_browse_key(Key::Char('k'));
    assert_eq!(t.selected(), 1);
    t.on_browse_key(Key::PageDown);
    t.on_browse_key(Key::PageDown);
    assert_eq!(t.detail_scroll, 6);
    t.on_browse_key(Key::PageUp);
    assert_eq!(t.detail_scroll, 3);
    t.on_browse_key(Key::Up);
    assert_eq!(t.detail_scroll, 0);
    t.on_browse_key(Key::PageUp);
    assert_eq!(t.detail_scroll, 0);
    assert!(!t.should_quit);
    t.on_browse_key(Key::Esc);
    assert!(t.should_quit);
}

#[test]
fn actions_wait_for_the_scan() {
    let mut t = TuiState::new(names(), None, 4);
    t.on_browse_key(Key::Char('a'));
    assert_eq!(t.mode, Mode::Browse);
    assert_eq!(t.status_msg, SCAN_IN_PROGRESS);

    let mut t = finished();
    t.on_browse_key(Key::Char('a'));
    assert_eq!(t.mode, Mode::Actions);
    assert_eq!(t.status_msg, "");
}

#[test]
fn choosing_actions() {
    let mut t = finished();
    t.on_browse_key(Key::Char('a'));
    t.on_actions_key(Key::Char(' '));
    t.on_actions_key(Key::Down);
    t.on_actions_key(Key::Down);
    t.on_actions_key(Key::Char(' '));
    t.on_actions_key(Key::Down);
    t.on_actions_key(Key::Down);
    assert_eq!(t.action_cursor, 3);
    t.on_actions_key(Key::Up);
    t.on_actions_key(Key::Char(' '));
    t.on_actions_key(Key::Char(' '));
    assert_eq!(t.action_checked, vec![true, false, true, false]);
    t.on_actions_key(Key::Enter);
    assert_eq!(t.pending, vec![0, 2]);
    assert!(t.should_quit);
    let out = t.finish();
    assert_eq!(out.pending, vec![0, 2]);
    assert_eq!(out.results.len(), 3);
    assert_eq!(out.results[2].section, "Storage");
}

#[test]
fn enter_with_nothing_checked_goes_back() {
    let mut t = finished();
    t.on_browse_key(Key::Char('a'));
    t.on_actions_key(Key::Enter);
    assert_eq!(t.mode, Mode::Browse);
    assert_eq!(t.status_msg, NOTHING_SELECTED);
    assert!(!t.should_quit);
    assert!(t.pending.is_empty());

    t.on_browse_key(Key::Char('a'));
    t.on_actions_key(Key::Char('q'));
    assert_eq!(t.mode, Mode::Browse);
}

#[test]
fn unfinished_slots_become_empty_results() {
    let mut t = TuiState::new(names(), None, 2);
    t.apply_msg(ScanMsg::Done(1, with_deduction("Memory Analysis", 3)));
    let rs = t.collect_results();
    assert_eq!(rs.len(), 3);
    assert_eq!(rs[0].section, "cpu");
    assert!(rs[0].findings.is_empty() && rs[0].details.is_empty());
    assert_eq!(rs[1].section, "Memory Analysis");
    assert_eq!(rs[2].section, "disk");
}

#[test]
fn tick_advances() {
    let mut t = TuiState::new(names(), None, 1);
    t.advance_tick();
    t.advance_tick();
    assert_eq!(t.tick, 2);
}

#[test]
fn a_drained_queue_is_applied_in_order() {
    let mut t = TuiState::new(names(), None, 2);
    t.apply_all(vec![
        ScanMsg::Started(0),
        ScanMsg::Started(2),
        ScanMsg::Done(2, with_deduction("Storage", 25)),
    ]);
    assert!(matches!(t.states[0], ScanState::Running));
    assert!(matches!(t.states[1], ScanState::Pending));
    assert!(matches!(t.states[2], ScanState::Done(_)));
    assert_eq!(t.done_count, 1);
    assert!(t.health.is_none());
    t.apply_all(Vec::new());
    assert_eq!(t.done_count, 1);
    t.apply_all(vec![
        ScanMsg::Done(0, with_deduction("CPU Analysis", 0)),
        ScanMsg::Started(1),
        ScanMsg::Done(1, with_deduction("Memory Analysis", 10)),
    ]);
    assert_eq!(t.done_count, 3);
    let h = t.health.expect("computed once all are done");
    assert_eq!(h.score, 65);
}

fn describe(lines: Vec<DetailLine>) -> Vec<String> {
    lines
        .into_iter()
        .map(|l| match l {
            DetailLine::Blank => "".to_string(),
            DetailLine::Waiting => "waiting".to_string(),
            DetailLine::WaitingNote => "waiting note".to_string(),
            DetailLine::Scanning => "scanning".to_string(),
            DetailLine::ScanningNote => "scanning note".to_string(),
            DetailLine::Heading(k) => format!("heading [{k}]"),
            DetailLine::Pair(k, v) => format!("pair [{k}] [{v}]"),
            DetailLine::Finding(l, m) => format!("finding {l:?} [{m}]"),
            DetailLine::Fix(t) => format!("fix [{t}]"),
        })
        .collect()
}

#[test]
fn detail_panel_lines() {
    let mut t = TuiState::new(names(), None, 2);
    assert_eq!(describe(t.detail_lines()), vec!["", "", "waiting", "", "waiting note"]);
    t.apply_msg(ScanMsg::Started(0));
    assert_eq!(describe(t.detail_lines()), vec!["", "", "scanning", "", "scanning note"]);
    let mut r = CheckResult::new("CPU Analysis");
    r.add_detail("Logical Cores", "8");
    r.add_detail("Top", "");
    r.add_finding(Finding::warn("busy", "Quit apps.\nRestart.", 3));
    r.add_finding(Finding::ok("fine"));
    t.apply_msg(ScanMsg::Done(0, r));
    assert_eq!(
        describe(t.detail_lines()),
        vec![
            format!("pair [  {:<24}] [8]", "Logical Cores"),
            "heading [  Top]".to_string(),
            "".to_string(),
            "finding Warn [busy]".to_string(),
            "fix [Quit apps.]".to_string(),
            "fix [Restart.]".to_string(),
            "".to_string(),
            "finding Okay [fine]".to_string(),
        ]
    );
}
