use alchemy_cleaner::checker::Level;
use alchemy_cleaner::checkers::logs::{
    classify_panics, count_by_ext, ext_and_stem, extract_process_name, jetsam_kill_count, system_errors_with_subsystems,
    top_crashing_apps, top_hung_apps, DiagFile, LogsChecker, LogsReadings, DAY_SECS, HANG_FIX, JETSAM_FIX,
};
use alchemy_cleaner::scorer::HealthScore;

fn file(name: &str, age: Option<u64>) -> DiagFile {
    DiagFile { name: name.to_string(), age_secs: age }
}

fn d(k: &str, v: &str) -> (String, String) {
    (k.to_string(), v.to_string())
}

fn system_dir() -> Vec<DiagFile> {
    vec![
        file("Kernel-2024-01-01.panic", Some(DAY_SECS)),
        file("GPU-Restart-2024.panic", Some(2 * DAY_SECS)),
        file("old.panic", Some(40 * DAY_SECS)),
        file("JetsamEvent-2024-01-01-000000.ips", Some(3600)),
        file("unreadable.panic", None),
    ]
}

fn user_dir() -> Vec<DiagFile> {
    vec![
        file("Safari_2024-01-15_123456.crash", Some(100)),
        file("Safari_2024-01-16.ips", Some(200)),
        file("Mail_2024-01-15.crash", Some(300)),
        file("Finder_2024.hang", Some(400)),
        file("Stale_2023.crash", Some(8 * DAY_SECS)),
    ]
}

const ERROR_LOG: &str = "Filtering the log data using \"messageType == error\"\n\
Timestamp               Ty Process[PID:TID]\n\
2024-01-01 10:00:00.100 E  kernel[0:1a] [com.apple:x] msg one\n\
2024-01-01 10:00:00.200 E  kernel[0:1b] msg two\n\
2024-01-01 10:00:00.300 E  WindowServer[150:2c] [sub:cat] three\n\
\n";

#[test]
fn file_names_split_like_path() {
    let (e, stem) = ext_and_stem(&"Safari_2024.crash".chars().collect());
    assert_eq!(e, Some("crash".chars().collect()));
    assert_eq!(stem, "Safari_2024".chars().collect::<Vec<char>>());
    let (e, stem) = ext_and_stem(&".hidden".chars().collect());
    assert_eq!(e, None);
    assert_eq!(stem, ".hidden".chars().collect::<Vec<char>>());
    let (e, _) = ext_and_stem(&"archive.tar.gz".chars().collect());
    assert_eq!(e, Some("gz".chars().collect()));
}

#[test]
fn recent_files_are_counted_by_extension() {
    assert_eq!(count_by_ext(&system_dir(), "panic", 30), 2);
    assert_eq!(count_by_ext(&user_dir(), "crash", 7), 2);
    assert_eq!(count_by_ext(&user_dir(), "ips", 7), 1);
    assert_eq!(count_by_ext(&vec![file("A.CRASH", Some(1))], "crash", 7), 1);
    assert_eq!(count_by_ext(&vec![file("edge.crash", Some(7 * DAY_SECS))], "crash", 7), 0);
}

#[test]
fn panics_are_classified_by_name() {
    assert_eq!(classify_panics(&system_dir()), Some("GPU ×1, Other ×1".to_string()));
    let many = vec![
        file("a-watchdog.panic", Some(1)),
        file("b-OOM.panic", Some(1)),
        file("c-kext.panic", Some(1)),
        file("d-metal.panic", Some(1)),
        file("e-timeout.panic", Some(1)),
    ];
    assert_eq!(classify_panics(&many), Some("GPU ×1, Memory ×1, Watchdog ×2, Driver/kext ×1".to_string()));
    assert_eq!(classify_panics(&vec![file("x.crash", Some(1))]), None);
}

#[test]
fn crashing_and_hung_apps() {
    assert_eq!(top_crashing_apps(&user_dir(), 5), vec![("Safari".to_string(), 2), ("Mail".to_string(), 1)]);
    assert_eq!(top_crashing_apps(&user_dir(), 1), vec![("Safari".to_string(), 2)]);
    assert_eq!(top_hung_apps(&user_dir()), vec!["Finder".to_string()]);
    let hangs = vec![
        file("A_1.hang", Some(1)),
        file("B_1.spin", Some(1)),
        file("A_2.spin", Some(1)),
        file("C.hang", Some(1)),
        file("D.hang", Some(1)),
    ];
    assert_eq!(top_hung_apps(&hangs), vec!["A".to_string(), "B".to_string(), "C".to_string()]);
}

#[test]
fn jetsam_events_of_the_last_day() {
    assert_eq!(jetsam_kill_count(&system_dir()), 1);
    let old = vec![file("JetsamEvent-x.ips", Some(2 * DAY_SECS)), file("jetsamevent-y.ips", Some(10))];
    assert_eq!(jetsam_kill_count(&old), 1);
}

#[test]
fn process_names_in_compact_log_lines() {
    assert_eq!(extract_process_name("2024-01-01 10:00:00.1 E  kernel[0:1] msg"), Some("kernel".to_string()));
    assert_eq!(extract_process_name("2024-01-01 10:00:00.1 E  [0:1] msg"), None);
    assert_eq!(extract_process_name("a b c"), None);
    assert_eq!(extract_process_name("a b c Plain"), Some("Plain".to_string()));
}

#[test]
fn error_log_is_counted_and_grouped() {
    // The column header line counts as an entry, as `log show` prints it.
    let (n, top) = system_errors_with_subsystems(ERROR_LOG);
    assert_eq!(n, 4);
    assert_eq!(top, vec![("kernel".to_string(), 2), ("WindowServer".to_string(), 1)]);
    assert_eq!(system_errors_with_subsystems(""), (0, Vec::new()));
}

#[test]
fn crash_log_section() {
    let readings = LogsReadings { system_reports: system_dir(), user_reports: user_dir(), error_log: ERROR_LOG.to_string() };
    let r = LogsChecker::assess(&readings);
    assert_eq!(r.section, "Crash & System Log History");
    assert_eq!(
        r.details,
        vec![
            d("Kernel panics (30d)", "2"),
            d("Panic types", "GPU ×1, Other ×1"),
            d("App crashes (7d)", "2 .crash + 1 .ips = 3 total"),
            d("Top crashing apps", "2× Safari  ·  1× Mail"),
            d("Hang/spin reports (7d)", "1"),
            d("System errors (last 1h)", "4"),
            d("Noisy processes", "kernel (2×)  ·  WindowServer (1×)"),
            d("Memory-pressure kills (24h)", "1"),
        ]
    );
    let fs: Vec<(Level, String, u32)> = r.findings.iter().map(|f| (f.level, f.message.clone(), f.score_deduction)).collect();
    assert_eq!(
        fs,
        vec![
            (Level::Warn, "2 kernel panics in 30 days — investigate if unstable".to_string(), 10),
            (Level::Okay, "App crash rate is low: 3 crash(es) in 7 days".to_string(), 0),
            (Level::Warn, "1 app hang/freeze report(s) in 7 days — Finder".to_string(), 3),
            (Level::Okay, "System error log rate is normal (4 entries in last hour)".to_string(), 0),
            (Level::Warn, "1 process(es) killed by memory pressure in 24 h".to_string(), 6),
        ]
    );
    assert_eq!(r.findings[2].solution.as_deref(), Some(HANG_FIX));
    assert_eq!(r.findings[4].solution.as_deref(), Some(JETSAM_FIX));

    // The score reads the panic count back from this section.
    let h = HealthScore::compute(&[r]);
    assert_eq!(h.panic_count, 2);
    assert_eq!(h.score, 81);
}

#[test]
fn quiet_crash_log_section() {
    let r = LogsChecker::assess(&LogsReadings { system_reports: Vec::new(), user_reports: Vec::new(), error_log: String::new() });
    assert_eq!(
        r.details,
        vec![d("Kernel panics (30d)", "0"), d("App crashes (7d)", "0"), d("System errors (last 1h)", "0")]
    );
    let msgs: Vec<&str> = r.findings.iter().map(|f| f.message.as_str()).collect();
    assert_eq!(
        msgs,
        vec![
            "No kernel panics in the last 30 days ✨",
            "No app crashes in the last 7 days ✨",
            "System error log rate is normal (0 entries in last hour)",
        ]
    );
    assert_eq!(HealthScore::compute(&[r]).panic_count, 0);
}

#[test]
fn many_panics_and_crashes() {
    let sys: Vec<DiagFile> = (0..5).map(|i| file(&format!("k{i}.panic"), Some(10))).collect();
    let mut user: Vec<DiagFile> = (0..18).map(|i| file(&format!("Zoom_{i}.crash"), Some(10))).collect();
    user.extend((0..3).map(|i| file(&format!("Slack_{i}.ips"), Some(10))));
    let r = LogsChecker::assess(&LogsReadings { system_reports: sys, user_reports: user, error_log: String::new() });
    assert_eq!(r.findings[0].level, Level::Critical);
    assert_eq!(r.findings[0].message, "5 kernel panics in 30 days — serious instability");
    assert_eq!(r.findings[0].score_deduction, 25);
    assert_eq!(r.findings[1].message, "High crash rate: 21 app crashes in 7 days");
    assert_eq!(r.findings[1].score_deduction, 10);
    assert!(r.findings[1].solution.as_deref().unwrap().starts_with("Most affected: Zoom (18×), Slack (3×)\n"));
    let h = HealthScore::compute(&[r]);
    assert_eq!(h.panic_count, 5);
}

#[test]
fn one_panic_and_a_few_crashes() {
    let sys = vec![file("k.panic", Some(10))];
    let user: Vec<DiagFile> = (0..6).map(|i| file(&format!("Xcode_{i}.crash"), Some(10))).collect();
    let r = LogsChecker::assess(&LogsReadings { system_reports: sys, user_reports: user, error_log: String::new() });
    assert_eq!(r.details[1], d("Panic types", "Other ×1"));
    assert_eq!(r.findings[0].message, "1 kernel panic in 30 days — isolated, monitor for recurrence");
    assert_eq!(r.findings[0].score_deduction, 2);
    assert_eq!(r.findings[1].message, "6 app crashes in 7 days — above average");
    assert!(r.findings[1].solution.as_deref().unwrap().starts_with("Worst offender: Xcode (6×)\n"));
}

#[test]
fn elevated_error_rate() {
    let mut log = String::new();
    for i in 0..501 {
        log.push_str(&format!("2024-01-01 10:00:{:02}.000 E  noisyd[1:1] failure {i}\n", i % 60));
    }
    let (n, top) = system_errors_with_subsystems(&log);
    assert_eq!(n, 501);
    assert_eq!(top, vec![("noisyd".to_string(), 501)]);
    let r = LogsChecker::assess(&LogsReadings { system_reports: Vec::new(), user_reports: Vec::new(), error_log: log });
    let last = r.findings.last().unwrap();
    assert_eq!(last.message, "Elevated system error rate: 501 errors in last hour");
    assert_eq!(last.score_deduction, 5);
    assert!(last.solution.as_deref().unwrap().starts_with("Top error-generating processes: noisyd (501×)\n"));
}

#[test]
fn equal_counts_keep_first_appearance_order() {
    let files = vec![
        file("Zed_1.crash", Some(1)),
        file("Alpha_1.crash", Some(1)),
        file("Zed_2.ips", Some(1)),
        file("Alpha_2.ips", Some(1)),
        file("Mid_1.crash", Some(1)),
    ];
    assert_eq!(
        top_crashing_apps(&files, 5),
        vec![("Zed".to_string(), 2), ("Alpha".to_string(), 2), ("Mid".to_string(), 1)]
    );
}

#[test]
fn crash_title_is_found_by_the_score() {
    assert!(alchemy_cleaner::checkers::logs::crash_title_reads_back());
}
