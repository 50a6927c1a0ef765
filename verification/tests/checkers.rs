use alchemy_cleaner::checker::{CheckResult, Level};
use alchemy_cleaner::checkers::battery::BatteryChecker;
use alchemy_cleaner::checkers::cpu::{CpuChecker, CpuReadings};
use alchemy_cleaner::checkers::disk::{failing_drive_is_flagged, DiskChecker, DiskReadings, Volume, GIB};
use alchemy_cleaner::checkers::memory::{memory_has_no_drive_flag, parse_vm_stat, MemoryChecker, MemoryReadings, MIB};
use alchemy_cleaner::checkers::network::{NetworkChecker, NetworkReadings};
use alchemy_cleaner::checkers::processes::{ProcessChecker, ProcessSample};
use alchemy_cleaner::checkers::startup::{count_plists, StartupChecker, StartupReadings};
use alchemy_cleaner::checkers::system_info::{sysctl_u64, SystemInfoChecker, SystemReadings};

fn details(r: &CheckResult) -> Vec<(String, String)> {
    r.details.clone()
}

fn d(k: &str, v: &str) -> (String, String) {
    (k.to_string(), v.to_string())
}

fn findings(r: &CheckResult) -> Vec<(Level, String, u32)> {
    r.findings.iter().map(|f| (f.level, f.message.clone(), f.score_deduction)).collect()
}

fn f(l: Level, m: &str, n: u32) -> (Level, String, u32) {
    (l, m.to_string(), n)
}

fn s(x: &str) -> Option<String> {
    Some(x.to_string())
}

fn cpu(cores: Option<&str>, one: &str, five: &str, fifteen: &str, five_ceil: u64, usage: &str, usage_ceil: u64) -> CpuReadings {
    CpuReadings {
        logical_cpu: cores.map(|c| c.to_string()),
        load_one: one.to_string(),
        load_five: five.to_string(),
        load_fifteen: fifteen.to_string(),
        load_five_ceil_centi: five_ceil,
        usage: usage.to_string(),
        usage_ceil_deci: usage_ceil,
    }
}

#[test]
fn cpu_saturated_and_busy() {
    let r = CpuChecker::assess(&cpu(Some("8"), "1.00", "12.50", "3.25", 1250, "95.5", 955));
    assert_eq!(r.section, "CPU Analysis");
    assert_eq!(
        details(&r),
        vec![
            d("Logical Cores", "8"),
            d("Load Average (1m/5m/15m)", "1.00 / 12.50 / 3.25"),
            d("Saturation threshold", ">8 = saturated"),
            d("Current CPU Usage", "95.5%"),
        ]
    );
    assert_eq!(
        findings(&r),
        vec![
            f(Level::Critical, "5-minute load (12.50) is >1.5× core count (8) — CPU is severely saturated.", 15),
            f(Level::Critical, "Instantaneous CPU usage is critically high: 95.5%", 10),
        ]
    );
}

#[test]
fn cpu_healthy_with_unknown_core_count() {
    let r = CpuChecker::assess(&cpu(None, "0.20", "0.50", "0.70", 50, "12.3", 123));
    assert_eq!(r.details[0], d("Logical Cores", "1"));
    assert_eq!(findings(&r), vec![f(Level::Okay, "CPU load is healthy (5m=0.50 vs 1 logical cores).", 0)]);
}

#[test]
fn cpu_load_just_above_a_threshold() {
    // A 5-minute load of 1.504 on one core prints as 1.50 but exceeds 1.5.
    let r = CpuChecker::assess(&cpu(Some("1"), "0.00", "1.50", "0.00", 151, "0.0", 0));
    assert_eq!(
        findings(&r),
        vec![f(Level::Critical, "5-minute load (1.50) is >1.5× core count (1) — CPU is severely saturated.", 15)]
    );
    // Exactly 1.5 is not above it.
    let r = CpuChecker::assess(&cpu(Some("1"), "0.00", "1.50", "0.00", 150, "0.0", 0));
    assert_eq!(r.findings[0].score_deduction, 8);
    // Usage of 90.04% prints as 90.0 but is above 90%.
    let r = CpuChecker::assess(&cpu(Some("1"), "0.00", "0.10", "0.00", 10, "90.0", 901));
    assert_eq!(findings(&r)[1], f(Level::Critical, "Instantaneous CPU usage is critically high: 90.0%", 10));
}

#[test]
fn cpu_load_bands() {
    let at = |five: u64, usage: u64| findings(&CpuChecker::assess(&cpu(Some("4"), "0.00", "x", "0.00", five, "y", usage)));
    assert_eq!(at(450, 0)[0].2, 8);
    assert_eq!(at(350, 0)[0].2, 3);
    assert_eq!(at(300, 0)[0].2, 0);
    assert_eq!(at(601, 0)[0].2, 15);
    assert_eq!(at(100, 750)[1], f(Level::Warn, "Instantaneous CPU usage elevated: y%", 3));
    assert_eq!(at(100, 700).len(), 1);
}

const VM_STAT: &str = "Mach Virtual Memory Statistics: (page size of 16384 bytes)\n\
Pages free:                               1000.\n\
Pages inactive:                         131072.\n\
Pages occupied by compressor:            65536.\n\
Swapouts:                               200000.\n";

#[test]
fn vm_stat_counts() {
    let c = parse_vm_stat(VM_STAT);
    assert_eq!(c.page_size, 16384);
    assert_eq!(c.inactive_pages, 131072);
    assert_eq!(c.compressed_pages, 65536);
    assert_eq!(c.swapouts, 200000);
    assert!(c.fits());
    let st = c.stat();
    assert_eq!((st.inactive_mb, st.compressed_mb, st.swapouts), (2048, 1024, 200000));

    let empty = parse_vm_stat("no numbers here\n");
    assert_eq!(empty.page_size, 4096);
    assert_eq!(empty.swapouts, 0);
}

#[test]
fn memory_full_report() {
    let r = MemoryChecker::assess(&MemoryReadings {
        total_bytes: 16384 * MIB,
        used_bytes: 8192 * MIB,
        available_bytes: 8192 * MIB,
        swap_total_bytes: 2048 * MIB,
        swap_used_bytes: 1024 * MIB,
        vm_stat: s(VM_STAT),
        memory_pressure: s("The system has 17179869184 (1048576 pages with a page size of 16384).\nSystem-wide memory free percentage: 45%"),
        processes: vec![("Mail".to_string(), 512 * MIB), ("Safari".to_string(), 3072 * MIB + 5)],
    });
    assert_eq!(r.section, "Memory Analysis");
    assert_eq!(
        details(&r),
        vec![
            d("Total RAM", "16384 MB"),
            d("Used RAM", "8192 MB"),
            d("Available RAM", "8192 MB"),
            d("Swap Total", "2048 MB"),
            d("Swap Used", "1024 MB"),
            d("In Compressor (RAM)", "1024 MB  ← compressed pages in RAM"),
            d("Swap-outs (since boot)", "200000"),
            d("Inactive/Cache", "2048 MB  ← healthy, macOS file cache"),
            d("memory_pressure", "System-wide memory free percentage: 45%"),
            d("Top Memory Processes", ""),
            d("  Safari", "3072 MB"),
            d("  Mail", "512 MB"),
        ]
    );
    assert_eq!(
        findings(&r),
        vec![
            f(Level::Warn, "Elevated swap usage: 1024 MB used (50% of swap).", 10),
            f(Level::Warn, "Elevated swap-out activity since boot: 200000.", 8),
            f(Level::Okay, "Memory compression is low (1024 MB). RAM is comfortable.", 0),
            f(Level::Okay, "Memory pressure is at a normal level.", 0),
        ]
    );
}

#[test]
fn memory_critical_swap_and_pressure() {
    let r = MemoryChecker::assess(&MemoryReadings {
        total_bytes: 8192 * MIB,
        used_bytes: 8000 * MIB,
        available_bytes: 192 * MIB,
        swap_total_bytes: 1000 * MIB,
        swap_used_bytes: 900 * MIB,
        vm_stat: None,
        memory_pressure: s("The system memory pressure is Critical"),
        processes: Vec::new(),
    });
    assert_eq!(
        findings(&r),
        vec![
            f(Level::Critical, "Swap usage is critically high: 900 MB / 1000 MB (90%).", 25),
            f(Level::Critical, "System reports CRITICAL memory pressure.", 20),
        ]
    );
    assert_eq!(r.details[5], d("memory_pressure", "unavailable"));
}

#[test]
fn memory_swap_bands_without_swap_file() {
    let at = |total: u64, used: u64| {
        findings(&MemoryChecker::assess(&MemoryReadings {
            total_bytes: 0,
            used_bytes: 0,
            available_bytes: 0,
            swap_total_bytes: total * MIB,
            swap_used_bytes: used * MIB,
            vm_stat: None,
            memory_pressure: None,
            processes: Vec::new(),
        }))
    };
    assert_eq!(at(0, 0), vec![f(Level::Okay, "Swap usage is minimal (0 MB). RAM pressure is low.", 0)]);
    assert_eq!(at(10000, 150), vec![f(Level::Warn, "Swap is active (150 MB) — system has been paging.", 4)]);
    assert_eq!(at(1000, 400)[0].2, 4);
    assert_eq!(at(1000, 401)[0].2, 10);
}

#[test]
fn disk_nearly_full_with_verified_drive() {
    let r = DiskChecker::assess(&DiskReadings {
        volumes: vec![
            Volume { mount_point: "/Volumes/USB".to_string(), total_bytes: 8 * GIB, available_bytes: GIB },
            Volume { mount_point: "/".to_string(), total_bytes: 500 * GIB, available_bytes: 50 * GIB },
        ],
        later_mounts: vec!["/".to_string(), "/Volumes/USB".to_string()],
        diskutil_info: s("   Device Identifier:        disk3s1\n   SMART Status:             Verified\n"),
        home: s("/Users/me"),
        du_output: s("12G\t/Users/me/Library/\n3.1G\t/Users/me/Downloads/"),
    });
    assert_eq!(r.section, "Storage & Disk Health");
    assert_eq!(
        details(&r),
        vec![
            d("Total Size", "500.0 GB"),
            d("Used", "450.0 GB (90%)"),
            d("Available", "50.0 GB"),
            d("S.M.A.R.T. Status", "Verified"),
            d("Other Volumes", "1"),
            d("Large Home Dirs (top 6)", ""),
            d("  ~/Library/", "12G"),
            d("  ~/Downloads/", "3.1G"),
        ]
    );
    assert_eq!(
        findings(&r),
        vec![
            f(Level::Warn, "Disk is 90% full. macOS requires ~10% free for efficient operation.", 15),
            f(Level::Okay, "S.M.A.R.T. Status: Verified — drive health is good.", 0),
        ]
    );
}

#[test]
fn disk_failing_drive_and_missing_boot_volume() {
    let r = DiskChecker::assess(&DiskReadings {
        volumes: Vec::new(),
        later_mounts: Vec::new(),
        diskutil_info: s("   SMART Status:             Failing\n"),
        home: None,
        du_output: None,
    });
    assert_eq!(
        details(&r),
        vec![
            d("Boot Volume", "Not found via sysinfo"),
            d("S.M.A.R.T. Status", "Failing"),
            d("Large Home Dirs (top 6)", ""),
        ]
    );
    assert_eq!(r.findings.len(), 1);
    assert_eq!(r.findings[0].level, Level::Critical);
    assert_eq!(r.findings[0].message, "S.M.A.R.T. Status: Failing — drive hardware is failing.");
    assert_eq!(r.findings[0].score_deduction, 40);
}

#[test]
fn disk_usage_bands() {
    let pct_of = |avail: u64| {
        let r = DiskChecker::assess(&DiskReadings {
            volumes: vec![Volume { mount_point: "/".to_string(), total_bytes: 100 * GIB, available_bytes: avail * GIB }],
            later_mounts: Vec::new(),
            diskutil_info: None,
            home: None,
            du_output: None,
        });
        (r.details[1].1.clone(), r.findings[0].score_deduction)
    };
    assert_eq!(pct_of(4), ("96.0 GB (96%)".to_string(), 30));
    assert_eq!(pct_of(15), ("85.0 GB (85%)".to_string(), 15));
    assert_eq!(pct_of(30), ("70.0 GB (70%)".to_string(), 5));
    assert_eq!(pct_of(31), ("69.0 GB (69%)".to_string(), 0));
}

#[test]
fn disk_unclear_smart_status() {
    let r = DiskChecker::assess(&DiskReadings {
        volumes: Vec::new(),
        later_mounts: Vec::new(),
        diskutil_info: s("   Device Identifier:  disk1\n"),
        home: None,
        du_output: None,
    });
    assert_eq!(r.details[1], d("S.M.A.R.T. Status", "Not Available"));
    assert_eq!(r.details[2], d("S.M.A.R.T. Note", "Status unclear — may be an APFS container"));
    assert!(r.findings.is_empty());
}

fn sample(name: &str, cpu: &str, ceil: u64, bytes: u64) -> ProcessSample {
    ProcessSample { name: name.to_string(), cpu: cpu.to_string(), cpu_ceil_deci: ceil, cpu_rank: ceil, memory_bytes: bytes }
}

#[test]
fn process_order_and_threshold_follow_the_exact_figures() {
    // Both print as 12.3; the one with the larger figure comes first.
    let a = ProcessSample { name: "a".to_string(), cpu: "12.3".to_string(), cpu_ceil_deci: 124, cpu_rank: 10, memory_bytes: 0 };
    let b = ProcessSample { name: "b".to_string(), cpu: "12.3".to_string(), cpu_ceil_deci: 124, cpu_rank: 11, memory_bytes: 0 };
    // 80.04% prints as 80.0 but is above 80%.
    let c = ProcessSample { name: "c".to_string(), cpu: "80.0".to_string(), cpu_ceil_deci: 801, cpu_rank: 20, memory_bytes: 0 };
    let r = ProcessChecker::assess(&vec![a, b, c]);
    assert_eq!(r.details[2], d("  c", "CPU 80.0%  RAM 0 MB"));
    assert_eq!(r.details[3], d("  b", "CPU 12.3%  RAM 0 MB"));
    assert_eq!(r.details[4], d("  a", "CPU 12.3%  RAM 0 MB"));
    assert_eq!(findings(&r), vec![f(Level::Warn, "'c' is consuming 80.0% CPU — potential runaway process.", 8)]);
}

#[test]
fn processes_runaway_cpu_and_memory() {
    let r = ProcessChecker::assess(&vec![
        sample("Finder", "0.5", 5, 100 * MIB),
        sample("Safari", "95.5", 955, 3072 * MIB),
        sample("kernel_task", "12.0", 120, 1024 * MIB),
    ]);
    assert_eq!(r.section, "Process Analysis");
    assert_eq!(
        details(&r),
        vec![
            d("Total Processes", "3"),
            d("── Top by CPU ──", ""),
            d("  Safari", "CPU 95.5%  RAM 3072 MB"),
            d("  kernel_task", "CPU 12.0%  RAM 1024 MB"),
            d("  Finder", "CPU 0.5%  RAM 100 MB"),
            d("── Top by Memory ──", ""),
            d("  Safari", "RAM 3072 MB  CPU 95.5%"),
            d("  kernel_task", "RAM 1024 MB  CPU 12.0%"),
            d("  Finder", "RAM 100 MB  CPU 0.5%"),
        ]
    );
    assert_eq!(
        findings(&r),
        vec![
            f(Level::Warn, "'Safari' is consuming 95.5% CPU — potential runaway process.", 8),
            f(Level::Warn, "'Safari' is using 3072 MB of RAM — memory-heavy process.", 5),
        ]
    );
    assert_eq!(
        r.findings[1].solution.as_deref(),
        Some("'Safari' may have a memory leak. Restart the application.\nIf it's a browser, close unused tabs or restart the browser.")
    );
}

#[test]
fn processes_none_running_away() {
    let r = ProcessChecker::assess(&Vec::new());
    assert_eq!(details(&r), vec![d("Total Processes", "0"), d("── Top by CPU ──", ""), d("── Top by Memory ──", "")]);
    assert_eq!(
        findings(&r),
        vec![f(Level::Okay, "No runaway processes detected. All processes are within normal ranges.", 0)]
    );
}

#[test]
fn startup_counts_plists() {
    let names = vec!["a.plist".to_string(), "b.PLIST".to_string(), ".plist".to_string(), "c.plist.bak".to_string(), "d.plist".to_string()];
    assert_eq!(count_plists(&names), 2);

    let r = StartupChecker::assess(&StartupReadings {
        login_items: s("Mail, Slack, Dropbox"),
        user_agents: vec!["a.plist".to_string(), "b.plist".to_string(), "notes.txt".to_string()],
        library_agents: vec!["c.plist".to_string()],
        library_daemons: Vec::new(),
        failing_services: s("3"),
    });
    assert_eq!(r.section, "Startup Items & Background Agents");
    assert_eq!(
        details(&r),
        vec![
            d("GUI Login Items", "3 items"),
            d("Items", "Mail, Slack, Dropbox"),
            d("~/Library/LaunchAgents", "2 agents"),
            d("/Library/LaunchAgents", "1 agents"),
            d("/Library/LaunchDaemons", "0 agents"),
            d("Total Agents / Daemons", "3"),
            d("Failing User Services", "3"),
        ]
    );
    assert_eq!(
        findings(&r),
        vec![
            f(Level::Okay, "3 login items — healthy count.", 0),
            f(Level::Okay, "Background agent count is normal (3 total).", 0),
            f(Level::Okay, "3 services with non-zero exits (normal range).", 0),
        ]
    );
}

#[test]
fn startup_heavy_and_unavailable() {
    let items: Vec<String> = (0..16).map(|i| format!("App{i}")).collect();
    let agents: Vec<String> = (0..51).map(|i| format!("agent{i}.plist")).collect();
    let r = StartupChecker::assess(&StartupReadings {
        login_items: Some(items.join(", ")),
        user_agents: agents,
        library_agents: Vec::new(),
        library_daemons: Vec::new(),
        failing_services: s("16"),
    });
    assert_eq!(
        findings(&r).iter().map(|x| (x.0, x.2)).collect::<Vec<_>>(),
        vec![(Level::Critical, 10), (Level::Warn, 5), (Level::Warn, 5)]
    );
    assert_eq!(r.findings[0].message, "16 login items — excessive startup apps slow boot and consume RAM.");

    let none = StartupChecker::assess(&StartupReadings {
        login_items: s(""),
        user_agents: Vec::new(),
        library_agents: Vec::new(),
        library_daemons: Vec::new(),
        failing_services: s("oops"),
    });
    assert_eq!(none.details[0], d("GUI Login Items", "Unavailable (permission denied)"));
    assert_eq!(none.details[5], d("Failing User Services", "0"));
}

const POWER: &str = "Power:\n\n    Battery Information:\n\n      Charge Information:\n          Full Charge Capacity (mAh): 4500\n      Health Information:\n          Cycle Count: 812\n          Condition: Normal\n          Maximum Capacity: 87%\n\n    AC Charger Information:\n\n      Connected: Yes";

#[test]
fn battery_normal_with_many_cycles() {
    let r = BatteryChecker::assess(&s(POWER));
    assert_eq!(r.section, "Battery Health");
    assert_eq!(
        details(&r),
        vec![
            d("Battery Condition", "Normal"),
            d("Maximum Capacity", "87%"),
            d("Power Adapter", "Yes"),
            d("Cycle Count", "812"),
        ]
    );
    assert_eq!(
        findings(&r),
        vec![
            f(Level::Okay, "Battery condition is good: 'Normal'.", 0),
            f(Level::Warn, "Cycle count 812 is approaching end of rated lifespan (1000 cycles).", 3),
        ]
    );
}

#[test]
fn battery_replace_and_missing() {
    let r = BatteryChecker::assess(&s("Condition: Replace Now\nCycle Count: 1200\nFull Charge Capacity (mAh): 3000\nDesign Capacity (mAh): 5000"));
    assert_eq!(r.details[3], d("Cycle Count", "1200"));
    assert_eq!(r.details[4], d("Full / Design Capacity", "3000 / 5000 mAh"));
    assert_eq!(
        findings(&r),
        vec![
            f(Level::Critical, "Battery condition: 'Replace Now' — replacement required.", 20),
            f(Level::Warn, "Cycle count 1200 exceeds Apple's rated 1000-cycle design life.", 8),
        ]
    );
    for missing in [None, s("")] {
        let r = BatteryChecker::assess(&missing);
        assert!(r.details.is_empty());
        assert_eq!(
            findings(&r),
            vec![f(Level::Okay, "Battery information not available (desktop Mac or system_profiler failed).", 0)]
        );
    }
}

#[test]
fn network_report() {
    let r = NetworkChecker::assess(&NetworkReadings {
        ifconfig: s("lo0: flags=8049<UP,LOOPBACK>\nen0: flags=8863<UP>\n\tether 00:00\nen5 media"),
        dig_output: s(";; Query time: 23 msec\n;; SERVER: 1.1.1.1#53"),
        dig_elapsed_ms: 900,
        established: s("250"),
        wifi_info: s("     agrCtlRSSI: -75\n     BSSID: aa:bb\n          SSID: Home\n"),
    });
    assert_eq!(r.section, "Network Status");
    assert_eq!(
        details(&r),
        vec![
            d("Active Interfaces", "en5 media"),
            d("DNS Query Time", "23 ms (google.com)"),
            d("Established TCP Connections", "250"),
            d("Wi-Fi SSID", "Home"),
            d("Wi-Fi Signal", "-75 dBm"),
        ]
    );
    assert_eq!(
        findings(&r),
        vec![
            f(Level::Okay, "DNS response is fast (23 ms).", 0),
            f(Level::Warn, "Unusually high TCP connection count: 250.", 5),
            f(Level::Warn, "Wi-Fi signal is moderate (-75 dBm). Some packet loss possible.", 2),
        ]
    );
}

#[test]
fn network_offline_and_slow() {
    let r = NetworkChecker::assess(&NetworkReadings {
        ifconfig: s("lo0: flags=1\nen0: flags=2"),
        dig_output: None,
        dig_elapsed_ms: 5,
        established: None,
        wifi_info: None,
    });
    assert_eq!(
        details(&r),
        vec![
            d("Active Interfaces", "None detected"),
            d("DNS Test", "Skipped (dig not available or offline)"),
            d("Established TCP Connections", "0"),
        ]
    );
    let slow = NetworkChecker::assess(&NetworkReadings {
        ifconfig: None,
        dig_output: s("no timing here"),
        dig_elapsed_ms: 600,
        established: s("12"),
        wifi_info: s("agrCtlRSSI: -85"),
    });
    assert_eq!(slow.details[0], d("DNS Query Time", "600 ms (google.com)"));
    assert_eq!(
        findings(&slow),
        vec![
            f(Level::Warn, "DNS response is slow (600 ms). Web browsing will feel sluggish.", 5),
            f(Level::Okay, "TCP connection count is normal (12).", 0),
            f(Level::Warn, "Wi-Fi signal is weak (-85 dBm). Network will feel unreliable.", 5),
        ]
    );
    assert_eq!(slow.details[2], d("Wi-Fi SSID", "?"));
}

#[test]
fn system_info_ventura() {
    let r = SystemInfoChecker::assess(&SystemReadings {
        product_version: s("13.6.1"),
        build_version: s("22G313"),
        arch: s("arm64"),
        chip: s("Apple M2"),
        memsize: s("17179869184"),
        physical_cpu: s("8"),
        logical_cpu: s("8"),
        uptime: s("10:15  up 3 days,  2:04, 2 users, load averages: 1.20 1.30 1.40"),
        hostname: s("Studio"),
    });
    assert_eq!(r.section, "System Information");
    assert_eq!(
        details(&r),
        vec![
            d("macOS Version", "13.6.1 (Build 22G313)"),
            d("Processor", "Apple M2 (arm64)"),
            d("Silicon type", "Apple Silicon"),
            d("Total RAM", "16.0 GB"),
            d("CPU Cores", "8 physical / 8 logical"),
            d("Uptime", "3 days,  2:04, 2 users"),
            d("Hostname", "Studio"),
        ]
    );
    assert_eq!(
        findings(&r),
        vec![f(Level::Okay, "macOS 13.6.1 (Ventura) — supported, consider upgrading to Sonoma.", 0)]
    );
}

#[test]
fn system_info_unknown_everything() {
    let r = SystemInfoChecker::assess(&SystemReadings {
        product_version: None,
        build_version: None,
        arch: None,
        chip: None,
        memsize: None,
        physical_cpu: None,
        logical_cpu: None,
        uptime: None,
        hostname: None,
    });
    assert_eq!(
        details(&r),
        vec![
            d("macOS Version", "Unknown (Build Unknown)"),
            d("Processor", "Unknown CPU (unknown)"),
            d("Silicon type", "Intel x86_64"),
            d("Total RAM", "0.0 GB"),
            d("CPU Cores", "? physical / ? logical"),
            d("Uptime", "unknown"),
            d("Hostname", "unknown"),
        ]
    );
    assert_eq!(r.findings.len(), 1);
    assert_eq!(r.findings[0].level, Level::Critical);
    assert_eq!(r.findings[0].score_deduction, 10);
    assert_eq!(
        r.findings[0].message,
        "macOS Unknown is significantly outdated — performance optimisations and security patches are unavailable."
    );
}

#[test]
fn system_info_version_bands() {
    let at = |v: &str| {
        let r = SystemInfoChecker::assess(&SystemReadings {
            product_version: s(v),
            build_version: None,
            arch: s("x86_64"),
            chip: None,
            memsize: s("8589934592"),
            physical_cpu: None,
            logical_cpu: None,
            uptime: s("no marker"),
            hostname: None,
        });
        (r.findings[0].level, r.findings[0].score_deduction, r.details[3].1.clone(), r.details[5].1.clone())
    };
    assert_eq!(at("14.2"), (Level::Okay, 0, "8.0 GB".to_string(), "unknown".to_string()));
    assert_eq!(at("12.7"), (Level::Warn, 5, "8.0 GB".to_string(), "unknown".to_string()));
    assert_eq!(at("11.0").1, 10);
}

#[test]
fn sysctl_values_parse_after_trimming() {
    assert_eq!(sysctl_u64(&s(" 17179869184 ")), Some(17179869184));
    assert_eq!(sysctl_u64(&s("abc")), None);
    assert_eq!(sysctl_u64(&None), None);
}

fn assert_sound(r: &CheckResult) {
    for f in &r.findings {
        let ok = f.level == Level::Okay;
        assert_eq!(ok, f.solution.is_none(), "{}", f.message);
        assert_eq!(ok, f.score_deduction == 0, "{}", f.message);
    }
}

#[test]
fn only_problems_carry_fixes_and_deductions() {
    assert_sound(&BatteryChecker::assess(&s(POWER)));
    assert_sound(&BatteryChecker::assess(&s("Condition: Service Recommended\nCycle Count: 1001")));
    assert_sound(&CpuChecker::assess(&cpu(Some("2"), "0.00", "2.60", "0.00", 260, "80.0", 800)));
    assert_sound(&MemoryChecker::assess(&MemoryReadings {
        total_bytes: 0,
        used_bytes: 0,
        available_bytes: 0,
        swap_total_bytes: 100 * MIB,
        swap_used_bytes: 90 * MIB,
        vm_stat: s(VM_STAT),
        memory_pressure: s("Warn"),
        processes: Vec::new(),
    }));
    assert_sound(&ProcessChecker::assess(&vec![sample("x", "90.0", 900, 0)]));
    assert_sound(&NetworkChecker::assess(&NetworkReadings {
        ifconfig: None,
        dig_output: s(";; Query time: 300 msec"),
        dig_elapsed_ms: 0,
        established: s("3"),
        wifi_info: s("agrCtlRSSI: -50\nSSID: x"),
    }));
}

#[test]
fn failing_drive_flag_is_tested_at_run_time() {
    let failing = DiskReadings {
        volumes: Vec::new(),
        later_mounts: Vec::new(),
        diskutil_info: s("   SMART Status:             Failing\n"),
        home: None,
        du_output: None,
    };
    assert!(failing_drive_is_flagged(&failing));
    assert!(alchemy_cleaner::scorer::HealthScore::compute(&[DiskChecker::assess(&failing)]).smart_failure);
    let verified = DiskReadings { diskutil_info: s("   SMART Status:             Verified\n"), ..failing };
    assert!(!failing_drive_is_flagged(&verified));
}

#[test]
fn memory_pressure_raises_no_drive_flag() {
    let r = MemoryReadings {
        total_bytes: 8192 * MIB,
        used_bytes: 8000 * MIB,
        available_bytes: 192 * MIB,
        swap_total_bytes: 1000 * MIB,
        swap_used_bytes: 900 * MIB,
        vm_stat: s("Mach Virtual Memory Statistics: (page size of 4096 bytes)\nSwapouts: 900000.\n"),
        memory_pressure: s("The system memory pressure is Critical"),
        processes: Vec::new(),
    };
    assert!(memory_has_no_drive_flag(&r));
    let h = alchemy_cleaner::scorer::HealthScore::compute(&[MemoryChecker::assess(&r)]);
    assert!(!h.smart_failure);
    assert_eq!(h.panic_count, 0);
}
