use alchemy_cleaner::checker::Checker;
use alchemy_cleaner::checkers::battery::BatteryChecker;
use alchemy_cleaner::checkers::cpu::CpuChecker;
use alchemy_cleaner::checkers::disk::DiskChecker;
use alchemy_cleaner::checkers::logs::LogsChecker;
use alchemy_cleaner::checkers::memory::MemoryChecker;
use alchemy_cleaner::checkers::network::NetworkChecker;
use alchemy_cleaner::checkers::processes::ProcessChecker;
use alchemy_cleaner::checkers::startup::StartupChecker;
use alchemy_cleaner::checkers::system_info::SystemInfoChecker;
use alchemy_cleaner::checkers::{all_checkers, select_checkers, CheckerKind};
use alchemy_cleaner::config::{copy_strings, Cli, Config};

fn strs(v: &[&str]) -> Vec<String> {
    v.iter().map(|s| s.to_string()).collect()
}

#[test]
fn registry_order_and_names() {
    let all = all_checkers();
    let names: Vec<&str> = all.iter().map(|k| k.name()).collect();
    assert_eq!(
        names,
        vec!["system-info", "cpu", "memory", "disk", "processes", "startup", "battery", "network", "logs"]
    );
    assert_eq!(CheckerKind::Disk.description(), "Boot volume usage, S.M.A.R.T. health, and largest home directories");
    assert_eq!(CheckerKind::SystemInfo.description(), "macOS version, chip, RAM, uptime");
}

#[test]
fn only_filter_keeps_registry_order_and_ignores_case() {
    let picked = select_checkers(&strs(&["CPU", "memory"]));
    assert_eq!(picked, vec![CheckerKind::Cpu, CheckerKind::Memory]);
    let reversed = select_checkers(&strs(&["Logs", "cpu", "cpu"]));
    assert_eq!(reversed, vec![CheckerKind::Cpu, CheckerKind::Logs]);
}

#[test]
fn empty_filter_runs_everything() {
    assert_eq!(select_checkers(&Vec::new()), all_checkers());
}

#[test]
fn unknown_names_select_nothing() {
    assert!(select_checkers(&strs(&["gpu", "cpu-usage"])).is_empty());
}

#[test]
fn config_follows_the_command_line() {
    let cli = Cli {
        only: strs(&["disk"]),
        list: false,
        no_report: true,
        no_color: true,
        no_interactive: true,
        with_sudo: false,
    };
    let c = Config::from_cli(&cli);
    assert!(!c.save_report);
    assert!(c.no_color);
    assert!(!c.with_sudo);
    assert_eq!(c.only, strs(&["disk"]));

    let d = Config::default();
    assert!(d.save_report && !d.no_color && !d.with_sudo && d.only.is_empty());
    assert_eq!(copy_strings(&strs(&["a", "b"])), strs(&["a", "b"]));
}

#[test]
fn each_checker_names_itself() {
    let pairs: Vec<(&str, &str)> = vec![
        (SystemInfoChecker.name(), SystemInfoChecker.description()),
        (CpuChecker.name(), CpuChecker.description()),
        (MemoryChecker.name(), MemoryChecker.description()),
        (DiskChecker.name(), DiskChecker.description()),
        (ProcessChecker.name(), ProcessChecker.description()),
        (StartupChecker.name(), StartupChecker.description()),
        (BatteryChecker.name(), BatteryChecker.description()),
        (NetworkChecker.name(), NetworkChecker.description()),
        (LogsChecker.name(), LogsChecker.description()),
    ];
    let kinds: Vec<(&str, &str)> = all_checkers().iter().map(|k| (k.name(), k.description())).collect();
    assert_eq!(pairs, kinds);
    assert_eq!(NetworkChecker.description(), "DNS responsiveness, active interfaces, and TCP connection count");
    assert_eq!(StartupChecker.name(), "startup");
}
