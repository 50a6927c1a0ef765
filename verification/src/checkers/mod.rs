//! The checker registry and every checker's assessment logic.
use vstd::prelude::*;

pub mod battery;
pub mod cpu;
pub mod disk;
pub mod logs;
pub mod memory;
pub mod network;
pub mod processes;
pub mod startup;
pub mod system_info;

use crate::checker::Checker;
use crate::text::{eq_ignore_ascii_case, eq_ignore_ascii_case_exec};

verus! {

/// Every registered checker, in display order.
#[derive(Debug, Clone, Copy, PartialEq, Eq, Structural)]
pub enum CheckerKind {
    SystemInfo,
    Cpu,
    Memory,
    Disk,
    Processes,
    Startup,
    Battery,
    Network,
    Logs,
}

/// The name a checker answers to in `--only` and `--list`.
pub open spec fn kind_name(k: CheckerKind) -> Seq<char> {
    match k {
        CheckerKind::SystemInfo => "system-info"@,
        CheckerKind::Cpu => "cpu"@,
        CheckerKind::Memory => "memory"@,
        CheckerKind::Disk => "disk"@,
        CheckerKind::Processes => "processes"@,
        CheckerKind::Startup => "startup"@,
        CheckerKind::Battery => "battery"@,
        CheckerKind::Network => "network"@,
        CheckerKind::Logs => "logs"@,
    }
}

/// The registered checkers in display order.
pub open spec fn registry() -> Seq<CheckerKind> {
    seq![
        CheckerKind::SystemInfo,
        CheckerKind::Cpu,
        CheckerKind::Memory,
        CheckerKind::Disk,
        CheckerKind::Processes,
        CheckerKind::Startup,
        CheckerKind::Battery,
        CheckerKind::Network,
        CheckerKind::Logs,
    ]
}

/// Some requested name equals the checker's name, ignoring ASCII case.
pub open spec fn requested(k: CheckerKind, only: Seq<Seq<char>>) -> bool {
    exists|i: int| 0 <= i < only.len() && eq_ignore_ascii_case(kind_name(k), #[trigger] only[i])
}

/// The checkers of `ks` that `only` asks for, in order.
pub open spec fn requested_in(ks: Seq<CheckerKind>, only: Seq<Seq<char>>) -> Seq<CheckerKind>
    decreases ks.len(),
{
    if ks.len() == 0 {
        seq![]
    } else {
        requested_in(ks.drop_last(), only) + if requested(ks.last(), only) {
            seq![ks.last()]
        } else {
            seq![]
        }
    }
}

/// The checkers to run: all of them when `only` is empty, else those it names.
pub open spec fn selection(only: Seq<Seq<char>>) -> Seq<CheckerKind> {
    if only.len() == 0 {
        registry()
    } else {
        requested_in(registry(), only)
    }
}

impl Checker for CheckerKind {
    /// Short, unique name used in `--only <name>` filtering.
    fn name(&self) -> (r: &'static str)
        ensures
            r@ == kind_name(*self),
    {
        match self {
            CheckerKind::SystemInfo => system_info::SystemInfoChecker.name(),
            CheckerKind::Cpu => cpu::CpuChecker.name(),
            CheckerKind::Memory => memory::MemoryChecker.name(),
            CheckerKind::Disk => disk::DiskChecker.name(),
            CheckerKind::Processes => processes::ProcessChecker.name(),
            CheckerKind::Startup => startup::StartupChecker.name(),
            CheckerKind::Battery => battery::BatteryChecker.name(),
            CheckerKind::Network => network::NetworkChecker.name(),
            CheckerKind::Logs => logs::LogsChecker.name(),
        }
    }

    /// One-line description shown in `--list` output.
    fn description(&self) -> (r: &'static str)
        ensures
            r@ == match *self {
                CheckerKind::SystemInfo => "macOS version, chip, RAM, uptime"@,
                CheckerKind::Cpu => "CPU load averages and instantaneous usage"@,
                CheckerKind::Memory => "RAM usage, swap pressure, and memory compressor activity"@,
                CheckerKind::Disk => "Boot volume usage, S.M.A.R.T. health, and largest home directories"@,
                CheckerKind::Processes => "Detect runaway processes consuming excess CPU or RAM"@,
                CheckerKind::Startup => "Login items, LaunchAgents, LaunchDaemons, and failing services"@,
                CheckerKind::Battery => "Battery health, cycle count, and charge capacity"@,
                CheckerKind::Network => "DNS responsiveness, active interfaces, and TCP connection count"@,
                CheckerKind::Logs => "Kernel panics (typed), grouped app crashes, hang reports, error-subsystem breakdown, Jetsam kills"@,
            },
    {
        match self {
            CheckerKind::SystemInfo => system_info::SystemInfoChecker.description(),
            CheckerKind::Cpu => cpu::CpuChecker.description(),
            CheckerKind::Memory => memory::MemoryChecker.description(),
            CheckerKind::Disk => disk::DiskChecker.description(),
            CheckerKind::Processes => processes::ProcessChecker.description(),
            CheckerKind::Startup => startup::StartupChecker.description(),
            CheckerKind::Battery => battery::BatteryChecker.description(),
            CheckerKind::Network => network::NetworkChecker.description(),
            CheckerKind::Logs => logs::LogsChecker.description(),
        }
    }
}

/// Returns every registered checker in display order.
pub fn all_checkers() -> (r: Vec<CheckerKind>)
    ensures
        r@ == registry(),
{
    let r = vec![
        CheckerKind::SystemInfo,
        CheckerKind::Cpu,
        CheckerKind::Memory,
        CheckerKind::Disk,
        CheckerKind::Processes,
        CheckerKind::Startup,
        CheckerKind::Battery,
        CheckerKind::Network,
        CheckerKind::Logs,
    ];
    assert(r@ =~= registry());
    r
}

/// The checkers to run for an `--only` list: all when the list is empty,
/// otherwise those whose name matches an entry (ignoring ASCII case), in
/// display order.
pub fn select_checkers(only: &Vec<String>) -> (r: Vec<CheckerKind>)
    ensures
        r@ == selection(only@.map_values(|s: String| s@)),
{
    let ghost ov = only@.map_values(|s: String| s@);
    let all = all_checkers();
    if only.len() == 0 {
        return all;
    }
    let mut r: Vec<CheckerKind> = Vec::new();
    for i in 0..all.len()
        invariant
            ov == only@.map_values(|s: String| s@),
            ov.len() > 0,
            all@ == registry(),
            r@ == requested_in(registry().take(i as int), ov),
    {
        let k = all[i];
        assert(registry().take(i + 1).drop_last() =~= registry().take(i as int));
        assert(registry().take(i + 1).last() == k);
        let name = k.name();
        let mut hit = false;
        for j in 0..only.len()
            invariant
                ov == only@.map_values(|s: String| s@),
                name@ == kind_name(k),
                hit == exists|q: int| 0 <= q < j && eq_ignore_ascii_case(kind_name(k), #[trigger] ov[q]),
        {
            let e = eq_ignore_ascii_case_exec(name, only[j].as_str());
            assert(ov[j as int] == only@[j as int]@);
            if e {
                hit = true;
            }
        }
        assert(hit == requested(k, ov));
        let ghost before = r@;
        if hit {
            r.push(k);
        } else {
            assert(r@ =~= before + seq![]);
        }
    }
    assert(registry().take(9) =~= registry());
    r
}

} // verus!
