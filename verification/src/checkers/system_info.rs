//! macOS version, chip, RAM, uptime, and hostname.
use vstd::prelude::*;

use crate::checker::{Checker, all_sound, 
    CheckResult, CheckResultView, Finding, FindingView, Level, empty_result, extend, issue_view,
    ok_view, opt_view,
};
use crate::checkers::disk::{GIB, gib1};
use crate::text::{
    before_first, chars_of, div_round_even, div_round_even_u128, owned, parse_nat, parse_u32,
    parse_u64, push_fixed, second_piece, second_piece_exec, split_once, string_of, trim, trim_exec,
};

verus! {

pub const UPDATE_FIX: &'static str = "Update: System Settings → General → Software Update.";

pub const UPDATE_NOW_FIX: &'static str = "Update macOS via System Settings → General → Software Update immediately.";

/// What the system-information checker reads: the trimmed outputs of
/// `sw_vers`, `uname -m`, the sysctl keys, `uptime`, and the computer name
/// (`scutil`, or `hostname` when that failed); `None` for a command that failed.
pub struct SystemReadings {
    pub product_version: Option<String>,
    pub build_version: Option<String>,
    pub arch: Option<String>,
    pub chip: Option<String>,
    pub memsize: Option<String>,
    pub physical_cpu: Option<String>,
    pub logical_cpu: Option<String>,
    pub uptime: Option<String>,
    pub hostname: Option<String>,
}

pub struct SystemReadingsView {
    pub product_version: Option<Seq<char>>,
    pub build_version: Option<Seq<char>>,
    pub arch: Option<Seq<char>>,
    pub chip: Option<Seq<char>>,
    pub memsize: Option<Seq<char>>,
    pub physical_cpu: Option<Seq<char>>,
    pub logical_cpu: Option<Seq<char>>,
    pub uptime: Option<Seq<char>>,
    pub hostname: Option<Seq<char>>,
}

impl View for SystemReadings {
    type V = SystemReadingsView;

    open spec fn view(&self) -> SystemReadingsView {
        SystemReadingsView {
            product_version: opt_view(self.product_version),
            build_version: opt_view(self.build_version),
            arch: opt_view(self.arch),
            chip: opt_view(self.chip),
            memsize: opt_view(self.memsize),
            physical_cpu: opt_view(self.physical_cpu),
            logical_cpu: opt_view(self.logical_cpu),
            uptime: opt_view(self.uptime),
            hostname: opt_view(self.hostname),
        }
    }
}

/// The value, or a default.
pub open spec fn or(o: Option<Seq<char>>, d: Seq<char>) -> Seq<char> {
    match o {
        Some(s) => s,
        None => d,
    }
}

/// A sysctl value as a `u64`: the trimmed output parsed, if it parses.
pub open spec fn sysctl_value(o: Option<Seq<char>>) -> Option<nat> {
    match o {
        Some(s) => parse_nat(trim(s), u64::MAX as nat),
        None => None,
    }
}

/// The numeric value of sysctl output (`sysctl -n key`, trimmed and parsed as a `u64`).
pub fn sysctl_u64(output: &Option<String>) -> (r: Option<u64>)
    ensures
        r matches Some(v) ==> sysctl_value(opt_view(*output)) == Some(v as nat),
        r is None ==> sysctl_value(opt_view(*output)) is None,
{
    match output {
        Some(s) => parse_u64(&trim_exec(&chars_of(s.as_str()))),
        None => None,
    }
}

/// The uptime phrase in `uptime` output: between `up ` and `, load`, trimmed.
pub open spec fn uptime_text(o: Option<Seq<char>>) -> Seq<char> {
    match o {
        Some(s) => match second_piece(s, "up "@) {
            Some(p) => trim(before_first(p, ", load"@)),
            None => "unknown"@,
        },
        None => "unknown"@,
    }
}

/// The major version: the part before the first `.`, as a `u32`, else 0.
pub open spec fn major_version(ver: Seq<char>) -> nat {
    match parse_nat(before_first(ver, seq!['.']), u32::MAX as nat) {
        Some(v) => v,
        None => 0,
    }
}

pub open spec fn version_finding(ver: Seq<char>) -> FindingView {
    let major = major_version(ver);
    if major >= 14 {
        ok_view("macOS "@ + ver + " (Sonoma or later) — fully supported."@)
    } else if major == 13 {
        ok_view("macOS "@ + ver + " (Ventura) — supported, consider upgrading to Sonoma."@)
    } else if major >= 12 {
        issue_view(Level::Warn, "macOS "@ + ver + " is Monterey or older — security updates may have ended."@, UPDATE_FIX@, 5)
    } else {
        issue_view(Level::Critical, "macOS "@ + ver + " is significantly outdated — performance optimisations and security patches are unavailable."@, UPDATE_NOW_FIX@, 10)
    }
}

/// The system-information section for the given readings.
pub open spec fn system_report(r: SystemReadingsView) -> CheckResultView {
    let ver = or(r.product_version, "Unknown"@);
    let arch = or(r.arch, "unknown"@);
    let ram = match sysctl_value(r.memsize) {
        Some(v) => v,
        None => 0,
    };
    extend(
        empty_result("System Information"@),
        seq![
            ("macOS Version"@, ver + " (Build "@ + or(r.build_version, "Unknown"@) + ")"@),
            ("Processor"@, or(r.chip, "Unknown CPU"@) + " ("@ + arch + ")"@),
            ("Silicon type"@, if trim(arch) == "arm64"@ { "Apple Silicon"@ } else { "Intel x86_64"@ }),
            ("Total RAM"@, gib1(ram) + " GB"@),
            ("CPU Cores"@, or(r.physical_cpu, "?"@) + " physical / "@ + or(r.logical_cpu, "?"@) + " logical"@),
            ("Uptime"@, uptime_text(r.uptime)),
            ("Hostname"@, or(r.hostname, "unknown"@)),
        ],
        seq![version_finding(ver)],
    )
}

fn or_exec(o: &Option<String>, d: &str) -> (s: String)
    ensures
        s@ == or(opt_view(*o), d@),
{
    match o {
        Some(s) => s.clone(),
        None => owned(d),
    }
}

fn concat3(a: &String, b: &str, c: &String, d: &str) -> (m: String)
    ensures
        m@ == a@ + b@ + c@ + d@,
{
    let mut m = a.clone();
    m.append(b);
    m.append(c.as_str());
    m.append(d);
    m
}

fn version_text(a: &str, ver: &String, b: &str) -> (m: String)
    ensures
        m@ == a@ + ver@ + b@,
{
    let mut m = owned(a);
    m.append(ver.as_str());
    m.append(b);
    m
}

fn uptime_exec(o: &Option<String>) -> (s: String)
    ensures
        s@ == uptime_text(opt_view(*o)),
{
    match o {
        Some(s) => {
            let sc = chars_of(s.as_str());
            match second_piece_exec(&sc, &chars_of("up ")) {
                Some(p) => {
                    let (head, _) = split_once(&p, &chars_of(", load"));
                    string_of(&trim_exec(&head))
                },
                None => owned("unknown"),
            }
        },
        None => owned("unknown"),
    }
}

/// macOS version, chip, RAM, uptime, and hostname.
pub struct SystemInfoChecker;

impl Checker for SystemInfoChecker {
    /// Short, unique name used in `--only <name>` filtering.
    fn name(&self) -> (r: &'static str)
        ensures
            r@ == "system-info"@,
    {
        "system-info"
    }

    /// One-line description shown in `--list` output.
    fn description(&self) -> (r: &'static str)
        ensures
            r@ == "macOS version, chip, RAM, uptime"@,
    {
        "macOS version, chip, RAM, uptime"
    }
}

impl SystemInfoChecker {

    /// The system-information section for the given readings.
    pub fn assess(readings: &SystemReadings) -> (r: CheckResult)
        ensures
            r@ == system_report(readings@),
    {
        let mut r = CheckResult::new("System Information");
        let ver = or_exec(&readings.product_version, "Unknown");
        let build = or_exec(&readings.build_version, "Unknown");
        let v1 = concat3(&ver, " (Build ", &build, ")");
        r.add_detail("macOS Version", v1.as_str());
        let arch = or_exec(&readings.arch, "unknown");
        let chip = or_exec(&readings.chip, "Unknown CPU");
        let v2 = concat3(&chip, " (", &arch, ")");
        r.add_detail("Processor", v2.as_str());
        let arm = crate::text::chars_eq(&trim_exec(&chars_of(arch.as_str())), &chars_of("arm64"));
        if arm {
            r.add_detail("Silicon type", "Apple Silicon");
        } else {
            r.add_detail("Silicon type", "Intel x86_64");
        }
        let ram: u64 = match sysctl_u64(&readings.memsize) {
            Some(v) => v,
            None => 0,
        };
        let m = div_round_even_u128(ram as u128 * 10, GIB as u128);
        assert(m <= ram * 10);
        let mut v3 = String::new();
        push_fixed(&mut v3, m as u64, 1);
        v3.append(" GB");
        r.add_detail("Total RAM", v3.as_str());
        let p = or_exec(&readings.physical_cpu, "?");
        let l = or_exec(&readings.logical_cpu, "?");
        let v4 = concat3(&p, " physical / ", &l, " logical");
        r.add_detail("CPU Cores", v4.as_str());
        let up = uptime_exec(&readings.uptime);
        r.add_detail("Uptime", up.as_str());
        let host = or_exec(&readings.hostname, "unknown");
        r.add_detail("Hostname", host.as_str());
        let dot: Vec<char> = vec!['.'];
        assert(dot@ =~= seq!['.']);
        let (head, _) = split_once(&chars_of(ver.as_str()), &dot);
        let major: u32 = match parse_u32(&head) {
            Some(v) => v,
            None => 0,
        };
        if major >= 14 {
            let msg = version_text("macOS ", &ver, " (Sonoma or later) — fully supported.");
            r.add_finding(Finding::ok(msg.as_str()));
        } else if major == 13 {
            let msg = version_text("macOS ", &ver, " (Ventura) — supported, consider upgrading to Sonoma.");
            r.add_finding(Finding::ok(msg.as_str()));
        } else if major >= 12 {
            let msg = version_text("macOS ", &ver, " is Monterey or older — security updates may have ended.");
            r.add_finding(Finding::warn(msg.as_str(), UPDATE_FIX, 5));
        } else {
            let msg = version_text("macOS ", &ver, " is significantly outdated — performance optimisations and security patches are unavailable.");
            r.add_finding(Finding::critical(msg.as_str(), UPDATE_NOW_FIX, 10));
        }
        assert(r@.details =~= system_report(readings@).details);
        assert(r@.findings =~= system_report(readings@).findings);
        r
    }
}

/// Every finding of the system-information section is sound: exactly its
/// warnings and critical findings carry a fix and deduct points.
pub proof fn law_system_findings_sound(r: SystemReadingsView)
    ensures
        all_sound(system_report(r).findings),
{
    let ver = or(r.product_version, "Unknown"@);
    assert(system_report(r).findings =~= seq![version_finding(ver)]);
}

} // verus!
