//! Boot volume usage, S.M.A.R.T. health, and largest home directories.
use vstd::prelude::*;

use crate::checker::{Checker, all_sound, lemma_empty_sound, lemma_extend_sound, 
    CheckResult, CheckResultView, Finding, FindingView, Level, detail_if, empty_result, extend,
    issue_view, ok_view, opt_view,
};
use crate::scorer::{health_of, smart_failure_in};
use crate::text::{
    after_first, before_first, chars_of, contains, contains_exec, dec, dec_lit, dec_string,
    div_round_even, div_round_even_u128, fixed, lines, lit_dec_lit, lowercase, lowercase_chars,
    owned, push_char, push_dec, push_fixed, replace_all, replace_exec, second_piece,
    second_piece_exec, split_lines, split_once, string_of, trim, trim_exec, views, ascii_upto, find, occurs_at,
};

verus! {

/// Bytes in a gibibyte.
pub const GIB: u64 = 1073741824;

pub const DISK_CRITICAL_FIX: &'static str = "URGENT: Free space immediately.\n→ System Settings → General → Storage → Recommendations\n→ Delete large files in ~/Downloads, empty Trash\n→ 'du -sh ~/Library/Caches/*' to find large caches";

pub const DISK_HIGH_FIX: &'static str = "Free at least 20 GB via System Settings → General → Storage.";

pub const DISK_MODERATE_FIX: &'static str = "Run System Settings → Storage → Recommendations for easy wins.";

pub const SMART_FIX: &'static str = "CRITICAL: Back up all data immediately to Time Machine or external drive.\nBook an Apple Genius Bar appointment or contact Apple Support.\nA failing drive alone is a strong signal to replace hardware.";

/// A mounted volume: mount point, total and available bytes.
pub struct Volume {
    pub mount_point: String,
    pub total_bytes: u64,
    pub available_bytes: u64,
}

pub struct VolumeView {
    pub mount_point: Seq<char>,
    pub total_bytes: u64,
    pub available_bytes: u64,
}

impl View for Volume {
    type V = VolumeView;

    open spec fn view(&self) -> VolumeView {
        VolumeView {
            mount_point: self.mount_point@,
            total_bytes: self.total_bytes,
            available_bytes: self.available_bytes,
        }
    }
}

/// What the disk checker reads: the mounted volumes, the mount points of a
/// second listing (counted as other volumes), `diskutil info /` output, and
/// the home directory with the `du` listing of its largest directories.
pub struct DiskReadings {
    pub volumes: Vec<Volume>,
    pub later_mounts: Vec<String>,
    pub diskutil_info: Option<String>,
    pub home: Option<String>,
    pub du_output: Option<String>,
}

pub struct DiskReadingsView {
    pub volumes: Seq<VolumeView>,
    pub later_mounts: Seq<Seq<char>>,
    pub diskutil_info: Option<Seq<char>>,
    pub home: Option<Seq<char>>,
    pub du_output: Option<Seq<char>>,
}

impl View for DiskReadings {
    type V = DiskReadingsView;

    open spec fn view(&self) -> DiskReadingsView {
        DiskReadingsView {
            volumes: self.volumes@.map_values(|v: Volume| v@),
            later_mounts: self.later_mounts@.map_values(|s: String| s@),
            diskutil_info: opt_view(self.diskutil_info),
            home: opt_view(self.home),
            du_output: opt_view(self.du_output),
        }
    }
}

/// Bytes in GiB with one decimal, rounded half to even, as `{:.1}` prints it.
pub open spec fn gib1(bytes: nat) -> Seq<char> {
    fixed(div_round_even(bytes * 10, GIB as nat), 1)
}

/// The used space in GiB with one decimal; negative when more is available than the total.
pub open spec fn used_gib1(total: nat, avail: nat) -> Seq<char> {
    if avail <= total {
        gib1((total - avail) as nat)
    } else {
        seq!['-'] + gib1((avail - total) as nat)
    }
}

/// Whole percent used, rounded down (0 for an empty or over-reported volume).
pub open spec fn used_pct(total: nat, avail: nat) -> nat {
    if total > 0 && avail < total {
        ((total - avail) * 100 / total as int) as nat
    } else {
        0
    }
}

/// Index of the first volume, from `i` on, mounted at `/`.
pub open spec fn boot_from(vs: Seq<VolumeView>, i: int) -> Option<int>
    decreases vs.len() - i,
{
    if i < 0 || i >= vs.len() {
        None
    } else if vs[i].mount_point == "/"@ {
        Some(i)
    } else {
        boot_from(vs, i + 1)
    }
}

pub open spec fn boot_details(t: nat, a: nat) -> Seq<(Seq<char>, Seq<char>)> {
    seq![
        ("Total Size"@, gib1(t) + " GB"@),
        ("Used"@, used_gib1(t, a) + " GB ("@ + dec(used_pct(t, a)) + "%)"@),
        ("Available"@, gib1(a) + " GB"@),
    ]
}

pub open spec fn boot_findings(t: nat, a: nat) -> Seq<FindingView> {
    let pct = used_pct(t, a);
    if pct >= 95 {
        seq![issue_view(Level::Critical, "Disk is critically full ("@ + dec(pct) + "%). macOS will become unstable."@, DISK_CRITICAL_FIX@, 30)]
    } else if pct >= 85 {
        seq![issue_view(Level::Warn, "Disk is "@ + dec(pct) + "% full. macOS requires ~10% free for efficient operation."@, DISK_HIGH_FIX@, 15)]
    } else if pct >= 70 {
        seq![issue_view(Level::Warn, "Disk at "@ + dec(pct) + "%. Consider a clean-up before it becomes critical."@, DISK_MODERATE_FIX@, 5)]
    } else {
        seq![ok_view("Disk usage is healthy ("@ + dec(pct) + "% used, "@ + gib1(a) + " GB free)."@)]
    }
}

pub open spec fn volume_details(r: DiskReadingsView) -> Seq<(Seq<char>, Seq<char>)> {
    match boot_from(r.volumes, 0) {
        Some(i) => boot_details(r.volumes[i].total_bytes as nat, r.volumes[i].available_bytes as nat),
        None => seq![("Boot Volume"@, "Not found via sysinfo"@)],
    }
}

pub open spec fn volume_findings(r: DiskReadingsView) -> Seq<FindingView> {
    match boot_from(r.volumes, 0) {
        Some(i) => boot_findings(r.volumes[i].total_bytes as nat, r.volumes[i].available_bytes as nat),
        None => seq![],
    }
}

/// Index of the first line, from `i` on, whose lowercase form mentions "smart status".
pub open spec fn smart_line_from(ls: Seq<Seq<char>>, i: int) -> Option<int>
    decreases ls.len() - i,
{
    if i < 0 || i >= ls.len() {
        None
    } else if contains(lowercase(ls[i]), "smart status"@) {
        Some(i)
    } else {
        smart_line_from(ls, i + 1)
    }
}

/// The S.M.A.R.T. status `diskutil info` reports, or `Not Available`.
pub open spec fn smart_status(out: Seq<char>) -> Seq<char> {
    let ls = lines(out);
    match smart_line_from(ls, 0) {
        Some(i) => match second_piece(ls[i], seq![':']) {
            Some(v) => trim(v),
            None => trim("Not Available"@),
        },
        None => trim("Not Available"@),
    }
}

pub open spec fn smart_details(r: DiskReadingsView) -> Seq<(Seq<char>, Seq<char>)> {
    match r.diskutil_info {
        Some(out) => {
            let s = smart_status(out);
            let l = lowercase(s);
            seq![("S.M.A.R.T. Status"@, s)] + detail_if(
                !contains(l, "fail"@) && !(contains(l, "verified"@) || contains(l, "ok"@) || contains(l, "passed"@)),
                "S.M.A.R.T. Note"@,
                "Status unclear — may be an APFS container"@,
            )
        },
        None => seq![],
    }
}

pub open spec fn smart_findings(r: DiskReadingsView) -> Seq<FindingView> {
    match r.diskutil_info {
        Some(out) => {
            let s = smart_status(out);
            let l = lowercase(s);
            if contains(l, "fail"@) {
                seq![issue_view(Level::Critical, "S.M.A.R.T. Status: "@ + s + " — drive hardware is failing."@, SMART_FIX@, 40)]
            } else if contains(l, "verified"@) || contains(l, "ok"@) || contains(l, "passed"@) {
                seq![ok_view("S.M.A.R.T. Status: "@ + s + " — drive health is good."@)]
            } else {
                seq![]
            }
        },
        None => seq![],
    }
}

/// Mount points other than `/`.
pub open spec fn other_count(ms: Seq<Seq<char>>) -> nat
    decreases ms.len(),
{
    if ms.len() == 0 {
        0
    } else {
        other_count(ms.drop_last()) + if ms.last() != "/"@ { 1nat } else { 0nat }
    }
}

/// One `du` line as a detail: the path after the tab with the home
/// directory shown as `~` (`?` when there is no tab), and the size before it.
pub open spec fn du_detail(line: Seq<char>, home: Seq<char>) -> (Seq<char>, Seq<char>) {
    let path = match after_first(line, seq!['\t']) {
        Some(p) => p,
        None => "?"@,
    };
    ("  "@ + replace_all(path, home, "~"@), before_first(line, seq!['\t']))
}

pub open spec fn du_details(r: DiskReadingsView) -> Seq<(Seq<char>, Seq<char>)> {
    seq![("Large Home Dirs (top 6)"@, seq![])] + match (r.home, r.du_output) {
        (Some(h), Some(out)) => lines(out).map_values(|l: Seq<char>| du_detail(l, h)),
        _ => seq![],
    }
}

/// The disk section for the given readings.
pub open spec fn disk_report(r: DiskReadingsView) -> CheckResultView {
    let r0 = empty_result("Storage & Disk Health"@);
    let r1 = extend(r0, volume_details(r), volume_findings(r));
    let r2 = extend(r1, smart_details(r), smart_findings(r));
    let r3 = extend(r2, detail_if(other_count(r.later_mounts) > 0, "Other Volumes"@, dec(other_count(r.later_mounts))), seq![]);
    extend(r3, du_details(r), seq![])
}

fn push_gib1(s: &mut String, bytes: u64)
    ensures
        final(s)@ == old(s)@ + gib1(bytes as nat),
{
    let m = div_round_even_u128(bytes as u128 * 10, GIB as u128);
    assert(m <= bytes * 10);
    assert(m < 0x1_0000_0000_0000_0000u128) by {
        assert(div_round_even(bytes as nat * 10, GIB as nat) <= (bytes as nat * 10) / (GIB as nat) + 1);
    }
    push_fixed(s, m as u64, 1);
}

fn boot_index(readings: &DiskReadings) -> (r: Option<usize>)
    ensures
        r matches Some(i) ==> boot_from(readings@.volumes, 0) == Some(i as int) && i < readings.volumes@.len(),
        r is None ==> boot_from(readings@.volumes, 0) is None,
{
    let ghost vs = readings@.volumes;
    let mut i: usize = 0;
    let n = readings.volumes.len();
    let root = chars_of("/");
    while i < n
        invariant
            n == readings.volumes@.len(),
            vs == readings@.volumes,
            root@ == "/"@,
            i <= n,
            boot_from(vs, 0) == boot_from(vs, i as int),
        decreases n - i,
    {
        assert(vs[i as int] == readings.volumes@[i as int]@);
        if crate::text::chars_eq(&chars_of(readings.volumes[i].mount_point.as_str()), &root) {
            return Some(i);
        }
        i = i + 1;
    }
    None
}

fn used_pct_exec(t: u64, a: u64) -> (pct: u64)
    ensures
        pct == used_pct(t as nat, a as nat),
        pct <= 100,
{
    if t > 0 && a < t {
        let d = t - a;
        assert((d as int) * 100 / (t as int) <= 100) by (nonlinear_arith)
            requires
                d <= t,
                t > 0,
        ;
        ((d as u128 * 100) / t as u128) as u64
    } else {
        0
    }
}

fn add_boot_details(r: &mut CheckResult, t: u64, a: u64, pct: u64)
    requires
        pct == used_pct(t as nat, a as nat),
    ensures
        final(r)@ == extend(old(r)@, boot_details(t as nat, a as nat), seq![]),
{
    let mut total = String::new();
    push_gib1(&mut total, t);
    total.append(" GB");
    r.add_detail("Total Size", total.as_str());
    let mut used = String::new();
    if a <= t {
        push_gib1(&mut used, t - a);
    } else {
        push_char(&mut used, '-');
        push_gib1(&mut used, a - t);
    }
    used.append(" GB (");
    push_dec(&mut used, pct);
    used.append("%)");
    assert(used@ =~= used_gib1(t as nat, a as nat) + " GB ("@ + dec(pct as nat) + "%)"@);
    r.add_detail("Used", used.as_str());
    let mut avail = String::new();
    push_gib1(&mut avail, a);
    avail.append(" GB");
    r.add_detail("Available", avail.as_str());
    assert(final(r)@.details =~= old(r)@.details + boot_details(t as nat, a as nat));
    assert(final(r)@.findings =~= old(r)@.findings + seq![]);
}

fn add_boot_findings(r: &mut CheckResult, t: u64, a: u64, pct: u64)
    requires
        pct == used_pct(t as nat, a as nat),
    ensures
        final(r)@ == extend(old(r)@, seq![], boot_findings(t as nat, a as nat)),
{
    if pct >= 95 {
        let m = lit_dec_lit("Disk is critically full (", pct, "%). macOS will become unstable.");
        r.add_finding(Finding::critical(m.as_str(), DISK_CRITICAL_FIX, 30));
    } else if pct >= 85 {
        let m = lit_dec_lit("Disk is ", pct, "% full. macOS requires ~10% free for efficient operation.");
        r.add_finding(Finding::warn(m.as_str(), DISK_HIGH_FIX, 15));
    } else if pct >= 70 {
        let m = lit_dec_lit("Disk at ", pct, "%. Consider a clean-up before it becomes critical.");
        r.add_finding(Finding::warn(m.as_str(), DISK_MODERATE_FIX, 5));
    } else {
        let mut m = lit_dec_lit("Disk usage is healthy (", pct, "% used, ");
        push_gib1(&mut m, a);
        m.append(" GB free).");
        r.add_finding(Finding::ok(m.as_str()));
    }
    assert(final(r)@.details =~= old(r)@.details + seq![]);
    assert(final(r)@.findings =~= old(r)@.findings + boot_findings(t as nat, a as nat));
}

fn add_volume_part(r: &mut CheckResult, readings: &DiskReadings)
    ensures
        final(r)@ == extend(old(r)@, volume_details(readings@), volume_findings(readings@)),
{
    match boot_index(readings) {
        Some(i) => {
            let v = &readings.volumes[i];
            assert(readings@.volumes[i as int] == v@);
            let t = v.total_bytes;
            let a = v.available_bytes;
            let pct = used_pct_exec(t, a);
            add_boot_details(r, t, a, pct);
            add_boot_findings(r, t, a, pct);
        },
        None => {
            r.add_detail("Boot Volume", "Not found via sysinfo");
        },
    }
    assert(final(r)@.details =~= old(r)@.details + volume_details(readings@));
    assert(final(r)@.findings =~= old(r)@.findings + volume_findings(readings@));
}

fn smart_status_exec(out: &String) -> (s: Vec<char>)
    ensures
        s@ == smart_status(out@),
{
    let ls = split_lines(&chars_of(out.as_str()));
    let ghost lv = views(ls@);
    let want = chars_of("smart status");
    let colon: Vec<char> = vec![':'];
    assert(colon@ =~= seq![':']);
    let mut i: usize = 0;
    while i < ls.len()
        invariant
            lv == views(ls@),
            lv == lines(out@),
            want@ == "smart status"@,
            colon@ == seq![':'],
            i <= ls@.len(),
            smart_line_from(lv, 0) == smart_line_from(lv, i as int),
        decreases ls@.len() - i,
    {
        assert(lv[i as int] == ls@[i as int]@);
        if contains_exec(&lowercase_chars(&ls[i]), &want) {
            return match second_piece_exec(&ls[i], &colon) {
                Some(v) => trim_exec(&v),
                None => trim_exec(&chars_of("Not Available")),
            };
        }
        i = i + 1;
    }
    trim_exec(&chars_of("Not Available"))
}

fn add_smart_part(r: &mut CheckResult, readings: &DiskReadings)
    ensures
        final(r)@ == extend(old(r)@, smart_details(readings@), smart_findings(readings@)),
{
    match &readings.diskutil_info {
        Some(out) => {
            let sc = smart_status_exec(out);
            let s = string_of(&sc);
            r.add_detail("S.M.A.R.T. Status", s.as_str());
            let l = lowercase_chars(&sc);
            if contains_exec(&l, &chars_of("fail")) {
                let mut m = owned("S.M.A.R.T. Status: ");
                m.append(s.as_str());
                m.append(" — drive hardware is failing.");
                r.add_finding(Finding::critical(m.as_str(), SMART_FIX, 40));
            } else if contains_exec(&l, &chars_of("verified")) || contains_exec(&l, &chars_of("ok"))
                || contains_exec(&l, &chars_of("passed")) {
                let mut m = owned("S.M.A.R.T. Status: ");
                m.append(s.as_str());
                m.append(" — drive health is good.");
                r.add_finding(Finding::ok(m.as_str()));
            } else {
                r.add_detail("S.M.A.R.T. Note", "Status unclear — may be an APFS container");
            }
        },
        None => {},
    }
    assert(final(r)@.details =~= old(r)@.details + smart_details(readings@));
    assert(final(r)@.findings =~= old(r)@.findings + smart_findings(readings@));
}

fn count_other(ms: &Vec<String>) -> (n: usize)
    ensures
        n == other_count(ms@.map_values(|s: String| s@)),
{
    let ghost mv = ms@.map_values(|s: String| s@);
    let root = chars_of("/");
    let mut n: usize = 0;
    for i in 0..ms.len()
        invariant
            mv == ms@.map_values(|s: String| s@),
            root@ == "/"@,
            n == other_count(mv.take(i as int)),
            n <= i,
    {
        assert(mv.take(i + 1).drop_last() =~= mv.take(i as int));
        assert(mv[i as int] == ms@[i as int]@);
        if !crate::text::chars_eq(&chars_of(ms[i].as_str()), &root) {
            n = n + 1;
        }
    }
    assert(mv.take(ms@.len() as int) =~= mv);
    n
}

fn add_du_part(r: &mut CheckResult, readings: &DiskReadings)
    ensures
        final(r)@ == extend(old(r)@, du_details(readings@), seq![]),
{
    let empty = String::new();
    r.add_detail("Large Home Dirs (top 6)", empty.as_str());
    match (&readings.home, &readings.du_output) {
        (Some(h), Some(out)) => {
            let hc = chars_of(h.as_str());
            let tilde = chars_of("~");
            let tab: Vec<char> = vec!['\t'];
            assert(tab@ =~= seq!['\t']);
            let ls = split_lines(&chars_of(out.as_str()));
            let ghost lv = views(ls@);
            let ghost base = r@;
            for i in 0..ls.len()
                invariant
                    lv == views(ls@),
                    lv == lines(out@),
                    hc@ == h@,
                    tilde@ == "~"@,
                    tab@ == seq!['\t'],
                    r@ == extend(base, lv.take(i as int).map_values(|l: Seq<char>| du_detail(l, h@)), seq![]),
            {
                assert(lv[i as int] == ls@[i as int]@);
                let (size, rest) = split_once(&ls[i], &tab);
                let path = match rest {
                    Some(p) => p,
                    None => chars_of("?"),
                };
                let mut key = owned("  ");
                let replaced = replace_exec(&path, &hc, &tilde);
                key.append(replaced.as_str());
                let value = string_of(&size);
                r.add_detail(key.as_str(), value.as_str());
                assert(du_detail(lv[i as int], h@) == (key@, value@));
                assert(lv.take(i + 1) =~= lv.take(i as int).push(lv[i as int]));
                assert(lv.take(i + 1).map_values(|l: Seq<char>| du_detail(l, h@)) =~= lv.take(i as int).map_values(|l: Seq<char>| du_detail(l, h@)).push(du_detail(lv[i as int], h@)));
                assert(r@.details =~= base.details + lv.take(i + 1).map_values(|l: Seq<char>| du_detail(l, h@)));
                assert(r@.findings =~= base.findings + seq![]);
            }
            assert(lv.take(ls@.len() as int) =~= lv);
        },
        _ => {},
    }
    assert(final(r)@.details =~= old(r)@.details + du_details(readings@));
    assert(final(r)@.findings =~= old(r)@.findings + seq![]);
}

/// Boot volume usage, S.M.A.R.T. health, and largest home directories.
pub struct DiskChecker;

impl Checker for DiskChecker {
    /// Short, unique name used in `--only <name>` filtering.
    fn name(&self) -> (r: &'static str)
        ensures
            r@ == "disk"@,
    {
        "disk"
    }

    /// One-line description shown in `--list` output.
    fn description(&self) -> (r: &'static str)
        ensures
            r@ == "Boot volume usage, S.M.A.R.T. health, and largest home directories"@,
    {
        "Boot volume usage, S.M.A.R.T. health, and largest home directories"
    }
}

impl DiskChecker {

    /// The disk section for the given readings.
    pub fn assess(readings: &DiskReadings) -> (r: CheckResult)
        ensures
            r@ == disk_report(readings@),
    {
        let mut r = CheckResult::new("Storage & Disk Health");
        add_volume_part(&mut r, readings);
        add_smart_part(&mut r, readings);
        let others = count_other(&readings.later_mounts);
        let ghost before = r@;
        if others > 0 {
            let d = dec_string(others as u64);
            r.add_detail("Other Volumes", d.as_str());
        }
        assert(r@ =~= extend(before, detail_if(other_count(readings@.later_mounts) > 0, "Other Volumes"@, dec(other_count(readings@.later_mounts))), seq![]));
        add_du_part(&mut r, readings);
        r
    }
}

/// Every finding of the disk section is sound: exactly its warnings and
/// critical findings carry a fix and deduct points.
pub proof fn law_disk_findings_sound(r: DiskReadingsView)
    ensures
        all_sound(disk_report(r).findings),
{
    lemma_empty_sound("Storage & Disk Health"@);
    let r0 = empty_result("Storage & Disk Health"@);
    assert(all_sound(volume_findings(r)));
    lemma_extend_sound(r0, volume_details(r), volume_findings(r));
    let r1 = extend(r0, volume_details(r), volume_findings(r));
    assert(all_sound(smart_findings(r)));
    lemma_extend_sound(r1, smart_details(r), smart_findings(r));
    let r2 = extend(r1, smart_details(r), smart_findings(r));
    let od = detail_if(other_count(r.later_mounts) > 0, "Other Volumes"@, dec(other_count(r.later_mounts)));
    lemma_extend_sound(r2, od, seq![]);
    let r3 = extend(r2, od, seq![]);
    lemma_extend_sound(r3, du_details(r), seq![]);
}

/// A failing drive: when `diskutil info /` reported a S.M.A.R.T. status
/// whose lower-cased form mentions "fail", the disk section holds, right
/// after the boot-volume findings, a critical finding that deducts 40 and
/// reads "S.M.A.R.T. Status: {status} — drive hardware is failing.". When
/// the lower-cased form of that message mentions "s.m.a.r.t" (as std's
/// mapping of the leading "S.M.A.R.T." gives; the trusted name for
/// `str::to_lowercase` states nothing about given strings, so this stands as
/// a condition), the score flags a failing drive.
pub proof fn law_failing_drive_is_flagged(r: DiskReadingsView)
    requires
        r.diskutil_info is Some,
        contains(lowercase(smart_status(r.diskutil_info.unwrap())), "fail"@),
    ensures
        volume_findings(r).len() < disk_report(r).findings.len(),
        ({
            let f = disk_report(r).findings[volume_findings(r).len() as int];
            &&& f.level == Level::Critical
            &&& f.score_deduction == 40
            &&& f.solution == Some(SMART_FIX@)
            &&& f.message == "S.M.A.R.T. Status: "@ + smart_status(r.diskutil_info.unwrap())
                + " — drive hardware is failing."@
            &&& (contains(lowercase(f.message), "s.m.a.r.t"@) ==> health_of(seq![disk_report(r)]).smart_failure)
        }),
{
    let vf = volume_findings(r);
    let sf = smart_findings(r);
    let fs = disk_report(r).findings;
    assert(fs =~= Seq::<FindingView>::empty() + vf + sf + Seq::<FindingView>::empty() + Seq::<FindingView>::empty());
    let k = vf.len() as int;
    assert(fs[k] == sf[0]);
    let rs = seq![disk_report(r)];
    assert(rs[0] == disk_report(r));
    if contains(lowercase(fs[k].message), "s.m.a.r.t"@) {
        assert(rs[0].findings[k].level == Level::Critical);
        assert(smart_failure_in(rs));
    }
}

/// Whether `diskutil info /` reported a S.M.A.R.T. status whose
/// lower-cased form mentions "fail". When it did, this lowercases the
/// resulting critical message at run time and tests that it mentions
/// "s.m.a.r.t" (it does: it starts with the ASCII text "S.M.A.R.T. Status: "),
/// so the score flags a failing drive.
pub fn failing_drive_is_flagged(readings: &DiskReadings) -> (b: bool)
    ensures
        b == (readings@.diskutil_info is Some && contains(
            lowercase(smart_status(readings@.diskutil_info.unwrap())),
            "fail"@,
        )),
        b ==> health_of(seq![disk_report(readings@)]).smart_failure,
{
    match &readings.diskutil_info {
        None => false,
        Some(out) => {
            let st = smart_status_exec(out);
            let low = lowercase_chars(&st);
            if !contains_exec(&low, &chars_of("fail")) {
                return false;
            }
            let mut m = chars_of("S.M.A.R.T. Status: ");
            let ghost head = m@;
            let tail = chars_of(" — drive hardware is failing.");
            let mut k: usize = 0;
            while k < st.len()
                invariant
                    m@ == head + st@.take(k as int),
                    k <= st@.len(),
                decreases st@.len() - k,
            {
                m.push(st[k]);
                assert(st@.take(k + 1) =~= st@.take(k as int).push(st@[k as int]));
                k = k + 1;
            }
            assert(st@.take(st@.len() as int) =~= st@);
            let ghost mid = m@;
            let mut j: usize = 0;
            while j < tail.len()
                invariant
                    m@ == mid + tail@.take(j as int),
                    j <= tail@.len(),
                decreases tail@.len() - j,
            {
                m.push(tail[j]);
                assert(tail@.take(j + 1) =~= tail@.take(j as int).push(tail@[j as int]));
                j = j + 1;
            }
            assert(tail@.take(tail@.len() as int) =~= tail@);
            let lm = lowercase_chars(&m);
            proof {
                reveal_strlit("S.M.A.R.T. Status: ");
                reveal_strlit("s.m.a.r.t");
                assert(m@ == "S.M.A.R.T. Status: "@ + smart_status(out@) + " — drive hardware is failing."@);
                assert(m@[0] == 'S');
                assert(ascii_upto(m@, 9));
                assert(lm@.subrange(0, 9) =~= "s.m.a.r.t"@);
                assert(occurs_at(lm@, "s.m.a.r.t"@, 0));
                assert(find(lm@, "s.m.a.r.t"@) == Some(0int));
            }
            if contains_exec(&lm, &chars_of("s.m.a.r.t")) {
                proof {
                    law_failing_drive_is_flagged(readings@);
                }
                true
            } else {
                false
            }
        },
    }
}

} // verus!
