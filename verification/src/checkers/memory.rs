//! RAM usage, swap pressure, and memory-compressor activity.
use vstd::prelude::*;

use crate::checker::{Checker, all_sound, lemma_empty_sound, lemma_extend_sound, lemma_sound_concat, 
    CheckResult, CheckResultView, Finding, FindingView, Level, detail_if, empty_result, extend,
    finding_if, issue_view, ok_view,
};
use crate::ranking::{top_indices, top_order};
use crate::scorer::{
    EraseRecommendation, crash_section_from, erase_advice, health_of, lemma_crash_from_bounds,
    lemma_panic_from_bounds, panic_detail_from, smart_failure_in,
};
use crate::text::{
    chars_of, contains, contains_exec, dec, dec_lit, dec_string, div_round_even, div_round_even_u128,
    lines, line_with, line_with_exec, lit_dec_lit, parse_nat, parse_u64, push_dec, split_lines,
    split_words, string_of, trim, trim_end_char, trim_end_char_exec, trim_exec, views, words,
    lemma_dec_then_text_not_number, lemma_missing_first_char, lowercase, lowercase_chars,
};

verus! {

/// Bytes in a mebibyte.
pub const MIB: u64 = 1048576;

// ───────────────────────────── vm_stat ─────────────────────────────

/// The raw numbers `vm_stat` prints: page size and page counts.
pub struct VmCounts {
    pub page_size: u64,
    pub inactive_pages: u64,
    pub compressed_pages: u64,
    pub swapouts: u64,
}

/// Page-level memory figures derived from `vm_stat`.
pub struct VmStat {
    pub inactive_mb: u64,
    pub compressed_mb: u64,
    pub swapouts: u64,
}

/// The value of the first word that parses as a `u64`.
pub open spec fn first_number(ws: Seq<Seq<char>>) -> Option<nat>
    decreases ws.len(),
{
    if ws.len() == 0 {
        None
    } else if parse_nat(ws[0], u64::MAX as nat) is Some {
        parse_nat(ws[0], u64::MAX as nat)
    } else {
        first_number(ws.drop_first())
    }
}

/// The page size in the header line of `vm_stat` output (4096 when absent).
pub open spec fn page_size_of(out: Seq<char>) -> u64 {
    let ls = lines(out);
    if ls.len() == 0 {
        4096
    } else {
        match first_number(words(ls[0], false)) {
            Some(v) => v as u64,
            None => 4096,
        }
    }
}

/// The count on the first line containing `key`: its last word without
/// trailing dots, parsed as a `u64` (0 when absent).
pub open spec fn pages_for(out: Seq<char>, key: Seq<char>) -> u64 {
    match line_with(lines(out), key) {
        Some(l) => {
            let w = words(l, false);
            if w.len() == 0 {
                0
            } else {
                match parse_nat(trim_end_char(w.last(), '.'), u64::MAX as nat) {
                    Some(v) => v as u64,
                    None => 0,
                }
            }
        },
        None => 0,
    }
}

pub open spec fn vm_counts(out: Seq<char>) -> (u64, u64, u64, u64) {
    (
        page_size_of(out),
        pages_for(out, "Pages inactive:"@),
        pages_for(out, "Pages occupied by compressor:"@),
        pages_for(out, "Swapouts:"@),
    )
}

impl VmCounts {
    pub open spec fn view_tuple(&self) -> (u64, u64, u64, u64) {
        (self.page_size, self.inactive_pages, self.compressed_pages, self.swapouts)
    }

    /// The page counts times the page size fit in a `u64`.
    pub open spec fn spec_fits(&self) -> bool {
        self.inactive_pages * self.page_size <= u64::MAX && self.compressed_pages * self.page_size
            <= u64::MAX
    }

    /// Whether the byte totals can be computed without overflow.
    pub fn fits(&self) -> (b: bool)
        ensures
            b == self.spec_fits(),
    {
        let x = self.inactive_pages as u128;
        let y = self.compressed_pages as u128;
        let z = self.page_size as u128;
        assert(x * z <= 0xffff_ffff_ffff_ffff * 0xffff_ffff_ffff_ffffu128) by (nonlinear_arith)
            requires
                x <= 0xffff_ffff_ffff_ffff,
                z <= 0xffff_ffff_ffff_ffff,
        ;
        assert(y * z <= 0xffff_ffff_ffff_ffff * 0xffff_ffff_ffff_ffffu128) by (nonlinear_arith)
            requires
                y <= 0xffff_ffff_ffff_ffff,
                z <= 0xffff_ffff_ffff_ffff,
        ;
        let a = x * z;
        let c = y * z;
        a <= u64::MAX as u128 && c <= u64::MAX as u128
    }

    /// Inactive and compressed memory in MiB (pages × page size / 2^20).
    pub fn stat(&self) -> (s: VmStat)
        requires
            self.spec_fits(),
        ensures
            s.inactive_mb == self.inactive_pages * self.page_size / MIB as int,
            s.compressed_mb == self.compressed_pages * self.page_size / MIB as int,
            s.swapouts == self.swapouts,
    {
        VmStat {
            inactive_mb: self.inactive_pages * self.page_size / MIB,
            compressed_mb: self.compressed_pages * self.page_size / MIB,
            swapouts: self.swapouts,
        }
    }
}

fn first_number_exec(ws: &Vec<Vec<char>>) -> (r: Option<u64>)
    ensures
        r matches Some(v) ==> first_number(views(ws@)) == Some(v as nat),
        r is None ==> first_number(views(ws@)) is None,
{
    let ghost wv = views(ws@);
    let mut i: usize = 0;
    assert(wv.subrange(0, wv.len() as int) =~= wv);
    while i < ws.len()
        invariant
            wv == views(ws@),
            i <= ws@.len(),
            first_number(wv) == first_number(wv.subrange(i as int, wv.len() as int)),
        decreases ws@.len() - i,
    {
        let ghost rest = wv.subrange(i as int, wv.len() as int);
        assert(rest[0] == ws@[i as int]@);
        assert(rest.drop_first() =~= wv.subrange(i + 1, wv.len() as int));
        match parse_u64(&ws[i]) {
            Some(v) => {
                return Some(v);
            },
            None => {},
        }
        i = i + 1;
    }
    None
}

fn pages_for_exec(ls: &Vec<Vec<char>>, key: &str) -> (r: u64)
    ensures
        r == (match line_with(views(ls@), key@) {
            Some(l) => {
                let w = words(l, false);
                if w.len() == 0 {
                    0u64
                } else {
                    match parse_nat(trim_end_char(w.last(), '.'), u64::MAX as nat) {
                        Some(v) => v as u64,
                        None => 0u64,
                    }
                }
            },
            None => 0u64,
        }),
{
    match line_with_exec(ls, key) {
        Some(l) => {
            let w = split_words(&l, false);
            if w.len() == 0 {
                0
            } else {
                let last = &w[w.len() - 1];
                assert(views(w@).last() == last@);
                match parse_u64(&trim_end_char_exec(last, '.')) {
                    Some(v) => v,
                    None => 0,
                }
            }
        },
        None => 0,
    }
}

/// Parses the page size and the inactive, compressed and swap-out counts
/// from `vm_stat` output.
pub fn parse_vm_stat(out: &str) -> (c: VmCounts)
    ensures
        c.view_tuple() == vm_counts(out@),
{
    let ls = split_lines(&chars_of(out));
    let page_size: u64 = if ls.len() == 0 {
        4096
    } else {
        assert(views(ls@)[0] == ls@[0]@);
        let ws = split_words(&ls[0], false);
        match first_number_exec(&ws) {
            Some(v) => v,
            None => 4096,
        }
    };
    VmCounts {
        page_size,
        inactive_pages: pages_for_exec(&ls, "Pages inactive:"),
        compressed_pages: pages_for_exec(&ls, "Pages occupied by compressor:"),
        swapouts: pages_for_exec(&ls, "Swapouts:"),
    }
}

// ───────────────────────────── the report ─────────────────────────────

pub const SWAP_CRITICAL_FIX: &'static str = "Close memory-intensive apps (browser tabs, Slack, Teams, Docker).\nIf this occurs regularly, the Mac needs more RAM.\nOn Apple Silicon RAM cannot be upgraded post-purchase.";

pub const SWAP_HIGH_FIX: &'static str = "Monitor RAM consumption in Activity Monitor → Memory tab.\nBrowser tabs are common culprits — limit open tabs or use Safari.";

pub const SWAP_ACTIVE_FIX: &'static str = "Normal after heavy workloads; restart the Mac to clear if performance feels slow.";

pub const SWAPOUT_CRITICAL_FIX: &'static str = "A restart will clear the counter. If swapouts climb quickly after a fresh\nboot, close unused apps or upgrade to a Mac with more RAM.";

pub const SWAPOUT_HIGH_FIX: &'static str = "Monitor which apps consume the most RAM in Activity Monitor → Memory tab.";

pub const COMPRESSOR_FIX: &'static str = "macOS compresses memory to delay swapping. If consistent, you're near\nthe RAM ceiling. Quit apps you don't use or restart to clear compression.";

pub const PRESSURE_CRITICAL_FIX: &'static str = "Immediately close memory-heavy apps. Restart if sluggish.\nPersistent critical pressure means you need more RAM.";

pub const PRESSURE_WARN_FIX: &'static str = "Close browser tabs, quit apps running in background (Slack, Teams, Spotify).";

/// What the memory checker reads: totals in bytes, `vm_stat` and
/// `memory_pressure` output (when the commands ran), and each process's
/// name and resident memory in bytes.
pub struct MemoryReadings {
    pub total_bytes: u64,
    pub used_bytes: u64,
    pub available_bytes: u64,
    pub swap_total_bytes: u64,
    pub swap_used_bytes: u64,
    pub vm_stat: Option<String>,
    pub memory_pressure: Option<String>,
    pub processes: Vec<(String, u64)>,
}

pub struct MemoryReadingsView {
    pub total_bytes: u64,
    pub used_bytes: u64,
    pub available_bytes: u64,
    pub swap_total_bytes: u64,
    pub swap_used_bytes: u64,
    pub vm_stat: Option<Seq<char>>,
    pub memory_pressure: Option<Seq<char>>,
    pub processes: Seq<(Seq<char>, u64)>,
}

impl View for MemoryReadings {
    type V = MemoryReadingsView;

    open spec fn view(&self) -> MemoryReadingsView {
        MemoryReadingsView {
            total_bytes: self.total_bytes,
            used_bytes: self.used_bytes,
            available_bytes: self.available_bytes,
            swap_total_bytes: self.swap_total_bytes,
            swap_used_bytes: self.swap_used_bytes,
            vm_stat: crate::checker::opt_view(self.vm_stat),
            memory_pressure: crate::checker::opt_view(self.memory_pressure),
            processes: self.processes@.map_values(|p: (String, u64)| (p.0@, p.1)),
        }
    }
}

/// `vm_stat` output whose byte totals fit in a `u64`.
pub open spec fn vm_fits(out: Seq<char>) -> bool {
    let c = vm_counts(out);
    c.1 * c.0 <= u64::MAX && c.2 * c.0 <= u64::MAX
}

/// Megabytes as the report shows them (whole MiB, rounded down).
pub open spec fn mb(bytes: u64) -> nat {
    (bytes / MIB) as nat
}

/// `used / total` is more than `pct` percent (never when `total` is 0).
pub open spec fn pct_over(used: nat, total: nat, pct: nat) -> bool {
    total > 0 && used * 100 > pct * total
}

/// `used / total` as a whole percentage, rounded half to even (0 when `total` is 0).
pub open spec fn pct_rounded(used: nat, total: nat) -> nat {
    if total > 0 {
        div_round_even(used * 100, total)
    } else {
        0
    }
}

pub open spec fn totals_details(r: MemoryReadingsView) -> Seq<(Seq<char>, Seq<char>)> {
    seq![
        ("Total RAM"@, dec(mb(r.total_bytes)) + " MB"@),
        ("Used RAM"@, dec(mb(r.used_bytes)) + " MB"@),
        ("Available RAM"@, dec(mb(r.available_bytes)) + " MB"@),
        ("Swap Total"@, dec(mb(r.swap_total_bytes)) + " MB"@),
        ("Swap Used"@, dec(mb(r.swap_used_bytes)) + " MB"@),
    ]
}

pub open spec fn swap_findings(r: MemoryReadingsView) -> Seq<FindingView> {
    let u = mb(r.swap_used_bytes);
    let t = mb(r.swap_total_bytes);
    let p = pct_rounded(u, t);
    if u > 0 && pct_over(u, t, 80) {
        seq![issue_view(Level::Critical, "Swap usage is critically high: "@ + dec(u) + " MB / "@ + dec(t) + " MB ("@ + dec(p) + "%)."@, SWAP_CRITICAL_FIX@, 25)]
    } else if u > 0 && pct_over(u, t, 40) {
        seq![issue_view(Level::Warn, "Elevated swap usage: "@ + dec(u) + " MB used ("@ + dec(p) + "% of swap)."@, SWAP_HIGH_FIX@, 10)]
    } else if u > 100 {
        seq![issue_view(Level::Warn, "Swap is active ("@ + dec(u) + " MB) — system has been paging."@, SWAP_ACTIVE_FIX@, 4)]
    } else {
        seq![ok_view("Swap usage is minimal ("@ + dec(u) + " MB). RAM pressure is low."@)]
    }
}

/// Inactive MiB, compressed MiB and swap-outs from `vm_stat` output.
pub open spec fn vm_figures(out: Seq<char>) -> (nat, nat, nat) {
    let c = vm_counts(out);
    ((c.1 * c.0 / MIB as int) as nat, (c.2 * c.0 / MIB as int) as nat, c.3 as nat)
}

pub open spec fn vm_details(r: MemoryReadingsView) -> Seq<(Seq<char>, Seq<char>)> {
    match r.vm_stat {
        Some(o) => {
            let v = vm_figures(o);
            seq![
                ("In Compressor (RAM)"@, dec(v.1) + " MB  ← compressed pages in RAM"@),
                ("Swap-outs (since boot)"@, dec(v.2)),
                ("Inactive/Cache"@, dec(v.0) + " MB  ← healthy, macOS file cache"@),
            ]
        },
        None => seq![],
    }
}

pub open spec fn vm_findings(r: MemoryReadingsView) -> Seq<FindingView> {
    match r.vm_stat {
        Some(o) => {
            let v = vm_figures(o);
            (if v.2 > 500000 {
                seq![issue_view(Level::Critical, "Very high swap-out activity since boot: "@ + dec(v.2) + " — system has been paging heavily to SSD."@, SWAPOUT_CRITICAL_FIX@, 20)]
            } else if v.2 > 100000 {
                seq![issue_view(Level::Warn, "Elevated swap-out activity since boot: "@ + dec(v.2) + "."@, SWAPOUT_HIGH_FIX@, 8)]
            } else {
                seq![ok_view("Swap-out activity is low ("@ + dec(v.2) + " swap-outs since boot)."@)]
            }) + (if v.1 > 3000 {
                seq![issue_view(Level::Warn, "Compressor is holding "@ + dec(v.1) + " MB — RAM is under sustained pressure."@, COMPRESSOR_FIX@, 10)]
            } else {
                seq![ok_view("Memory compression is low ("@ + dec(v.1) + " MB). RAM is comfortable."@)]
            })
        },
        None => seq![],
    }
}

pub open spec fn pressure_details(r: MemoryReadingsView) -> Seq<(Seq<char>, Seq<char>)> {
    match r.memory_pressure {
        Some(o) => seq![(
            "memory_pressure"@,
            trim(
                match line_with(lines(o), "System-wide memory free percentage"@) {
                    Some(l) => l,
                    None => "unavailable"@,
                },
            ),
        )],
        None => seq![],
    }
}

pub open spec fn pressure_findings(r: MemoryReadingsView) -> Seq<FindingView> {
    match r.memory_pressure {
        Some(o) => if contains(o, "Critical"@) {
            seq![issue_view(Level::Critical, "System reports CRITICAL memory pressure."@, PRESSURE_CRITICAL_FIX@, 20)]
        } else if contains(o, "Warn"@) {
            seq![issue_view(Level::Warn, "System reports WARNING memory pressure."@, PRESSURE_WARN_FIX@, 8)]
        } else {
            seq![ok_view("Memory pressure is at a normal level."@)]
        },
        None => seq![],
    }
}

/// Each process's memory in whole MiB.
pub open spec fn process_mbs(ps: Seq<(Seq<char>, u64)>) -> Seq<u64> {
    ps.map_values(|p: (Seq<char>, u64)| p.1 / MIB)
}

/// The five processes using the most memory (ties in reading order), as
/// `("  {name}", "{mb} MB")` details after a "Top Memory Processes" header.
pub open spec fn top_memory_details(r: MemoryReadingsView) -> Seq<(Seq<char>, Seq<char>)> {
    let m = process_mbs(r.processes);
    let top = top_order(m, crate::ranking::zeros(m.len()), 5);
    seq![("Top Memory Processes"@, seq![])] + top.map_values(|i: usize| proc_detail(r.processes, i))
}

/// `("  {name}", "{mb} MB")` for process `i`.
pub open spec fn proc_detail(ps: Seq<(Seq<char>, u64)>, i: usize) -> (Seq<char>, Seq<char>) {
    ("  "@ + ps[i as int].0, dec((ps[i as int].1 / MIB) as nat) + " MB"@)
}

/// The memory section for the given readings.
pub open spec fn memory_report(r: MemoryReadingsView) -> CheckResultView {
    let r0 = empty_result("Memory Analysis"@);
    let r1 = extend(r0, totals_details(r) + vm_details(r), swap_findings(r) + vm_findings(r));
    let r2 = extend(r1, pressure_details(r), pressure_findings(r));
    extend(r2, top_memory_details(r), seq![])
}

fn mb_detail(r: &mut CheckResult, key: &str, bytes: u64)
    ensures
        final(r)@ == extend(old(r)@, seq![(key@, dec(mb(bytes)) + " MB"@)], seq![]),
{
    let v = dec_lit(bytes / MIB, " MB");
    r.add_detail(key, v.as_str());
    assert(final(r)@.details =~= old(r)@.details + seq![(key@, dec(mb(bytes)) + " MB"@)]);
    assert(final(r)@.findings =~= old(r)@.findings + seq![]);
}

fn add_swap_part(r: &mut CheckResult, readings: &MemoryReadings)
    ensures
        final(r)@ == extend(old(r)@, totals_details(readings@), swap_findings(readings@)),
{
    mb_detail(r, "Total RAM", readings.total_bytes);
    mb_detail(r, "Used RAM", readings.used_bytes);
    mb_detail(r, "Available RAM", readings.available_bytes);
    mb_detail(r, "Swap Total", readings.swap_total_bytes);
    mb_detail(r, "Swap Used", readings.swap_used_bytes);
    let u = readings.swap_used_bytes / MIB;
    let t = readings.swap_total_bytes / MIB;
    assert(u <= 0xffff_ffff_ffff);
    let p: u64 = if t > 0 {
        div_round_even_u128(u as u128 * 100, t as u128) as u64
    } else {
        0
    };
    assert(p == pct_rounded(u as nat, t as nat));
    let over80 = t > 0 && u as u128 * 100 > 80 * t as u128;
    let over40 = t > 0 && u as u128 * 100 > 40 * t as u128;
    if u > 0 && over80 {
        let mut m = lit_dec_lit("Swap usage is critically high: ", u, " MB / ");
        push_dec(&mut m, t);
        m.append(" MB (");
        push_dec(&mut m, p);
        m.append("%).");
        r.add_finding(Finding::critical(m.as_str(), SWAP_CRITICAL_FIX, 25));
    } else if u > 0 && over40 {
        let mut m = lit_dec_lit("Elevated swap usage: ", u, " MB used (");
        push_dec(&mut m, p);
        m.append("% of swap).");
        r.add_finding(Finding::warn(m.as_str(), SWAP_HIGH_FIX, 10));
    } else if u > 100 {
        let m = lit_dec_lit("Swap is active (", u, " MB) — system has been paging.");
        r.add_finding(Finding::warn(m.as_str(), SWAP_ACTIVE_FIX, 4));
    } else {
        let m = lit_dec_lit("Swap usage is minimal (", u, " MB). RAM pressure is low.");
        r.add_finding(Finding::ok(m.as_str()));
    }
    assert(final(r)@.details =~= old(r)@.details + totals_details(readings@));
    assert(final(r)@.findings =~= old(r)@.findings + swap_findings(readings@));
}

fn add_vm_part(r: &mut CheckResult, readings: &MemoryReadings)
    requires
        readings@.vm_stat matches Some(o) ==> vm_fits(o),
    ensures
        final(r)@ == extend(old(r)@, vm_details(readings@), vm_findings(readings@)),
{
    match &readings.vm_stat {
        Some(out) => {
            let c = parse_vm_stat(out.as_str());
            let v = c.stat();
            let ghost fig = vm_figures(out@);
            assert(v.inactive_mb == fig.0 && v.compressed_mb == fig.1 && v.swapouts == fig.2);
            let comp = dec_lit(v.compressed_mb, " MB  ← compressed pages in RAM");
            r.add_detail("In Compressor (RAM)", comp.as_str());
            let so = dec_string(v.swapouts);
            r.add_detail("Swap-outs (since boot)", so.as_str());
            let inact = dec_lit(v.inactive_mb, " MB  ← healthy, macOS file cache");
            r.add_detail("Inactive/Cache", inact.as_str());
            if v.swapouts > 500000 {
                let m = lit_dec_lit("Very high swap-out activity since boot: ", v.swapouts, " — system has been paging heavily to SSD.");
                r.add_finding(Finding::critical(m.as_str(), SWAPOUT_CRITICAL_FIX, 20));
            } else if v.swapouts > 100000 {
                let m = lit_dec_lit("Elevated swap-out activity since boot: ", v.swapouts, ".");
                r.add_finding(Finding::warn(m.as_str(), SWAPOUT_HIGH_FIX, 8));
            } else {
                let m = lit_dec_lit("Swap-out activity is low (", v.swapouts, " swap-outs since boot).");
                r.add_finding(Finding::ok(m.as_str()));
            }
            if v.compressed_mb > 3000 {
                let m = lit_dec_lit("Compressor is holding ", v.compressed_mb, " MB — RAM is under sustained pressure.");
                r.add_finding(Finding::warn(m.as_str(), COMPRESSOR_FIX, 10));
            } else {
                let m = lit_dec_lit("Memory compression is low (", v.compressed_mb, " MB). RAM is comfortable.");
                r.add_finding(Finding::ok(m.as_str()));
            }
        },
        None => {},
    }
    assert(final(r)@.details =~= old(r)@.details + vm_details(readings@));
    assert(final(r)@.findings =~= old(r)@.findings + vm_findings(readings@));
}

fn add_pressure_part(r: &mut CheckResult, readings: &MemoryReadings)
    ensures
        final(r)@ == extend(old(r)@, pressure_details(readings@), pressure_findings(readings@)),
{
    match &readings.memory_pressure {
        Some(out) => {
            let oc = chars_of(out.as_str());
            let ls = split_lines(&oc);
            let line = match line_with_exec(&ls, "System-wide memory free percentage") {
                Some(l) => l,
                None => chars_of("unavailable"),
            };
            let t = string_of(&trim_exec(&line));
            r.add_detail("memory_pressure", t.as_str());
            if contains_exec(&oc, &chars_of("Critical")) {
                r.add_finding(Finding::critical("System reports CRITICAL memory pressure.", PRESSURE_CRITICAL_FIX, 20));
            } else if contains_exec(&oc, &chars_of("Warn")) {
                r.add_finding(Finding::warn("System reports WARNING memory pressure.", PRESSURE_WARN_FIX, 8));
            } else {
                r.add_finding(Finding::ok("Memory pressure is at a normal level."));
            }
        },
        None => {},
    }
    assert(final(r)@.details =~= old(r)@.details + pressure_details(readings@));
    assert(final(r)@.findings =~= old(r)@.findings + pressure_findings(readings@));
}

fn add_top_part(r: &mut CheckResult, readings: &MemoryReadings)
    ensures
        final(r)@ == extend(old(r)@, top_memory_details(readings@), seq![]),
{
    let ghost pv = readings@.processes;
    let mut m: Vec<u64> = Vec::new();
    let mut z: Vec<u64> = Vec::new();
    for i in 0..readings.processes.len()
        invariant
            pv == readings@.processes,
            m@ == process_mbs(pv).take(i as int),
            z@ == crate::ranking::zeros(i as nat),
    {
        let (_, bytes) = &readings.processes[i];
        assert(pv[i as int].1 == *bytes);
        m.push(*bytes / MIB);
        z.push(0);
        assert(m@ =~= process_mbs(pv).take(i + 1));
        assert(z@ =~= crate::ranking::zeros((i + 1) as nat));
    }
    assert(process_mbs(pv).take(pv.len() as int) =~= process_mbs(pv));
    let top = top_indices(&m, &z, 5);
    let empty = String::new();
    r.add_detail("Top Memory Processes", empty.as_str());
    let ghost base = r@;
    for t in 0..top.len()
        invariant
            pv == readings@.processes,
            m@ == process_mbs(pv),
            forall|u: int| 0 <= u < top@.len() ==> (#[trigger] top@[u]) < m@.len(),
            r@ == extend(base, top@.take(t as int).map_values(|i: usize| proc_detail(pv, i)), seq![]),
    {
        let i = top[t];
        let (name, _) = &readings.processes[i];
        assert(pv[i as int].0 == name@);
        let mut k = String::new();
        k.append("  ");
        k.append(name.as_str());
        let v = dec_lit(m[i], " MB");
        r.add_detail(k.as_str(), v.as_str());
        assert(top@.take(t + 1) =~= top@.take(t as int).push(i));
        assert(m@[i as int] == pv[i as int].1 / MIB);
        assert(proc_detail(pv, i) == (k@, v@));
        assert(top@.take(t + 1).map_values(|i: usize| proc_detail(pv, i)) =~= top@.take(t as int).map_values(|i: usize| proc_detail(pv, i)).push(proc_detail(pv, i)));
        assert(r@.details =~= base.details + top@.take(t + 1).map_values(|i: usize| proc_detail(pv, i)));
        assert(r@.findings =~= base.findings + seq![]);
    }
    assert(top@.take(top@.len() as int) =~= top@);
    assert(final(r)@.details =~= old(r)@.details + top_memory_details(readings@));
    assert(final(r)@.findings =~= old(r)@.findings + seq![]);
}

/// RAM usage, swap pressure, and memory compressor activity.
pub struct MemoryChecker;

impl Checker for MemoryChecker {
    /// Short, unique name used in `--only <name>` filtering.
    fn name(&self) -> (r: &'static str)
        ensures
            r@ == "memory"@,
    {
        "memory"
    }

    /// One-line description shown in `--list` output.
    fn description(&self) -> (r: &'static str)
        ensures
            r@ == "RAM usage, swap pressure, and memory compressor activity"@,
    {
        "RAM usage, swap pressure, and memory compressor activity"
    }
}

impl MemoryChecker {

    /// The memory section for the given readings.
    pub fn assess(readings: &MemoryReadings) -> (r: CheckResult)
        requires
            readings@.vm_stat matches Some(o) ==> vm_fits(o),
        ensures
            r@ == memory_report(readings@),
    {
        let mut r = CheckResult::new("Memory Analysis");
        let ghost r0 = r@;
        add_swap_part(&mut r, readings);
        let ghost r1 = r@;
        add_vm_part(&mut r, readings);
        assert(r@ =~= extend(r0, totals_details(readings@) + vm_details(readings@), swap_findings(readings@) + vm_findings(readings@)));
        add_pressure_part(&mut r, readings);
        add_top_part(&mut r, readings);
        r
    }
}

/// Every finding of the memory section is sound: exactly its warnings and
/// critical findings carry a fix and deduct points.
pub proof fn law_memory_findings_sound(r: MemoryReadingsView)
    ensures
        all_sound(memory_report(r).findings),
{
    lemma_empty_sound("Memory Analysis"@);
    let r0 = empty_result("Memory Analysis"@);
    assert(all_sound(swap_findings(r)));
    assert(all_sound(vm_findings(r)));
    lemma_sound_concat(swap_findings(r), vm_findings(r));
    lemma_extend_sound(r0, totals_details(r) + vm_details(r), swap_findings(r) + vm_findings(r));
    let r1 = extend(r0, totals_details(r) + vm_details(r), swap_findings(r) + vm_findings(r));
    assert(all_sound(pressure_findings(r)));
    lemma_extend_sound(r1, pressure_details(r), pressure_findings(r));
    let r2 = extend(r1, pressure_details(r), pressure_findings(r));
    lemma_extend_sound(r2, top_memory_details(r), seq![]);
}

/// A detail the score cannot read a kernel-panic count from: its key does
/// not mention "Kernel panics", or its value is not a number.
pub open spec fn no_panic_count(d: (Seq<char>, Seq<char>)) -> bool {
    !contains(d.0, "Kernel panics"@) || parse_nat(d.1, u32::MAX as nat) is None
}

proof fn lemma_fixed_key(key: Seq<char>, value: Seq<char>)
    requires
        forall|i: int| 0 <= i < key.len() ==> key[i] != 'K',
    ensures
        no_panic_count((key, value)),
{
    reveal_strlit("Kernel panics");
    lemma_missing_first_char(key, "Kernel panics"@);
}

proof fn lemma_mb_value(key: Seq<char>, n: nat)
    ensures
        no_panic_count((key, dec(n) + " MB"@)),
{
    reveal_strlit(" MB");
    lemma_dec_then_text_not_number(n, " MB"@, u32::MAX as nat);
}

proof fn lemma_memory_details_no_panic_count(r: MemoryReadingsView)
    ensures
        forall|k: int| 0 <= k < memory_report(r).details.len() ==> no_panic_count(#[trigger] memory_report(r).details[k]),
{
    reveal_strlit("Total RAM");
    reveal_strlit("Used RAM");
    reveal_strlit("Available RAM");
    reveal_strlit("Swap Total");
    reveal_strlit("Swap Used");
    reveal_strlit("In Compressor (RAM)");
    reveal_strlit("Swap-outs (since boot)");
    reveal_strlit("Inactive/Cache");
    reveal_strlit("memory_pressure");
    reveal_strlit("Top Memory Processes");
    let td = totals_details(r);
    let vd = vm_details(r);
    let pd = pressure_details(r);
    let md = top_memory_details(r);
    assert forall|k: int| 0 <= k < td.len() implies no_panic_count(#[trigger] td[k]) by {
        lemma_fixed_key(td[k].0, td[k].1);
    }
    assert forall|k: int| 0 <= k < vd.len() implies no_panic_count(#[trigger] vd[k]) by {
        lemma_fixed_key(vd[k].0, vd[k].1);
    }
    assert forall|k: int| 0 <= k < pd.len() implies no_panic_count(#[trigger] pd[k]) by {
        lemma_fixed_key(pd[k].0, pd[k].1);
    }
    let m = process_mbs(r.processes);
    let top = top_order(m, crate::ranking::zeros(m.len()), 5);
    assert forall|k: int| 0 <= k < md.len() implies no_panic_count(#[trigger] md[k]) by {
        if k == 0 {
            lemma_fixed_key(md[k].0, md[k].1);
        } else {
            let i = top[k - 1];
            assert(md[k] == proc_detail(r.processes, i));
            lemma_mb_value(md[k].0, (r.processes[i as int].1 / MIB) as nat);
        }
    }
    let ds = memory_report(r).details;
    assert(ds =~= Seq::<(Seq<char>, Seq<char>)>::empty() + (td + vd) + pd + md);
    assert forall|k: int| 0 <= k < ds.len() implies no_panic_count(#[trigger] ds[k]) by {
        if k < td.len() {
            assert(ds[k] == td[k]);
        } else if k < td.len() + vd.len() {
            assert(ds[k] == vd[k - td.len()]);
        } else if k < td.len() + vd.len() + pd.len() {
            assert(ds[k] == pd[k - td.len() - vd.len()]);
        } else {
            assert(ds[k] == md[k - td.len() - vd.len() - pd.len()]);
        }
    }
}

/// RAM pressure alone never brings erase advice. The memory section gives
/// the score no kernel-panic count, whatever the readings; and when the
/// lower-cased messages of its critical findings do not mention
/// "s.m.a.r.t" (they are fixed swap and memory-pressure texts, and the
/// trusted name for `str::to_lowercase` states nothing about given strings,
/// so this stands as a condition), it raises no failing-drive flag either, so
/// the erase advice for its score is never "recommended".
pub proof fn law_memory_never_brings_erase_advice(r: MemoryReadingsView)
    ensures
        health_of(seq![memory_report(r)]).panic_count == 0,
        (forall|j: int|
            0 <= j < memory_report(r).findings.len() && memory_report(r).findings[j].level == Level::Critical
                ==> !contains(lowercase(#[trigger] memory_report(r).findings[j].message), "s.m.a.r.t"@)) ==> {
            let h = health_of(seq![memory_report(r)]);
            &&& !h.smart_failure
            &&& erase_advice(h.verdict, h.panic_count, h.smart_failure) != EraseRecommendation::Recommended
        },
{
    let rs = seq![memory_report(r)];
    lemma_crash_from_bounds(rs, 0);
    if let Some(i) = crash_section_from(rs, 0) {
        assert(i == 0);
        let ds = rs[0].details;
        lemma_panic_from_bounds(ds, 0);
        if let Some(j) = panic_detail_from(ds, 0) {
            lemma_memory_details_no_panic_count(r);
            assert(no_panic_count(ds[j]));
        }
    }
    assert(rs[0] == memory_report(r));
    let fs = memory_report(r).findings;
    if forall|j: int| 0 <= j < fs.len() && fs[j].level == Level::Critical ==> !contains(lowercase(#[trigger] fs[j].message), "s.m.a.r.t"@) {
        if smart_failure_in(rs) {
            let (i, j) = choose|i: int, j: int|
                0 <= i < rs.len() && 0 <= j < rs[i].findings.len() && #[trigger] rs[i].findings[j].level
                    == Level::Critical && contains(lowercase(rs[i].findings[j].message), "s.m.a.r.t"@);
            assert(i == 0);
            assert(fs[j].level == Level::Critical);
            assert(false);
        }
    }
}

/// Assesses the readings and lowercases the message of each critical finding
/// of the memory section at run time, testing that none mentions
/// "s.m.a.r.t". When none does, the section raises no failing-drive flag and
/// gives no panic count, so its erase advice is never "recommended".
pub fn memory_has_no_drive_flag(readings: &MemoryReadings) -> (b: bool)
    requires
        readings@.vm_stat matches Some(o) ==> vm_fits(o),
    ensures
        b == forall|j: int|
            0 <= j < memory_report(readings@).findings.len() && memory_report(readings@).findings[j].level
                == Level::Critical ==> !contains(lowercase(#[trigger] memory_report(readings@).findings[j].message), "s.m.a.r.t"@),
        b ==> {
            let h = health_of(seq![memory_report(readings@)]);
            &&& !h.smart_failure
            &&& h.panic_count == 0
            &&& erase_advice(h.verdict, h.panic_count, h.smart_failure) != EraseRecommendation::Recommended
        },
{
    let r = MemoryChecker::assess(readings);
    let ghost fs = memory_report(readings@).findings;
    let needle = chars_of("s.m.a.r.t");
    for j in 0..r.findings.len()
        invariant
            r@ == memory_report(readings@),
            fs == memory_report(readings@).findings,
            needle@ == "s.m.a.r.t"@,
            forall|k: int| 0 <= k < j && fs[k].level == Level::Critical ==> !contains(lowercase(#[trigger] fs[k].message), "s.m.a.r.t"@),
    {
        let f = &r.findings[j];
        assert(fs[j as int] == f@);
        if f.level == Level::Critical {
            let low = lowercase_chars(&chars_of(f.message.as_str()));
            if contains_exec(&low, &needle) {
                assert(fs[j as int].level == Level::Critical && contains(lowercase(fs[j as int].message), "s.m.a.r.t"@));
                return false;
            }
        }
    }
    proof {
        law_memory_never_brings_erase_advice(readings@);
    }
    true
}

/// The compressor figure of `vm_stat` output: pages occupied by the
/// compressor times the page size, in whole MiB.
pub open spec fn compressed_mib(out: Seq<char>) -> nat {
    (pages_for(out, "Pages occupied by compressor:"@) * page_size_of(out) / MIB as int) as nat
}

/// With `vm_stat` output, the memory section warns about compressor
/// pressure (10 points, with the compressor fix) when the compressor figure
/// is above 3000 MB, and otherwise reports that compression is low, naming
/// that figure either way; the inactive-page figure plays no part.
pub proof fn law_compressor_warning(r: MemoryReadingsView)
    ensures
        r.vm_stat matches Some(o) ==> ({
            let c = compressed_mib(o);
            let fs = memory_report(r).findings;
            &&& c > 3000 ==> exists|j: int|
                0 <= j < fs.len() && #[trigger] fs[j] == issue_view(
                    Level::Warn,
                    "Compressor is holding "@ + dec(c) + " MB — RAM is under sustained pressure."@,
                    COMPRESSOR_FIX@,
                    10,
                )
            &&& c <= 3000 ==> exists|j: int|
                0 <= j < fs.len() && #[trigger] fs[j] == ok_view(
                    "Memory compression is low ("@ + dec(c) + " MB). RAM is comfortable."@,
                )
        }),
{
    if let Some(o) = r.vm_stat {
        let fs = memory_report(r).findings;
        assert(fs =~= Seq::<FindingView>::empty() + (swap_findings(r) + vm_findings(r)) + pressure_findings(r)
            + Seq::<FindingView>::empty());
        let j = swap_findings(r).len() + 1;
        assert(fs[j as int] == vm_findings(r)[1]);
    }
}

} // verus!
