//! Runaway processes consuming excess CPU or RAM.
use vstd::prelude::*;

use crate::checker::{Checker, all_sound, lemma_sound_concat, 
    CheckResult, CheckResultView, Finding, FindingView, Level, empty_result, extend, finding_if,
    issue_view, ok_view,
};
use crate::ranking::{top_indices, top_order, zeros};
use crate::text::{dec, dec_string, owned, push_dec};

verus! {

/// Bytes in a mebibyte.
pub const MIB: u64 = 1048576;

/// A running process: its name; its CPU usage as `{:.1}` prints it; the
/// usage as the least whole number of tenths of a percent not below it (so
/// the usage exceeds `k` tenths exactly when this exceeds `k`); a key that
/// orders the samples as their usage figures do (equal figures, equal keys);
/// and its resident bytes.
pub struct ProcessSample {
    pub name: String,
    pub cpu: String,
    pub cpu_ceil_deci: u64,
    pub cpu_rank: u64,
    pub memory_bytes: u64,
}

pub struct ProcessSampleView {
    pub name: Seq<char>,
    pub cpu: Seq<char>,
    pub cpu_ceil_deci: u64,
    pub cpu_rank: u64,
    pub memory_bytes: u64,
}

impl View for ProcessSample {
    type V = ProcessSampleView;

    open spec fn view(&self) -> ProcessSampleView {
        ProcessSampleView {
            name: self.name@,
            cpu: self.cpu@,
            cpu_ceil_deci: self.cpu_ceil_deci,
            cpu_rank: self.cpu_rank,
            memory_bytes: self.memory_bytes,
        }
    }
}

pub open spec fn samples_view(ps: Seq<ProcessSample>) -> Seq<ProcessSampleView> {
    ps.map_values(|p: ProcessSample| p@)
}

pub open spec fn cpus(ps: Seq<ProcessSampleView>) -> Seq<u64> {
    ps.map_values(|p: ProcessSampleView| p.cpu_rank)
}

pub open spec fn mbs(ps: Seq<ProcessSampleView>) -> Seq<u64> {
    ps.map_values(|p: ProcessSampleView| p.memory_bytes / MIB)
}

/// All processes, highest CPU first (ties in reading order).
pub open spec fn by_cpu(ps: Seq<ProcessSampleView>) -> Seq<usize> {
    top_order(cpus(ps), zeros(ps.len()), ps.len())
}

/// All processes, most memory first, then highest CPU, then reading order.
pub open spec fn by_mem(ps: Seq<ProcessSampleView>) -> Seq<usize> {
    top_order(mbs(ps), cpus(ps), ps.len())
}

pub open spec fn cpu_line(ps: Seq<ProcessSampleView>, i: usize) -> (Seq<char>, Seq<char>) {
    (
        "  "@ + ps[i as int].name,
        "CPU "@ + ps[i as int].cpu + "%  RAM "@ + dec((ps[i as int].memory_bytes / MIB) as nat) + " MB"@,
    )
}

pub open spec fn mem_line(ps: Seq<ProcessSampleView>, i: usize) -> (Seq<char>, Seq<char>) {
    (
        "  "@ + ps[i as int].name,
        "RAM "@ + dec((ps[i as int].memory_bytes / MIB) as nat) + " MB  CPU "@ + ps[i as int].cpu + "%"@,
    )
}

pub open spec fn first5(s: Seq<usize>) -> Seq<usize> {
    s.take(if s.len() < 5 { s.len() as int } else { 5 })
}

pub open spec fn cpu_warning(p: ProcessSampleView) -> FindingView {
    issue_view(
        Level::Warn,
        "'"@ + p.name + "' is consuming "@ + p.cpu + "% CPU — potential runaway process."@,
        "Check Activity Monitor → search for '"@ + p.name + "'.\nIf you don't recognise this process, research it online.\nForce-quit only if certain it is not a critical system process."@,
        8,
    )
}

pub open spec fn mem_warning(p: ProcessSampleView) -> FindingView {
    issue_view(
        Level::Warn,
        "'"@ + p.name + "' is using "@ + dec((p.memory_bytes / MIB) as nat) + " MB of RAM — memory-heavy process."@,
        "'"@ + p.name + "' may have a memory leak. Restart the application.\nIf it's a browser, close unused tabs or restart the browser."@,
        5,
    )
}

/// Warnings for the processes above 80% CPU, in `order`.
pub open spec fn cpu_warnings(ps: Seq<ProcessSampleView>, order: Seq<usize>) -> Seq<FindingView>
    decreases order.len(),
{
    if order.len() == 0 {
        seq![]
    } else {
        cpu_warnings(ps, order.drop_last()) + finding_if(ps[order.last() as int].cpu_ceil_deci > 800, cpu_warning(ps[order.last() as int]))
    }
}

/// Warnings for the processes above 2048 MB, in `order`.
pub open spec fn mem_warnings(ps: Seq<ProcessSampleView>, order: Seq<usize>) -> Seq<FindingView>
    decreases order.len(),
{
    if order.len() == 0 {
        seq![]
    } else {
        mem_warnings(ps, order.drop_last()) + finding_if(ps[order.last() as int].memory_bytes / MIB > 2048, mem_warning(ps[order.last() as int]))
    }
}

/// The process section for the given samples.
pub open spec fn process_report(ps: Seq<ProcessSampleView>) -> CheckResultView {
    let c = by_cpu(ps);
    let m = by_mem(ps);
    let cw = cpu_warnings(ps, c);
    let mw = mem_warnings(ps, m);
    extend(
        empty_result("Process Analysis"@),
        seq![("Total Processes"@, dec(ps.len()))] + seq![("── Top by CPU ──"@, seq![])]
            + first5(c).map_values(|i: usize| cpu_line(ps, i)) + seq![("── Top by Memory ──"@, seq![])]
            + first5(m).map_values(|i: usize| mem_line(ps, i)),
        finding_if(cw.len() == 0 && mw.len() == 0, ok_view("No runaway processes detected. All processes are within normal ranges."@)) + cw + mw,
    )
}

fn cpu_line_exec(p: &ProcessSample) -> (r: (String, String))
    ensures
        r.0@ == "  "@ + p.name@,
        r.1@ == "CPU "@ + p.cpu@ + "%  RAM "@ + dec((p.memory_bytes / MIB) as nat) + " MB"@,
{
    let mut k = owned("  ");
    k.append(p.name.as_str());
    let mut v = owned("CPU ");
    v.append(p.cpu.as_str());
    v.append("%  RAM ");
    push_dec(&mut v, p.memory_bytes / MIB);
    v.append(" MB");
    (k, v)
}

fn mem_line_exec(p: &ProcessSample) -> (r: (String, String))
    ensures
        r.0@ == "  "@ + p.name@,
        r.1@ == "RAM "@ + dec((p.memory_bytes / MIB) as nat) + " MB  CPU "@ + p.cpu@ + "%"@,
{
    let mut k = owned("  ");
    k.append(p.name.as_str());
    let mut v = owned("RAM ");
    push_dec(&mut v, p.memory_bytes / MIB);
    v.append(" MB  CPU ");
    v.append(p.cpu.as_str());
    v.append("%");
    (k, v)
}

fn add_top_lines(r: &mut CheckResult, ps: &Vec<ProcessSample>, order: &Vec<usize>, cpu_first: bool)
    requires
        forall|t: int| 0 <= t < order@.len() ==> (#[trigger] order@[t]) < ps@.len(),
    ensures
        final(r)@ == extend(
            old(r)@,
            first5(order@).map_values(|i: usize| if cpu_first { cpu_line(samples_view(ps@), i) } else { mem_line(samples_view(ps@), i) }),
            seq![],
        ),
{
    let ghost sv = samples_view(ps@);
    let n: usize = if order.len() < 5 { order.len() } else { 5 };
    let ghost base = r@;
    let ghost f = |i: usize| if cpu_first { cpu_line(sv, i) } else { mem_line(sv, i) };
    for t in 0..n
        invariant
            n <= order@.len(),
            sv == samples_view(ps@),
            forall|u: int| 0 <= u < order@.len() ==> (#[trigger] order@[u]) < ps@.len(),
            r@ == extend(base, order@.take(t as int).map_values(|i: usize| if cpu_first { cpu_line(sv, i) } else { mem_line(sv, i) }), seq![]),
    {
        let i = order[t];
        let p = &ps[i];
        assert(sv[i as int] == p@);
        let (k, v) = if cpu_first {
            cpu_line_exec(p)
        } else {
            mem_line_exec(p)
        };
        r.add_detail(k.as_str(), v.as_str());
        let ghost line = if cpu_first { cpu_line(sv, i) } else { mem_line(sv, i) };
        assert(line == (k@, v@));
        assert(order@.take(t + 1) =~= order@.take(t as int).push(i));
        assert(order@.take(t + 1).map_values(|i: usize| if cpu_first { cpu_line(sv, i) } else { mem_line(sv, i) })
            =~= order@.take(t as int).map_values(|i: usize| if cpu_first { cpu_line(sv, i) } else { mem_line(sv, i) }).push(line));
        assert(r@.details =~= base.details + order@.take(t + 1).map_values(|i: usize| if cpu_first { cpu_line(sv, i) } else { mem_line(sv, i) }));
        assert(r@.findings =~= base.findings + seq![]);
    }
    assert(first5(order@) == order@.take(n as int));
}

fn quoted_name(a: &str, name: &String) -> (m: String)
    ensures
        m@ == a@ + name@,
{
    let mut m = owned(a);
    m.append(name.as_str());
    m
}

fn cpu_warning_exec(p: &ProcessSample) -> (f: Finding)
    ensures
        f@ == cpu_warning(p@),
{
    let mut m = quoted_name("'", &p.name);
    m.append("' is consuming ");
    m.append(p.cpu.as_str());
    m.append("% CPU — potential runaway process.");
    let mut s = quoted_name("Check Activity Monitor → search for '", &p.name);
    s.append("'.\nIf you don't recognise this process, research it online.\nForce-quit only if certain it is not a critical system process.");
    Finding::warn(m.as_str(), s.as_str(), 8)
}

fn mem_warning_exec(p: &ProcessSample) -> (f: Finding)
    ensures
        f@ == mem_warning(p@),
{
    let mut m = quoted_name("'", &p.name);
    m.append("' is using ");
    push_dec(&mut m, p.memory_bytes / MIB);
    m.append(" MB of RAM — memory-heavy process.");
    let mut s = quoted_name("'", &p.name);
    s.append("' may have a memory leak. Restart the application.\nIf it's a browser, close unused tabs or restart the browser.");
    Finding::warn(m.as_str(), s.as_str(), 5)
}

/// The warnings for `order`, CPU ones when `cpu`, memory ones otherwise.
fn warnings(ps: &Vec<ProcessSample>, order: &Vec<usize>, cpu: bool) -> (w: Vec<Finding>)
    requires
        forall|t: int| 0 <= t < order@.len() ==> (#[trigger] order@[t]) < ps@.len(),
    ensures
        crate::checker::findings_view(w@) == if cpu {
            cpu_warnings(samples_view(ps@), order@)
        } else {
            mem_warnings(samples_view(ps@), order@)
        },
{
    let ghost sv = samples_view(ps@);
    let mut w: Vec<Finding> = Vec::new();
    for t in 0..order.len()
        invariant
            sv == samples_view(ps@),
            forall|u: int| 0 <= u < order@.len() ==> (#[trigger] order@[u]) < ps@.len(),
            crate::checker::findings_view(w@) == if cpu {
                cpu_warnings(sv, order@.take(t as int))
            } else {
                mem_warnings(sv, order@.take(t as int))
            },
    {
        let i = order[t];
        let p = &ps[i];
        assert(sv[i as int] == p@);
        assert(order@.take(t + 1).drop_last() =~= order@.take(t as int));
        assert(order@.take(t + 1).last() == i);
        let ghost before = w@;
        if cpu {
            if p.cpu_ceil_deci > 800 {
                let f = cpu_warning_exec(p);
                w.push(f);
                assert(crate::checker::findings_view(w@) =~= crate::checker::findings_view(before).push(f@));
            } else {
                assert(crate::checker::findings_view(w@) =~= crate::checker::findings_view(before) + seq![]);
            }
        } else {
            if p.memory_bytes / MIB > 2048 {
                let f = mem_warning_exec(p);
                w.push(f);
                assert(crate::checker::findings_view(w@) =~= crate::checker::findings_view(before).push(f@));
            } else {
                assert(crate::checker::findings_view(w@) =~= crate::checker::findings_view(before) + seq![]);
            }
        }
    }
    assert(order@.take(order@.len() as int) =~= order@);
    w
}

/// Detects runaway processes consuming excess CPU or RAM.
pub struct ProcessChecker;

impl Checker for ProcessChecker {
    /// Short, unique name used in `--only <name>` filtering.
    fn name(&self) -> (r: &'static str)
        ensures
            r@ == "processes"@,
    {
        "processes"
    }

    /// One-line description shown in `--list` output.
    fn description(&self) -> (r: &'static str)
        ensures
            r@ == "Detect runaway processes consuming excess CPU or RAM"@,
    {
        "Detect runaway processes consuming excess CPU or RAM"
    }
}

impl ProcessChecker {

    /// The process section for the given samples.
    pub fn assess(samples: &Vec<ProcessSample>) -> (r: CheckResult)
        ensures
            r@ == process_report(samples_view(samples@)),
    {
        let ghost sv = samples_view(samples@);
        let n = samples.len();
        let mut c: Vec<u64> = Vec::new();
        let mut m: Vec<u64> = Vec::new();
        let mut z: Vec<u64> = Vec::new();
        for i in 0..n
            invariant
                n == samples@.len(),
                sv == samples_view(samples@),
                c@ == cpus(sv).take(i as int),
                m@ == mbs(sv).take(i as int),
                z@ == zeros(i as nat),
        {
            let p = &samples[i];
            assert(sv[i as int] == p@);
            c.push(p.cpu_rank);
            m.push(p.memory_bytes / MIB);
            z.push(0);
            assert(c@ =~= cpus(sv).take(i + 1));
            assert(m@ =~= mbs(sv).take(i + 1));
            assert(z@ =~= zeros((i + 1) as nat));
        }
        assert(cpus(sv).take(n as int) =~= cpus(sv));
        assert(mbs(sv).take(n as int) =~= mbs(sv));
        let order_cpu = top_indices(&c, &z, n);
        let order_mem = top_indices(&m, &c, n);
        let mut r = CheckResult::new("Process Analysis");
        let ghost r0 = r@;
        let total = dec_string(n as u64);
        r.add_detail("Total Processes", total.as_str());
        let empty = String::new();
        r.add_detail("── Top by CPU ──", empty.as_str());
        add_top_lines(&mut r, samples, &order_cpu, true);
        r.add_detail("── Top by Memory ──", empty.as_str());
        add_top_lines(&mut r, samples, &order_mem, false);
        let cw = warnings(samples, &order_cpu, true);
        let mw = warnings(samples, &order_mem, false);
        let ghost r1 = r@;
        if cw.len() == 0 && mw.len() == 0 {
            r.add_finding(Finding::ok("No runaway processes detected. All processes are within normal ranges."));
        }
        let ghost r2 = r@;
        for i in 0..cw.len()
            invariant
                r@.section == r2.section,
                r@.details == r2.details,
                r@.findings == r2.findings + crate::checker::findings_view(cw@).take(i as int),
        {
            r.add_finding(cw[i].duplicate());
            assert(crate::checker::findings_view(cw@).take(i + 1) =~= crate::checker::findings_view(cw@).take(i as int).push(cw@[i as int]@));
        }
        let ghost r3 = r@;
        for i in 0..mw.len()
            invariant
                r@.section == r3.section,
                r@.details == r3.details,
                r@.findings == r3.findings + crate::checker::findings_view(mw@).take(i as int),
        {
            r.add_finding(mw[i].duplicate());
            assert(crate::checker::findings_view(mw@).take(i + 1) =~= crate::checker::findings_view(mw@).take(i as int).push(mw@[i as int]@));
        }
        assert(crate::checker::findings_view(cw@).take(cw@.len() as int) =~= crate::checker::findings_view(cw@));
        assert(crate::checker::findings_view(mw@).take(mw@.len() as int) =~= crate::checker::findings_view(mw@));
        assert(r@.details =~= process_report(sv).details);
        assert(r@.findings =~= process_report(sv).findings);
        r
    }
}

proof fn lemma_cpu_warnings_sound(ps: Seq<ProcessSampleView>, order: Seq<usize>)
    ensures
        all_sound(cpu_warnings(ps, order)),
    decreases order.len(),
{
    if order.len() > 0 {
        lemma_cpu_warnings_sound(ps, order.drop_last());
        let p = ps[order.last() as int];
        assert(all_sound(finding_if(p.cpu_ceil_deci > 800, cpu_warning(p))));
        lemma_sound_concat(cpu_warnings(ps, order.drop_last()), finding_if(p.cpu_ceil_deci > 800, cpu_warning(p)));
    }
}

proof fn lemma_mem_warnings_sound(ps: Seq<ProcessSampleView>, order: Seq<usize>)
    ensures
        all_sound(mem_warnings(ps, order)),
    decreases order.len(),
{
    if order.len() > 0 {
        lemma_mem_warnings_sound(ps, order.drop_last());
        let p = ps[order.last() as int];
        assert(all_sound(finding_if(p.memory_bytes / MIB > 2048, mem_warning(p))));
        lemma_sound_concat(mem_warnings(ps, order.drop_last()), finding_if(p.memory_bytes / MIB > 2048, mem_warning(p)));
    }
}

/// Every finding of the process section is sound: exactly its warnings
/// carry a fix and deduct points.
pub proof fn law_process_findings_sound(ps: Seq<ProcessSampleView>)
    ensures
        all_sound(process_report(ps).findings),
{
    let cw = cpu_warnings(ps, by_cpu(ps));
    let mw = mem_warnings(ps, by_mem(ps));
    let head = finding_if(cw.len() == 0 && mw.len() == 0, ok_view("No runaway processes detected. All processes are within normal ranges."@));
    lemma_cpu_warnings_sound(ps, by_cpu(ps));
    lemma_mem_warnings_sound(ps, by_mem(ps));
    assert(all_sound(head));
    lemma_sound_concat(head, cw);
    lemma_sound_concat(head + cw, mw);
    lemma_sound_concat(Seq::<FindingView>::empty(), head + cw + mw);
    assert(process_report(ps).findings =~= Seq::<FindingView>::empty() + (head + cw + mw));
}

} // verus!
