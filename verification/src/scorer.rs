//! The aggregate health score, its verdict, and the erase/reinstall advice.
use vstd::prelude::*;

use crate::checker::{CheckResult, CheckResultView, Level, results_view, sum_deductions};
use crate::text::{
    chars_of, contains, lowercase, lowercase_chars, parse_nat, parse_u32, push_repeat, repeat_char,
    str_contains, contains_exec,
};

verus! {

/// Final health verdict derived from the aggregate score.
#[derive(Debug, Clone, Copy, PartialEq, Eq, Structural)]
pub enum Verdict {
    Healthy,
    NeedsAttention,
    Degraded,
    Critical,
}

/// Advice about whether to erase and reinstall macOS.
#[derive(Debug, Clone, Copy, PartialEq, Eq, Structural)]
pub enum EraseRecommendation {
    NotNeeded,
    TryOtherFirst,
    Recommended,
}

/// The verdict for a score: 80–100 healthy, 55–79 needs attention,
/// 30–54 degraded, below 30 critical.
pub open spec fn verdict_for(score: int) -> Verdict {
    if 80 <= score <= 100 {
        Verdict::Healthy
    } else if 55 <= score <= 79 {
        Verdict::NeedsAttention
    } else if 30 <= score <= 54 {
        Verdict::Degraded
    } else {
        Verdict::Critical
    }
}

/// Erase advice: never for healthy or needs-attention verdicts, "try other
/// fixes first" for degraded, and for critical only with evidence of
/// corruption (a kernel panic or a S.M.A.R.T. failure).
pub open spec fn erase_advice(v: Verdict, panic_count: u32, smart_failure: bool) -> EraseRecommendation {
    match v {
        Verdict::Healthy | Verdict::NeedsAttention => EraseRecommendation::NotNeeded,
        Verdict::Degraded => EraseRecommendation::TryOtherFirst,
        Verdict::Critical => if panic_count >= 1 || smart_failure {
            EraseRecommendation::Recommended
        } else {
            EraseRecommendation::TryOtherFirst
        },
    }
}

impl Verdict {
    pub fn label(&self) -> (r: &'static str)
        ensures
            r@ == match *self {
                Verdict::Healthy => "HEALTHY"@,
                Verdict::NeedsAttention => "NEEDS ATTENTION"@,
                Verdict::Degraded => "DEGRADED — ACTION REQUIRED"@,
                Verdict::Critical => "CRITICAL — CONSIDER REINSTALL"@,
            },
    {
        match self {
            Verdict::Healthy => "HEALTHY",
            Verdict::NeedsAttention => "NEEDS ATTENTION",
            Verdict::Degraded => "DEGRADED — ACTION REQUIRED",
            Verdict::Critical => "CRITICAL — CONSIDER REINSTALL",
        }
    }

    pub fn icon(&self) -> (r: &'static str)
        ensures
            r@ == match *self {
                Verdict::Healthy => "✅"@,
                Verdict::NeedsAttention => "⚠️ "@,
                Verdict::Degraded => "❌"@,
                Verdict::Critical => "🚨"@,
            },
    {
        match self {
            Verdict::Healthy => "✅",
            Verdict::NeedsAttention => "⚠️ ",
            Verdict::Degraded => "❌",
            Verdict::Critical => "🚨",
        }
    }

    /// Erase recommendation: it requires evidence of software corruption, not
    /// just capacity exhaustion.
    pub fn erase_recommendation(&self, panic_count: u32, smart_failure: bool) -> (r: EraseRecommendation)
        ensures
            r == erase_advice(*self, panic_count, smart_failure),
    {
        match self {
            Verdict::Healthy | Verdict::NeedsAttention => EraseRecommendation::NotNeeded,
            Verdict::Degraded => EraseRecommendation::TryOtherFirst,
            Verdict::Critical => {
                if panic_count >= 1 || smart_failure {
                    EraseRecommendation::Recommended
                } else {
                    EraseRecommendation::TryOtherFirst
                }
            },
        }
    }
}

/// Aggregated health score calculated from all check results.
#[derive(Debug, Clone, Copy)]
pub struct HealthScore {
    /// 0–100.
    pub score: u32,
    pub verdict: Verdict,
    /// A failing drive: overrides the score for erase advice.
    pub smart_failure: bool,
    /// Kernel panics reported by the crash-log section.
    pub panic_count: u32,
}

/// The health score, verdict and special signals of a set of results.
pub open spec fn health_of(rs: Seq<CheckResultView>) -> HealthScore {
    let score = score_for(total_deduction_all(rs));
    HealthScore {
        score,
        verdict: verdict_for(score as int),
        smart_failure: smart_failure_in(rs),
        panic_count: panic_count_in(rs),
    }
}

/// Sum of the deductions of all sections.
pub open spec fn total_deduction_all(rs: Seq<CheckResultView>) -> nat
    decreases rs.len(),
{
    if rs.len() == 0 {
        0
    } else {
        total_deduction_all(rs.drop_last()) + sum_deductions(rs.last().findings)
    }
}

/// `100 - total`, saturating at 0.
pub open spec fn score_for(total: nat) -> u32 {
    if total >= 100 {
        0
    } else {
        (100 - total) as u32
    }
}

/// Some critical finding mentions S.M.A.R.T. (case-insensitively).
pub open spec fn smart_failure_in(rs: Seq<CheckResultView>) -> bool {
    exists|i: int, j: int|
        0 <= i < rs.len() && 0 <= j < rs[i].findings.len() && #[trigger] rs[i].findings[j].level
            == Level::Critical && contains(lowercase(rs[i].findings[j].message), "s.m.a.r.t"@)
}

/// Index of the first section whose lowercased name mentions "crash", from `i` on.
pub open spec fn crash_section_from(rs: Seq<CheckResultView>, i: int) -> Option<int>
    decreases rs.len() - i,
{
    if i < 0 || i >= rs.len() {
        None
    } else if contains(lowercase(rs[i].section), "crash"@) {
        Some(i)
    } else {
        crash_section_from(rs, i + 1)
    }
}

/// Index of the first detail whose key mentions "Kernel panics", from `i` on.
pub open spec fn panic_detail_from(ds: Seq<(Seq<char>, Seq<char>)>, i: int) -> Option<int>
    decreases ds.len() - i,
{
    if i < 0 || i >= ds.len() {
        None
    } else if contains(ds[i].0, "Kernel panics"@) {
        Some(i)
    } else {
        panic_detail_from(ds, i + 1)
    }
}

/// The kernel-panic count that the first crash section reports in its first
/// "Kernel panics" detail, parsed as a `u32`; 0 when any step finds nothing.
pub open spec fn panic_count_in(rs: Seq<CheckResultView>) -> u32 {
    match crash_section_from(rs, 0) {
        Some(i) => match panic_detail_from(rs[i].details, 0) {
            Some(j) => match parse_nat(rs[i].details[j].1, u32::MAX as nat) {
                Some(v) => v as u32,
                None => 0,
            },
            None => 0,
        },
        None => 0,
    }
}

pub proof fn lemma_crash_from_bounds(rs: Seq<CheckResultView>, i: int)
    ensures
        crash_section_from(rs, i) matches Some(k) ==> 0 <= i <= k < rs.len(),
    decreases rs.len() - i,
{
    if 0 <= i < rs.len() && !contains(lowercase(rs[i].section), "crash"@) {
        lemma_crash_from_bounds(rs, i + 1);
    }
}

pub proof fn lemma_panic_from_bounds(ds: Seq<(Seq<char>, Seq<char>)>, i: int)
    ensures
        panic_detail_from(ds, i) matches Some(k) ==> 0 <= i <= k < ds.len() && contains(ds[k].0, "Kernel panics"@),
    decreases ds.len() - i,
{
    if 0 <= i < ds.len() && !contains(ds[i].0, "Kernel panics"@) {
        lemma_panic_from_bounds(ds, i + 1);
    }
}

/// A prefix of the sections deducts no more than all of them.
proof fn lemma_total_prefix(rs: Seq<CheckResultView>, n: int)
    requires
        0 <= n <= rs.len(),
    ensures
        total_deduction_all(rs.take(n)) <= total_deduction_all(rs),
        n < rs.len() ==> total_deduction_all(rs.take(n)) + sum_deductions(rs[n].findings)
            <= total_deduction_all(rs),
    decreases rs.len() - n,
{
    if n < rs.len() {
        lemma_total_prefix(rs, n + 1);
        assert(rs.take(n + 1).drop_last() =~= rs.take(n));
    } else {
        assert(rs.take(n) =~= rs);
    }
}

fn critical_smart_in(r: &CheckResult) -> (b: bool)
    ensures
        b == exists|j: int|
            0 <= j < r@.findings.len() && #[trigger] r@.findings[j].level == Level::Critical
                && contains(lowercase(r@.findings[j].message), "s.m.a.r.t"@),
{
    let needle = chars_of("s.m.a.r.t");
    for j in 0..r.findings.len()
        invariant
            needle@ == "s.m.a.r.t"@,
            forall|k: int|
                0 <= k < j ==> !(#[trigger] r@.findings[k].level == Level::Critical && contains(
                    lowercase(r@.findings[k].message),
                    "s.m.a.r.t"@,
                )),
    {
        let f = &r.findings[j];
        assert(r@.findings[j as int] == f@);
        if f.level == Level::Critical {
            let low = lowercase_chars(&chars_of(f.message.as_str()));
            if contains_exec(&low, &needle) {
                assert(r@.findings[j as int].level == Level::Critical && contains(
                    lowercase(r@.findings[j as int].message),
                    "s.m.a.r.t"@,
                ));
                return true;
            }
        }
    }
    false
}

fn smart_failure_of(results: &[CheckResult]) -> (b: bool)
    ensures
        b == smart_failure_in(results_view(results@)),
{
    let ghost rs = results_view(results@);
    for i in 0..results.len()
        invariant
            rs == results_view(results@),
            forall|k: int, j: int|
                0 <= k < i && 0 <= j < rs[k].findings.len() ==> !(#[trigger] rs[k].findings[j].level
                    == Level::Critical && contains(lowercase(rs[k].findings[j].message), "s.m.a.r.t"@)),
    {
        assert(rs[i as int] == results@[i as int]@);
        if critical_smart_in(&results[i]) {
            return true;
        }
    }
    false
}

fn crash_section_index(results: &[CheckResult]) -> (r: Option<usize>)
    ensures
        r matches Some(i) ==> crash_section_from(results_view(results@), 0) == Some(i as int),
        r is None ==> crash_section_from(results_view(results@), 0) is None,
{
    let ghost rs = results_view(results@);
    let crash = chars_of("crash");
    let n = results.len();
    let mut i: usize = 0;
    while i < n
        invariant
            n == results@.len(),
            rs == results_view(results@),
            crash@ == "crash"@,
            i <= n,
            crash_section_from(rs, 0) == crash_section_from(rs, i as int),
        decreases n - i,
    {
        assert(rs[i as int] == results@[i as int]@);
        let low = lowercase_chars(&chars_of(results[i].section.as_str()));
        if contains_exec(&low, &crash) {
            return Some(i);
        }
        i = i + 1;
    }
    None
}

fn panic_detail_index(r: &CheckResult) -> (k: Option<usize>)
    ensures
        k matches Some(j) ==> panic_detail_from(r@.details, 0) == Some(j as int),
        k is None ==> panic_detail_from(r@.details, 0) is None,
{
    let ghost ds = r@.details;
    let m = r.details.len();
    let mut j: usize = 0;
    while j < m
        invariant
            m == r.details@.len(),
            ds == r@.details,
            j <= m,
            panic_detail_from(ds, 0) == panic_detail_from(ds, j as int),
        decreases m - j,
    {
        let (key, v) = &r.details[j];
        assert(ds[j as int] == (key@, v@));
        if str_contains(key.as_str(), "Kernel panics") {
            return Some(j);
        }
        j = j + 1;
    }
    None
}

impl HealthScore {
    /// Computes score and verdict from all results.
    pub fn compute(results: &[CheckResult]) -> (h: HealthScore)
        requires
            total_deduction_all(results_view(results@)) <= u32::MAX,
        ensures
            h.score == score_for(total_deduction_all(results_view(results@))),
            h.verdict == verdict_for(h.score as int),
            h.smart_failure == smart_failure_in(results_view(results@)),
            h.panic_count == panic_count_in(results_view(results@)),
            h == health_of(results_view(results@)),
    {
        let ghost rs = results_view(results@);
        let n = results.len();
        // Total deduction.
        let mut total: u32 = 0;
        for i in 0..n
            invariant
                n == results@.len(),
                rs == results_view(results@),
                total_deduction_all(rs) <= u32::MAX,
                total == total_deduction_all(rs.take(i as int)),
        {
            proof {
                lemma_total_prefix(rs, i as int);
                assert(rs.take(i + 1).drop_last() =~= rs.take(i as int));
                assert(rs[i as int] == results@[i as int]@);
                crate::checker::lemma_sum_prefix(rs[i as int].findings, rs[i as int].findings.len() as int);
            }
            let d = results[i].total_deduction();
            total = total + d;
        }
        assert(rs.take(n as int) =~= rs);
        let score: u32 = if total >= 100 {
            0
        } else {
            100 - total
        };
        let smart_failure = smart_failure_of(results);
        let panic_count: u32 = match crash_section_index(results) {
            Some(i) => {
                proof {
                    lemma_crash_from_bounds(rs, 0);
                }
                let r = &results[i];
                assert(rs[i as int] == r@);
                match panic_detail_index(r) {
                    Some(j) => {
                        proof {
                            lemma_panic_from_bounds(r@.details, 0);
                        }
                        let (_, v) = &r.details[j];
                        assert(r@.details[j as int].1 == v@);
                        match parse_u32(&chars_of(v.as_str())) {
                            Some(p) => p,
                            None => 0,
                        }
                    },
                    None => 0,
                }
            },
            None => 0,
        };
        let verdict = if 80 <= score && score <= 100 {
            Verdict::Healthy
        } else if 55 <= score && score <= 79 {
            Verdict::NeedsAttention
        } else if 30 <= score && score <= 54 {
            Verdict::Degraded
        } else {
            Verdict::Critical
        };
        HealthScore { score, verdict, smart_failure, panic_count }
    }

    /// Progress bar of `width` cells: `score * width / 100` filled cells
    /// (`█`), then the rest empty (`░`).
    pub fn bar(&self, width: usize) -> (s: String)
        requires
            self.score * width <= usize::MAX,
        ensures
            s@ == repeat_char('█', (self.score * width / 100) as nat) + repeat_char(
                '░',
                if self.score * width / 100 >= width { 0nat } else { (width - self.score * width / 100) as nat },
            ),
    {
        let filled: usize = (self.score as usize * width) / 100;
        let empty: usize = if filled >= width { 0 } else { width - filled };
        let mut s = String::new();
        push_repeat(&mut s, '█', filled);
        push_repeat(&mut s, '░', empty);
        s
    }
}

// ───────────────────────────── laws ─────────────────────────────

/// How severe a verdict is: healthy 0, needs attention 1, degraded 2, critical 3.
pub open spec fn verdict_severity(v: Verdict) -> nat {
    match v {
        Verdict::Healthy => 0,
        Verdict::NeedsAttention => 1,
        Verdict::Degraded => 2,
        Verdict::Critical => 3,
    }
}

/// The score always lies in 0..=100, and more deductions never give a higher score.
pub proof fn law_score_bounded_and_monotone(t1: nat, t2: nat)
    requires
        t1 <= t2,
    ensures
        score_for(t1) <= 100,
        score_for(t2) <= score_for(t1),
        t1 < 100 ==> score_for(t1) + t1 == 100,
{
}

/// A higher score never gets a more severe verdict, and every score in
/// 0..=100 falls in exactly one band of the verdict table.
pub proof fn law_verdict_monotone(s1: int, s2: int)
    requires
        0 <= s1 <= s2 <= 100,
    ensures
        verdict_severity(verdict_for(s2)) <= verdict_severity(verdict_for(s1)),
        (verdict_for(s1) == Verdict::Healthy) <==> 80 <= s1,
        (verdict_for(s1) == Verdict::Critical) <==> s1 < 30,
{
}

/// Erase and reinstall is recommended only for a critical verdict with
/// evidence of corruption (a kernel panic or a S.M.A.R.T. failure), and then
/// always; healthy and needs-attention verdicts never get erase advice.
pub proof fn law_erase_needs_evidence(v: Verdict, panic_count: u32, smart_failure: bool)
    ensures
        (erase_advice(v, panic_count, smart_failure) == EraseRecommendation::Recommended) <==> (
        v == Verdict::Critical && (panic_count >= 1 || smart_failure)),
        (v == Verdict::Healthy || v == Verdict::NeedsAttention) ==> erase_advice(
            v,
            panic_count,
            smart_failure,
        ) == EraseRecommendation::NotNeeded,
{
}

/// Adding a section to the results never raises the health score, and the
/// score of any set of results lies in 0..=100.
pub proof fn law_more_sections_never_raise_score(rs: Seq<CheckResultView>, r: CheckResultView)
    ensures
        health_of(rs.push(r)).score <= health_of(rs).score,
        health_of(rs).score <= 100,
        health_of(rs).verdict == verdict_for(health_of(rs).score as int),
{
    assert(rs.push(r).drop_last() =~= rs);
    assert(rs.push(r).last() == r);
}

} // verus!
