//! Findings and per-section check results, the data every checker produces.
use vstd::prelude::*;

use crate::text::owned;

verus! {

/// Severity of a single finding, ordered `Ok < Warn < Critical`.
#[derive(Debug, Clone, Copy, PartialEq, Eq, Structural, PartialOrd, Ord, Hash)]
pub enum Level {
    /// Everything looks good: an informational line only.
    Okay,
    /// Potential issue, worth monitoring.
    Warn,
    /// Confirmed problem that degrades performance or stability.
    Critical,
}

impl Level {
    /// Position in the severity order.
    pub open spec fn rank(self) -> nat {
        match self {
            Level::Okay => 0,
            Level::Warn => 1,
            Level::Critical => 2,
        }
    }

    /// Position in the severity order.
    pub fn rank_of(&self) -> (r: u8)
        ensures
            r as nat == self.rank(),
    {
        match self {
            Level::Okay => 0,
            Level::Warn => 1,
            Level::Critical => 2,
        }
    }
}

/// The mathematical content of a `Finding`.
pub struct FindingView {
    pub level: Level,
    pub message: Seq<char>,
    pub solution: Option<Seq<char>>,
    pub score_deduction: u32,
}

/// A single finding within a checker section.
#[derive(Debug, Clone)]
pub struct Finding {
    pub level: Level,
    /// One-line human-readable diagnosis.
    pub message: String,
    /// Optional, actionable fix the user can apply manually.
    pub solution: Option<String>,
    /// Points deducted from the 0-100 health score for this finding.
    pub score_deduction: u32,
}

/// The view of an optional string.
pub open spec fn opt_view(o: Option<String>) -> Option<Seq<char>> {
    match o {
        Some(s) => Some(s@),
        None => None,
    }
}

impl View for Finding {
    type V = FindingView;

    open spec fn view(&self) -> FindingView {
        FindingView {
            level: self.level,
            message: self.message@,
            solution: opt_view(self.solution),
            score_deduction: self.score_deduction,
        }
    }
}

/// An informational finding that deducts nothing.
pub open spec fn ok_view(message: Seq<char>) -> FindingView {
    FindingView { level: Level::Okay, message, solution: None, score_deduction: 0 }
}

/// A finding of the given level with a fix and a deduction.
pub open spec fn issue_view(level: Level, message: Seq<char>, solution: Seq<char>, deduction: u32) -> FindingView {
    FindingView { level, message, solution: Some(solution), score_deduction: deduction }
}

impl Finding {
    /// An `Ok` finding: no fix, no deduction.
    pub fn ok(message: &str) -> (f: Finding)
        ensures
            f@ == ok_view(message@),
    {
        Finding { level: Level::Okay, message: owned(message), solution: None, score_deduction: 0 }
    }

    /// A `Warn` finding with its fix and deduction.
    pub fn warn(message: &str, solution: &str, deduction: u32) -> (f: Finding)
        ensures
            f@ == issue_view(Level::Warn, message@, solution@, deduction),
    {
        Finding {
            level: Level::Warn,
            message: owned(message),
            solution: Some(owned(solution)),
            score_deduction: deduction,
        }
    }

    /// A `Critical` finding with its fix and deduction.
    pub fn critical(message: &str, solution: &str, deduction: u32) -> (f: Finding)
        ensures
            f@ == issue_view(Level::Critical, message@, solution@, deduction),
    {
        Finding {
            level: Level::Critical,
            message: owned(message),
            solution: Some(owned(solution)),
            score_deduction: deduction,
        }
    }

    /// A copy of this finding.
    pub fn duplicate(&self) -> (f: Finding)
        ensures
            f@ == self@,
    {
        let solution = match &self.solution {
            Some(s) => Some(s.clone()),
            None => None,
        };
        Finding {
            level: self.level,
            message: self.message.clone(),
            solution,
            score_deduction: self.score_deduction,
        }
    }
}

/// The mathematical content of a `CheckResult`.
#[verifier::ext_equal]
pub struct CheckResultView {
    pub section: Seq<char>,
    pub findings: Seq<FindingView>,
    pub details: Seq<(Seq<char>, Seq<char>)>,
}

/// Result returned by every checker.
#[derive(Debug, Clone)]
pub struct CheckResult {
    /// Display name for this section header.
    pub section: String,
    /// All findings produced by this checker (a mix of Ok / Warn / Critical).
    pub findings: Vec<Finding>,
    /// Key-value pairs for the details block (e.g. "Total RAM: 16 GB").
    pub details: Vec<(String, String)>,
}

/// The views of a sequence of findings.
pub open spec fn findings_view(fs: Seq<Finding>) -> Seq<FindingView> {
    fs.map_values(|f: Finding| f@)
}

/// The views of a sequence of detail pairs.
pub open spec fn details_view(ds: Seq<(String, String)>) -> Seq<(Seq<char>, Seq<char>)> {
    ds.map_values(|d: (String, String)| (d.0@, d.1@))
}

impl View for CheckResult {
    type V = CheckResultView;

    open spec fn view(&self) -> CheckResultView {
        CheckResultView {
            section: self.section@,
            findings: findings_view(self.findings@),
            details: details_view(self.details@),
        }
    }
}

/// The views of a sequence of check results.
pub open spec fn results_view(rs: Seq<CheckResult>) -> Seq<CheckResultView> {
    rs.map_values(|r: CheckResult| r@)
}

/// Sum of the deductions of a sequence of findings.
pub open spec fn sum_deductions(fs: Seq<FindingView>) -> nat
    decreases fs.len(),
{
    if fs.len() == 0 {
        0
    } else {
        sum_deductions(fs.drop_last()) + (fs.last().score_deduction as nat)
    }
}

/// The highest severity among the findings, `Ok` when there are none.
pub open spec fn max_level(fs: Seq<FindingView>) -> Level
    decreases fs.len(),
{
    if fs.len() == 0 {
        Level::Okay
    } else {
        let m = max_level(fs.drop_last());
        if fs.last().level.rank() > m.rank() {
            fs.last().level
        } else {
            m
        }
    }
}

pub proof fn lemma_max_level_bounds(fs: Seq<FindingView>)
    ensures
        forall|i: int| 0 <= i < fs.len() ==> (#[trigger] fs[i]).level.rank() <= max_level(fs).rank(),
        fs.len() == 0 ==> max_level(fs) == Level::Okay,
        fs.len() > 0 ==> exists|i: int| 0 <= i < fs.len() && (#[trigger] fs[i]).level == max_level(fs),
    decreases fs.len(),
{
    if fs.len() > 0 {
        let t = fs.drop_last();
        lemma_max_level_bounds(t);
        assert forall|i: int| 0 <= i < fs.len() implies (#[trigger] fs[i]).level.rank() <= max_level(fs).rank() by {
            if i < t.len() {
                assert(fs[i] == t[i]);
            }
        }
        if t.len() > 0 {
            let k = choose|i: int| 0 <= i < t.len() && (#[trigger] t[i]).level == max_level(t);
            assert(fs[k] == t[k]);
        }
        assert(fs[fs.len() - 1] == fs.last());
    }
}

impl CheckResult {
    /// An empty result for the named section.
    pub fn new(section: &str) -> (r: CheckResult)
        ensures
            r@ == (CheckResultView { section: section@, findings: seq![], details: seq![] }),
    {
        let r = CheckResult { section: owned(section), findings: Vec::new(), details: Vec::new() };
        assert(findings_view(r.findings@) =~= seq![]);
        assert(details_view(r.details@) =~= seq![]);
        r
    }

    /// Appends a finding.
    pub fn add_finding(&mut self, f: Finding)
        ensures
            final(self)@ == (CheckResultView {
                findings: old(self)@.findings.push(f@),
                ..old(self)@
            }),
    {
        self.findings.push(f);
        assert(findings_view(self.findings@) =~= findings_view(old(self).findings@).push(f@));
    }

    /// Appends a key-value detail.
    pub fn add_detail(&mut self, key: &str, value: &str)
        ensures
            final(self)@ == (CheckResultView {
                details: old(self)@.details.push((key@, value@)),
                ..old(self)@
            }),
    {
        self.details.push((owned(key), owned(value)));
        assert(details_view(self.details@) =~= details_view(old(self).details@).push((key@, value@)));
    }

    /// Total score points this section deducts.
    pub fn total_deduction(&self) -> (r: u32)
        requires
            sum_deductions(self@.findings) <= u32::MAX,
        ensures
            r == sum_deductions(self@.findings),
    {
        let ghost fs = self@.findings;
        let mut total: u32 = 0;
        for i in 0..self.findings.len()
            invariant
                fs == findings_view(self.findings@),
                sum_deductions(fs) <= u32::MAX,
                total == sum_deductions(fs.take(i as int)),
        {
            proof {
                assert(fs.take(i + 1).drop_last() =~= fs.take(i as int));
                lemma_sum_prefix(fs, i + 1);
            }
            total = total + self.findings[i].score_deduction;
        }
        assert(fs.take(fs.len() as int) =~= fs);
        total
    }

    /// Highest severity level found in this section.
    pub fn max_level(&self) -> (r: Level)
        ensures
            r == max_level(self@.findings),
    {
        let ghost fs = self@.findings;
        let mut m = Level::Okay;
        assert(fs.take(0) =~= seq![]);
        for i in 0..self.findings.len()
            invariant
                fs == findings_view(self.findings@),
                m == max_level(fs.take(i as int)),
        {
            assert(fs.take(i + 1).drop_last() =~= fs.take(i as int));
            let l = self.findings[i].level;
            if l.rank_of() > m.rank_of() {
                m = l;
            }
        }
        assert(fs.take(fs.len() as int) =~= fs);
        m
    }

    /// A copy of this result.
    pub fn duplicate(&self) -> (r: CheckResult)
        ensures
            r@ == self@,
    {
        let mut findings: Vec<Finding> = Vec::new();
        for i in 0..self.findings.len()
            invariant
                findings_view(findings@) == findings_view(self.findings@).take(i as int),
        {
            let ghost prev = findings@;
            let d = self.findings[i].duplicate();
            findings.push(d);
            assert(findings_view(findings@) =~= findings_view(prev).push(d@));
            assert(findings_view(self.findings@)[i as int] == self.findings@[i as int]@);
            assert(findings_view(self.findings@).take(i + 1) =~= findings_view(self.findings@).take(
                i as int,
            ).push(d@));
        }
        let mut details: Vec<(String, String)> = Vec::new();
        for i in 0..self.details.len()
            invariant
                details_view(details@) == details_view(self.details@).take(i as int),
        {
            let ghost prev = details@;
            let (k, v) = &self.details[i];
            let pair = (k.clone(), v.clone());
            details.push(pair);
            assert(details_view(details@) =~= details_view(prev).push((k@, v@)));
            assert(details_view(self.details@)[i as int] == (k@, v@));
            assert(details_view(self.details@).take(i + 1) =~= details_view(self.details@).take(
                i as int,
            ).push((k@, v@)));
        }
        assert(findings_view(self.findings@).take(self.findings@.len() as int) =~= findings_view(self.findings@));
        assert(details_view(self.details@).take(self.details@.len() as int) =~= details_view(self.details@));
        CheckResult { section: self.section.clone(), findings, details }
    }
}

/// A prefix of a sequence of findings deducts no more than the whole.
pub proof fn lemma_sum_prefix(fs: Seq<FindingView>, n: int)
    requires
        0 <= n <= fs.len(),
    ensures
        sum_deductions(fs.take(n)) <= sum_deductions(fs),
    decreases fs.len() - n,
{
    if n < fs.len() {
        lemma_sum_prefix(fs, n + 1);
        assert(fs.take(n + 1).drop_last() =~= fs.take(n));
    } else {
        assert(fs.take(n) =~= fs);
    }
}

/// A result with nothing in it yet.
pub open spec fn empty_result(section: Seq<char>) -> CheckResultView {
    CheckResultView { section, findings: seq![], details: seq![] }
}

/// `v` with more details and findings appended.
pub open spec fn extend(
    v: CheckResultView,
    details: Seq<(Seq<char>, Seq<char>)>,
    findings: Seq<FindingView>,
) -> CheckResultView {
    CheckResultView { section: v.section, findings: v.findings + findings, details: v.details + details }
}

/// A single detail when `cond` holds, nothing otherwise.
pub open spec fn detail_if(cond: bool, key: Seq<char>, value: Seq<char>) -> Seq<(Seq<char>, Seq<char>)> {
    if cond {
        seq![(key, value)]
    } else {
        seq![]
    }
}

/// A single finding when `cond` holds, nothing otherwise.
pub open spec fn finding_if(cond: bool, f: FindingView) -> Seq<FindingView> {
    if cond {
        seq![f]
    } else {
        seq![]
    }
}

/// A finding is sound when exactly the problems (warnings and critical
/// findings) carry a fix and deduct points from the score.
pub open spec fn sound_finding(f: FindingView) -> bool {
    &&& (f.level == Level::Okay) == (f.solution is None)
    &&& (f.level == Level::Okay) == (f.score_deduction == 0)
}

/// Every finding of the sequence is sound.
pub open spec fn all_sound(fs: Seq<FindingView>) -> bool {
    forall|i: int| 0 <= i < fs.len() ==> sound_finding(#[trigger] fs[i])
}

/// Soundness of findings survives concatenation.
pub proof fn lemma_sound_concat(a: Seq<FindingView>, b: Seq<FindingView>)
    requires
        all_sound(a),
        all_sound(b),
    ensures
        all_sound(a + b),
{
    assert forall|i: int| 0 <= i < (a + b).len() implies sound_finding(#[trigger] (a + b)[i]) by {
        if i < a.len() {
            assert((a + b)[i] == a[i]);
        } else {
            assert((a + b)[i] == b[i - a.len()]);
        }
    }
}

/// A result with nothing in it has only sound findings.
pub proof fn lemma_empty_sound(section: Seq<char>)
    ensures
        all_sound(empty_result(section).findings),
{
}

/// Extending a result by sound findings keeps all its findings sound.
pub proof fn lemma_extend_sound(
    v: CheckResultView,
    details: Seq<(Seq<char>, Seq<char>)>,
    findings: Seq<FindingView>,
)
    requires
        all_sound(v.findings),
        all_sound(findings),
    ensures
        all_sound(extend(v, details, findings).findings),
{
    lemma_sound_concat(v.findings, findings);
}

/// A diagnostic checker: the name it answers to in `--only` and a one-line
/// description for `--list`. Each checker module implements it, with an
/// `assess` function that turns what the program read into a `CheckResult`;
/// adding a checker is one module plus one entry in the registry.
pub trait Checker {
    /// Short, unique name used in `--only <name>` filtering.
    fn name(&self) -> &'static str;

    /// One-line description shown in `--list` output.
    fn description(&self) -> &'static str;
}

/// Adding a finding to a section adds exactly its deduction to the section's
/// total, and raises the section's severity to the finding's level when that
/// is higher, leaving it unchanged otherwise.
pub proof fn law_add_finding_accumulates(fs: Seq<FindingView>, f: FindingView)
    ensures
        sum_deductions(fs.push(f)) == sum_deductions(fs) + f.score_deduction,
        max_level(fs.push(f)).rank() == if f.level.rank() > max_level(fs).rank() {
            f.level.rank()
        } else {
            max_level(fs).rank()
        },
{
    assert(fs.push(f).drop_last() =~= fs);
    assert(fs.push(f).last() == f);
}

} // verus!
