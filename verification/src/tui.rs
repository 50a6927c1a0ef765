//! The state of the live-scanning interactive view: which checkers are
//! pending, running or done, the selection, the action picker, and how each
//! key and each scan message changes it. Drawing and the event loop live
//! with the program.
use vstd::prelude::*;

use crate::checker::{CheckResult, CheckResultView, Level, empty_result, max_level, results_view, sum_deductions};
use crate::scorer::{HealthScore, health_of, total_deduction_all};
use crate::checker::{FindingView, findings_view};
use crate::report::pad_right;
use crate::text::{chars_of, lines, owned, push_repeat, split_lines, string_of, views};

verus! {

/// Message sent from a background checker thread to the view.
pub enum ScanMsg {
    /// The checker at index `i` has started executing.
    Started(usize),
    /// The checker at index `i` finished and produced a result.
    Done(usize, CheckResult),
}

/// What the interactive view hands back when the user quits.
pub struct TuiOutput {
    /// Indices into the quick-win commands the user selected to run.
    pub pending: Vec<usize>,
    /// All check results in original checker order.
    pub results: Vec<CheckResult>,
}

/// Lifecycle of a single checker slot.
pub enum ScanState {
    Pending,
    Running,
    Done(CheckResult),
}

/// Which pane has the keyboard.
#[derive(Debug, Clone, Copy, PartialEq, Eq, Structural)]
pub enum Mode {
    Browse,
    Actions,
}

/// A key press, as the view distinguishes them.
#[derive(Debug, Clone, Copy, PartialEq, Eq, Structural)]
pub enum Key {
    Char(char),
    Up,
    Down,
    PageUp,
    PageDown,
    Enter,
    Esc,
    Other,
}

pub const SCAN_IN_PROGRESS: &'static str = "⏳  Scan in progress — actions available when all checkers complete.";

pub const NOTHING_SELECTED: &'static str = "Nothing selected — use [Space] to toggle an action.";

/// The view's state.
pub struct TuiState {
    pub checker_names: Vec<String>,
    pub total: usize,
    pub states: Vec<ScanState>,
    pub done_count: usize,
    /// Computed once, when every checker is done.
    pub health: Option<HealthScore>,
    /// Animation counter.
    pub tick: u64,
    pub report_path: Option<String>,
    /// Selected row of the checker table.
    pub selected: usize,
    pub detail_scroll: u16,
    pub mode: Mode,
    pub action_checked: Vec<bool>,
    pub action_cursor: usize,
    pub status_msg: String,
    pub should_quit: bool,
    pub pending: Vec<usize>,
}

pub open spec fn is_done(s: ScanState) -> bool {
    s is Done
}

/// Number of finished checkers.
pub open spec fn count_done(ss: Seq<ScanState>) -> nat
    decreases ss.len(),
{
    if ss.len() == 0 {
        0
    } else {
        count_done(ss.drop_last()) + if is_done(ss.last()) { 1nat } else { 0nat }
    }
}

/// Number of finished checkers whose worst finding is at level `l`.
pub open spec fn count_worst(ss: Seq<ScanState>, l: Level) -> nat
    decreases ss.len(),
{
    if ss.len() == 0 {
        0
    } else {
        count_worst(ss.drop_last(), l) + match ss.last() {
            ScanState::Done(r) => if max_level(r@.findings) == l { 1nat } else { 0nat },
            _ => 0nat,
        }
    }
}

/// The result of a finished slot (an empty result otherwise).
pub open spec fn slot_result(s: ScanState) -> CheckResultView {
    match s {
        ScanState::Done(r) => r@,
        _ => empty_result(seq![]),
    }
}

/// The results of all slots, in checker order.
pub open spec fn slot_results(ss: Seq<ScanState>) -> Seq<CheckResultView> {
    ss.map_values(|s: ScanState| slot_result(s))
}

/// Indices of the checked actions, in increasing order.
pub open spec fn checked_indices(c: Seq<bool>) -> Seq<usize>
    decreases c.len(),
{
    if c.len() == 0 {
        seq![]
    } else {
        checked_indices(c.drop_last()) + if c.last() { seq![(c.len() - 1) as usize] } else { seq![] }
    }
}

proof fn lemma_count_done_bound(ss: Seq<ScanState>)
    ensures
        count_done(ss) <= ss.len(),
        count_done(ss) == ss.len() ==> forall|i: int| 0 <= i < ss.len() ==> is_done(#[trigger] ss[i]),
    decreases ss.len(),
{
    if ss.len() > 0 {
        let t = ss.drop_last();
        lemma_count_done_bound(t);
        if count_done(ss) == ss.len() {
            assert forall|i: int| 0 <= i < ss.len() implies is_done(#[trigger] ss[i]) by {
                if i < t.len() {
                    assert(ss[i] == t[i]);
                }
            }
        }
    }
}

proof fn lemma_count_done_update(ss: Seq<ScanState>, i: int, s: ScanState)
    requires
        0 <= i < ss.len(),
    ensures
        count_done(ss.update(i, s)) + (if is_done(ss[i]) { 1int } else { 0int }) == count_done(ss) + (if is_done(s) { 1int } else { 0int }),
    decreases ss.len(),
{
    let u = ss.update(i, s);
    if i == ss.len() - 1 {
        assert(u.drop_last() =~= ss.drop_last());
    } else {
        lemma_count_done_update(ss.drop_last(), i, s);
        assert(u.drop_last() =~= ss.drop_last().update(i, s));
    }
}

proof fn lemma_checked_indices(c: Seq<bool>)
    requires
        c.len() <= usize::MAX,
    ensures
        forall|t: int| 0 <= t < checked_indices(c).len() ==> (#[trigger] checked_indices(c)[t]) < c.len() && c[checked_indices(c)[t] as int],
        forall|s: int, t: int| 0 <= s < t < checked_indices(c).len() ==> #[trigger] checked_indices(c)[s] < #[trigger] checked_indices(c)[t],
        forall|j: int| 0 <= j < c.len() && c[j] ==> checked_indices(c).contains(j as usize),
    decreases c.len(),
{
    if c.len() > 0 {
        let d = c.drop_last();
        lemma_checked_indices(d);
        let ci = checked_indices(c);
        let di = checked_indices(d);
        assert forall|t: int| 0 <= t < ci.len() implies (#[trigger] ci[t]) < c.len() && c[ci[t] as int] by {
            if t < di.len() {
                assert(ci[t] == di[t]);
                assert(c[di[t] as int] == d[di[t] as int]);
            } else {
                assert(ci[t] == (c.len() - 1) as usize);
            }
        }
        assert forall|s: int, t: int| 0 <= s < t < ci.len() implies #[trigger] ci[s] < #[trigger] ci[t] by {
            if t < di.len() {
                assert(ci[s] == di[s] && ci[t] == di[t]);
            } else {
                assert(ci[s] == di[s]);
                assert(ci[t] == (c.len() - 1) as usize);
                assert(di[s] < d.len());
            }
        }
        assert forall|j: int| 0 <= j < c.len() && c[j] implies ci.contains(j as usize) by {
            if j < d.len() {
                assert(d[j] == c[j]);
                let k = choose|k: int| 0 <= k < di.len() && di[k] == j as usize;
                assert(ci[k] == j as usize);
            } else {
                assert(ci[ci.len() - 1] == j as usize);
            }
        }
    }
}

/// One line of the detail panel, as the view draws it.
pub enum DetailLine {
    /// An empty line.
    Blank,
    /// "Waiting in queue..." for a checker not yet started.
    Waiting,
    /// The note under the waiting line.
    WaitingNote,
    /// "Scanning..." for a running checker (drawn with the spinner).
    Scanning,
    /// The note under the scanning line.
    ScanningNote,
    /// A detail with an empty value: its key, indented by two spaces.
    Heading(String),
    /// A detail: its key indented by two spaces and padded to 24 columns, and its value.
    Pair(String, String),
    /// A finding: its level and message.
    Finding(Level, String),
    /// One line of a finding's fix.
    Fix(String),
}

pub enum DetailLineView {
    Blank,
    Waiting,
    WaitingNote,
    Scanning,
    ScanningNote,
    Heading(Seq<char>),
    Pair(Seq<char>, Seq<char>),
    Finding(Level, Seq<char>),
    Fix(Seq<char>),
}

impl View for DetailLine {
    type V = DetailLineView;

    open spec fn view(&self) -> DetailLineView {
        match self {
            DetailLine::Blank => DetailLineView::Blank,
            DetailLine::Waiting => DetailLineView::Waiting,
            DetailLine::WaitingNote => DetailLineView::WaitingNote,
            DetailLine::Scanning => DetailLineView::Scanning,
            DetailLine::ScanningNote => DetailLineView::ScanningNote,
            DetailLine::Heading(k) => DetailLineView::Heading(k@),
            DetailLine::Pair(k, v) => DetailLineView::Pair(k@, v@),
            DetailLine::Finding(l, m) => DetailLineView::Finding(*l, m@),
            DetailLine::Fix(l) => DetailLineView::Fix(l@),
        }
    }
}

pub open spec fn detail_lines_view(v: Seq<DetailLine>) -> Seq<DetailLineView> {
    v.map_values(|l: DetailLine| l@)
}

/// A detail as a panel line: a heading when its value is empty.
pub open spec fn detail_panel_line(d: (Seq<char>, Seq<char>)) -> DetailLineView {
    if d.1.len() == 0 {
        DetailLineView::Heading("  "@ + d.0)
    } else {
        DetailLineView::Pair("  "@ + pad_right(d.0, 24), d.1)
    }
}

/// A finding's panel lines: the finding, then each line of its fix and an
/// empty line when it has one.
pub open spec fn finding_panel_lines(f: FindingView) -> Seq<DetailLineView> {
    seq![DetailLineView::Finding(f.level, f.message)] + match f.solution {
        Some(sol) => lines(sol).map_values(|l: Seq<char>| DetailLineView::Fix(l)) + seq![DetailLineView::Blank],
        None => seq![],
    }
}

pub open spec fn findings_panel_lines(fs: Seq<FindingView>) -> Seq<DetailLineView>
    decreases fs.len(),
{
    if fs.len() == 0 {
        seq![]
    } else {
        findings_panel_lines(fs.drop_last()) + finding_panel_lines(fs.last())
    }
}

/// The detail panel of a slot: a waiting or scanning notice; for a finished
/// checker its details, an empty line between details and findings when
/// there are both, then its findings with their fixes.
pub open spec fn detail_panel(s: ScanState) -> Seq<DetailLineView> {
    match s {
        ScanState::Pending => seq![
            DetailLineView::Blank,
            DetailLineView::Blank,
            DetailLineView::Waiting,
            DetailLineView::Blank,
            DetailLineView::WaitingNote,
        ],
        ScanState::Running => seq![
            DetailLineView::Blank,
            DetailLineView::Blank,
            DetailLineView::Scanning,
            DetailLineView::Blank,
            DetailLineView::ScanningNote,
        ],
        ScanState::Done(r) => r@.details.map_values(|d: (Seq<char>, Seq<char>)| detail_panel_line(d)) + (if r@.details.len()
            > 0 && r@.findings.len() > 0 {
            seq![DetailLineView::Blank]
        } else {
            seq![]
        }) + findings_panel_lines(r@.findings),
    }
}

fn detail_line_exec(k: &String, v: &String) -> (l: DetailLine)
    ensures
        l@ == detail_panel_line((k@, v@)),
{
    let mut key = owned("  ");
    key.append(k.as_str());
    let vc = chars_of(v.as_str());
    if vc.len() == 0 {
        DetailLine::Heading(key)
    } else {
        let kc = chars_of(k.as_str());
        let pad: usize = if kc.len() < 24 { 24 - kc.len() } else { 0 };
        let ghost before = key@;
        push_repeat(&mut key, ' ', pad);
        assert(before == "  "@ + k@);
        assert(key@ =~= "  "@ + pad_right(k@, 24));
        DetailLine::Pair(key, owned(v.as_str()))
    }
}

fn push_finding_lines(out: &mut Vec<DetailLine>, f: &crate::checker::Finding)
    ensures
        detail_lines_view(final(out)@) == detail_lines_view(old(out)@) + finding_panel_lines(f@),
{
    let ghost before = detail_lines_view(out@);
    out.push(DetailLine::Finding(f.level, f.message.clone()));
    assert(detail_lines_view(out@) =~= before + seq![DetailLineView::Finding(f@.level, f@.message)]);
    match &f.solution {
        Some(sol) => {
            let ls = split_lines(&chars_of(sol.as_str()));
            let ghost mid = detail_lines_view(out@);
            for t in 0..ls.len()
                invariant
                    views(ls@) == lines(sol@),
                    detail_lines_view(out@) == mid + views(ls@).take(t as int).map_values(|l: Seq<char>| DetailLineView::Fix(l)),
            {
                let ghost prev = detail_lines_view(out@);
                let line = string_of(&ls[t]);
                out.push(DetailLine::Fix(line));
                assert(detail_lines_view(out@) =~= prev.push(DetailLineView::Fix(ls@[t as int]@)));
                assert(views(ls@).take(t + 1) =~= views(ls@).take(t as int).push(ls@[t as int]@));
                assert(detail_lines_view(out@) =~= mid + views(ls@).take(t + 1).map_values(|l: Seq<char>| DetailLineView::Fix(l)));
            }
            assert(views(ls@).take(ls@.len() as int) =~= views(ls@));
            let ghost prev = detail_lines_view(out@);
            out.push(DetailLine::Blank);
            assert(detail_lines_view(out@) =~= prev.push(DetailLineView::Blank));
            assert(detail_lines_view(out@) =~= before + finding_panel_lines(f@));
        },
        None => {
            assert(detail_lines_view(out@) =~= before + finding_panel_lines(f@));
        },
    }
}

fn notice_lines(running: bool) -> (out: Vec<DetailLine>)
    ensures
        detail_lines_view(out@) == if running {
            detail_panel(ScanState::Running)
        } else {
            detail_panel(ScanState::Pending)
        },
{
    let mut out: Vec<DetailLine> = Vec::new();
    out.push(DetailLine::Blank);
    out.push(DetailLine::Blank);
    if running {
        out.push(DetailLine::Scanning);
    } else {
        out.push(DetailLine::Waiting);
    }
    out.push(DetailLine::Blank);
    if running {
        out.push(DetailLine::ScanningNote);
    } else {
        out.push(DetailLine::WaitingNote);
    }
    assert(detail_lines_view(out@) =~= if running {
        detail_panel(ScanState::Running)
    } else {
        detail_panel(ScanState::Pending)
    });
    out
}

fn done_lines(r: &CheckResult) -> (out: Vec<DetailLine>)
    ensures
        detail_lines_view(out@) == r@.details.map_values(|d: (Seq<char>, Seq<char>)| detail_panel_line(d)) + (if r@.details.len()
            > 0 && r@.findings.len() > 0 {
            seq![DetailLineView::Blank]
        } else {
            seq![]
        }) + findings_panel_lines(r@.findings),
{
    let ghost dv = r@.details;
    let ghost fv = r@.findings;
    let mut out: Vec<DetailLine> = Vec::new();
    for i in 0..r.details.len()
        invariant
            dv == r@.details,
            detail_lines_view(out@) == dv.take(i as int).map_values(|d: (Seq<char>, Seq<char>)| detail_panel_line(d)),
    {
        let (k, v) = &r.details[i];
        assert(dv[i as int] == (k@, v@));
        let ghost prev = detail_lines_view(out@);
        let l = detail_line_exec(k, v);
        let ghost lv = l@;
        out.push(l);
        assert(detail_lines_view(out@) =~= prev.push(lv));
        assert(dv.take(i + 1) =~= dv.take(i as int).push(dv[i as int]));
        assert(detail_lines_view(out@) =~= dv.take(i + 1).map_values(|d: (Seq<char>, Seq<char>)| detail_panel_line(d)));
    }
    assert(dv.take(dv.len() as int) =~= dv);
    let ghost head = detail_lines_view(out@);
    if r.details.len() > 0 && r.findings.len() > 0 {
        out.push(DetailLine::Blank);
    }
    let ghost sep = if dv.len() > 0 && fv.len() > 0 { seq![DetailLineView::Blank] } else { Seq::<DetailLineView>::empty() };
    assert(detail_lines_view(out@) =~= head + sep);
    let ghost base = detail_lines_view(out@);
    for j in 0..r.findings.len()
        invariant
            fv == r@.findings,
            detail_lines_view(out@) == base + findings_panel_lines(fv.take(j as int)),
    {
        assert(fv[j as int] == r.findings@[j as int]@);
        push_finding_lines(&mut out, &r.findings[j]);
        assert(fv.take(j + 1).drop_last() =~= fv.take(j as int));
        assert(fv.take(j + 1).last() == fv[j as int]);
    }
    assert(fv.take(fv.len() as int) =~= fv);
    out
}

/// The slots after one scan message: a start marks its checker running, a
/// completion stores its result.
pub open spec fn step_states(ss: Seq<ScanState>, m: ScanMsg) -> Seq<ScanState> {
    match m {
        ScanMsg::Started(i) => ss.update(i as int, ScanState::Running),
        ScanMsg::Done(i, r) => ss.update(i as int, ScanState::Done(r)),
    }
}

/// A message fits the slots: it names a checker that has not finished, and
/// a completion keeps the total deduction within a `u32`.
pub open spec fn msg_fits(ss: Seq<ScanState>, m: ScanMsg) -> bool {
    match m {
        ScanMsg::Started(i) => i < ss.len() && !is_done(ss[i as int]),
        ScanMsg::Done(i, r) => i < ss.len() && !is_done(ss[i as int])
            && total_deduction_all(slot_results(ss.update(i as int, ScanState::Done(r)))) <= u32::MAX,
    }
}

/// The slots after a run of messages, in order.
pub open spec fn run_states(ss: Seq<ScanState>, ms: Seq<ScanMsg>) -> Seq<ScanState>
    decreases ms.len(),
{
    if ms.len() == 0 {
        ss
    } else {
        run_states(step_states(ss, ms[0]), ms.drop_first())
    }
}

/// Every message of the run fits the slots it arrives at.
pub open spec fn msgs_fit(ss: Seq<ScanState>, ms: Seq<ScanMsg>) -> bool
    decreases ms.len(),
{
    ms.len() == 0 || (msg_fits(ss, ms[0]) && msgs_fit(step_states(ss, ms[0]), ms.drop_first()))
}

impl TuiState {
    /// The invariants every state keeps.
    pub open spec fn wf(&self) -> bool {
        &&& self.states@.len() == self.total
        &&& self.checker_names@.len() == self.total
        &&& self.selected == 0 || self.selected < self.total
        &&& self.action_checked@.len() > 0
        &&& self.action_cursor < self.action_checked@.len()
        &&& forall|t: int| 0 <= t < self.pending@.len() ==> (#[trigger] self.pending@[t]) < self.action_checked@.len()
        &&& self.done_count == count_done(self.states@)
        &&& self.health matches Some(h) ==> self.total > 0 && self.done_count == self.total && h == health_of(slot_results(self.states@))
        &&& self.total > 0 && self.done_count == self.total ==> self.health is Some
        &&& self.mode == Mode::Actions ==> self.health is Some
    }

    /// A fresh view: every checker pending, the first row selected, no
    /// action checked.
    pub fn new(checker_names: Vec<String>, report_path: Option<String>, n_actions: usize) -> (s: TuiState)
        requires
            n_actions > 0,
        ensures
            s.wf(),
            s.total == checker_names@.len(),
            s.checker_names == checker_names,
            forall|i: int| 0 <= i < s.total ==> (#[trigger] s.states@[i]) is Pending,
            s.health is None,
            s.selected == 0,
            s.mode == Mode::Browse,
            s.action_checked@ == Seq::new(n_actions as nat, |i: int| false),
            s.action_cursor == 0,
            !s.should_quit,
            s.pending@.len() == 0,
            s.report_path == report_path,
            s.done_count == 0,
            s.detail_scroll == 0,
            s.tick == 0,
            s.status_msg@.len() == 0,
    {
        let total = checker_names.len();
        let mut states: Vec<ScanState> = Vec::new();
        for i in 0..total
            invariant
                states@.len() == i,
                forall|j: int| 0 <= j < i ==> (#[trigger] states@[j]) is Pending,
                count_done(states@) == 0,
        {
            let ghost prev = states@;
            states.push(ScanState::Pending);
            assert(states@.drop_last() =~= prev);
        }
        let mut checked: Vec<bool> = Vec::new();
        for i in 0..n_actions
            invariant
                checked@ == Seq::new(i as nat, |j: int| false),
        {
            checked.push(false);
            assert(checked@ =~= Seq::new((i + 1) as nat, |j: int| false));
        }
        TuiState {
            checker_names,
            total,
            states,
            done_count: 0,
            health: None,
            tick: 0,
            report_path,
            selected: 0,
            detail_scroll: 0,
            mode: Mode::Browse,
            action_checked: checked,
            action_cursor: 0,
            status_msg: String::new(),
            should_quit: false,
            pending: Vec::new(),
        }
    }

    /// The selected row.
    pub fn selected(&self) -> (r: usize)
        ensures
            r == self.selected,
    {
        self.selected
    }

    /// Moves the selection up one row, if possible, and scrolls the details to the top.
    pub fn move_up(&mut self)
        requires
            old(self).wf(),
        ensures
            final(self).wf(),
            old(self).selected > 0 ==> final(self).selected == old(self).selected - 1 && final(self).detail_scroll == 0,
            old(self).selected == 0 ==> final(self).selected == 0 && final(self).detail_scroll == old(self).detail_scroll,
            final(self).states == old(self).states,
            final(self).health == old(self).health,
            final(self).mode == old(self).mode,
            final(self).pending == old(self).pending,
            final(self).action_checked == old(self).action_checked,
            final(self).action_cursor == old(self).action_cursor,
            final(self).should_quit == old(self).should_quit,
            final(self).status_msg == old(self).status_msg,
            final(self).tick == old(self).tick,
            final(self).done_count == old(self).done_count,
            final(self).total == old(self).total,
            final(self).report_path == old(self).report_path,
            final(self).checker_names == old(self).checker_names,
    {
        let i = self.selected;
        if i > 0 {
            self.selected = i - 1;
            self.detail_scroll = 0;
        }
    }

    /// Moves the selection down one row, if possible, and scrolls the details to the top.
    pub fn move_down(&mut self)
        requires
            old(self).wf(),
        ensures
            final(self).wf(),
            old(self).selected + 1 < old(self).total ==> final(self).selected == old(self).selected + 1 && final(self).detail_scroll == 0,
            old(self).selected + 1 >= old(self).total ==> final(self).selected == old(self).selected && final(self).detail_scroll == old(self).detail_scroll,
            final(self).states == old(self).states,
            final(self).health == old(self).health,
            final(self).mode == old(self).mode,
            final(self).pending == old(self).pending,
            final(self).action_checked == old(self).action_checked,
            final(self).action_cursor == old(self).action_cursor,
            final(self).should_quit == old(self).should_quit,
            final(self).status_msg == old(self).status_msg,
            final(self).tick == old(self).tick,
            final(self).done_count == old(self).done_count,
            final(self).total == old(self).total,
            final(self).report_path == old(self).report_path,
            final(self).checker_names == old(self).checker_names,
    {
        let i = self.selected;
        if i < self.total && i + 1 < self.total {
            self.selected = i + 1;
            self.detail_scroll = 0;
        }
    }

    /// Advances the animation counter (wrapping).
    pub fn advance_tick(&mut self)
        requires
            old(self).wf(),
        ensures
            final(self).wf(),
            final(self).tick as int == (old(self).tick as int + 1) % 0x1_0000_0000_0000_0000,
            final(self).states == old(self).states,
            final(self).selected == old(self).selected,
            final(self).health == old(self).health,
            final(self).mode == old(self).mode,
            final(self).done_count == old(self).done_count,
            final(self).action_checked == old(self).action_checked,
            final(self).action_cursor == old(self).action_cursor,
            final(self).status_msg == old(self).status_msg,
            final(self).should_quit == old(self).should_quit,
            final(self).pending == old(self).pending,
            final(self).detail_scroll == old(self).detail_scroll,
            final(self).total == old(self).total,
            final(self).checker_names == old(self).checker_names,
            final(self).report_path == old(self).report_path,
    {
        self.tick = self.tick.wrapping_add(1);
    }

    /// Results in checker order; every checker must be done.
    pub fn ordered_results(&self) -> (rs: Vec<CheckResult>)
        requires
            self.states@.len() == self.total,
            forall|i: int| 0 <= i < self.states@.len() ==> is_done(#[trigger] self.states@[i]),
        ensures
            results_view(rs@) == slot_results(self.states@),
    {
        let mut rs: Vec<CheckResult> = Vec::new();
        for i in 0..self.total
            invariant
                self.states@.len() == self.total,
                forall|j: int| 0 <= j < self.states@.len() ==> is_done(#[trigger] self.states@[j]),
                results_view(rs@) == slot_results(self.states@).take(i as int),
        {
            let ghost prev = rs@;
            match &self.states[i] {
                ScanState::Done(r) => {
                    let d = r.duplicate();
                    rs.push(d);
                    assert(results_view(rs@) =~= results_view(prev).push(d@));
                },
                _ => {
                    assert(is_done(self.states@[i as int]));
                },
            }
            assert(slot_results(self.states@).take(i + 1) =~= slot_results(self.states@).take(i as int).push(slot_result(self.states@[i as int])));
        }
        assert(slot_results(self.states@).take(self.total as int) =~= slot_results(self.states@));
        rs
    }

    /// Results in checker order, an empty result named after the checker
    /// for any slot that never finished.
    pub fn collect_results(&self) -> (rs: Vec<CheckResult>)
        requires
            self.wf(),
        ensures
            rs@.len() == self.total,
            forall|i: int| 0 <= i < self.total ==> (#[trigger] rs@[i])@ == match self.states@[i] {
                ScanState::Done(r) => r@,
                _ => empty_result(self.checker_names@[i]@),
            },
    {
        let mut rs: Vec<CheckResult> = Vec::new();
        for i in 0..self.total
            invariant
                self.wf(),
                rs@.len() == i,
                forall|j: int| 0 <= j < i ==> (#[trigger] rs@[j])@ == match self.states@[j] {
                    ScanState::Done(r) => r@,
                    _ => empty_result(self.checker_names@[j]@),
                },
        {
            match &self.states[i] {
                ScanState::Done(r) => {
                    rs.push(r.duplicate());
                },
                _ => {
                    rs.push(CheckResult::new(self.checker_names[i].as_str()));
                },
            }
        }
        rs
    }

    /// Applies one scan message: a start marks the checker running; a
    /// completion stores its result and, once every checker is done,
    /// computes the health score.
    pub fn apply_msg(&mut self, msg: ScanMsg)
        requires
            old(self).wf(),
            match msg {
                ScanMsg::Started(i) => i < old(self).total && !is_done(old(self).states@[i as int]),
                ScanMsg::Done(i, r) => i < old(self).total && !is_done(old(self).states@[i as int])
                    && total_deduction_all(slot_results(old(self).states@.update(i as int, ScanState::Done(r)))) <= u32::MAX,
            },
        ensures
            final(self).wf(),
            final(self).total == old(self).total,
            final(self).selected == old(self).selected,
            final(self).mode == old(self).mode,
            final(self).checker_names == old(self).checker_names,
            final(self).action_checked == old(self).action_checked,
            final(self).action_cursor == old(self).action_cursor,
            final(self).status_msg == old(self).status_msg,
            final(self).should_quit == old(self).should_quit,
            final(self).pending == old(self).pending,
            final(self).detail_scroll == old(self).detail_scroll,
            final(self).tick == old(self).tick,
            final(self).report_path == old(self).report_path,
            match msg {
                ScanMsg::Started(i) => final(self).states@ == old(self).states@.update(i as int, ScanState::Running)
                    && final(self).health == old(self).health && final(self).done_count == old(self).done_count,
                ScanMsg::Done(i, r) => final(self).states@ == old(self).states@.update(i as int, ScanState::Done(r))
                    && final(self).done_count == old(self).done_count + 1
                    && (final(self).done_count == final(self).total ==> final(self).health == Some(health_of(slot_results(final(self).states@))))
                    && (final(self).done_count < final(self).total ==> final(self).health == old(self).health),
            },
    {
        match msg {
            ScanMsg::Started(i) => {
                proof {
                    lemma_count_done_update(self.states@, i as int, ScanState::Running);
                }
                self.states.set(i, ScanState::Running);
                proof {
                    lemma_count_done_bound(old(self).states@);
                }
            },
            ScanMsg::Done(i, r) => {
                let ghost rr = r;
                proof {
                    lemma_count_done_update(self.states@, i as int, ScanState::Done(rr));
                    lemma_count_done_bound(old(self).states@);
                }
                self.states.set(i, ScanState::Done(r));
                self.done_count = self.done_count + 1;
                proof {
                    lemma_count_done_bound(self.states@);
                }
                if self.done_count == self.total {
                    let ordered = self.ordered_results();
                    let h = HealthScore::compute(ordered.as_slice());
                    self.health = Some(h);
                }
            },
        }
    }

    /// Applies every queued scan message, in order. Afterwards the slots are
    /// those the run leads to, the done count counts the finished ones, and
    /// the health score is present exactly when every checker has finished,
    /// computed from all results in checker order.
    pub fn apply_all(&mut self, msgs: Vec<ScanMsg>)
        requires
            old(self).wf(),
            msgs_fit(old(self).states@, msgs@),
        ensures
            final(self).wf(),
            final(self).states@ == run_states(old(self).states@, msgs@),
            final(self).done_count == count_done(final(self).states@),
            final(self).health == if final(self).total > 0 && final(self).done_count == final(self).total {
                Some(health_of(slot_results(final(self).states@)))
            } else {
                None
            },
            final(self).total == old(self).total,
            final(self).selected == old(self).selected,
            final(self).mode == old(self).mode,
            final(self).checker_names == old(self).checker_names,
            final(self).action_checked == old(self).action_checked,
            final(self).action_cursor == old(self).action_cursor,
            final(self).status_msg == old(self).status_msg,
            final(self).should_quit == old(self).should_quit,
            final(self).pending == old(self).pending,
            final(self).detail_scroll == old(self).detail_scroll,
            final(self).tick == old(self).tick,
            final(self).report_path == old(self).report_path,
    {
        let mut msgs = msgs;
        let ghost target = run_states(old(self).states@, msgs@);
        while msgs.len() > 0
            invariant
                self.wf(),
                msgs_fit(self.states@, msgs@),
                run_states(self.states@, msgs@) == target,
                self.total == old(self).total,
                self.selected == old(self).selected,
                self.mode == old(self).mode,
                self.checker_names == old(self).checker_names,
                self.action_checked == old(self).action_checked,
                self.action_cursor == old(self).action_cursor,
                self.status_msg == old(self).status_msg,
                self.should_quit == old(self).should_quit,
                self.pending == old(self).pending,
                self.detail_scroll == old(self).detail_scroll,
                self.tick == old(self).tick,
                self.report_path == old(self).report_path,
            decreases msgs@.len(),
        {
            let ghost before = msgs@;
            let m = msgs.remove(0);
            assert(msgs@ =~= before.drop_first());
            assert(m == before[0]);
            self.apply_msg(m);
        }
    }

    /// The lines of the detail panel for the selected checker.
    pub fn detail_lines(&self) -> (r: Vec<DetailLine>)
        requires
            self.wf(),
        ensures
            self.total > 0 ==> detail_lines_view(r@) == detail_panel(self.states@[self.selected as int]),
            self.total == 0 ==> r@.len() == 0,
    {
        if self.total == 0 {
            return Vec::new();
        }
        match &self.states[self.selected] {
            ScanState::Pending => notice_lines(false),
            ScanState::Running => notice_lines(true),
            ScanState::Done(r) => done_lines(r),
        }
    }

    /// Counts of finished checkers whose worst finding is ok, a warning, or
    /// critical, and of checkers still pending or running.
    pub fn stats(&self) -> (r: (usize, usize, usize, usize))
        requires
            self.wf(),
        ensures
            r.0 == count_worst(self.states@, Level::Okay),
            r.1 == count_worst(self.states@, Level::Warn),
            r.2 == count_worst(self.states@, Level::Critical),
            r.0 + r.1 + r.2 + r.3 == self.total,
            r.3 == self.total - count_done(self.states@),
    {
        let mut ok: usize = 0;
        let mut warn: usize = 0;
        let mut crit: usize = 0;
        let mut pend: usize = 0;
        for i in 0..self.total
            invariant
                self.wf(),
                ok + warn + crit + pend == i,
                pend == i - count_done(self.states@.take(i as int)),
                count_done(self.states@.take(i as int)) <= i,
                ok == count_worst(self.states@.take(i as int), Level::Okay),
                warn == count_worst(self.states@.take(i as int), Level::Warn),
                crit == count_worst(self.states@.take(i as int), Level::Critical),
        {
            assert(self.states@.take(i + 1).drop_last() =~= self.states@.take(i as int));
            assert(self.states@.take(i + 1).last() == self.states@[i as int]);
            match &self.states[i] {
                ScanState::Done(r) => match r.max_level() {
                    Level::Okay => ok = ok + 1,
                    Level::Warn => warn = warn + 1,
                    Level::Critical => crit = crit + 1,
                },
                _ => pend = pend + 1,
            }
        }
        assert(self.states@.take(self.total as int) =~= self.states@);
        (ok, warn, crit, pend)
    }

    /// Handles a key in the checker list: `q`/Esc quit, Up/`k` and Down/`j`
    /// move, `a` opens the actions once every checker is done (else explains
    /// why not), PageUp/PageDown scroll the details by 3.
    pub fn on_browse_key(&mut self, key: Key)
        requires
            old(self).wf(),
        ensures
            final(self).wf(),
            final(self).states == old(self).states,
            final(self).health == old(self).health,
            final(self).pending == old(self).pending,
            final(self).action_checked == old(self).action_checked,
            (key == Key::Char('q') || key == Key::Esc) ==> final(self).should_quit,
            key == Key::Char('a') && old(self).health is Some ==> final(self).mode == Mode::Actions
                && final(self).action_cursor == 0 && final(self).status_msg@.len() == 0,
            key == Key::Char('a') && old(self).health is None ==> final(self).mode == old(self).mode
                && final(self).status_msg@ == SCAN_IN_PROGRESS@,
            key == Key::PageUp ==> final(self).detail_scroll == if old(self).detail_scroll >= 3 { (old(self).detail_scroll - 3) as u16 } else { 0 },
            key == Key::PageDown ==> final(self).detail_scroll == if old(self).detail_scroll <= u16::MAX - 3 { (old(self).detail_scroll + 3) as u16 } else { u16::MAX },
            (key == Key::Up || key == Key::Char('k')) ==> final(self).selected == if old(self).selected > 0 { (old(self).selected - 1) as usize } else { 0 },
            (key == Key::Down || key == Key::Char('j')) ==> final(self).selected == if old(self).selected + 1 < old(self).total { (old(self).selected + 1) as usize } else { old(self).selected },
            !(key == Key::Char('q') || key == Key::Esc) ==> final(self).should_quit == old(self).should_quit,
            key != Key::Char('a') ==> final(self).mode == old(self).mode,
            key != Key::Char('a') ==> final(self).status_msg == old(self).status_msg
                && final(self).action_cursor == old(self).action_cursor,
            !(key == Key::Up || key == Key::Char('k') || key == Key::Down || key == Key::Char('j'))
                ==> final(self).selected == old(self).selected,
            (key == Key::Up || key == Key::Char('k') || key == Key::Down || key == Key::Char('j'))
                ==> final(self).detail_scroll == if final(self).selected == old(self).selected { old(self).detail_scroll } else { 0 },
            !(key == Key::Up || key == Key::Char('k') || key == Key::Down || key == Key::Char('j') || key == Key::PageUp
                || key == Key::PageDown) ==> final(self).detail_scroll == old(self).detail_scroll,
            final(self).tick == old(self).tick,
            final(self).done_count == old(self).done_count,
            final(self).total == old(self).total,
            final(self).report_path == old(self).report_path,
            final(self).checker_names == old(self).checker_names,
    {
        match key {
            Key::Char('q') | Key::Esc => {
                self.should_quit = true;
            },
            Key::Up | Key::Char('k') => self.move_up(),
            Key::Down | Key::Char('j') => self.move_down(),
            Key::Char('a') => {
                if self.health.is_some() {
                    self.mode = Mode::Actions;
                    self.action_cursor = 0;
                    self.status_msg = String::new();
                } else {
                    self.status_msg = owned(SCAN_IN_PROGRESS);
                }
            },
            Key::PageUp => {
                self.detail_scroll = self.detail_scroll.saturating_sub(3);
            },
            Key::PageDown => {
                self.detail_scroll = self.detail_scroll.saturating_add(3);
            },
            _ => {},
        }
    }

    /// Handles a key in the actions picker: Esc/`q` go back, Up/`k` and
    /// Down/`j` move the cursor, Space toggles the action under it, Enter
    /// runs the checked actions (quitting the view) or, with none checked,
    /// goes back with a hint.
    pub fn on_actions_key(&mut self, key: Key)
        requires
            old(self).wf(),
        ensures
            final(self).wf(),
            final(self).states == old(self).states,
            final(self).health == old(self).health,
            final(self).selected == old(self).selected,
            (key == Key::Esc || key == Key::Char('q')) ==> final(self).mode == Mode::Browse,
            (key == Key::Up || key == Key::Char('k')) ==> final(self).action_cursor == if old(self).action_cursor > 0 { (old(self).action_cursor - 1) as usize } else { 0 },
            (key == Key::Down || key == Key::Char('j')) ==> final(self).action_cursor == if old(self).action_cursor + 1 < old(self).action_checked@.len() { (old(self).action_cursor + 1) as usize } else { old(self).action_cursor },
            key == Key::Char(' ') ==> final(self).action_checked@ == old(self).action_checked@.update(
                old(self).action_cursor as int,
                !old(self).action_checked@[old(self).action_cursor as int],
            ),
            key != Key::Char(' ') ==> final(self).action_checked == old(self).action_checked,
            key == Key::Enter && checked_indices(old(self).action_checked@).len() > 0 ==> final(self).pending@
                == checked_indices(old(self).action_checked@) && final(self).should_quit,
            key == Key::Enter && checked_indices(old(self).action_checked@).len() == 0 ==> final(self).mode
                == Mode::Browse && final(self).status_msg@ == NOTHING_SELECTED@ && final(self).pending
                == old(self).pending && final(self).should_quit == old(self).should_quit,
            key != Key::Enter ==> final(self).pending == old(self).pending && final(self).should_quit == old(self).should_quit,
            !(key == Key::Esc || key == Key::Char('q') || (key == Key::Enter && checked_indices(old(self).action_checked@).len() == 0))
                ==> final(self).mode == old(self).mode,
            !(key == Key::Enter && checked_indices(old(self).action_checked@).len() == 0) ==> final(self).status_msg == old(self).status_msg,
            !(key == Key::Up || key == Key::Char('k') || key == Key::Down || key == Key::Char('j'))
                ==> final(self).action_cursor == old(self).action_cursor,
            final(self).detail_scroll == old(self).detail_scroll,
            final(self).tick == old(self).tick,
            final(self).done_count == old(self).done_count,
            final(self).total == old(self).total,
            final(self).report_path == old(self).report_path,
            final(self).checker_names == old(self).checker_names,
    {
        let n = self.action_checked.len();
        match key {
            Key::Esc | Key::Char('q') => {
                self.mode = Mode::Browse;
            },
            Key::Up | Key::Char('k') => {
                if self.action_cursor > 0 {
                    self.action_cursor = self.action_cursor - 1;
                }
            },
            Key::Down | Key::Char('j') => {
                if self.action_cursor + 1 < n {
                    self.action_cursor = self.action_cursor + 1;
                }
            },
            Key::Char(' ') => {
                let i = self.action_cursor;
                let v = self.action_checked[i];
                self.action_checked.set(i, !v);
            },
            Key::Enter => {
                let mut selected: Vec<usize> = Vec::new();
                let ghost c = self.action_checked@;
                for i in 0..n
                    invariant
                        n == c.len(),
                        c == self.action_checked@,
                        selected@ == checked_indices(c.take(i as int)),
                {
                    assert(c.take(i + 1).drop_last() =~= c.take(i as int));
                    if self.action_checked[i] {
                        selected.push(i);
                    }
                    assert(selected@ =~= checked_indices(c.take(i + 1)));
                }
                assert(c.take(n as int) =~= c);
                proof {
                    lemma_checked_indices(c);
                }
                if selected.len() == 0 {
                    self.status_msg = owned(NOTHING_SELECTED);
                    self.mode = Mode::Browse;
                } else {
                    self.pending = selected;
                    self.should_quit = true;
                }
            },
            _ => {},
        }
    }

    /// What the view hands back when it closes: the chosen actions and all results.
    pub fn finish(&self) -> (out: TuiOutput)
        requires
            self.wf(),
        ensures
            out.pending@ == self.pending@,
            out.results@.len() == self.total,
            forall|i: int| 0 <= i < self.total ==> (#[trigger] out.results@[i])@ == match self.states@[i] {
                ScanState::Done(r) => r@,
                _ => empty_result(self.checker_names@[i]@),
            },
    {
        let mut pending: Vec<usize> = Vec::new();
        for i in 0..self.pending.len()
            invariant
                pending@ == self.pending@.take(i as int),
        {
            pending.push(self.pending[i]);
            assert(pending@ =~= self.pending@.take(i + 1));
        }
        assert(self.pending@.take(self.pending@.len() as int) =~= self.pending@);
        TuiOutput { pending, results: self.collect_results() }
    }
}

} // verus!
