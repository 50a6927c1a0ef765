//! Crash and system-log history: kernel panics, app crashes, hang reports,
//! the system error rate, and memory-pressure (Jetsam) kills.
use vstd::prelude::*;

use crate::checker::{Checker, all_sound, lemma_empty_sound, lemma_extend_sound, 
    CheckResult, CheckResultView, Finding, FindingView, Level, detail_if, empty_result, extend, finding_if,
    issue_view, ok_view,
};
use crate::ranking::{firsts, tally, top_tally, top_tally_exec};
use crate::scorer::{crash_section_from, panic_count_in, panic_detail_from};
use crate::text::{
    before_first, chars_of, clone_chars, contains, contains_exec, dec, join, join_exec,
    last_index_of, last_index_of_exec, lemma_last_index_bounds, lines, lowercase, lowercase_chars,
    dec_lit, lit_dec_lit, push_dec, slice_chars, split_lines, split_once, split_words, starts_with, starts_with_exec,
    string_of, trim, trim_exec, views, words, occurs_at, ascii_upto, find,
};

verus! {

/// Seconds in a day.
pub const DAY_SECS: u64 = 86400;

/// A file found in a DiagnosticReports directory: its name, and how many
/// seconds ago it was last modified (`Some(0)` for a time in the future,
/// `None` when the time could not be read).
pub struct DiagFile {
    pub name: String,
    pub age_secs: Option<u64>,
}

pub struct DiagFileView {
    pub name: Seq<char>,
    pub age_secs: Option<u64>,
}

impl View for DiagFile {
    type V = DiagFileView;

    open spec fn view(&self) -> DiagFileView {
        DiagFileView { name: self.name@, age_secs: self.age_secs }
    }
}

pub open spec fn files_view(fs: Seq<DiagFile>) -> Seq<DiagFileView> {
    fs.map_values(|f: DiagFile| f@)
}

// ───────────────────────────── file names ─────────────────────────────

/// `Path::extension` of a file name: the text after the last `.`, unless
/// there is no `.`, the only `.` starts the name, or the name is `..`.
pub open spec fn file_ext(name: Seq<char>) -> Option<Seq<char>> {
    match last_index_of(name, '.') {
        Some(i) => if i == 0 || name =~= seq!['.', '.'] {
            None
        } else {
            Some(name.subrange(i + 1, name.len() as int))
        },
        None => None,
    }
}

/// `Path::file_stem` of a file name: the text before the extension's `.`.
pub open spec fn file_stem(name: Seq<char>) -> Seq<char> {
    match last_index_of(name, '.') {
        Some(i) => if i == 0 || name =~= seq!['.', '.'] {
            name
        } else {
            name.subrange(0, i)
        },
        None => name,
    }
}

/// The lowercased extension, empty when there is none.
pub open spec fn ext_lower(name: Seq<char>) -> Seq<char> {
    lowercase(
        match file_ext(name) {
            Some(e) => e,
            None => seq![],
        },
    )
}

/// The app a report belongs to: the stem up to the first `_`
/// (`Safari_2024-01-15_123456.crash` → `Safari`).
pub open spec fn app_name(name: Seq<char>) -> Seq<char> {
    before_first(file_stem(name), seq!['_'])
}

/// Extension and stem of a file name.
pub fn ext_and_stem(name: &Vec<char>) -> (r: (Option<Vec<char>>, Vec<char>))
    ensures
        r.0 matches Some(e) ==> file_ext(name@) == Some(e@),
        r.0 is None ==> file_ext(name@) is None,
        r.1@ == file_stem(name@),
{
    proof {
        lemma_last_index_bounds(name@, '.');
    }
    let dots: Vec<char> = vec!['.', '.'];
    let is_dotdot = crate::text::chars_eq(name, &dots);
    assert(is_dotdot == (name@ =~= seq!['.', '.']));
    match last_index_of_exec(name, '.') {
        Some(i) => {
            if i == 0 || is_dotdot {
                (None, clone_chars(name))
            } else {
                let n = name.len();
                assert(i < n);
                (Some(slice_chars(name, i + 1, name.len())), slice_chars(name, 0, i))
            }
        },
        None => (None, clone_chars(name)),
    }
}

fn ext_lower_exec(name: &Vec<char>) -> (r: Vec<char>)
    ensures
        r@ == ext_lower(name@),
{
    let (e, _) = ext_and_stem(name);
    match e {
        Some(e) => lowercase_chars(&e),
        None => {
            let empty: Vec<char> = Vec::new();
            assert(empty@ =~= seq![]);
            lowercase_chars(&empty)
        },
    }
}

fn app_name_exec(name: &Vec<char>) -> (r: Vec<char>)
    ensures
        r@ == app_name(name@),
{
    let (_, stem) = ext_and_stem(name);
    let us: Vec<char> = vec!['_'];
    assert(us@ =~= seq!['_']);
    let (head, _) = split_once(&stem, &us);
    head
}

fn seq_is(v: &Vec<char>, s: &str) -> (r: bool)
    ensures
        r == (v@ == s@),
{
    crate::text::chars_eq(v, &chars_of(s))
}

/// Modified strictly less than `window` seconds ago.
pub open spec fn newer_than(age: Option<u64>, window: nat) -> bool {
    age matches Some(a) && (a as nat) < window
}

/// Modified at most `window` seconds ago.
pub open spec fn not_older_than(age: Option<u64>, window: nat) -> bool {
    age matches Some(a) && (a as nat) <= window
}

// ───────────────────────────── counting ─────────────────────────────

/// Files with extension `ext` (case-insensitively) modified within `window` seconds.
pub open spec fn count_recent(fs: Seq<DiagFileView>, ext: Seq<char>, window: nat) -> nat
    decreases fs.len(),
{
    if fs.len() == 0 {
        0
    } else {
        count_recent(fs.drop_last(), ext, window) + if ext_lower(fs.last().name) == ext && newer_than(
            fs.last().age_secs,
            window,
        ) {
            1nat
        } else {
            0nat
        }
    }
}

/// Counts the files with extension `ext` (lowercase) modified in the last `days` days.
pub fn count_by_ext(files: &Vec<DiagFile>, ext: &str, days: u64) -> (r: usize)
    requires
        days * DAY_SECS <= u64::MAX,
    ensures
        r == count_recent(files_view(files@), ext@, (days * DAY_SECS) as nat),
{
    let window = days * DAY_SECS;
    let want = chars_of(ext);
    let ghost fs = files_view(files@);
    let mut n: usize = 0;
    for i in 0..files.len()
        invariant
            fs == files_view(files@),
            want@ == ext@,
            window == days * DAY_SECS,
            n == count_recent(fs.take(i as int), ext@, window as nat),
            n <= i,
    {
        assert(fs.take(i + 1).drop_last() =~= fs.take(i as int));
        let f = &files[i];
        assert(fs[i as int] == f@);
        let e = ext_lower_exec(&chars_of(f.name.as_str()));
        let recent = match f.age_secs {
            Some(a) => a < window,
            None => false,
        };
        if crate::text::chars_eq(&e, &want) && recent {
            n = n + 1;
        }
    }
    assert(fs.take(files@.len() as int) =~= fs);
    n
}

// ───────────────────────────── kernel panics ─────────────────────────────

/// Panic type from a lowercased file name: 0 GPU, 1 memory, 2 watchdog,
/// 3 driver/kext, 4 other.
pub open spec fn panic_kind(l: Seq<char>) -> nat {
    if contains(l, "gpu"@) || contains(l, "graphics"@) || contains(l, "metal"@) {
        0
    } else if contains(l, "memory"@) || contains(l, "oom"@) || contains(l, "malloc"@) {
        1
    } else if contains(l, "watchdog"@) || contains(l, "timeout"@) {
        2
    } else if contains(l, "driver"@) || contains(l, "kext"@) || contains(l, "iokit"@) {
        3
    } else {
        4
    }
}

/// A `.panic` report from the last 30 days (extension matched exactly).
pub open spec fn recent_panic(f: DiagFileView) -> bool {
    file_ext(f.name) == Some("panic"@) && not_older_than(f.age_secs, 30 * 86400)
}

/// Recent panic reports of kind `k`.
pub open spec fn kind_count(fs: Seq<DiagFileView>, k: nat) -> nat
    decreases fs.len(),
{
    if fs.len() == 0 {
        0
    } else {
        kind_count(fs.drop_last(), k) + if recent_panic(fs.last()) && panic_kind(
            lowercase(fs.last().name),
        ) == k {
            1nat
        } else {
            0nat
        }
    }
}

/// `label` followed by the count, when the count is positive.
pub open spec fn part_if(count: nat, label: Seq<char>) -> Seq<Seq<char>> {
    if count > 0 {
        seq![label + dec(count)]
    } else {
        seq![]
    }
}

/// The non-empty panic-type counts, e.g. `GPU ×2`.
pub open spec fn panic_parts(fs: Seq<DiagFileView>) -> Seq<Seq<char>> {
    part_if(kind_count(fs, 0), "GPU ×"@) + part_if(kind_count(fs, 1), "Memory ×"@) + part_if(
        kind_count(fs, 2),
        "Watchdog ×"@,
    ) + part_if(kind_count(fs, 3), "Driver/kext ×"@) + part_if(kind_count(fs, 4), "Other ×"@)
}

/// The panic-type summary, `None` when there are no recent panic reports.
pub open spec fn panic_types(fs: Seq<DiagFileView>) -> Option<Seq<char>> {
    let parts = panic_parts(fs);
    if parts.len() == 0 {
        None
    } else {
        Some(join(parts, ", "@))
    }
}

fn panic_kind_exec(l: &Vec<char>) -> (k: u8)
    ensures
        k as nat == panic_kind(l@),
{
    if contains_exec(l, &chars_of("gpu")) || contains_exec(l, &chars_of("graphics")) || contains_exec(
        l,
        &chars_of("metal"),
    ) {
        0
    } else if contains_exec(l, &chars_of("memory")) || contains_exec(l, &chars_of("oom"))
        || contains_exec(l, &chars_of("malloc")) {
        1
    } else if contains_exec(l, &chars_of("watchdog")) || contains_exec(l, &chars_of("timeout")) {
        2
    } else if contains_exec(l, &chars_of("driver")) || contains_exec(l, &chars_of("kext"))
        || contains_exec(l, &chars_of("iokit")) {
        3
    } else {
        4
    }
}

fn push_part(parts: &mut Vec<String>, count: u64, label: &str)
    ensures
        final(parts)@.map_values(|p: String| p@) == old(parts)@.map_values(|p: String| p@) + part_if(
            count as nat,
            label@,
        ),
{
    if count > 0 {
        let mut s = String::new();
        s.append(label);
        push_dec(&mut s, count);
        let ghost before = parts@;
        parts.push(s);
        assert(parts@.map_values(|p: String| p@) =~= before.map_values(|p: String| p@).push(s@));
    } else {
        assert(old(parts)@.map_values(|p: String| p@) + part_if(count as nat, label@) =~= old(
            parts,
        )@.map_values(|p: String| p@));
    }
}

/// Classifies the kernel panics of the last 30 days by type
/// (GPU, memory, watchdog, driver/kext, other).
pub fn classify_panics(files: &Vec<DiagFile>) -> (r: Option<String>)
    ensures
        r matches Some(s) ==> panic_types(files_view(files@)) == Some(s@),
        r is None ==> panic_types(files_view(files@)) is None,
{
    let ghost fs = files_view(files@);
    let mut counts: [u64; 5] = [0, 0, 0, 0, 0];
    let window: u64 = 30 * DAY_SECS;
    for i in 0..files.len()
        invariant
            fs == files_view(files@),
            window == 30 * 86400,
            forall|k: int| 0 <= k < 5 ==> counts@[k] as nat == kind_count(fs.take(i as int), k as nat),
            forall|k: int| 0 <= k < 5 ==> counts@[k] <= i,
    {
        assert(fs.take(i + 1).drop_last() =~= fs.take(i as int));
        let f = &files[i];
        assert(fs[i as int] == f@);
        let name = chars_of(f.name.as_str());
        let (e, _) = ext_and_stem(&name);
        let is_panic = match &e {
            Some(e) => seq_is(e, "panic"),
            None => false,
        };
        let recent = match f.age_secs {
            Some(a) => a <= window,
            None => false,
        };
        if is_panic && recent {
            let k = panic_kind_exec(&lowercase_chars(&name)) as usize;
            counts[k] = counts[k] + 1;
        }
    }
    assert(fs.take(files@.len() as int) =~= fs);
    let mut parts: Vec<String> = Vec::new();
    assert(parts@.map_values(|p: String| p@) =~= seq![]);
    push_part(&mut parts, counts[0], "GPU ×");
    push_part(&mut parts, counts[1], "Memory ×");
    push_part(&mut parts, counts[2], "Watchdog ×");
    push_part(&mut parts, counts[3], "Driver/kext ×");
    push_part(&mut parts, counts[4], "Other ×");
    assert(parts@.map_values(|p: String| p@) =~= panic_parts(fs));
    if parts.len() == 0 {
        None
    } else {
        Some(join_exec(&parts, ", "))
    }
}

// ───────────────────────────── app crashes and hangs ─────────────────────────────

/// A crash report (`.crash` or `.ips`, any case) from the last 7 days.
pub open spec fn recent_crash(f: DiagFileView) -> bool {
    (ext_lower(f.name) == "crash"@ || ext_lower(f.name) == "ips"@) && not_older_than(
        f.age_secs,
        7 * 86400,
    )
}

/// A hang or spin report (`.spin` or `.hang`, any case) from the last 7 days.
pub open spec fn recent_hang(f: DiagFileView) -> bool {
    (ext_lower(f.name) == "spin"@ || ext_lower(f.name) == "hang"@) && not_older_than(
        f.age_secs,
        7 * 86400,
    )
}

/// App names of the recent crash reports, in directory order.
pub open spec fn crash_apps(fs: Seq<DiagFileView>) -> Seq<Seq<char>>
    decreases fs.len(),
{
    if fs.len() == 0 {
        seq![]
    } else {
        crash_apps(fs.drop_last()) + if recent_crash(fs.last()) {
            seq![app_name(fs.last().name)]
        } else {
            seq![]
        }
    }
}

/// App names of the recent hang reports, in directory order.
pub open spec fn hang_apps(fs: Seq<DiagFileView>) -> Seq<Seq<char>>
    decreases fs.len(),
{
    if fs.len() == 0 {
        seq![]
    } else {
        hang_apps(fs.drop_last()) + if recent_hang(fs.last()) {
            seq![app_name(fs.last().name)]
        } else {
            seq![]
        }
    }
}

/// The app names of the reports that `keep` selects (crash when `crash`, else hang).
fn report_apps(files: &Vec<DiagFile>, crash: bool) -> (r: Vec<Vec<char>>)
    ensures
        views(r@) == if crash {
            crash_apps(files_view(files@))
        } else {
            hang_apps(files_view(files@))
        },
{
    let ghost fs = files_view(files@);
    let window: u64 = 7 * DAY_SECS;
    let mut r: Vec<Vec<char>> = Vec::new();
    for i in 0..files.len()
        invariant
            fs == files_view(files@),
            window == 7 * 86400,
            views(r@) == if crash {
                crash_apps(fs.take(i as int))
            } else {
                hang_apps(fs.take(i as int))
            },
    {
        assert(fs.take(i + 1).drop_last() =~= fs.take(i as int));
        let f = &files[i];
        assert(fs[i as int] == f@);
        let name = chars_of(f.name.as_str());
        let e = ext_lower_exec(&name);
        let kind_ok = if crash {
            seq_is(&e, "crash") || seq_is(&e, "ips")
        } else {
            seq_is(&e, "spin") || seq_is(&e, "hang")
        };
        let recent = match f.age_secs {
            Some(a) => a <= window,
            None => false,
        };
        let ghost before = r@;
        if kind_ok && recent {
            let a = app_name_exec(&name);
            r.push(a);
            assert(views(r@) =~= views(before).push(a@));
        } else {
            assert(views(r@) =~= views(before) + seq![]);
        }
    }
    assert(fs.take(files@.len() as int) =~= fs);
    r
}

/// The `n` apps with the most crash reports in the last 7 days, with their
/// counts: most first, ties in order of first appearance.
pub fn top_crashing_apps(files: &Vec<DiagFile>, n: usize) -> (r: Vec<(String, usize)>)
    ensures
        r@.map_values(|p: (String, usize)| (p.0@, p.1 as nat)) == top_tally(crash_apps(files_view(files@)), n as nat),
{
    let keys = report_apps(files, true);
    assert(keys@.map_values(|x: Vec<char>| x@) == views(keys@));
    let top = top_tally_exec(&keys, n);
    let ghost tv = top@.map_values(|p: (Vec<char>, u64)| (p.0@, p.1 as nat));
    let mut r: Vec<(String, usize)> = Vec::new();
    for t in 0..top.len()
        invariant
            tv == top@.map_values(|p: (Vec<char>, u64)| (p.0@, p.1 as nat)),
            tv == top_tally(crash_apps(files_view(files@)), n as nat),
            forall|u: int| 0 <= u < top@.len() ==> (#[trigger] top@[u]).1 <= keys@.len(),
            r@.map_values(|p: (String, usize)| (p.0@, p.1 as nat)) == tv.take(t as int),
    {
        let (name, c) = &top[t];
        let ghost before = r@;
        let s = string_of(name);
        let nk = keys.len();
        assert(*c <= nk);
        let pair = (s, *c as usize);
        r.push(pair);
        assert(tv[t as int] == (name@, *c as nat));
        assert(r@ == before.push(pair));
        assert(r@.map_values(|p: (String, usize)| (p.0@, p.1 as nat)) =~= before.map_values(
            |p: (String, usize)| (p.0@, p.1 as nat),
        ).push((pair.0@, pair.1 as nat)));
        assert(tv.take(t + 1) =~= tv.take(t as int).push(tv[t as int]));
    }
    assert(tv.take(top@.len() as int) =~= tv);
    r
}

/// Up to 3 distinct apps with hang or spin reports in the last 7 days, in
/// order of first appearance.
pub fn top_hung_apps(files: &Vec<DiagFile>) -> (r: Vec<String>)
    ensures
        r@.map_values(|s: String| s@) == firsts(hang_apps(files_view(files@))).take(
            if firsts(hang_apps(files_view(files@))).len() < 3 { firsts(hang_apps(files_view(files@))).len() as int } else { 3 },
        ),
{
    let keys = report_apps(files, false);
    assert(keys@.map_values(|x: Vec<char>| x@) == views(keys@));
    let (names, _) = tally(&keys);
    let ghost nv = names@.map_values(|x: Vec<char>| x@);
    let m: usize = if names.len() < 3 { names.len() } else { 3 };
    let mut r: Vec<String> = Vec::new();
    for t in 0..m
        invariant
            m <= names@.len(),
            nv == names@.map_values(|x: Vec<char>| x@),
            r@.map_values(|s: String| s@) == nv.take(t as int),
    {
        let ghost before = r@;
        let s = string_of(&names[t]);
        r.push(s);
        assert(r@ == before.push(s));
        assert(r@.map_values(|s: String| s@) =~= before.map_values(|s: String| s@).push(s@));
        assert(nv[t as int] == names@[t as int]@);
        assert(nv.take(t + 1) =~= nv.take(t as int).push(nv[t as int]));
    }
    r
}

// ───────────────────────────── Jetsam kills ─────────────────────────────

/// A `JetsamEvent` report (name starting `jetsameven`, any case) from the last 24 hours.
pub open spec fn recent_jetsam(f: DiagFileView) -> bool {
    starts_with(lowercase(f.name), "jetsameven"@) && newer_than(f.age_secs, 86400)
}

pub open spec fn jetsam_count(fs: Seq<DiagFileView>) -> nat
    decreases fs.len(),
{
    if fs.len() == 0 {
        0
    } else {
        jetsam_count(fs.drop_last()) + if recent_jetsam(fs.last()) {
            1nat
        } else {
            0nat
        }
    }
}

/// Counts the `JetsamEvent` reports of the last 24 hours (as a `u32`, wrapping).
pub fn jetsam_kill_count(files: &Vec<DiagFile>) -> (r: u32)
    ensures
        r as nat == jetsam_count(files_view(files@)) % 0x1_0000_0000,
{
    let ghost fs = files_view(files@);
    let prefix = chars_of("jetsameven");
    let mut n: usize = 0;
    for i in 0..files.len()
        invariant
            fs == files_view(files@),
            prefix@ == "jetsameven"@,
            n == jetsam_count(fs.take(i as int)),
            n <= i,
    {
        assert(fs.take(i + 1).drop_last() =~= fs.take(i as int));
        let f = &files[i];
        assert(fs[i as int] == f@);
        let low = lowercase_chars(&chars_of(f.name.as_str()));
        let recent = match f.age_secs {
            Some(a) => a < DAY_SECS,
            None => false,
        };
        if starts_with_exec(&low, &prefix) && recent {
            n = n + 1;
        }
    }
    assert(fs.take(files@.len() as int) =~= fs);
    (n as u64 % 0x1_0000_0000u64) as u32
}

// ───────────────────────────── system error log ─────────────────────────────

/// The process name in a compact `log show` line: the fourth
/// ASCII-whitespace-separated field up to its first `[`, unless that is empty.
pub open spec fn process_name(line: Seq<char>) -> Option<Seq<char>> {
    let w = words(line, true);
    if w.len() < 4 {
        None
    } else {
        let name = before_first(w[3], seq!['[']);
        if name.len() == 0 {
            None
        } else {
            Some(name)
        }
    }
}

/// Extracts the process name from a compact-format log line
/// (`DATE TIME E ProcessName[PID:THREAD] [sub:cat] message`).
pub fn extract_process_name(line: &str) -> (r: Option<String>)
    ensures
        r matches Some(s) ==> process_name(line@) == Some(s@),
        r is None ==> process_name(line@) is None,
{
    let w = split_words(&chars_of(line), true);
    assert(views(w@) == words(line@, true));
    if w.len() < 4 {
        return None;
    }
    assert(views(w@)[3] == w@[3]@);
    let br: Vec<char> = vec!['['];
    assert(br@ =~= seq!['[']);
    let (name, _) = split_once(&w[3], &br);
    if name.len() == 0 {
        None
    } else {
        Some(string_of(&name))
    }
}

/// A trimmed log line that counts as an error entry (not blank, not a header).
pub open spec fn is_entry(t: Seq<char>) -> bool {
    !(t.len() == 0 || starts_with(t, "Filtering"@) || starts_with(t, "---"@) || starts_with(
        t,
        "Log "@,
    ))
}

/// The trimmed error entries of a `log show` output.
pub open spec fn entries_of(ls: Seq<Seq<char>>) -> Seq<Seq<char>>
    decreases ls.len(),
{
    if ls.len() == 0 {
        seq![]
    } else {
        entries_of(ls.drop_last()) + if is_entry(trim(ls.last())) {
            seq![trim(ls.last())]
        } else {
            seq![]
        }
    }
}

/// The process names of a sequence of entries (entries without one skipped).
pub open spec fn entry_processes(es: Seq<Seq<char>>) -> Seq<Seq<char>>
    decreases es.len(),
{
    if es.len() == 0 {
        seq![]
    } else {
        entry_processes(es.drop_last()) + match process_name(es.last()) {
            Some(p) => seq![p],
            None => seq![],
        }
    }
}

/// Counts the error entries of a `log show --style compact` output and
/// returns the 5 processes with the most of them (most first, ties in order
/// of first appearance).
pub fn system_errors_with_subsystems(output: &str) -> (r: (u32, Vec<(String, u32)>))
    requires
        entries_of(lines(output@)).len() <= u32::MAX,
    ensures
        r.0 as nat == entries_of(lines(output@)).len(),
        r.1@.map_values(|p: (String, u32)| (p.0@, p.1 as nat)) == top_tally(
            entry_processes(entries_of(lines(output@))),
            5,
        ),
{
    let ls = split_lines(&chars_of(output));
    let ghost lv = views(ls@);
    let ghost es_all = entries_of(lv);
    let mut total: u32 = 0;
    let mut procs: Vec<Vec<char>> = Vec::new();
    let mut i: usize = 0;
    while i < ls.len()
        invariant
            lv == views(ls@),
            lv == lines(output@),
            es_all == entries_of(lv),
            es_all.len() <= u32::MAX,
            i <= ls@.len(),
            total as nat == entries_of(lv.take(i as int)).len(),
            views(procs@) == entry_processes(entries_of(lv.take(i as int))),
        decreases ls@.len() - i,
    {
        proof {
            assert(lv.take(i + 1).drop_last() =~= lv.take(i as int));
            lemma_entries_prefix(lv, i as int + 1);
        }
        assert(lv[i as int] == ls@[i as int]@);
        let t = trim_exec(&ls[i]);
        let skip = t.len() == 0 || starts_with_exec(&t, &chars_of("Filtering")) || starts_with_exec(
            &t,
            &chars_of("---"),
        ) || starts_with_exec(&t, &chars_of("Log "));
        let ghost pre = entries_of(lv.take(i as int));
        if !skip {
            total = total + 1;
            assert(entries_of(lv.take(i + 1)) == pre.push(t@));
            assert(entries_of(lv.take(i + 1)).drop_last() =~= pre);
            let ghost before = procs@;
            let ts = string_of(&t);
            match extract_process_name(ts.as_str()) {
                Some(p) => {
                    let pc = chars_of(p.as_str());
                    procs.push(pc);
                    assert(views(procs@) =~= views(before).push(pc@));
                },
                None => {
                    assert(views(procs@) =~= views(before) + seq![]);
                },
            }
        } else {
            assert(entries_of(lv.take(i + 1)) =~= pre);
        }
        i = i + 1;
    }
    assert(lv.take(ls@.len() as int) =~= lv);
    assert(procs@.map_values(|x: Vec<char>| x@) == views(procs@));
    proof {
        lemma_processes_len(es_all);
    }
    let top = top_tally_exec(&procs, 5);
    let ghost tv = top@.map_values(|p: (Vec<char>, u64)| (p.0@, p.1 as nat));
    let mut r: Vec<(String, u32)> = Vec::new();
    for k in 0..top.len()
        invariant
            tv == top@.map_values(|p: (Vec<char>, u64)| (p.0@, p.1 as nat)),
            tv == top_tally(entry_processes(es_all), 5),
            es_all.len() <= u32::MAX,
            forall|u: int| 0 <= u < top@.len() ==> (#[trigger] top@[u]).1 <= procs@.len(),
            procs@.len() <= es_all.len(),
            r@.map_values(|p: (String, u32)| (p.0@, p.1 as nat)) == tv.take(k as int),
    {
        let (name, c) = &top[k];
        let ghost before = r@;
        let s = string_of(name);
        assert(*c <= u32::MAX);
        let pair = (s, *c as u32);
        r.push(pair);
        assert(tv[k as int] == (name@, *c as nat));
        assert(r@ == before.push(pair));
        assert(r@.map_values(|p: (String, u32)| (p.0@, p.1 as nat)) =~= before.map_values(
            |p: (String, u32)| (p.0@, p.1 as nat),
        ).push((pair.0@, pair.1 as nat)));
        assert(tv.take(k + 1) =~= tv.take(k as int).push(tv[k as int]));
    }
    assert(tv.take(top@.len() as int) =~= tv);
    (total, r)
}

proof fn lemma_processes_len(es: Seq<Seq<char>>)
    ensures
        entry_processes(es).len() <= es.len(),
    decreases es.len(),
{
    if es.len() > 0 {
        lemma_processes_len(es.drop_last());
    }
}

proof fn lemma_entries_prefix(lv: Seq<Seq<char>>, n: int)
    requires
        0 <= n <= lv.len(),
    ensures
        entries_of(lv.take(n)).len() <= entries_of(lv).len(),
    decreases lv.len() - n,
{
    if n < lv.len() {
        lemma_entries_prefix(lv, n + 1);
        assert(lv.take(n + 1).drop_last() =~= lv.take(n));
    } else {
        assert(lv.take(n) =~= lv);
    }
}

// ───────────────────────────── the report ─────────────────────────────

pub const PANIC_MANY_FIX: &'static str = "1. Run Apple Diagnostics: hold D at boot.\n2. Safe Mode (hold Shift) — stable = third-party driver culprit.\n3. Disk Utility → First Aid on Macintosh HD.\n4. GPU panics: check thermal ventilation, reset SMC/NVRAM.\n5. Persistent panics → reinstall macOS via Recovery (⌘+R).";

pub const PANIC_SOME_FIX: &'static str = "Boot Safe Mode to isolate third-party drivers/kexts.\nRun Disk Utility → First Aid on the boot volume.";

pub const PANIC_ONE_FIX: &'static str = "A single panic is often a benign force-shutdown side-effect.\nIf it recurs within days: Safe Mode → Disk Utility First Aid.";

pub const CRASH_HIGH_FIX_TAIL: &'static str = "\n→ Reinstall or update those apps.\n→ Check macOS/app version compatibility.\n→ Clear stale caches: rm -rf ~/Library/Caches/<AppBundleID>";

pub const CRASH_SOME_FIX_TAIL: &'static str = "\nInspect ~/Library/Logs/DiagnosticReports/ for patterns.\nTry reinstalling or updating the crashing app.";

pub const HANG_FIX: &'static str = "Hang reports = the app stopped responding (force-quit by macOS).\n→ Update affected apps to latest version.\n→ Open Activity Monitor: watch CPU % before the next freeze.\n→ System-wide freezes can indicate overheating or memory pressure.";

pub const ERRORS_FIX_TAIL: &'static str = "\nApple system processes (Storage, kernel, etc.) are usually expected.\nInvestigate non-Apple apps with:\nlog show --last 1h --predicate 'messageType == error' \\\n--style compact | grep -v com.apple | head -20";

pub const JETSAM_FIX: &'static str = "macOS (Jetsam) terminated processes to reclaim RAM.\n→ sudo purge  — reclaims inactive/cached pages immediately.\n→ ps -Arco pid,rss,comm | sort -k2 -rn | head -10  (find hogs).\n→ Close unused apps and browser tabs.\n→ Recurrent kills: upgrade RAM (Intel) or reduce active workload.";

/// What the crash-log section reports, gathered from the diagnostic reports
/// and the system log.
pub struct LogsSummary {
    /// Kernel panics in the last 30 days.
    pub panic_count: usize,
    /// Panic types, e.g. `GPU ×1, Other ×2`.
    pub panic_types: Option<String>,
    /// `.crash` reports in the last 7 days.
    pub crash_count: usize,
    /// `.ips` reports in the last 7 days.
    pub ips_count: usize,
    /// The apps with the most crash reports, with their counts.
    pub top_apps: Vec<(String, usize)>,
    /// Hang and spin reports in the last 7 days.
    pub spin_count: usize,
    /// Up to 3 apps with hang reports.
    pub hung_apps: Vec<String>,
    /// Error entries in the last hour of the system log.
    pub error_count: u32,
    /// The processes with the most error entries, with their counts.
    pub top_procs: Vec<(String, u32)>,
    /// Processes killed by memory pressure in the last 24 hours.
    pub jetsam_count: u32,
}

pub struct LogsSummaryView {
    pub panic_count: nat,
    pub panic_types: Option<Seq<char>>,
    pub crash_count: nat,
    pub ips_count: nat,
    pub top_apps: Seq<(Seq<char>, nat)>,
    pub spin_count: nat,
    pub hung_apps: Seq<Seq<char>>,
    pub error_count: nat,
    pub top_procs: Seq<(Seq<char>, nat)>,
    pub jetsam_count: nat,
}

impl View for LogsSummary {
    type V = LogsSummaryView;

    open spec fn view(&self) -> LogsSummaryView {
        LogsSummaryView {
            panic_count: self.panic_count as nat,
            panic_types: crate::checker::opt_view(self.panic_types),
            crash_count: self.crash_count as nat,
            ips_count: self.ips_count as nat,
            top_apps: self.top_apps@.map_values(|p: (String, usize)| (p.0@, p.1 as nat)),
            spin_count: self.spin_count as nat,
            hung_apps: self.hung_apps@.map_values(|s: String| s@),
            error_count: self.error_count as nat,
            top_procs: self.top_procs@.map_values(|p: (String, u32)| (p.0@, p.1 as nat)),
            jetsam_count: self.jetsam_count as nat,
        }
    }
}

/// `{count}× {name}`.
pub open spec fn count_then_name(p: (Seq<char>, nat)) -> Seq<char> {
    dec(p.1) + "× "@ + p.0
}

/// `{name} ({count}×)`.
pub open spec fn name_then_count(p: (Seq<char>, nat)) -> Seq<char> {
    p.0 + " ("@ + dec(p.1) + "×)"@
}

pub open spec fn panic_details(s: LogsSummaryView) -> Seq<(Seq<char>, Seq<char>)> {
    seq![("Kernel panics (30d)"@, dec(s.panic_count))] + detail_if(
        s.panic_count > 0 && s.panic_types is Some,
        "Panic types"@,
        s.panic_types.unwrap(),
    )
}

pub open spec fn panic_findings(s: LogsSummaryView) -> Seq<FindingView> {
    if s.panic_count >= 5 {
        seq![issue_view(Level::Critical, dec(s.panic_count) + " kernel panics in 30 days — serious instability"@, PANIC_MANY_FIX@, 25)]
    } else if s.panic_count > 1 {
        seq![issue_view(Level::Warn, dec(s.panic_count) + " kernel panics in 30 days — investigate if unstable"@, PANIC_SOME_FIX@, 10)]
    } else if s.panic_count == 1 {
        seq![issue_view(Level::Warn, "1 kernel panic in 30 days — isolated, monitor for recurrence"@, PANIC_ONE_FIX@, 2)]
    } else {
        seq![ok_view("No kernel panics in the last 30 days ✨"@)]
    }
}

pub open spec fn crash_details(s: LogsSummaryView) -> Seq<(Seq<char>, Seq<char>)> {
    let total = s.crash_count + s.ips_count;
    seq![(
        "App crashes (7d)"@,
        if s.ips_count > 0 {
            dec(s.crash_count) + " .crash + "@ + dec(s.ips_count) + " .ips = "@ + dec(total) + " total"@
        } else {
            dec(total)
        },
    )] + detail_if(
        s.top_apps.len() > 0,
        "Top crashing apps"@,
        join(s.top_apps.map_values(|p: (Seq<char>, nat)| count_then_name(p)), "  ·  "@),
    )
}

pub open spec fn crash_findings(s: LogsSummaryView) -> Seq<FindingView> {
    let total = s.crash_count + s.ips_count;
    if total > 20 {
        let shown = s.top_apps.take(if s.top_apps.len() < 3 { s.top_apps.len() as int } else { 3 });
        let app_list = join(shown.map_values(|p: (Seq<char>, nat)| name_then_count(p)), ", "@);
        seq![issue_view(Level::Warn, "High crash rate: "@ + dec(total) + " app crashes in 7 days"@,
            "Most affected: "@ + app_list + CRASH_HIGH_FIX_TAIL@, 10)]
    } else if total > 5 {
        let worst = if s.top_apps.len() > 0 { name_then_count(s.top_apps[0]) } else { seq![] };
        seq![issue_view(Level::Warn, dec(total) + " app crashes in 7 days — above average"@,
            "Worst offender: "@ + worst + CRASH_SOME_FIX_TAIL@, 4)]
    } else if total > 0 {
        seq![ok_view("App crash rate is low: "@ + dec(total) + " crash(es) in 7 days"@)]
    } else {
        seq![ok_view("No app crashes in the last 7 days ✨"@)]
    }
}

pub open spec fn hang_details(s: LogsSummaryView) -> Seq<(Seq<char>, Seq<char>)> {
    detail_if(s.spin_count > 0, "Hang/spin reports (7d)"@, dec(s.spin_count))
}

pub open spec fn hang_findings(s: LogsSummaryView) -> Seq<FindingView> {
    let apps = if s.hung_apps.len() == 0 { seq![] } else { " — "@ + join(s.hung_apps, ", "@) };
    finding_if(
        s.spin_count > 0,
        issue_view(Level::Warn, dec(s.spin_count) + " app hang/freeze report(s) in 7 days"@ + apps, HANG_FIX@, 3),
    )
}

pub open spec fn error_details(s: LogsSummaryView) -> Seq<(Seq<char>, Seq<char>)> {
    seq![("System errors (last 1h)"@, dec(s.error_count))] + detail_if(
        s.top_procs.len() > 0,
        "Noisy processes"@,
        join(s.top_procs.map_values(|p: (Seq<char>, nat)| name_then_count(p)), "  ·  "@),
    )
}

pub open spec fn error_findings(s: LogsSummaryView) -> Seq<FindingView> {
    if s.error_count > 500 {
        let top = join(s.top_procs.map_values(|p: (Seq<char>, nat)| name_then_count(p)), ", "@);
        let detail = if top.len() == 0 { "No process breakdown available"@ } else { top };
        seq![issue_view(Level::Warn, "Elevated system error rate: "@ + dec(s.error_count) + " errors in last hour"@,
            "Top error-generating processes: "@ + detail + ERRORS_FIX_TAIL@, 5)]
    } else {
        seq![ok_view("System error log rate is normal ("@ + dec(s.error_count) + " entries in last hour)"@)]
    }
}

pub open spec fn jetsam_details(s: LogsSummaryView) -> Seq<(Seq<char>, Seq<char>)> {
    detail_if(s.jetsam_count > 0, "Memory-pressure kills (24h)"@, dec(s.jetsam_count))
}

pub open spec fn jetsam_findings(s: LogsSummaryView) -> Seq<FindingView> {
    finding_if(
        s.jetsam_count > 0,
        issue_view(Level::Warn, dec(s.jetsam_count) + " process(es) killed by memory pressure in 24 h"@, JETSAM_FIX@, 6),
    )
}

/// The crash-log section for a summary.
pub open spec fn logs_report(s: LogsSummaryView) -> CheckResultView {
    let r0 = empty_result("Crash & System Log History"@);
    let r1 = extend(r0, panic_details(s), panic_findings(s));
    let r2 = extend(r1, crash_details(s), crash_findings(s));
    let r3 = extend(r2, hang_details(s), hang_findings(s));
    let r4 = extend(r3, error_details(s), error_findings(s));
    extend(r4, jetsam_details(s), jetsam_findings(s))
}

fn count_then_name_exec(name: &String, c: u64) -> (r: String)
    ensures
        r@ == count_then_name((name@, c as nat)),
{
    let mut r = String::new();
    push_dec(&mut r, c);
    r.append("× ");
    r.append(name.as_str());
    r
}

fn name_then_count_exec(name: &String, c: u64) -> (r: String)
    ensures
        r@ == name_then_count((name@, c as nat)),
{
    let mut r = String::new();
    r.append(name.as_str());
    r.append(" (");
    push_dec(&mut r, c);
    r.append("×)");
    r
}

/// Formats the first `m` (name, count) pairs as `{count}× {name}`.
fn format_count_first(v: &Vec<(String, u64)>, m: usize) -> (r: Vec<String>)
    requires
        m <= v@.len(),
    ensures
        r@.map_values(|s: String| s@) == v@.map_values(|p: (String, u64)| (p.0@, p.1 as nat)).take(
            m as int,
        ).map_values(|p: (Seq<char>, nat)| count_then_name(p)),
{
    let ghost pv = v@.map_values(|p: (String, u64)| (p.0@, p.1 as nat));
    let mut r: Vec<String> = Vec::new();
    for i in 0..m
        invariant
            m <= v@.len(),
            pv == v@.map_values(|p: (String, u64)| (p.0@, p.1 as nat)),
            r@.map_values(|s: String| s@) == pv.take(i as int).map_values(|p: (Seq<char>, nat)| count_then_name(p)),
    {
        let (name, c) = &v[i];
        let s = count_then_name_exec(name, *c);
        let ghost before = r@;
        r.push(s);
        assert(pv[i as int] == (name@, *c as nat));
        assert(r@.map_values(|s: String| s@) =~= before.map_values(|s: String| s@).push(s@));
        assert(pv.take(i + 1) =~= pv.take(i as int).push(pv[i as int]));
        assert(pv.take(i + 1).map_values(|p: (Seq<char>, nat)| count_then_name(p)) =~= pv.take(i as int).map_values(|p: (Seq<char>, nat)| count_then_name(p)).push(count_then_name(pv[i as int])));
    }
    r
}

/// Formats the first `m` (name, count) pairs as `{name} ({count}×)`.
fn format_name_first(v: &Vec<(String, u64)>, m: usize) -> (r: Vec<String>)
    requires
        m <= v@.len(),
    ensures
        r@.map_values(|s: String| s@) == v@.map_values(|p: (String, u64)| (p.0@, p.1 as nat)).take(
            m as int,
        ).map_values(|p: (Seq<char>, nat)| name_then_count(p)),
{
    let ghost pv = v@.map_values(|p: (String, u64)| (p.0@, p.1 as nat));
    let mut r: Vec<String> = Vec::new();
    for i in 0..m
        invariant
            m <= v@.len(),
            pv == v@.map_values(|p: (String, u64)| (p.0@, p.1 as nat)),
            r@.map_values(|s: String| s@) == pv.take(i as int).map_values(|p: (Seq<char>, nat)| name_then_count(p)),
    {
        let (name, c) = &v[i];
        let s = name_then_count_exec(name, *c);
        let ghost before = r@;
        r.push(s);
        assert(pv[i as int] == (name@, *c as nat));
        assert(r@.map_values(|s: String| s@) =~= before.map_values(|s: String| s@).push(s@));
        assert(pv.take(i + 1) =~= pv.take(i as int).push(pv[i as int]));
        assert(pv.take(i + 1).map_values(|p: (Seq<char>, nat)| name_then_count(p)) =~= pv.take(i as int).map_values(|p: (Seq<char>, nat)| name_then_count(p)).push(name_then_count(pv[i as int])));
    }
    r
}

fn pairs_u64_usize(v: &Vec<(String, usize)>) -> (r: Vec<(String, u64)>)
    ensures
        r@.map_values(|p: (String, u64)| (p.0@, p.1 as nat)) == v@.map_values(|p: (String, usize)| (p.0@, p.1 as nat)),
{
    let mut r: Vec<(String, u64)> = Vec::new();
    for i in 0..v.len()
        invariant
            r@.map_values(|p: (String, u64)| (p.0@, p.1 as nat)) == v@.map_values(|p: (String, usize)| (p.0@, p.1 as nat)).take(i as int),
    {
        let (s, c) = &v[i];
        let ghost before = r@;
        let pair = (s.clone(), *c as u64);
        r.push(pair);
        assert(r@.map_values(|p: (String, u64)| (p.0@, p.1 as nat)) =~= before.map_values(|p: (String, u64)| (p.0@, p.1 as nat)).push((s@, *c as nat)));
        assert(v@.map_values(|p: (String, usize)| (p.0@, p.1 as nat)).take(i + 1) =~= v@.map_values(|p: (String, usize)| (p.0@, p.1 as nat)).take(i as int).push((s@, *c as nat)));
    }
    assert(v@.map_values(|p: (String, usize)| (p.0@, p.1 as nat)).take(v@.len() as int) =~= v@.map_values(|p: (String, usize)| (p.0@, p.1 as nat)));
    r
}

fn pairs_u64_u32(v: &Vec<(String, u32)>) -> (r: Vec<(String, u64)>)
    ensures
        r@.map_values(|p: (String, u64)| (p.0@, p.1 as nat)) == v@.map_values(|p: (String, u32)| (p.0@, p.1 as nat)),
{
    let mut r: Vec<(String, u64)> = Vec::new();
    for i in 0..v.len()
        invariant
            r@.map_values(|p: (String, u64)| (p.0@, p.1 as nat)) == v@.map_values(|p: (String, u32)| (p.0@, p.1 as nat)).take(i as int),
    {
        let (s, c) = &v[i];
        let ghost before = r@;
        let pair = (s.clone(), *c as u64);
        r.push(pair);
        assert(r@.map_values(|p: (String, u64)| (p.0@, p.1 as nat)) =~= before.map_values(|p: (String, u64)| (p.0@, p.1 as nat)).push((s@, *c as nat)));
        assert(v@.map_values(|p: (String, u32)| (p.0@, p.1 as nat)).take(i + 1) =~= v@.map_values(|p: (String, u32)| (p.0@, p.1 as nat)).take(i as int).push((s@, *c as nat)));
    }
    assert(v@.map_values(|p: (String, u32)| (p.0@, p.1 as nat)).take(v@.len() as int) =~= v@.map_values(|p: (String, u32)| (p.0@, p.1 as nat)));
    r
}

fn add_panic_part(r: &mut CheckResult, s: &LogsSummary)
    ensures
        final(r)@ == extend(old(r)@, panic_details(s@), panic_findings(s@)),
{
    let pc = s.panic_count;
    r.add_detail("Kernel panics (30d)", crate::text::dec_string(pc as u64).as_str());
    if pc > 0 {
        match &s.panic_types {
            Some(pt) => r.add_detail("Panic types", pt.as_str()),
            None => {},
        }
    }
    if pc >= 5 {
        let m = dec_lit(pc as u64, " kernel panics in 30 days — serious instability");
        r.add_finding(Finding::critical(m.as_str(), PANIC_MANY_FIX, 25));
    } else if pc > 1 {
        let m = dec_lit(pc as u64, " kernel panics in 30 days — investigate if unstable");
        r.add_finding(Finding::warn(m.as_str(), PANIC_SOME_FIX, 10));
    } else if pc == 1 {
        r.add_finding(Finding::warn("1 kernel panic in 30 days — isolated, monitor for recurrence", PANIC_ONE_FIX, 2));
    } else {
        r.add_finding(Finding::ok("No kernel panics in the last 30 days ✨"));
    }
    assert(final(r)@.details =~= old(r)@.details + panic_details(s@));
    assert(final(r)@.findings =~= old(r)@.findings + panic_findings(s@));
}

fn add_crash_part(r: &mut CheckResult, s: &LogsSummary)
    requires
        s.crash_count + s.ips_count <= usize::MAX,
    ensures
        final(r)@ == extend(old(r)@, crash_details(s@), crash_findings(s@)),
{
    let c = s.crash_count;
    let ips = s.ips_count;
    let total = c + ips;
    let apps = pairs_u64_usize(&s.top_apps);
    let ghost av = s@.top_apps;
    assert(apps@.map_values(|p: (String, u64)| (p.0@, p.1 as nat)) == av);
    assert(av.take(av.len() as int) =~= av);
    if ips > 0 {
        let mut v = String::new();
        push_dec(&mut v, c as u64);
        v.append(" .crash + ");
        push_dec(&mut v, ips as u64);
        v.append(" .ips = ");
        push_dec(&mut v, total as u64);
        v.append(" total");
        r.add_detail("App crashes (7d)", v.as_str());
    } else {
        r.add_detail("App crashes (7d)", crate::text::dec_string(total as u64).as_str());
    }
    if apps.len() > 0 {
        let parts = format_count_first(&apps, apps.len());
        let summary = join_exec(&parts, "  ·  ");
        r.add_detail("Top crashing apps", summary.as_str());
    }
    if total > 20 {
        let m: usize = if apps.len() < 3 { apps.len() } else { 3 };
        let parts = format_name_first(&apps, m);
        let app_list = join_exec(&parts, ", ");
        let mut sol = String::new();
        sol.append("Most affected: ");
        sol.append(app_list.as_str());
        sol.append(CRASH_HIGH_FIX_TAIL);
        let msg = lit_dec_lit("High crash rate: ", total as u64, " app crashes in 7 days");
        r.add_finding(Finding::warn(msg.as_str(), sol.as_str(), 10));
    } else if total > 5 {
        let mut sol = String::new();
        sol.append("Worst offender: ");
        if apps.len() > 0 {
            let (name, cnt) = &apps[0];
            assert(av[0] == (name@, *cnt as nat));
            let w = name_then_count_exec(name, *cnt);
            sol.append(w.as_str());
        }
        sol.append(CRASH_SOME_FIX_TAIL);
        assert(apps.len() == 0 ==> sol@ =~= "Worst offender: "@ + seq![] + CRASH_SOME_FIX_TAIL@);
        let msg = dec_lit(total as u64, " app crashes in 7 days — above average");
        r.add_finding(Finding::warn(msg.as_str(), sol.as_str(), 4));
    } else if total > 0 {
        let msg = lit_dec_lit("App crash rate is low: ", total as u64, " crash(es) in 7 days");
        r.add_finding(Finding::ok(msg.as_str()));
    } else {
        r.add_finding(Finding::ok("No app crashes in the last 7 days ✨"));
    }
    assert(final(r)@.details =~= old(r)@.details + crash_details(s@));
    assert(final(r)@.findings =~= old(r)@.findings + crash_findings(s@));
}

fn add_hang_part(r: &mut CheckResult, s: &LogsSummary)
    ensures
        final(r)@ == extend(old(r)@, hang_details(s@), hang_findings(s@)),
{
    let n = s.spin_count;
    if n > 0 {
        r.add_detail("Hang/spin reports (7d)", crate::text::dec_string(n as u64).as_str());
        let mut msg = dec_lit(n as u64, " app hang/freeze report(s) in 7 days");
        let ghost base = msg@;
        let ghost hv = s@.hung_apps;
        if s.hung_apps.len() > 0 {
            msg.append(" — ");
            let j = join_exec(&s.hung_apps, ", ");
            msg.append(j.as_str());
            assert(msg@ =~= base + (" — "@ + join(hv, ", "@)));
        } else {
            assert(msg@ =~= base + seq![]);
        }
        r.add_finding(Finding::warn(msg.as_str(), HANG_FIX, 3));
    }
    assert(final(r)@.details =~= old(r)@.details + hang_details(s@));
    assert(final(r)@.findings =~= old(r)@.findings + hang_findings(s@));
}

fn add_error_part(r: &mut CheckResult, s: &LogsSummary)
    ensures
        final(r)@ == extend(old(r)@, error_details(s@), error_findings(s@)),
{
    let n = s.error_count;
    let procs = pairs_u64_u32(&s.top_procs);
    let ghost pv = s@.top_procs;
    assert(pv.take(pv.len() as int) =~= pv);
    r.add_detail("System errors (last 1h)", crate::text::dec_string(n as u64).as_str());
    if procs.len() > 0 {
        let parts = format_name_first(&procs, procs.len());
        let sub = join_exec(&parts, "  ·  ");
        r.add_detail("Noisy processes", sub.as_str());
    }
    if n > 500 {
        let parts = format_name_first(&procs, procs.len());
        let top = join_exec(&parts, ", ");
        let mut sol = String::new();
        sol.append("Top error-generating processes: ");
        if top.as_str().unicode_len() == 0 {
            sol.append("No process breakdown available");
        } else {
            sol.append(top.as_str());
        }
        sol.append(ERRORS_FIX_TAIL);
        let msg = lit_dec_lit("Elevated system error rate: ", n as u64, " errors in last hour");
        r.add_finding(Finding::warn(msg.as_str(), sol.as_str(), 5));
    } else {
        let msg = lit_dec_lit("System error log rate is normal (", n as u64, " entries in last hour)");
        r.add_finding(Finding::ok(msg.as_str()));
    }
    assert(final(r)@.details =~= old(r)@.details + error_details(s@));
    assert(final(r)@.findings =~= old(r)@.findings + error_findings(s@));
}

fn add_jetsam_part(r: &mut CheckResult, s: &LogsSummary)
    ensures
        final(r)@ == extend(old(r)@, jetsam_details(s@), jetsam_findings(s@)),
{
    let n = s.jetsam_count;
    if n > 0 {
        r.add_detail("Memory-pressure kills (24h)", crate::text::dec_string(n as u64).as_str());
        let msg = dec_lit(n as u64, " process(es) killed by memory pressure in 24 h");
        r.add_finding(Finding::warn(msg.as_str(), JETSAM_FIX, 6));
    }
    assert(final(r)@.details =~= old(r)@.details + jetsam_details(s@));
    assert(final(r)@.findings =~= old(r)@.findings + jetsam_findings(s@));
}

/// The summary the crash-log section reports for the given readings.
pub open spec fn logs_summary(r: LogsReadingsView) -> LogsSummaryView {
    let sys = r.system_reports;
    let user = r.user_reports;
    let pc = count_recent(sys, "panic"@, 30 * 86400);
    let spin = count_recent(user, "spin"@, 7 * 86400) + count_recent(user, "hang"@, 7 * 86400);
    let hung = firsts(hang_apps(user));
    let es = entries_of(lines(r.error_log));
    LogsSummaryView {
        panic_count: pc,
        panic_types: if pc > 0 { panic_types(sys) } else { None },
        crash_count: count_recent(user, "crash"@, 7 * 86400),
        ips_count: count_recent(user, "ips"@, 7 * 86400),
        top_apps: top_tally(crash_apps(user), 5),
        spin_count: spin,
        hung_apps: if spin > 0 { hung.take(if hung.len() < 3 { hung.len() as int } else { 3 }) } else { seq![] },
        error_count: es.len(),
        top_procs: top_tally(entry_processes(es), 5),
        jetsam_count: jetsam_count(sys) % 0x1_0000_0000,
    }
}

/// What the crash-log checker reads: the system and user DiagnosticReports
/// listings (empty when unreadable) and the last hour of `log show` errors.
pub struct LogsReadings {
    pub system_reports: Vec<DiagFile>,
    pub user_reports: Vec<DiagFile>,
    pub error_log: String,
}

pub struct LogsReadingsView {
    pub system_reports: Seq<DiagFileView>,
    pub user_reports: Seq<DiagFileView>,
    pub error_log: Seq<char>,
}

impl View for LogsReadings {
    type V = LogsReadingsView;

    open spec fn view(&self) -> LogsReadingsView {
        LogsReadingsView {
            system_reports: files_view(self.system_reports@),
            user_reports: files_view(self.user_reports@),
            error_log: self.error_log@,
        }
    }
}

proof fn lemma_count_recent_bound(fs: Seq<DiagFileView>, ext: Seq<char>, w: nat)
    ensures
        count_recent(fs, ext, w) <= fs.len(),
    decreases fs.len(),
{
    if fs.len() > 0 {
        lemma_count_recent_bound(fs.drop_last(), ext, w);
    }
}

/// Kernel panics, app crashes, hang reports, error-subsystem breakdown, and Jetsam kills.
pub struct LogsChecker;

impl Checker for LogsChecker {
    /// Short, unique name used in `--only <name>` filtering.
    fn name(&self) -> (r: &'static str)
        ensures
            r@ == "logs"@,
    {
        "logs"
    }

    /// One-line description shown in `--list` output.
    fn description(&self) -> (r: &'static str)
        ensures
            r@ == "Kernel panics (typed), grouped app crashes, hang reports, error-subsystem breakdown, Jetsam kills"@,
    {
        "Kernel panics (typed), grouped app crashes, hang reports, error-subsystem breakdown, Jetsam kills"
    }
}

impl LogsChecker {

    /// Gathers what the section reports from the readings.
    pub fn summarize(readings: &LogsReadings) -> (s: LogsSummary)
        requires
            readings.user_reports@.len() <= usize::MAX / 2,
            entries_of(lines(readings.error_log@)).len() <= u32::MAX,
        ensures
            s@ == logs_summary(readings@),
    {
        let sys = &readings.system_reports;
        let user = &readings.user_reports;
        let panic_count = count_by_ext(sys, "panic", 30);
        let panic_types = if panic_count > 0 {
            classify_panics(sys)
        } else {
            None
        };
        let crash_count = count_by_ext(user, "crash", 7);
        let ips_count = count_by_ext(user, "ips", 7);
        let top_apps = top_crashing_apps(user, 5);
        proof {
            lemma_count_recent_bound(files_view(user@), "spin"@, 7 * 86400);
            lemma_count_recent_bound(files_view(user@), "hang"@, 7 * 86400);
        }
        let spin_count = count_by_ext(user, "spin", 7) + count_by_ext(user, "hang", 7);
        let hung_apps = if spin_count > 0 {
            top_hung_apps(user)
        } else {
            let v: Vec<String> = Vec::new();
            assert(v@.map_values(|s: String| s@) =~= seq![]);
            v
        };
        let (error_count, top_procs) = system_errors_with_subsystems(readings.error_log.as_str());
        let jetsam_count = jetsam_kill_count(sys);
        let s = LogsSummary {
            panic_count,
            panic_types,
            crash_count,
            ips_count,
            top_apps,
            spin_count,
            hung_apps,
            error_count,
            top_procs,
            jetsam_count,
        };
        assert(crate::checker::opt_view(s.panic_types) == logs_summary(readings@).panic_types);
        s
    }

    /// The crash-log section for a summary.
    pub fn report(s: &LogsSummary) -> (r: CheckResult)
        requires
            s.crash_count + s.ips_count <= usize::MAX,
        ensures
            r@ == logs_report(s@),
    {
        let mut r = CheckResult::new("Crash & System Log History");
        add_panic_part(&mut r, s);
        add_crash_part(&mut r, s);
        add_hang_part(&mut r, s);
        add_error_part(&mut r, s);
        add_jetsam_part(&mut r, s);
        r
    }

    /// The crash-log section for the given readings.
    pub fn assess(readings: &LogsReadings) -> (r: CheckResult)
        requires
            readings.user_reports@.len() <= usize::MAX / 2,
            entries_of(lines(readings.error_log@)).len() <= u32::MAX,
        ensures
            r@ == logs_report(logs_summary(readings@)),
    {
        let s = Self::summarize(readings);
        proof {
            lemma_count_recent_bound(files_view(readings.user_reports@), "crash"@, 7 * 86400);
            lemma_count_recent_bound(files_view(readings.user_reports@), "ips"@, 7 * 86400);
        }
        Self::report(&s)
    }
}

/// Every finding of the crash-log section is sound: exactly its warnings and
/// critical findings carry a fix and deduct points.
pub proof fn law_logs_findings_sound(s: LogsSummaryView)
    ensures
        all_sound(logs_report(s).findings),
{
    lemma_empty_sound("Crash & System Log History"@);
    let r0 = empty_result("Crash & System Log History"@);
    assert(all_sound(panic_findings(s)));
    lemma_extend_sound(r0, panic_details(s), panic_findings(s));
    let r1 = extend(r0, panic_details(s), panic_findings(s));
    assert(all_sound(crash_findings(s)));
    lemma_extend_sound(r1, crash_details(s), crash_findings(s));
    let r2 = extend(r1, crash_details(s), crash_findings(s));
    assert(all_sound(hang_findings(s)));
    lemma_extend_sound(r2, hang_details(s), hang_findings(s));
    let r3 = extend(r2, hang_details(s), hang_findings(s));
    assert(all_sound(error_findings(s)));
    lemma_extend_sound(r3, error_details(s), error_findings(s));
    let r4 = extend(r3, error_details(s), error_findings(s));
    assert(all_sound(jetsam_findings(s)));
    lemma_extend_sound(r4, jetsam_details(s), jetsam_findings(s));
}

/// The score reads back the kernel-panic count that the crash-log section
/// reports, provided the section's lower-cased title mentions "crash". That
/// proviso is what `str::to_lowercase` gives for "Crash & System Log History";
/// the trusted name for that function states nothing about given strings, so
/// it stands here as a requirement.
pub proof fn law_panic_count_read_back(s: LogsSummaryView)
    requires
        s.panic_count <= u32::MAX,
        contains(lowercase("Crash & System Log History"@), "crash"@),
    ensures
        panic_count_in(seq![logs_report(s)]) == s.panic_count,
{
    let rs = seq![logs_report(s)];
    assert(rs[0] == logs_report(s));
    assert(crash_section_from(rs, 0) == Some(0int));
    let ds = rs[0].details;
    let pd = panic_details(s);
    assert(pd[0] == ("Kernel panics (30d)"@, dec(s.panic_count)));
    assert(ds[0] == pd[0]);
    reveal_strlit("Kernel panics (30d)");
    reveal_strlit("Kernel panics");
    assert(occurs_at("Kernel panics (30d)"@, "Kernel panics"@, 0));
    assert(contains(ds[0].0, "Kernel panics"@));
    assert(panic_detail_from(ds, 0) == Some(0int));
    crate::text::law_parse_dec_roundtrip(s.panic_count, u32::MAX as nat);
}

/// Lowercases the crash-log title at run time and tests that it mentions
/// "crash" (it does: its characters are ASCII). With that, the score reads
/// back the kernel-panic count of every crash-log section.
pub fn crash_title_reads_back() -> (b: bool)
    ensures
        b,
        b == contains(lowercase("Crash & System Log History"@), "crash"@),
        forall|s: LogsSummaryView|
            s.panic_count <= u32::MAX ==> #[trigger] panic_count_in(seq![logs_report(s)]) == s.panic_count,
{
    let title = chars_of("Crash & System Log History");
    let low = lowercase_chars(&title);
    let crash = chars_of("crash");
    proof {
        reveal_strlit("Crash & System Log History");
        reveal_strlit("crash");
        assert(ascii_upto(title@, 5));
        assert(low@.subrange(0, 5) =~= "crash"@);
        assert(occurs_at(low@, "crash"@, 0));
        assert(find(low@, "crash"@) == Some(0int));
    }
    if contains_exec(&low, &crash) {
        proof {
            assert forall|s: LogsSummaryView| s.panic_count <= u32::MAX implies #[trigger] panic_count_in(
                seq![logs_report(s)],
            ) == s.panic_count by {
                law_panic_count_read_back(s);
            }
        }
        true
    } else {
        false
    }
}

/// A user report that counts as a hang report: its extension is `spin` or
/// `hang` (in any case) and it was modified less than 7 days ago.
pub open spec fn is_recent_hang_report(f: DiagFileView) -> bool {
    (ext_lower(f.name) == "spin"@ || ext_lower(f.name) == "hang"@) && newer_than(f.age_secs, 7 * 86400)
}

/// The recent hang reports among `fs`, in order.
pub open spec fn hang_reports(fs: Seq<DiagFileView>) -> Seq<DiagFileView> {
    fs.filter(|f: DiagFileView| is_recent_hang_report(f))
}

proof fn lemma_hang_count_is_filter(fs: Seq<DiagFileView>)
    ensures
        count_recent(fs, "spin"@, 7 * 86400) + count_recent(fs, "hang"@, 7 * 86400) == hang_reports(fs).len(),
    decreases fs.len(),
{
    reveal_strlit("spin");
    reveal_strlit("hang");
    if fs.len() == 0 {
        reveal(Seq::filter);
    } else {
        lemma_hang_count_is_filter(fs.drop_last());
        assert("spin"@ != "hang"@) by {
            assert("spin"@[0] != "hang"@[0]);
        }
        reveal(Seq::filter);
        assert(hang_reports(fs) == if is_recent_hang_report(fs.last()) {
            hang_reports(fs.drop_last()).push(fs.last())
        } else {
            hang_reports(fs.drop_last())
        });
    }
}

/// The hang/spin figure of the crash-log section is the number of recent
/// hang reports among the user reports. When there is at least one, the
/// section shows that number as its hang/spin detail and holds a warning
/// that deducts 3 points and gives the hang fix.
pub proof fn law_hang_reports_counted(r: LogsReadingsView)
    ensures
        ({
            let n = hang_reports(r.user_reports).len();
            let rep = logs_report(logs_summary(r));
            &&& logs_summary(r).spin_count == n
            &&& n > 0 ==> exists|i: int|
                0 <= i < rep.details.len() && #[trigger] rep.details[i] == ("Hang/spin reports (7d)"@, dec(n))
            &&& n > 0 ==> exists|j: int|
                0 <= j < rep.findings.len() && (#[trigger] rep.findings[j]).level == Level::Warn
                    && rep.findings[j].score_deduction == 3 && rep.findings[j].solution == Some(HANG_FIX@)
        }),
{
    lemma_hang_count_is_filter(r.user_reports);
    let s = logs_summary(r);
    let n = s.spin_count;
    let rep = logs_report(s);
    if n > 0 {
        let i = panic_details(s).len() + crash_details(s).len();
        assert(rep.details =~= Seq::<(Seq<char>, Seq<char>)>::empty() + panic_details(s) + crash_details(s)
            + hang_details(s) + error_details(s) + jetsam_details(s));
        assert(rep.details[i as int] == hang_details(s)[0]);
        let j = panic_findings(s).len() + crash_findings(s).len();
        assert(rep.findings =~= Seq::<FindingView>::empty() + panic_findings(s) + crash_findings(s)
            + hang_findings(s) + error_findings(s) + jetsam_findings(s));
        assert(rep.findings[j as int] == hang_findings(s)[0]);
    }
}

} // verus!

