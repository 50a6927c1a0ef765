//! Character-sequence utilities used by every report builder: decimal
//! formatting, substring search, trimming, line and word splitting, and
//! integer parsing, each specified over `Seq<char>`.
use vstd::prelude::*;

verus! {

// ───────────────────────────── string building ─────────────────────────────

/// Appends one character to a string. Trusted wrapper of std's `String::push`:
/// the contract claims that afterwards the string holds its old characters
/// followed by `c`, which is what that method documents.
#[verifier::external_body]
pub(crate) fn push_char(s: &mut String, c: char)
    ensures
        final(s)@ == old(s)@.push(c),
{
    s.push(c)
}

/// The characters of a string slice, in order.
pub fn chars_of(s: &str) -> (v: Vec<char>)
    ensures
        v@ == s@,
{
    let mut v: Vec<char> = Vec::new();
    for c in it: s.chars()
        invariant
            it.seq() == s@,
            v@ == s@.take(it.index() as int),
    {
        v.push(c);
    }
    assert(v@ == s@.take(s@.len() as int));
    v
}

/// Appends a character sequence to a `String`.
pub fn push_chars(s: &mut String, v: &Vec<char>)
    ensures
        final(s)@ == old(s)@ + v@,
{
    for i in 0..v.len()
        invariant
            s@ == old(s)@ + v@.take(i as int),
    {
        push_char(s, v[i]);
        assert(v@.take(i + 1) == v@.take(i as int).push(v@[i as int]));
    }
    assert(v@.take(v.len() as int) == v@);
}

/// A `String` holding exactly the given characters.
pub fn string_of(v: &Vec<char>) -> (s: String)
    ensures
        s@ == v@,
{
    let mut s = String::new();
    push_chars(&mut s, v);
    s
}

/// A `String` holding a copy of a string slice.
pub fn owned(s: &str) -> (r: String)
    ensures
        r@ == s@,
{
    let mut r = String::new();
    r.append(s);
    r
}

/// `c` repeated `n` times.
pub open spec fn repeat_char(c: char, n: nat) -> Seq<char> {
    Seq::new(n, |i: int| c)
}

/// Appends `n` copies of `c`.
pub fn push_repeat(s: &mut String, c: char, n: usize)
    ensures
        final(s)@ == old(s)@ + repeat_char(c, n as nat),
{
    for i in 0..n
        invariant
            s@ == old(s)@ + repeat_char(c, i as nat),
    {
        push_char(s, c);
        assert(repeat_char(c, (i + 1) as nat) == repeat_char(c, i as nat).push(c));
    }
}

// ───────────────────────────── decimal numbers ─────────────────────────────

/// The ASCII digit for `d < 10`.
pub open spec fn digit_char(d: nat) -> char {
    ((d + 48) as u32) as char
}

/// Decimal representation of a natural number, without leading zeros.
pub open spec fn dec(n: nat) -> Seq<char>
    decreases n,
{
    if n < 10 {
        seq![digit_char(n)]
    } else {
        dec(n / 10).push(digit_char(n % 10))
    }
}

/// Decimal representation of an integer, with a leading `-` when negative.
pub open spec fn dec_int(n: int) -> Seq<char> {
    if n < 0 {
        seq!['-'] + dec((-n) as nat)
    } else {
        dec(n as nat)
    }
}

fn digit(d: u64) -> (c: char)
    requires
        d < 10,
    ensures
        c == digit_char(d as nat),
{
    let b: u8 = (d as u8) + 48;
    b as char
}

/// Appends the decimal representation of `n`.
pub fn push_dec(s: &mut String, n: u64)
    ensures
        final(s)@ == old(s)@ + dec(n as nat),
    decreases n,
{
    if n < 10 {
        push_char(s, digit(n));
        assert(dec(n as nat) == seq![digit_char(n as nat)]);
    } else {
        push_dec(s, n / 10);
        push_char(s, digit(n % 10));
        assert(dec(n as nat) == dec((n / 10) as nat).push(digit_char((n % 10) as nat)));
    }
}

/// Appends the decimal representation of a signed `n`.
pub fn push_dec_i64(s: &mut String, n: i64)
    ensures
        final(s)@ == old(s)@ + dec_int(n as int),
{
    if n < 0 {
        push_char(s, '-');
        let m: u64 = if n == i64::MIN {
            9223372036854775808u64
        } else {
            (-n) as u64
        };
        push_dec(s, m);
        assert(old(s)@.push('-') + dec(m as nat) == old(s)@ + (seq!['-'] + dec(m as nat)));
    } else {
        push_dec(s, n as u64);
    }
}

/// The decimal representation of `n` as a new `String`.
pub fn dec_string(n: u64) -> (s: String)
    ensures
        s@ == dec(n as nat),
{
    let mut s = String::new();
    push_dec(&mut s, n);
    s
}

/// `a`, then `n` in decimal, then `b`.
pub fn lit_dec_lit(a: &str, n: u64, b: &str) -> (r: String)
    ensures
        r@ == a@ + dec(n as nat) + b@,
{
    let mut r = String::new();
    r.append(a);
    push_dec(&mut r, n);
    r.append(b);
    r
}

/// `n` in decimal, then `b`.
pub fn dec_lit(n: u64, b: &str) -> (r: String)
    ensures
        r@ == dec(n as nat) + b@,
{
    let mut r = String::new();
    push_dec(&mut r, n);
    r.append(b);
    r
}

/// `a / b` rounded to the nearest integer, ties to even.
pub open spec fn div_round_even(a: nat, b: nat) -> nat
    recommends
        b > 0,
{
    let q = a / b;
    let r = a % b;
    if 2 * r > b {
        q + 1
    } else if 2 * r < b {
        q
    } else if q % 2 == 0 {
        q
    } else {
        q + 1
    }
}

/// Exec counterpart of `div_round_even`.
pub fn div_round_even_u128(a: u128, b: u128) -> (q: u128)
    requires
        b > 0,
        a < u64::MAX * 1000,
    ensures
        q == div_round_even(a as nat, b as nat),
        q <= a,
{
    let q0 = a / b;
    let r = a % b;
    assert(q0 <= a) by (nonlinear_arith)
        requires
            b > 0,
            q0 == a / b,
    ;
    assert(r > 0 ==> q0 + 1 <= a) by (nonlinear_arith)
        requires
            b > 0,
            q0 == a / b,
            r == a % b,
    ;
    if r > b - r {
        q0 + 1
    } else if r < b - r {
        q0
    } else if q0 % 2 == 0 {
        q0
    } else {
        q0 + 1
    }
}

/// Decimal text of `m / 10^places` with exactly `places` fraction digits
/// (`places` is 0, 1 or 2), as Rust prints a value rounded to that many places.
pub open spec fn fixed(m: nat, places: nat) -> Seq<char> {
    if places == 0 {
        dec(m)
    } else if places == 1 {
        dec(m / 10) + seq!['.', digit_char(m % 10)]
    } else {
        dec(m / 100) + seq!['.', digit_char((m % 100) / 10), digit_char(m % 10)]
    }
}

/// Appends `fixed(m, places)`.
pub fn push_fixed(s: &mut String, m: u64, places: u8)
    requires
        places <= 2,
    ensures
        final(s)@ == old(s)@ + fixed(m as nat, places as nat),
{
    if places == 0 {
        push_dec(s, m);
    } else if places == 1 {
        push_dec(s, m / 10);
        push_char(s, '.');
        push_char(s, digit(m % 10));
        assert(old(s)@ + dec((m / 10) as nat) + seq!['.'] + seq![digit_char((m % 10) as nat)]
            == old(s)@ + (dec((m / 10) as nat) + seq!['.', digit_char((m % 10) as nat)]));
    } else {
        push_dec(s, m / 100);
        push_char(s, '.');
        push_char(s, digit((m % 100) / 10));
        push_char(s, digit(m % 10));
        assert(old(s)@ + dec((m / 100) as nat) + seq!['.'] + seq![digit_char(((m % 100) / 10) as nat)]
            + seq![digit_char((m % 10) as nat)] == old(s)@ + (dec((m / 100) as nat) + seq![
            '.',
            digit_char(((m % 100) / 10) as nat),
            digit_char((m % 10) as nat),
        ]));
    }
}


// ───────────────────────────── searching ─────────────────────────────

/// `p` occurs in `s` starting at index `i`.
pub open spec fn occurs_at(s: Seq<char>, p: Seq<char>, i: int) -> bool {
    0 <= i && i + p.len() <= s.len() && s.subrange(i, i + p.len()) =~= p
}

/// The first index `>= i` at which `p` occurs in `s`.
pub open spec fn find_from(s: Seq<char>, p: Seq<char>, i: int) -> Option<int>
    decreases s.len() - i,
{
    if i < 0 || i + p.len() > s.len() {
        None
    } else if occurs_at(s, p, i) {
        Some(i)
    } else {
        find_from(s, p, i + 1)
    }
}

/// The first index at which `p` occurs in `s` (`str::find`).
pub open spec fn find(s: Seq<char>, p: Seq<char>) -> Option<int> {
    find_from(s, p, 0)
}

/// `p` occurs somewhere in `s` (`str::contains`).
pub open spec fn contains(s: Seq<char>, p: Seq<char>) -> bool {
    find(s, p) is Some
}

/// `s` begins with `p` (`str::starts_with`).
pub open spec fn starts_with(s: Seq<char>, p: Seq<char>) -> bool {
    p.len() <= s.len() && s.subrange(0, p.len() as int) =~= p
}

pub proof fn lemma_find_from_bounds(s: Seq<char>, p: Seq<char>, i: int)
    ensures
        find_from(s, p, i) matches Some(k) ==> i <= k && occurs_at(s, p, k),
    decreases s.len() - i,
{
    if i < 0 || i + p.len() > s.len() {
    } else if occurs_at(s, p, i) {
    } else {
        lemma_find_from_bounds(s, p, i + 1);
    }
}

fn matches_at(s: &Vec<char>, p: &Vec<char>, i: usize) -> (r: bool)
    requires
        i + p@.len() <= s@.len(),
    ensures
        r == occurs_at(s@, p@, i as int),
{
    let n = p.len();
    for j in 0..n
        invariant
            n == p@.len(),
            i + n <= s@.len(),
            i + n <= s.len(),
            forall|k: int| 0 <= k < j ==> s@[i + k] == p@[k],
    {
        if s[i + j] != p[j] {
            assert(s@.subrange(i as int, i + n)[j as int] != p@[j as int]);
            return false;
        }
    }
    assert(s@.subrange(i as int, i + n) =~= p@);
    true
}

/// First occurrence of `p` in `s` at or after `start`.
pub fn find_from_exec(s: &Vec<char>, p: &Vec<char>, start: usize) -> (r: Option<usize>)
    ensures
        r matches Some(k) ==> find_from(s@, p@, start as int) == Some(k as int),
        r is None ==> find_from(s@, p@, start as int) is None,
{
    let mut i = start;
    if i > s.len() {
        return None;
    }
    while p.len() <= s.len() - i
        invariant
            start <= i <= s@.len(),
            find_from(s@, p@, start as int) == find_from(s@, p@, i as int),
        decreases s@.len() - i,
    {
        if matches_at(s, p, i) {
            return Some(i);
        }
        i = i + 1;
    }
    None
}

/// Whether `p` occurs in `s`.
pub fn contains_exec(s: &Vec<char>, p: &Vec<char>) -> (r: bool)
    ensures
        r == contains(s@, p@),
{
    find_from_exec(s, p, 0).is_some()
}

/// Whether the string slice `s` contains `p`.
pub fn str_contains(s: &str, p: &str) -> (r: bool)
    ensures
        r == contains(s@, p@),
{
    contains_exec(&chars_of(s), &chars_of(p))
}

/// Whether `s` begins with `p`.
pub fn starts_with_exec(s: &Vec<char>, p: &Vec<char>) -> (r: bool)
    ensures
        r == starts_with(s@, p@),
{
    if p.len() > s.len() {
        return false;
    }
    let r = matches_at(s, p, 0);
    r
}

/// The sub-sequence `v[a..b]` as a new vector.
pub fn slice_chars(v: &Vec<char>, a: usize, b: usize) -> (r: Vec<char>)
    requires
        a <= b <= v@.len(),
    ensures
        r@ == v@.subrange(a as int, b as int),
{
    let mut r: Vec<char> = Vec::new();
    let mut i = a;
    while i < b
        invariant
            a <= i <= b <= v@.len(),
            r@ == v@.subrange(a as int, i as int),
        decreases b - i,
    {
        r.push(v[i]);
        assert(v@.subrange(a as int, i + 1) == v@.subrange(a as int, i as int).push(v@[i as int]));
        i = i + 1;
    }
    r
}

// ───────────────────────────── splitting ─────────────────────────────

/// The part of `s` before the first `p` (`s.split(p).next()`); all of `s` when absent.
pub open spec fn before_first(s: Seq<char>, p: Seq<char>) -> Seq<char> {
    match find(s, p) {
        Some(i) => s.subrange(0, i),
        None => s,
    }
}

/// The part of `s` after the first `p`, or `None` when `p` does not occur.
pub open spec fn after_first(s: Seq<char>, p: Seq<char>) -> Option<Seq<char>> {
    match find(s, p) {
        Some(i) => Some(s.subrange(i + p.len(), s.len() as int)),
        None => None,
    }
}

/// The second piece of `s.split(p)` (`s.split(p).nth(1)`).
pub open spec fn second_piece(s: Seq<char>, p: Seq<char>) -> Option<Seq<char>> {
    match after_first(s, p) {
        Some(rest) => Some(before_first(rest, p)),
        None => None,
    }
}

/// Splits at the first `p`: the text before it, and the text after it if any.
pub fn split_once(s: &Vec<char>, p: &Vec<char>) -> (r: (Vec<char>, Option<Vec<char>>))
    ensures
        r.0@ == before_first(s@, p@),
        r.1 matches Some(rest) ==> after_first(s@, p@) == Some(rest@),
        r.1 is None ==> after_first(s@, p@) is None,
{
    match find_from_exec(s, p, 0) {
        Some(i) => {
            proof {
                lemma_find_from_bounds(s@, p@, 0);
                assert(occurs_at(s@, p@, i as int));
            }
            let n = s.len();
            assert(i + p@.len() <= n);
            (slice_chars(s, 0, i), Some(slice_chars(s, i + p.len(), s.len())))
        },
        None => (clone_chars(s), None),
    }
}

/// The second piece of `s.split(p)`.
pub fn second_piece_exec(s: &Vec<char>, p: &Vec<char>) -> (r: Option<Vec<char>>)
    ensures
        r matches Some(x) ==> second_piece(s@, p@) == Some(x@),
        r is None ==> second_piece(s@, p@) is None,
{
    let (_, rest) = split_once(s, p);
    match rest {
        Some(rest) => {
            let (piece, _) = split_once(&rest, p);
            Some(piece)
        },
        None => None,
    }
}

/// Whether two character vectors are equal.
pub fn chars_eq(a: &Vec<char>, b: &Vec<char>) -> (r: bool)
    ensures
        r == (a@ == b@),
{
    if a.len() != b.len() {
        return false;
    }
    for i in 0..a.len()
        invariant
            a@.len() == b@.len(),
            forall|j: int| 0 <= j < i ==> a@[j] == b@[j],
    {
        if a[i] != b[i] {
            return false;
        }
    }
    assert(a@ =~= b@);
    true
}

/// A copy of a character vector.
pub fn clone_chars(v: &Vec<char>) -> (r: Vec<char>)
    ensures
        r@ == v@,
{
    slice_chars(v, 0, v.len())
}

// ───────────────────────────── trimming ─────────────────────────────

/// Unicode `White_Space`, the set `char::is_whitespace` tests.
pub open spec fn is_ws(c: char) -> bool {
    let u = c as u32;
    (9 <= u <= 13) || u == 32 || u == 0x85 || u == 0xA0 || u == 0x1680 || (0x2000 <= u <= 0x200A)
        || u == 0x2028 || u == 0x2029 || u == 0x202F || u == 0x205F || u == 0x3000
}

/// ASCII whitespace as `split_ascii_whitespace` uses it (space, tab, LF, FF, CR).
pub open spec fn is_ascii_ws(c: char) -> bool {
    c == ' ' || c == '\t' || c == '\n' || c == '\x0C' || c == '\r'
}

/// Whitespace of either kind, chosen by `ascii`.
pub open spec fn is_sep(c: char, ascii: bool) -> bool {
    if ascii {
        is_ascii_ws(c)
    } else {
        is_ws(c)
    }
}

pub fn is_ws_exec(c: char) -> (r: bool)
    ensures
        r == is_ws(c),
{
    let u = c as u32;
    (9 <= u && u <= 13) || u == 32 || u == 0x85 || u == 0xA0 || u == 0x1680 || (0x2000 <= u && u
        <= 0x200A) || u == 0x2028 || u == 0x2029 || u == 0x202F || u == 0x205F || u == 0x3000
}

pub fn is_sep_exec(c: char, ascii: bool) -> (r: bool)
    ensures
        r == is_sep(c, ascii),
{
    if ascii {
        c == ' ' || c == '\t' || c == '\n' || c == '\x0C' || c == '\r'
    } else {
        is_ws_exec(c)
    }
}

/// `s` without leading whitespace (`str::trim_start`).
pub open spec fn trim_start(s: Seq<char>) -> Seq<char>
    decreases s.len(),
{
    if s.len() > 0 && is_ws(s[0]) {
        trim_start(s.drop_first())
    } else {
        s
    }
}

/// `s` without trailing whitespace (`str::trim_end`).
pub open spec fn trim_end(s: Seq<char>) -> Seq<char>
    decreases s.len(),
{
    if s.len() > 0 && is_ws(s.last()) {
        trim_end(s.drop_last())
    } else {
        s
    }
}

/// `s` without leading and trailing whitespace (`str::trim`).
pub open spec fn trim(s: Seq<char>) -> Seq<char> {
    trim_end(trim_start(s))
}

proof fn lemma_trim_start(s: Seq<char>, i: int)
    requires
        0 <= i <= s.len(),
        forall|j: int| 0 <= j < i ==> is_ws(#[trigger] s[j]),
        i == s.len() || !is_ws(s[i]),
    ensures
        trim_start(s) == s.subrange(i, s.len() as int),
    decreases i,
{
    if i == 0 {
        assert(s.subrange(0, s.len() as int) =~= s);
    } else {
        let t = s.drop_first();
        assert forall|j: int| 0 <= j < i - 1 implies is_ws(#[trigger] t[j]) by {
            assert(t[j] == s[j + 1]);
        }
        lemma_trim_start(t, i - 1);
        assert(t.subrange(i - 1, t.len() as int) =~= s.subrange(i, s.len() as int));
    }
}

proof fn lemma_trim_end(s: Seq<char>, e: int)
    requires
        0 <= e <= s.len(),
        forall|j: int| e <= j < s.len() ==> is_ws(#[trigger] s[j]),
        e == 0 || !is_ws(s[e - 1]),
    ensures
        trim_end(s) == s.subrange(0, e),
    decreases s.len() - e,
{
    if e == s.len() {
        assert(s.subrange(0, e) =~= s);
    } else {
        let t = s.drop_last();
        assert forall|j: int| e <= j < t.len() implies is_ws(#[trigger] t[j]) by {
            assert(t[j] == s[j]);
        }
        lemma_trim_end(t, e);
        assert(t.subrange(0, e) =~= s.subrange(0, e));
    }
}

/// `trim` on a character vector.
pub fn trim_exec(s: &Vec<char>) -> (r: Vec<char>)
    ensures
        r@ == trim(s@),
{
    let n = s.len();
    let mut a: usize = 0;
    while a < n && is_ws_exec(s[a])
        invariant
            a <= n == s@.len(),
            forall|j: int| 0 <= j < a ==> is_ws(#[trigger] s@[j]),
        decreases n - a,
    {
        a = a + 1;
    }
    proof {
        lemma_trim_start(s@, a as int);
    }
    let ghost t = s@.subrange(a as int, n as int);
    let mut e: usize = n;
    while e > a && is_ws_exec(s[e - 1])
        invariant
            a <= e <= n == s@.len(),
            t == s@.subrange(a as int, n as int),
            forall|j: int| e - a <= j < t.len() ==> is_ws(#[trigger] t[j]),
        decreases e,
    {
        assert(t[e - 1 - a] == s@[e - 1]);
        e = e - 1;
    }
    proof {
        if e > a {
            assert(t[e - a - 1] == s@[e - 1]);
        }
        lemma_trim_end(t, e - a);
        assert(t.subrange(0, e - a) =~= s@.subrange(a as int, e as int));
    }
    slice_chars(s, a, e)
}

/// `s` without trailing `c` characters (`str::trim_end_matches(c)`).
pub open spec fn trim_end_char(s: Seq<char>, c: char) -> Seq<char>
    decreases s.len(),
{
    if s.len() > 0 && s.last() == c {
        trim_end_char(s.drop_last(), c)
    } else {
        s
    }
}

pub fn trim_end_char_exec(s: &Vec<char>, c: char) -> (r: Vec<char>)
    ensures
        r@ == trim_end_char(s@, c),
{
    let mut e = s.len();
    assert(s@.subrange(0, e as int) =~= s@);
    while e > 0 && s[e - 1] == c
        invariant
            e <= s@.len(),
            trim_end_char(s@, c) == trim_end_char(s@.subrange(0, e as int), c),
        decreases e,
    {
        assert(s@.subrange(0, e as int).drop_last() =~= s@.subrange(0, e - 1));
        e = e - 1;
    }
    slice_chars(s, 0, e)
}


// ───────────────────────────── lines and words ─────────────────────────────

/// `x` without one trailing carriage return.
pub open spec fn strip_cr(x: Seq<char>) -> Seq<char> {
    if x.len() > 0 && x.last() == '\r' {
        x.drop_last()
    } else {
        x
    }
}

/// The lines of `s` from index `i` on, as `str::lines` yields them: split at
/// `'\n'`, a `'\r'` before each `'\n'` removed, no empty piece after a final `'\n'`.
pub open spec fn lines_from(s: Seq<char>, i: int) -> Seq<Seq<char>>
    decreases s.len() - i,
{
    if i < 0 || i >= s.len() {
        seq![]
    } else {
        match find_from(s, seq!['\n'], i) {
            Some(k) => {
                proof {
                    lemma_find_from_bounds(s, seq!['\n'], i);
                }
                seq![strip_cr(s.subrange(i, k))] + lines_from(s, k + 1)
            },
            None => seq![s.subrange(i, s.len() as int)],
        }
    }
}

/// `str::lines` of `s`.
pub open spec fn lines(s: Seq<char>) -> Seq<Seq<char>> {
    lines_from(s, 0)
}

/// The views of a vector of character vectors.
pub open spec fn views(v: Seq<Vec<char>>) -> Seq<Seq<char>> {
    v.map_values(|x: Vec<char>| x@)
}

fn strip_cr_exec(x: Vec<char>) -> (r: Vec<char>)
    ensures
        r@ == strip_cr(x@),
{
    let n = x.len();
    if n > 0 && x[n - 1] == '\r' {
        slice_chars(&x, 0, n - 1)
    } else {
        x
    }
}

/// The lines of `s` (`str::lines`).
pub fn split_lines(s: &Vec<char>) -> (r: Vec<Vec<char>>)
    ensures
        views(r@) == lines(s@),
{
    let nl: Vec<char> = vec!['\n'];
    assert(nl@ == seq!['\n']);
    let mut r: Vec<Vec<char>> = Vec::new();
    let mut i: usize = 0;
    let n = s.len();
    while i < n
        invariant
            n == s@.len(),
            nl@ == seq!['\n'],
            i <= n,
            lines(s@) == views(r@) + lines_from(s@, i as int),
        decreases n - i,
    {
        let ghost before = r@;
        match find_from_exec(s, &nl, i) {
            Some(k) => {
                proof {
                    lemma_find_from_bounds(s@, seq!['\n'], i as int);
                }
                let line = strip_cr_exec(slice_chars(s, i, k));
                r.push(line);
                assert(views(r@) == views(before) + seq![strip_cr(s@.subrange(i as int, k as int))]);
                i = k + 1;
            },
            None => {
                let line = slice_chars(s, i, n);
                r.push(line);
                assert(views(r@) == views(before) + seq![s@.subrange(i as int, n as int)]);
                i = n;
            },
        }
    }
    assert(views(r@) + lines_from(s@, i as int) == views(r@));
    r
}

/// The end of the word of `s` that contains index `i`.
pub open spec fn word_end(s: Seq<char>, i: int, ascii: bool) -> int
    decreases s.len() - i,
{
    if 0 <= i < s.len() && !is_sep(s[i], ascii) {
        word_end(s, i + 1, ascii)
    } else {
        i
    }
}

pub proof fn lemma_word_end(s: Seq<char>, i: int, ascii: bool)
    requires
        0 <= i <= s.len(),
    ensures
        i <= word_end(s, i, ascii) <= s.len(),
        i < s.len() && !is_sep(s[i], ascii) ==> word_end(s, i, ascii) > i,
    decreases s.len() - i,
{
    if 0 <= i < s.len() && !is_sep(s[i], ascii) {
        lemma_word_end(s, i + 1, ascii);
    }
}

/// The whitespace-separated words of `s` from index `i` on
/// (`split_whitespace`, or `split_ascii_whitespace` when `ascii`).
pub open spec fn words_from(s: Seq<char>, i: int, ascii: bool) -> Seq<Seq<char>>
    decreases s.len() - i,
{
    if i < 0 || i >= s.len() {
        seq![]
    } else if is_sep(s[i], ascii) {
        words_from(s, i + 1, ascii)
    } else {
        proof {
            lemma_word_end(s, i, ascii);
        }
        let e = word_end(s, i, ascii);
        seq![s.subrange(i, e)] + words_from(s, e, ascii)
    }
}

/// The whitespace-separated words of `s`.
pub open spec fn words(s: Seq<char>, ascii: bool) -> Seq<Seq<char>> {
    words_from(s, 0, ascii)
}

/// The words of `s` (`str::split_whitespace`, or `split_ascii_whitespace`).
pub fn split_words(s: &Vec<char>, ascii: bool) -> (r: Vec<Vec<char>>)
    ensures
        views(r@) == words(s@, ascii),
{
    let mut r: Vec<Vec<char>> = Vec::new();
    let mut i: usize = 0;
    let n = s.len();
    while i < n
        invariant
            n == s@.len(),
            i <= n,
            words(s@, ascii) == views(r@) + words_from(s@, i as int, ascii),
        decreases n - i,
    {
        if is_sep_exec(s[i], ascii) {
            i = i + 1;
        } else {
            let mut e = i;
            proof {
                lemma_word_end(s@, i as int, ascii);
            }
            while e < n && !is_sep_exec(s[e], ascii)
                invariant
                    n == s@.len(),
                    i <= e <= n,
                    word_end(s@, i as int, ascii) == word_end(s@, e as int, ascii),
                decreases n - e,
            {
                e = e + 1;
            }
            let ghost before = r@;
            r.push(slice_chars(s, i, e));
            assert(views(r@) == views(before) + seq![s@.subrange(i as int, e as int)]);
            i = e;
        }
    }
    assert(views(r@) + words_from(s@, i as int, ascii) == views(r@));
    r
}

// ───────────────────────────── integer parsing ─────────────────────────────

pub open spec fn is_digit(c: char) -> bool {
    48 <= (c as u32) <= 57
}

pub open spec fn digit_val(c: char) -> nat {
    ((c as u32) - 48) as nat
}

/// The value of a string of decimal digits.
pub open spec fn digits_val(s: Seq<char>) -> nat
    decreases s.len(),
{
    if s.len() == 0 {
        0
    } else {
        digits_val(s.drop_last()) * 10 + digit_val(s.last())
    }
}

pub open spec fn all_digits(s: Seq<char>) -> bool {
    forall|i: int| 0 <= i < s.len() ==> is_digit(#[trigger] s[i])
}

/// A non-empty run of digits whose value is at most `max`.
pub open spec fn parse_digits(d: Seq<char>, max: nat) -> Option<nat> {
    if d.len() > 0 && all_digits(d) && digits_val(d) <= max {
        Some(digits_val(d))
    } else {
        None
    }
}

/// `str::parse` for an unsigned integer type whose largest value is `max`:
/// an optional `+`, then one or more ASCII digits, with no overflow.
pub open spec fn parse_nat(s: Seq<char>, max: nat) -> Option<nat> {
    if s.len() > 0 && s[0] == '+' {
        parse_digits(s.drop_first(), max)
    } else {
        parse_digits(s, max)
    }
}

/// `str::parse` for a signed integer type ranging over `[min, max]`:
/// an optional `+` or `-`, then one or more ASCII digits, within range.
pub open spec fn parse_int(s: Seq<char>, min: int, max: int) -> Option<int> {
    if s.len() > 0 && s[0] == '-' {
        match parse_digits(s.drop_first(), (-min) as nat) {
            Some(v) => Some(-v),
            None => None,
        }
    } else {
        match parse_nat(s, max as nat) {
            Some(v) => Some(v as int),
            None => None,
        }
    }
}

proof fn lemma_digits_prefix_mono(s: Seq<char>, i: int)
    requires
        0 <= i <= s.len(),
        all_digits(s),
    ensures
        digits_val(s.subrange(0, i)) <= digits_val(s),
    decreases s.len() - i,
{
    if i < s.len() {
        let t = s.drop_last();
        assert(all_digits(t)) by {
            assert forall|j: int| 0 <= j < t.len() implies is_digit(#[trigger] t[j]) by {
                assert(t[j] == s[j]);
            }
        }
        lemma_digits_prefix_mono(t, i);
        assert(t.subrange(0, i) =~= s.subrange(0, i));
        assert(digits_val(s) == digits_val(t) * 10 + digit_val(s.last()));
    } else {
        assert(s.subrange(0, i) =~= s);
    }
}

fn parse_digits_exec(s: &Vec<char>, start: usize, max: u64) -> (r: Option<u64>)
    requires
        start <= s@.len(),
    ensures
        r matches Some(v) ==> parse_digits(s@.subrange(start as int, s@.len() as int), max as nat)
            == Some(v as nat),
        r is None ==> parse_digits(s@.subrange(start as int, s@.len() as int), max as nat) is None,
{
    let n = s.len();
    let ghost d = s@.subrange(start as int, n as int);
    if start >= n {
        return None;
    }
    let mut val: u64 = 0;
    let mut i = start;
    while i < n
        invariant
            n == s@.len(),
            start <= i <= n,
            d == s@.subrange(start as int, n as int),
            all_digits(d.subrange(0, i - start)),
            val as nat == digits_val(d.subrange(0, i - start)),
            val <= max,
        decreases n - i,
    {
        let c = s[i];
        let u = c as u32;
        let ghost pre = d.subrange(0, i - start);
        let ghost pre1 = d.subrange(0, i - start + 1);
        assert(pre1.drop_last() =~= pre);
        assert(pre1.last() == c);
        if u < 48 || u > 57 {
            assert(!all_digits(d)) by {
                assert(d[i - start] == c);
            }
            return None;
        }
        let dv: u64 = (u - 48) as u64;
        if dv > max || val > (max - dv) / 10 {
            proof {
                assert(all_digits(pre1)) by {
                    assert forall|j: int| 0 <= j < pre1.len() implies is_digit(#[trigger] pre1[j]) by {
                        if j < pre.len() {
                            assert(pre1[j] == pre[j]);
                        }
                    }
                }
                assert(digits_val(pre1) == digits_val(pre) * 10 + dv);
                assert(val * 10 + dv > max) by (nonlinear_arith)
                    requires
                        dv > max || val > (max - dv) / 10,
                ;
                if all_digits(d) {
                    lemma_digits_prefix_mono(d, i - start + 1);
                }
            }
            return None;
        }
        assert(val * 10 + dv <= max) by (nonlinear_arith)
            requires
                val <= (max - dv) / 10,
                dv <= max,
        ;
        proof {
            assert(all_digits(pre1)) by {
                assert forall|j: int| 0 <= j < pre1.len() implies is_digit(#[trigger] pre1[j]) by {
                    if j < pre.len() {
                        assert(pre1[j] == pre[j]);
                    }
                }
            }
        }
        val = val * 10 + dv;
        i = i + 1;
    }
    assert(d.subrange(0, n - start) =~= d);
    Some(val)
}

/// `str::parse::<u64>`-style parse bounded by `max` (`u32::MAX` for `u32`, and so on).
pub fn parse_nat_exec(s: &Vec<char>, max: u64) -> (r: Option<u64>)
    ensures
        r matches Some(v) ==> parse_nat(s@, max as nat) == Some(v as nat),
        r is None ==> parse_nat(s@, max as nat) is None,
{
    if s.len() > 0 && s[0] == '+' {
        assert(s@.subrange(1, s@.len() as int) =~= s@.drop_first());
        parse_digits_exec(s, 1, max)
    } else {
        assert(s@.subrange(0, s@.len() as int) =~= s@);
        parse_digits_exec(s, 0, max)
    }
}

/// `s.parse::<u32>().ok()`.
pub fn parse_u32(s: &Vec<char>) -> (r: Option<u32>)
    ensures
        r matches Some(v) ==> parse_nat(s@, u32::MAX as nat) == Some(v as nat),
        r is None ==> parse_nat(s@, u32::MAX as nat) is None,
{
    match parse_nat_exec(s, u32::MAX as u64) {
        Some(v) => Some(v as u32),
        None => None,
    }
}

/// `s.parse::<u64>().ok()`.
pub fn parse_u64(s: &Vec<char>) -> (r: Option<u64>)
    ensures
        r matches Some(v) ==> parse_nat(s@, u64::MAX as nat) == Some(v as nat),
        r is None ==> parse_nat(s@, u64::MAX as nat) is None,
{
    parse_nat_exec(s, u64::MAX)
}

/// `s.parse::<i32>().ok()`.
pub fn parse_i32(s: &Vec<char>) -> (r: Option<i32>)
    ensures
        r matches Some(v) ==> parse_int(s@, i32::MIN as int, i32::MAX as int) == Some(v as int),
        r is None ==> parse_int(s@, i32::MIN as int, i32::MAX as int) is None,
{
    if s.len() > 0 && s[0] == '-' {
        assert(s@.subrange(1, s@.len() as int) =~= s@.drop_first());
        match parse_digits_exec(s, 1, 2147483648u64) {
            Some(v) => {
                if v == 2147483648u64 {
                    Some(i32::MIN)
                } else {
                    Some(-(v as i32))
                }
            },
            None => None,
        }
    } else {
        match parse_nat_exec(s, i32::MAX as u64) {
            Some(v) => Some(v as i32),
            None => None,
        }
    }
}


// ───────────────────────────── case ─────────────────────────────

/// The text `str::to_lowercase` produces for `s` (Unicode lowercase mapping).
pub uninterp spec fn lowercase(s: Seq<char>) -> Seq<char>;

/// A character in the ASCII range.
pub open spec fn is_ascii_char(c: char) -> bool {
    (c as u32) < 128
}

/// The first `n` characters of `s` are ASCII.
pub open spec fn ascii_upto(s: Seq<char>, n: int) -> bool {
    0 <= n <= s.len() && forall|i: int| 0 <= i < n ==> is_ascii_char(#[trigger] s[i])
}

/// The first `n` characters of `r` are those of `s` with ASCII letters lowered.
pub open spec fn lowered_upto(s: Seq<char>, r: Seq<char>, n: int) -> bool {
    n <= r.len() && forall|i: int| 0 <= i < n ==> #[trigger] r[i] == ascii_lower(s[i])
}

/// Trusted wrapper of std's `str::to_lowercase`. The contract claims that the
/// result is `lowercase` of the argument, a name for the Unicode mapping, and
/// that a leading run of ASCII characters comes out in the same places with
/// its letters lowered (std maps each character on its own, except a final
/// sigma, and maps `A`–`Z` to `a`–`z` and every other ASCII character to
/// itself). Nothing is stated of what other characters become (one may become
/// several, so later positions can shift).
#[verifier::external_body]
pub(crate) fn to_lowercase(s: &str) -> (r: String)
    ensures
        r@ == lowercase(s@),
        forall|n: int| #[trigger] ascii_upto(s@, n) ==> lowered_upto(s@, r@, n),
{
    s.to_lowercase()
}

/// The lowercase form of a character vector, as characters.
pub fn lowercase_chars(v: &Vec<char>) -> (r: Vec<char>)
    ensures
        r@ == lowercase(v@),
        forall|n: int| #[trigger] ascii_upto(v@, n) ==> lowered_upto(v@, r@, n),
{
    let s = string_of(v);
    let l = to_lowercase(s.as_str());
    chars_of(l.as_str())
}

/// The text `str::to_uppercase` produces for `s` (Unicode uppercase mapping).
pub uninterp spec fn uppercase(s: Seq<char>) -> Seq<char>;

/// Trusted wrapper of std's `str::to_uppercase`. The contract claims only that
/// the result is `uppercase` of the argument, a name for the Unicode mapping;
/// nothing more is stated of it (`ß` becomes `SS`, for one).
#[verifier::external_body]
pub(crate) fn to_uppercase(s: &str) -> (r: String)
    ensures
        r@ == uppercase(s@),
{
    s.to_uppercase()
}

/// ASCII letters folded to lower case, other characters unchanged.
pub open spec fn ascii_lower(c: char) -> char {
    if 65 <= (c as u32) <= 90 {
        ((c as u32) + 32) as char
    } else {
        c
    }
}

/// `str::eq_ignore_ascii_case`.
pub open spec fn eq_ignore_ascii_case(a: Seq<char>, b: Seq<char>) -> bool {
    a.len() == b.len() && forall|i: int| 0 <= i < a.len() ==> ascii_lower(#[trigger] a[i]) == ascii_lower(b[i])
}

fn ascii_lower_exec(c: char) -> (r: char)
    ensures
        r == ascii_lower(c),
{
    let u = c as u32;
    if 65 <= u && u <= 90 {
        let b: u8 = (u + 32) as u8;
        b as char
    } else {
        c
    }
}

/// Whether two strings are equal up to ASCII case.
pub fn eq_ignore_ascii_case_exec(a: &str, b: &str) -> (r: bool)
    ensures
        r == eq_ignore_ascii_case(a@, b@),
{
    let x = chars_of(a);
    let y = chars_of(b);
    if x.len() != y.len() {
        return false;
    }
    for i in 0..x.len()
        invariant
            x@ == a@,
            y@ == b@,
            x@.len() == y@.len(),
            forall|j: int| 0 <= j < i ==> ascii_lower(#[trigger] x@[j]) == ascii_lower(y@[j]),
    {
        if ascii_lower_exec(x[i]) != ascii_lower_exec(y[i]) {
            return false;
        }
    }
    true
}

// ───────────────────────────── joining ─────────────────────────────

/// The pieces separated by `sep` (`[..].join(sep)`).
pub open spec fn join(parts: Seq<Seq<char>>, sep: Seq<char>) -> Seq<char>
    decreases parts.len(),
{
    if parts.len() == 0 {
        seq![]
    } else if parts.len() == 1 {
        parts[0]
    } else {
        join(parts.drop_last(), sep) + sep + parts.last()
    }
}

/// Joins string pieces with a separator.
pub fn join_exec(parts: &Vec<String>, sep: &str) -> (r: String)
    ensures
        r@ == join(parts@.map_values(|p: String| p@), sep@),
{
    let ghost pv = parts@.map_values(|p: String| p@);
    let mut r = String::new();
    for i in 0..parts.len()
        invariant
            pv == parts@.map_values(|p: String| p@),
            r@ == join(pv.take(i as int), sep@),
    {
        let ghost pre = pv.take(i as int);
        assert(pv.take(i + 1).drop_last() =~= pre);
        assert(pv.take(i + 1).last() == parts@[i as int]@);
        if i > 0 {
            r.append(sep);
        } else {
            assert(pv.take(1) =~= seq![parts@[0]@]);
        }
        r.append(parts[i].as_str());
    }
    assert(pv.take(parts@.len() as int) =~= pv);
    r
}

/// The last index of `c` in `s`.
pub open spec fn last_index_of(s: Seq<char>, c: char) -> Option<int>
    decreases s.len(),
{
    if s.len() == 0 {
        None
    } else if s.last() == c {
        Some(s.len() - 1)
    } else {
        last_index_of(s.drop_last(), c)
    }
}

pub proof fn lemma_last_index_bounds(s: Seq<char>, c: char)
    ensures
        last_index_of(s, c) matches Some(i) ==> 0 <= i < s.len() && s[i] == c,
    decreases s.len(),
{
    if s.len() > 0 && s.last() != c {
        lemma_last_index_bounds(s.drop_last(), c);
    }
}

pub fn last_index_of_exec(s: &Vec<char>, c: char) -> (r: Option<usize>)
    ensures
        r matches Some(i) ==> last_index_of(s@, c) == Some(i as int),
        r is None ==> last_index_of(s@, c) is None,
{
    let mut e = s.len();
    assert(s@.subrange(0, e as int) =~= s@);
    while e > 0
        invariant
            e <= s@.len(),
            last_index_of(s@, c) == last_index_of(s@.subrange(0, e as int), c),
        decreases e,
    {
        if s[e - 1] == c {
            return Some(e - 1);
        }
        assert(s@.subrange(0, e as int).drop_last() =~= s@.subrange(0, e - 1));
        e = e - 1;
    }
    None
}

// ───────────────────────────── line lookup ─────────────────────────────

/// Index of the first line, from `i` on, that contains `key`.
pub open spec fn line_with_from(ls: Seq<Seq<char>>, key: Seq<char>, i: int) -> Option<int>
    decreases ls.len() - i,
{
    if i < 0 || i >= ls.len() {
        None
    } else if contains(ls[i], key) {
        Some(i)
    } else {
        line_with_from(ls, key, i + 1)
    }
}

/// The first line that contains `key` (`lines().find(|l| l.contains(key))`).
pub open spec fn line_with(ls: Seq<Seq<char>>, key: Seq<char>) -> Option<Seq<char>> {
    match line_with_from(ls, key, 0) {
        Some(i) => Some(ls[i]),
        None => None,
    }
}

pub proof fn lemma_line_with_bounds(ls: Seq<Seq<char>>, key: Seq<char>, i: int)
    ensures
        line_with_from(ls, key, i) matches Some(k) ==> i <= k < ls.len() && 0 <= k,
    decreases ls.len() - i,
{
    if 0 <= i < ls.len() && !contains(ls[i], key) {
        lemma_line_with_bounds(ls, key, i + 1);
    }
}

/// The first of the lines that contains `key`.
pub fn line_with_exec(ls: &Vec<Vec<char>>, key: &str) -> (r: Option<Vec<char>>)
    ensures
        r matches Some(l) ==> line_with(views(ls@), key@) == Some(l@),
        r is None ==> line_with(views(ls@), key@) is None,
{
    let k = chars_of(key);
    let ghost lv = views(ls@);
    let mut i: usize = 0;
    while i < ls.len()
        invariant
            lv == views(ls@),
            k@ == key@,
            i <= ls@.len(),
            line_with_from(lv, key@, 0) == line_with_from(lv, key@, i as int),
        decreases ls@.len() - i,
    {
        assert(lv[i as int] == ls@[i as int]@);
        if contains_exec(&ls[i], &k) {
            return Some(clone_chars(&ls[i]));
        }
        i = i + 1;
    }
    None
}

/// `trim_start` on a character vector.
pub fn trim_start_exec(s: &Vec<char>) -> (r: Vec<char>)
    ensures
        r@ == trim_start(s@),
{
    let n = s.len();
    let mut a: usize = 0;
    while a < n && is_ws_exec(s[a])
        invariant
            a <= n == s@.len(),
            forall|j: int| 0 <= j < a ==> is_ws(#[trigger] s@[j]),
        decreases n - a,
    {
        a = a + 1;
    }
    proof {
        lemma_trim_start(s@, a as int);
    }
    slice_chars(s, a, n)
}

/// All pieces of `s` split at every occurrence of `p` (`s.split(p)`), from index `i` on.
pub open spec fn split_all_from(s: Seq<char>, p: Seq<char>, i: int) -> Seq<Seq<char>>
    decreases s.len() - i,
{
    if i < 0 || i > s.len() || p.len() == 0 {
        seq![]
    } else {
        match find_from(s, p, i) {
            Some(k) => {
                proof {
                    lemma_find_from_bounds(s, p, i);
                }
                seq![s.subrange(i, k)] + split_all_from(s, p, k + p.len())
            },
            None => seq![s.subrange(i, s.len() as int)],
        }
    }
}

/// All pieces of `s` split at every occurrence of a non-empty `p`.
pub open spec fn split_all(s: Seq<char>, p: Seq<char>) -> Seq<Seq<char>> {
    split_all_from(s, p, 0)
}

/// `s.split(p)` collected, for a non-empty `p`.
pub fn split_all_exec(s: &Vec<char>, p: &Vec<char>) -> (r: Vec<String>)
    requires
        p@.len() > 0,
    ensures
        r@.map_values(|x: String| x@) == split_all(s@, p@),
{
    let mut r: Vec<String> = Vec::new();
    let mut i: usize = 0;
    let n = s.len();
    loop
        invariant
            n == s@.len(),
            p@.len() > 0,
            i <= n,
            split_all(s@, p@) == r@.map_values(|x: String| x@) + split_all_from(s@, p@, i as int),
        decreases n - i,
    {
        let ghost before = r@;
        match find_from_exec(s, p, i) {
            Some(k) => {
                proof {
                    lemma_find_from_bounds(s@, p@, i as int);
                }
                assert(k + p@.len() <= n);
                let piece = string_of(&slice_chars(s, i, k));
                r.push(piece);
                assert(r@.map_values(|x: String| x@) =~= before.map_values(|x: String| x@).push(s@.subrange(i as int, k as int)));
                i = k + p.len();
            },
            None => {
                let piece = string_of(&slice_chars(s, i, n));
                r.push(piece);
                assert(r@.map_values(|x: String| x@) =~= before.map_values(|x: String| x@).push(s@.subrange(i as int, n as int)));
                assert(split_all(s@, p@) =~= r@.map_values(|x: String| x@));
                return r;
            },
        }
    }
}

/// `s.trim().parse::<u32>()` on an optional command output, 0 when absent or invalid.
pub open spec fn count_or_zero(o: Option<Seq<char>>) -> nat {
    match o {
        Some(s) => match parse_nat(trim(s), u32::MAX as nat) {
            Some(v) => v,
            None => 0,
        },
        None => 0,
    }
}

pub fn count_or_zero_exec(o: &Option<String>) -> (r: u32)
    ensures
        r as nat == count_or_zero(crate::checker::opt_view(*o)),
{
    match o {
        Some(s) => match parse_u32(&trim_exec(&chars_of(s.as_str()))) {
            Some(v) => v,
            None => 0,
        },
        None => 0,
    }
}

// ───────────────────────────── replacing ─────────────────────────────

/// Every non-overlapping occurrence of a non-empty `from` in `s`, from index
/// `i` on and left to right, replaced by `to`.
pub open spec fn replace_from(s: Seq<char>, from: Seq<char>, to: Seq<char>, i: int) -> Seq<char>
    decreases s.len() - i,
{
    if i < 0 || i > s.len() || from.len() == 0 {
        seq![]
    } else {
        match find_from(s, from, i) {
            Some(k) => {
                proof {
                    lemma_find_from_bounds(s, from, i);
                }
                s.subrange(i, k) + to + replace_from(s, from, to, k + from.len())
            },
            None => s.subrange(i, s.len() as int),
        }
    }
}

/// `str::replace(from, to)`.
pub open spec fn replace_all(s: Seq<char>, from: Seq<char>, to: Seq<char>) -> Seq<char> {
    if from.len() == 0 {
        interleave_simple(s, to)
    } else {
        replace_from(s, from, to, 0)
    }
}

/// `to`, then each character of `s` followed by `to`.
pub open spec fn interleave_simple(s: Seq<char>, to: Seq<char>) -> Seq<char>
    decreases s.len(),
{
    if s.len() == 0 {
        to
    } else {
        interleave_simple(s.drop_last(), to) + seq![s.last()] + to
    }
}

/// `s.replace(from, to)`.
pub fn replace_exec(s: &Vec<char>, from: &Vec<char>, to: &Vec<char>) -> (r: String)
    ensures
        r@ == replace_all(s@, from@, to@),
{
    let mut r = String::new();
    if from.len() == 0 {
        push_chars(&mut r, to);
        assert(s@.take(0) =~= seq![]);
        for i in 0..s.len()
            invariant
                from@.len() == 0,
                r@ == interleave_simple(s@.take(i as int), to@),
        {
            assert(s@.take(i + 1).drop_last() =~= s@.take(i as int));
            push_char(&mut r, s[i]);
            push_chars(&mut r, to);
            assert(r@ =~= interleave_simple(s@.take(i as int), to@) + seq![s@[i as int]] + to@);
        }
        assert(s@.take(s@.len() as int) =~= s@);
        return r;
    }
    let n = s.len();
    let mut i: usize = 0;
    loop
        invariant
            n == s@.len(),
            from@.len() > 0,
            i <= n,
            replace_all(s@, from@, to@) == r@ + replace_from(s@, from@, to@, i as int),
        decreases n - i,
    {
        match find_from_exec(s, from, i) {
            Some(k) => {
                proof {
                    lemma_find_from_bounds(s@, from@, i as int);
                }
                assert(k + from@.len() <= n);
                let ghost before = r@;
                push_chars(&mut r, &slice_chars(s, i, k));
                push_chars(&mut r, to);
                assert(before + replace_from(s@, from@, to@, i as int) =~= r@ + replace_from(s@, from@, to@, k + from@.len()));
                i = k + from.len();
            },
            None => {
                push_chars(&mut r, &slice_chars(s, i, n));
                return r;
            },
        }
    }
}

// ───────────────────────────── laws ─────────────────────────────

proof fn lemma_dec_digits(n: nat)
    ensures
        dec(n).len() > 0,
        all_digits(dec(n)),
        digits_val(dec(n)) == n,
    decreases n,
{
    let c = digit_char(n % 10);
    assert((c as u32) == n % 10 + 48);
    assert(digit_val(c) == n % 10);
    if n < 10 {
        assert(dec(n) =~= seq![c]);
        assert(dec(n).drop_last() =~= Seq::<char>::empty());
        assert(digits_val(Seq::<char>::empty()) == 0);
        assert(digits_val(dec(n)) == digits_val(dec(n).drop_last()) * 10 + digit_val(dec(n).last()));
    } else {
        lemma_dec_digits(n / 10);
        let s = dec(n);
        assert(s.drop_last() =~= dec(n / 10));
        assert(s.last() == c);
        assert(digits_val(s) == digits_val(dec(n / 10)) * 10 + n % 10);
        assert(n == (n / 10) * 10 + n % 10);
        assert(all_digits(s)) by {
            assert forall|i: int| 0 <= i < s.len() implies is_digit(#[trigger] s[i]) by {
                if i < s.len() - 1 {
                    assert(s[i] == dec(n / 10)[i]);
                }
            }
        }
    }
}

/// Reading back a printed number gives the number: for `n <= max`,
/// parsing the decimal text of `n` yields `n`.
pub proof fn law_parse_dec_roundtrip(n: nat, max: nat)
    requires
        n <= max,
    ensures
        parse_nat(dec(n), max) == Some(n),
{
    lemma_dec_digits(n);
    assert(!(dec(n)[0] == '+')) by {
        assert(is_digit(dec(n)[0]));
    }
}

/// A number's decimal text followed by text that starts with a non-digit
/// does not parse as a number.
pub proof fn lemma_dec_then_text_not_number(n: nat, t: Seq<char>, max: nat)
    requires
        t.len() > 0,
        !is_digit(t[0]),
    ensures
        parse_nat(dec(n) + t, max) is None,
{
    lemma_dec_digits(n);
    let s = dec(n) + t;
    assert(s[0] == dec(n)[0]);
    assert(is_digit(s[0]));
    assert(s[dec(n).len() as int] == t[0]);
    assert(!all_digits(s));
}

/// A text in which the first character of `p` never occurs does not contain `p`.
pub proof fn lemma_missing_first_char(s: Seq<char>, p: Seq<char>)
    requires
        p.len() > 0,
        forall|i: int| 0 <= i < s.len() ==> s[i] != p[0],
    ensures
        !contains(s, p),
{
    lemma_find_from_bounds(s, p, 0);
    if let Some(k) = find(s, p) {
        assert(s.subrange(k, k + p.len())[0] == p[0]);
        assert(s[k] == p[0]);
    }
}

} // verus!
