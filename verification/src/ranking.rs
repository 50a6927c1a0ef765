//! Ordering items by descending numeric keys, and tallying repeated names:
//! the "top N" lists that the memory, process and crash-log sections show.
use vstd::prelude::*;

verus! {

/// Item `i` comes before item `j`: a larger first key, then a larger second
/// key, then the smaller position (the order a stable descending sort gives).
pub open spec fn precedes(k1: Seq<u64>, k2: Seq<u64>, i: int, j: int) -> bool {
    k1[i] > k1[j] || (k1[i] == k1[j] && (k2[i] > k2[j] || (k2[i] == k2[j] && i < j)))
}

/// `r` lists the first `min(k, n)` of the `n` items in `precedes` order.
pub open spec fn is_top_order(k1: Seq<u64>, k2: Seq<u64>, r: Seq<usize>, k: nat) -> bool {
    &&& r.len() == if k < k1.len() { k } else { k1.len() }
    &&& forall|t: int| 0 <= t < r.len() ==> (#[trigger] r[t]) < k1.len()
    &&& forall|s: int, t: int| 0 <= s < t < r.len() ==> precedes(k1, k2, #[trigger] r[s] as int, #[trigger] r[t] as int)
    &&& forall|j: int, t: int|
        0 <= j < k1.len() && 0 <= t < r.len() && !r.contains(j as usize) ==> #[trigger] precedes(
            k1,
            k2,
            r[t] as int,
            j,
        )
}

proof fn lemma_precedes_total(k1: Seq<u64>, k2: Seq<u64>, i: int, j: int)
    requires
        i != j,
    ensures
        precedes(k1, k2, i, j) || precedes(k1, k2, j, i),
        !(precedes(k1, k2, i, j) && precedes(k1, k2, j, i)),
{
}

/// The top list is determined by the keys: two lists that both satisfy
/// `is_top_order` for the same keys and length are equal.
pub proof fn lemma_top_order_unique(k1: Seq<u64>, k2: Seq<u64>, r1: Seq<usize>, r2: Seq<usize>, k: nat)
    requires
        k1.len() == k2.len(),
        is_top_order(k1, k2, r1, k),
        is_top_order(k1, k2, r2, k),
    ensures
        r1 == r2,
{
    assert forall|t: int| 0 <= t < r1.len() implies r1[t] == r2[t] by {
        lemma_top_order_prefix(k1, k2, r1, r2, k, t);
    }
    assert(r1 =~= r2);
}

proof fn lemma_top_order_prefix(k1: Seq<u64>, k2: Seq<u64>, r1: Seq<usize>, r2: Seq<usize>, k: nat, t: int)
    requires
        k1.len() == k2.len(),
        is_top_order(k1, k2, r1, k),
        is_top_order(k1, k2, r2, k),
        0 <= t < r1.len(),
    ensures
        r1[t] == r2[t],
    decreases t,
{
    if t > 0 {
        lemma_top_order_prefix(k1, k2, r1, r2, k, t - 1);
        assert forall|u: int| 0 <= u < t implies r1[u] == r2[u] by {
            if u < t - 1 {
                lemma_top_order_prefix_all(k1, k2, r1, r2, k, t - 1, u);
            }
        }
    }
    let a = r1[t];
    let b = r2[t];
    if a != b {
        lemma_precedes_total(k1, k2, a as int, b as int);
        if precedes(k1, k2, a as int, b as int) {
            if r2.contains(a) {
                let u = choose|u: int| 0 <= u < r2.len() && r2[u] == a;
                if u < t {
                    lemma_top_order_prefix_all(k1, k2, r1, r2, k, t, u);
                    assert(r1[u] == a);
                    assert(precedes(k1, k2, r1[u] as int, r1[t] as int));
                } else {
                    assert(precedes(k1, k2, r2[t] as int, r2[u] as int));
                }
            } else {
                assert(precedes(k1, k2, r2[t] as int, a as int));
            }
        } else {
            if r1.contains(b) {
                let u = choose|u: int| 0 <= u < r1.len() && r1[u] == b;
                if u < t {
                    lemma_top_order_prefix_all(k1, k2, r1, r2, k, t, u);
                    assert(r2[u] == b);
                    assert(precedes(k1, k2, r2[u] as int, r2[t] as int));
                } else {
                    assert(precedes(k1, k2, r1[t] as int, r1[u] as int));
                }
            } else {
                assert(precedes(k1, k2, r1[t] as int, b as int));
            }
        }
    }
}

proof fn lemma_top_order_prefix_all(
    k1: Seq<u64>,
    k2: Seq<u64>,
    r1: Seq<usize>,
    r2: Seq<usize>,
    k: nat,
    t: int,
    u: int,
)
    requires
        k1.len() == k2.len(),
        is_top_order(k1, k2, r1, k),
        is_top_order(k1, k2, r2, k),
        0 <= u < t < r1.len(),
    ensures
        r1[u] == r2[u],
    decreases t,
{
    lemma_top_order_prefix(k1, k2, r1, r2, k, u);
}

/// The positions of the first `min(k, n)` items in `precedes` order.
pub open spec fn top_order(k1: Seq<u64>, k2: Seq<u64>, k: nat) -> Seq<usize> {
    choose|r: Seq<usize>| is_top_order(k1, k2, r, k)
}

/// The positions of the first `min(k, n)` items in `precedes` order.
pub fn top_indices(k1: &Vec<u64>, k2: &Vec<u64>, k: usize) -> (r: Vec<usize>)
    requires
        k1@.len() == k2@.len(),
    ensures
        is_top_order(k1@, k2@, r@, k as nat),
        r@ == top_order(k1@, k2@, k as nat),
{
    let n = k1.len();
    let mut used: Vec<bool> = Vec::new();
    for i in 0..n
        invariant
            used@.len() == i,
            forall|j: int| 0 <= j < i ==> !used@[j],
    {
        used.push(false);
    }
    proof {
        lemma_count_false_all_false(used@);
    }
    let target = if k < n { k } else { n };
    let mut r: Vec<usize> = Vec::new();
    while r.len() < target
        invariant
            n == k1@.len() == k2@.len(),
            used@.len() == n,
            count_false(used@) + r@.len() == n,
            target == if k < n { k } else { n },
            r@.len() <= target,
            forall|t: int| 0 <= t < r@.len() ==> (#[trigger] r@[t]) < n,
            forall|j: int| 0 <= j < n ==> (used@[j] <==> r@.contains(j as usize)),
            forall|s: int, t: int| 0 <= s < t < r@.len() ==> precedes(k1@, k2@, #[trigger] r@[s] as int, #[trigger] r@[t] as int),
            forall|j: int, t: int|
                0 <= j < n && 0 <= t < r@.len() && !r@.contains(j as usize) ==> #[trigger] precedes(
                    k1@,
                    k2@,
                    r@[t] as int,
                    j,
                ),
            forall|s: int, t: int| 0 <= s < t < r@.len() ==> #[trigger] r@[s] != #[trigger] r@[t],
        decreases target - r@.len(),
    {
        // Find the best unused item.
        let mut best: usize = n;
        for j in 0..n
            invariant
                n == k1@.len() == k2@.len(),
                used@.len() == n,
                best == n || (best < j && !used@[best as int]),
                best < n ==> forall|x: int| 0 <= x < j && !used@[x] && x != best ==> precedes(k1@, k2@, best as int, x),
                best == n ==> forall|x: int| 0 <= x < j ==> used@[x],
        {
            if !used[j] {
                if best == n {
                    best = j;
                } else if k1[j] > k1[best] || (k1[j] == k1[best] && k2[j] > k2[best]) {
                    proof {
                        assert forall|x: int| 0 <= x < j + 1 && !used@[x] && x != j implies precedes(k1@, k2@, j as int, x) by {
                            if x != best {
                                assert(precedes(k1@, k2@, best as int, x));
                            }
                        }
                    }
                    best = j;
                }
            }
        }
        if best == n {
            proof {
                lemma_count_false_all_true(used@);
            }
            assert(false);
        }
        let ghost prev = r@;
        proof {
            lemma_count_false_set(used@, best as int);
        }
        used.set(best, true);
        r.push(best);
        proof {
            assert(r@ == prev.push(best));
            assert forall|j: int| 0 <= j < n implies (used@[j] <==> r@.contains(j as usize)) by {
                if j == best {
                    assert(r@[prev.len() as int] == best);
                } else {
                    if prev.contains(j as usize) {
                        let u = choose|u: int| 0 <= u < prev.len() && prev[u] == j as usize;
                        assert(r@[u] == j as usize);
                    }
                    if r@.contains(j as usize) {
                        let u = choose|u: int| 0 <= u < r@.len() && r@[u] == j as usize;
                        assert(u < prev.len());
                        assert(prev[u] == j as usize);
                    }
                }
            }
            assert forall|s: int, t: int| 0 <= s < t < r@.len() implies precedes(k1@, k2@, #[trigger] r@[s] as int, #[trigger] r@[t] as int) by {
                if t == prev.len() {
                    assert(r@[s] == prev[s]);
                    assert(!prev.contains(best));
                } else {
                    assert(r@[s] == prev[s] && r@[t] == prev[t]);
                }
            }
            assert forall|s: int, t: int| 0 <= s < t < r@.len() implies #[trigger] r@[s] != #[trigger] r@[t] by {
                if t == prev.len() {
                    assert(r@[s] == prev[s]);
                    assert(prev.contains(prev[s]));
                } else {
                    assert(r@[s] == prev[s] && r@[t] == prev[t]);
                }
            }
            assert forall|j: int, t: int|
                0 <= j < n && 0 <= t < r@.len() && !r@.contains(j as usize) implies #[trigger] precedes(
                    k1@,
                    k2@,
                    r@[t] as int,
                    j,
                ) by {
                assert(!used@[j]);
                if t == prev.len() {
                } else {
                    assert(r@[t] == prev[t]);
                    if prev.contains(j as usize) {
                        let u = choose|u: int| 0 <= u < prev.len() && prev[u] == j as usize;
                        assert(r@[u] == j as usize);
                    }
                }
            }
        }
    }
    proof {
        assert forall|j: int, t: int|
            0 <= j < n && 0 <= t < r@.len() && !r@.contains(j as usize) implies #[trigger] precedes(
                k1@,
                k2@,
                r@[t] as int,
                j,
            ) by {}
        assert(is_top_order(k1@, k2@, r@, k as nat));
        let chosen = choose|q: Seq<usize>| is_top_order(k1@, k2@, q, k as nat);
        lemma_top_order_unique(k1@, k2@, r@, chosen, k as nat);
    }
    r
}

/// Number of `false` entries.
pub open spec fn count_false(s: Seq<bool>) -> nat
    decreases s.len(),
{
    if s.len() == 0 {
        0
    } else {
        count_false(s.drop_last()) + if s.last() { 0nat } else { 1nat }
    }
}

proof fn lemma_count_false_all_true(s: Seq<bool>)
    requires
        forall|j: int| 0 <= j < s.len() ==> s[j],
    ensures
        count_false(s) == 0,
    decreases s.len(),
{
    if s.len() > 0 {
        lemma_count_false_all_true(s.drop_last());
    }
}

proof fn lemma_count_false_all_false(s: Seq<bool>)
    requires
        forall|j: int| 0 <= j < s.len() ==> !s[j],
    ensures
        count_false(s) == s.len(),
    decreases s.len(),
{
    if s.len() > 0 {
        lemma_count_false_all_false(s.drop_last());
    }
}

proof fn lemma_count_false_set(s: Seq<bool>, i: int)
    requires
        0 <= i < s.len(),
        !s[i],
    ensures
        count_false(s.update(i, true)) + 1 == count_false(s),
    decreases s.len(),
{
    let u = s.update(i, true);
    if i == s.len() - 1 {
        assert(u.drop_last() =~= s.drop_last());
    } else {
        lemma_count_false_set(s.drop_last(), i);
        assert(u.drop_last() =~= s.drop_last().update(i, true));
    }
}

// ───────────────────────────── tallies ─────────────────────────────

/// Number of times `x` occurs in `s`.
pub open spec fn occurrences(s: Seq<Seq<char>>, x: Seq<char>) -> nat
    decreases s.len(),
{
    if s.len() == 0 {
        0
    } else {
        occurrences(s.drop_last(), x) + if s.last() == x { 1nat } else { 0nat }
    }
}

/// The distinct entries of `s` in order of first appearance.
pub open spec fn firsts(s: Seq<Seq<char>>) -> Seq<Seq<char>>
    decreases s.len(),
{
    if s.len() == 0 {
        seq![]
    } else {
        let f = firsts(s.drop_last());
        if f.contains(s.last()) {
            f
        } else {
            f.push(s.last())
        }
    }
}

/// How often each distinct entry occurs, in order of first appearance.
pub open spec fn tally_counts(s: Seq<Seq<char>>) -> Seq<u64> {
    firsts(s).map_values(|x: Seq<char>| occurrences(s, x) as u64)
}

/// All-zero secondary keys.
pub open spec fn zeros(n: nat) -> Seq<u64> {
    Seq::new(n, |i: int| 0u64)
}

/// The `n` most frequent entries of `s` with their counts: most frequent
/// first, ties in order of first appearance.
pub open spec fn top_tally(s: Seq<Seq<char>>, n: nat) -> Seq<(Seq<char>, nat)> {
    let c = tally_counts(s);
    let r = choose|r: Seq<usize>| is_top_order(c, zeros(c.len()), r, n);
    r.map_values(|i: usize| (firsts(s)[i as int], occurrences(s, firsts(s)[i as int])))
}

proof fn lemma_firsts_props(s: Seq<Seq<char>>)
    ensures
        forall|x: Seq<char>| firsts(s).contains(x) <==> s.contains(x),
        forall|a: int, b: int| 0 <= a < b < firsts(s).len() ==> firsts(s)[a] != firsts(s)[b],
    decreases s.len(),
{
    if s.len() > 0 {
        let t = s.drop_last();
        lemma_firsts_props(t);
        assert forall|x: Seq<char>| firsts(s).contains(x) <==> s.contains(x) by {
            if s.contains(x) && x != s.last() {
                let i = choose|i: int| 0 <= i < s.len() && s[i] == x;
                assert(t[i] == x);
            }
            if t.contains(x) {
                let i = choose|i: int| 0 <= i < t.len() && t[i] == x;
                assert(s[i] == x);
            }
            if firsts(s).contains(x) && !firsts(t).contains(x) {
                assert(x == s.last());
                assert(s[s.len() - 1] == x);
            }
            if firsts(t).contains(x) {
                let i = choose|i: int| 0 <= i < firsts(t).len() && firsts(t)[i] == x;
                assert(firsts(s)[i] == x);
            }
            if x == s.last() {
                assert(s[s.len() - 1] == x);
                if !firsts(t).contains(x) {
                    assert(firsts(s)[firsts(t).len() as int] == x);
                }
            }
        }
    }
}

proof fn lemma_occurrences_push(s: Seq<Seq<char>>, y: Seq<char>, x: Seq<char>)
    ensures
        occurrences(s.push(y), x) == occurrences(s, x) + if y == x { 1nat } else { 0nat },
{
    assert(s.push(y).drop_last() =~= s);
}

proof fn lemma_occurrences_bound(s: Seq<Seq<char>>, x: Seq<char>)
    ensures
        occurrences(s, x) <= s.len(),
    decreases s.len(),
{
    if s.len() > 0 {
        lemma_occurrences_bound(s.drop_last(), x);
    }
}

/// The distinct entries of `keys` in order of first appearance, and how often each occurs.
pub fn tally(keys: &Vec<Vec<char>>) -> (r: (Vec<Vec<char>>, Vec<u64>))
    ensures
        r.0@.map_values(|x: Vec<char>| x@) == firsts(keys@.map_values(|x: Vec<char>| x@)),
        r.1@ == tally_counts(keys@.map_values(|x: Vec<char>| x@)),
{
    let ghost all = keys@.map_values(|x: Vec<char>| x@);
    let mut names: Vec<Vec<char>> = Vec::new();
    let mut counts: Vec<u64> = Vec::new();
    for i in 0..keys.len()
        invariant
            all == keys@.map_values(|x: Vec<char>| x@),
            names@.len() == counts@.len(),
            names@.map_values(|x: Vec<char>| x@) == firsts(all.take(i as int)),
            forall|j: int| 0 <= j < counts@.len() ==> counts@[j] as nat == occurrences(
                all.take(i as int),
                #[trigger] names@[j]@,
            ),
    {
        let ghost pre = all.take(i as int);
        let ghost nv = names@.map_values(|x: Vec<char>| x@);
        assert(all.take(i + 1) =~= pre.push(all[i as int]));
        assert(all.take(i + 1).drop_last() =~= pre);
        assert(all[i as int] == keys@[i as int]@);
        let key = &keys[i];
        let found = match position_of(&names, key) {
            Some(j) => j,
            None => names.len(),
        };
        proof {
            lemma_occurrences_bound(pre, key@);
            lemma_firsts_props(pre);
        }
        if found < names.len() {
            proof {
                assert(nv[found as int] == key@);
                assert(firsts(pre).contains(key@));
            }
            let c = counts[found];
            counts.set(found, c + 1);
            proof {
                assert forall|q: int| 0 <= q < counts@.len() implies counts@[q] as nat == occurrences(
                    all.take(i + 1),
                    #[trigger] names@[q]@,
                ) by {
                    lemma_occurrences_push(pre, key@, names@[q]@);
                    if q != found {
                        assert(nv[q] != nv[found as int]);
                    }
                }
            }
        } else {
            proof {
                assert(!firsts(pre).contains(key@)) by {
                    if firsts(pre).contains(key@) {
                        let q = choose|q: int| 0 <= q < firsts(pre).len() && firsts(pre)[q] == key@;
                        assert(nv[q] == names@[q]@);
                    }
                }
                assert(!pre.contains(key@));
            }
            let ghost before = names@;
            names.push(clone_vec(key));
            counts.push(1);
            proof {
                assert(names@.map_values(|x: Vec<char>| x@) =~= nv.push(key@));
                assert forall|q: int| 0 <= q < counts@.len() implies counts@[q] as nat == occurrences(
                    all.take(i + 1),
                    #[trigger] names@[q]@,
                ) by {
                    lemma_occurrences_push(pre, key@, names@[q]@);
                    if q < before.len() {
                        assert(names@[q] == before[q]);
                        assert(nv[q] == before[q]@);
                        assert(firsts(pre).contains(nv[q]));
                        assert(nv[q] != key@);
                    } else {
                        if occurrences(pre, key@) > 0 {
                            lemma_occurrences_pos(pre, key@);
                        }
                    }
                }
            }
        }
    }
    assert(all.take(keys@.len() as int) =~= all);
    proof {
        let c = tally_counts(all);
        assert forall|q: int| 0 <= q < counts@.len() implies counts@[q] == c[q] by {
            lemma_occurrences_bound(all, names@[q]@);
        }
        assert(counts@ =~= c);
    }
    (names, counts)
}

proof fn lemma_occurrences_pos(s: Seq<Seq<char>>, x: Seq<char>)
    requires
        occurrences(s, x) > 0,
    ensures
        s.contains(x),
    decreases s.len(),
{
    if s.last() == x {
        assert(s[s.len() - 1] == x);
    } else {
        lemma_occurrences_pos(s.drop_last(), x);
        let i = choose|i: int| 0 <= i < s.len() - 1 && s.drop_last()[i] == x;
        assert(s[i] == x);
    }
}

fn position_of(names: &Vec<Vec<char>>, key: &Vec<char>) -> (r: Option<usize>)
    ensures
        r matches Some(j) ==> j < names@.len() && names@[j as int]@ == key@,
        r is None ==> forall|q: int| 0 <= q < names@.len() ==> names@[q]@ != key@,
{
    for j in 0..names.len()
        invariant
            forall|q: int| 0 <= q < j ==> names@[q]@ != key@,
    {
        if crate::text::chars_eq(&names[j], key) {
            return Some(j);
        }
    }
    None
}

fn clone_vec(v: &Vec<char>) -> (r: Vec<char>)
    ensures
        r@ == v@,
{
    crate::text::clone_chars(v)
}

/// The `n` most frequent entries of `keys` with their counts, most frequent
/// first, ties in order of first appearance.
pub fn top_tally_exec(keys: &Vec<Vec<char>>, n: usize) -> (r: Vec<(Vec<char>, u64)>)
    ensures
        r@.map_values(|p: (Vec<char>, u64)| (p.0@, p.1 as nat)) == top_tally(
            keys@.map_values(|x: Vec<char>| x@),
            n as nat,
        ),
        forall|u: int| 0 <= u < r@.len() ==> (#[trigger] r@[u]).1 <= keys@.len(),
{
    let ghost all = keys@.map_values(|x: Vec<char>| x@);
    let (names, counts) = tally(keys);
    let mut z: Vec<u64> = Vec::new();
    for i in 0..counts.len()
        invariant
            z@ == zeros(i as nat),
    {
        z.push(0);
        assert(z@ =~= zeros((i + 1) as nat));
    }
    let idx = top_indices(&counts, &z, n);
    proof {
        let c = tally_counts(all);
        assert(counts@ == c);
        assert(is_top_order(c, zeros(c.len()), idx@, n as nat));
        let chosen = choose|r: Seq<usize>| is_top_order(c, zeros(c.len()), r, n as nat);
        lemma_top_order_unique(c, zeros(c.len()), idx@, chosen, n as nat);
    }
    let mut r: Vec<(Vec<char>, u64)> = Vec::new();
    for t in 0..idx.len()
        invariant
            all == keys@.map_values(|x: Vec<char>| x@),
            names@.map_values(|x: Vec<char>| x@) == firsts(all),
            counts@ == tally_counts(all),
            forall|u: int| 0 <= u < idx@.len() ==> (#[trigger] idx@[u]) < counts@.len(),
            forall|u: int| 0 <= u < r@.len() ==> (#[trigger] r@[u]).1 <= keys@.len(),
            r@.map_values(|p: (Vec<char>, u64)| (p.0@, p.1 as nat)) == idx@.take(t as int).map_values(
                |i: usize| (firsts(all)[i as int], occurrences(all, firsts(all)[i as int])),
            ),
    {
        let i = idx[t];
        let ghost before = r@;
        let name = clone_vec(&names[i]);
        assert(name@ == firsts(all)[i as int]);
        proof {
            lemma_occurrences_bound(all, firsts(all)[i as int]);
        }
        let nkeys = keys.len();
        assert(all.len() == nkeys);
        assert(tally_counts(all)[i as int] == occurrences(all, firsts(all)[i as int]) as u64);
        assert(counts@[i as int] as nat == occurrences(all, firsts(all)[i as int]));
        r.push((name, counts[i]));
        assert(idx@.take(t + 1) =~= idx@.take(t as int).push(i));
        assert(idx@.take(t + 1).map_values(
            |i: usize| (firsts(all)[i as int], occurrences(all, firsts(all)[i as int])),
        ) =~= idx@.take(t as int).map_values(
            |i: usize| (firsts(all)[i as int], occurrences(all, firsts(all)[i as int])),
        ).push((firsts(all)[i as int], occurrences(all, firsts(all)[i as int]))));
        assert(r@.map_values(|p: (Vec<char>, u64)| (p.0@, p.1 as nat)) =~= before.map_values(
            |p: (Vec<char>, u64)| (p.0@, p.1 as nat),
        ).push((name@, counts@[i as int] as nat)));
    }
    assert(idx@.take(idx@.len() as int) =~= idx@);
    r
}

} // verus!
