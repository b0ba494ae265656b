//! Ordering of the Rules tab: rows sorted by lower-cased name, stably
//! (rows with equal keys keep their store order).

use vstd::prelude::*;
use crate::model::Rule;
use crate::text::{chars_of, lowercase, to_lower};

verus! {

/// Lexicographic `<=` on character sequences from position `i` on,
/// comparing characters by code point. For UTF-8 strings this is the order
/// of `String`'s `Ord`.
pub open spec fn lex_le_from(a: Seq<char>, b: Seq<char>, i: nat) -> bool
    decreases a.len() - i,
{
    if i >= a.len() {
        true
    } else if i >= b.len() {
        false
    } else if a[i as int] != b[i as int] {
        a[i as int] < b[i as int]
    } else {
        lex_le_from(a, b, i + 1)
    }
}

/// Lexicographic `<=` on character sequences.
pub open spec fn lex_le(a: Seq<char>, b: Seq<char>) -> bool {
    lex_le_from(a, b, 0)
}

/// The sort key of a rule: its lower-cased name.
pub open spec fn rule_key(r: Rule) -> Seq<char> {
    lowercase(r.name@)
}

/// Inserts `x` into `t` after the last element whose key is not above x's.
pub open spec fn insert_sorted(t: Seq<Rule>, x: Rule) -> Seq<Rule>
    decreases t.len(),
{
    if t.len() == 0 {
        seq![x]
    } else if lex_le(rule_key(t.last()), rule_key(x)) {
        t.push(x)
    } else {
        insert_sorted(t.drop_last(), x).push(t.last())
    }
}

/// Stable sort of `s` by lower-cased name.
pub open spec fn sort_by_name(s: Seq<Rule>) -> Seq<Rule>
    decreases s.len(),
{
    if s.len() == 0 {
        Seq::empty()
    } else {
        insert_sorted(sort_by_name(s.drop_last()), s.last())
    }
}

/// Lexicographic `<=` is total.
pub proof fn lemma_lex_total(a: Seq<char>, b: Seq<char>, i: nat)
    ensures
        lex_le_from(a, b, i) || lex_le_from(b, a, i),
    decreases a.len() - i,
{
    if i < a.len() && i < b.len() && a[i as int] == b[i as int] {
        lemma_lex_total(a, b, i + 1);
    } else if i < a.len() && i < b.len() {
        assert(a[i as int] != b[i as int]);
    }
}

/// Lexicographic `<=` is transitive.
pub proof fn lemma_lex_trans(a: Seq<char>, b: Seq<char>, c: Seq<char>, i: nat)
    requires
        lex_le_from(a, b, i),
        lex_le_from(b, c, i),
    ensures
        lex_le_from(a, c, i),
    decreases a.len() - i,
{
    if i < a.len() && i < b.len() && i < c.len() && a[i as int] == b[i as int] && b[i as int]
        == c[i as int] {
        lemma_lex_trans(a, b, c, i + 1);
    }
}

/// Rows are in non-decreasing key order.
pub open spec fn sorted_by_name(s: Seq<Rule>) -> bool {
    forall|i: int, j: int| 0 <= i < j < s.len() ==> lex_le(rule_key(#[trigger] s[i]), rule_key(#[trigger] s[j]))
}

/// Inserting adds exactly one copy of `x`.
pub proof fn lemma_insert_multiset(t: Seq<Rule>, x: Rule)
    ensures
        insert_sorted(t, x).to_multiset() == t.to_multiset().insert(x),
        insert_sorted(t, x).len() == t.len() + 1,
    decreases t.len(),
{
    broadcast use vstd::seq_lib::group_seq_properties;
    broadcast use vstd::multiset::group_multiset_axioms;
    if t.len() == 0 {
        assert(seq![x] =~= Seq::<Rule>::empty().push(x));
    } else if lex_le(rule_key(t.last()), rule_key(x)) {
    } else {
        let u = t.drop_last();
        lemma_insert_multiset(u, x);
        assert(t =~= u.push(t.last()));
        assert(insert_sorted(t, x).to_multiset() =~= t.to_multiset().insert(x));
    }
}

/// Inserting into a sorted sequence keeps it sorted.
pub proof fn lemma_insert_sorted(t: Seq<Rule>, x: Rule)
    requires
        sorted_by_name(t),
    ensures
        sorted_by_name(insert_sorted(t, x)),
    decreases t.len(),
{
    broadcast use vstd::seq_lib::group_seq_properties;
    let r = insert_sorted(t, x);
    if t.len() == 0 {
    } else if lex_le(rule_key(t.last()), rule_key(x)) {
        assert forall|i: int, j: int| 0 <= i < j < r.len() implies lex_le(
            rule_key(#[trigger] r[i]),
            rule_key(#[trigger] r[j]),
        ) by {
            if j == t.len() {
                if i < t.len() - 1 {
                    assert(lex_le(rule_key(t[i]), rule_key(t[t.len() - 1])));
                    lemma_lex_trans(rule_key(t[i]), rule_key(t.last()), rule_key(x), 0);
                }
            } else {
                assert(r[i] == t[i] && r[j] == t[j]);
            }
        }
    } else {
        let u = t.drop_last();
        let m = t.last();
        assert(sorted_by_name(u)) by {
            assert forall|i: int, j: int| 0 <= i < j < u.len() implies lex_le(
                rule_key(#[trigger] u[i]),
                rule_key(#[trigger] u[j]),
            ) by {
                assert(u[i] == t[i] && u[j] == t[j]);
            }
        }
        lemma_insert_sorted(u, x);
        lemma_insert_multiset(u, x);
        let w = insert_sorted(u, x);
        lemma_lex_total(rule_key(m), rule_key(x), 0);
        assert forall|k: int| 0 <= k < w.len() implies lex_le(rule_key(#[trigger] w[k]), rule_key(m)) by {
            assert(w.to_multiset().contains(w[k]));
            assert(u.to_multiset().insert(x).contains(w[k]));
            if w[k] != x {
                assert(u.to_multiset().contains(w[k]));
                assert(u.contains(w[k]));
                let j = choose|j: int| 0 <= j < u.len() && u[j] == w[k];
                assert(t[j] == u[j]);
                assert(lex_le(rule_key(t[j]), rule_key(t[t.len() - 1])));
            }
        }
        assert forall|i: int, j: int| 0 <= i < j < r.len() implies lex_le(
            rule_key(#[trigger] r[i]),
            rule_key(#[trigger] r[j]),
        ) by {
            if j == w.len() {
                assert(r[i] == w[i]);
            } else {
                assert(r[i] == w[i] && r[j] == w[j]);
            }
        }
    }
}

/// The sorted rows are the given rows, reordered, and in key order.
pub proof fn lemma_sort_by_name(s: Seq<Rule>)
    ensures
        sorted_by_name(sort_by_name(s)),
        sort_by_name(s).to_multiset() == s.to_multiset(),
        sort_by_name(s).len() == s.len(),
    decreases s.len(),
{
    broadcast use vstd::seq_lib::group_seq_properties;
    broadcast use vstd::multiset::group_multiset_axioms;
    if s.len() > 0 {
        let u = s.drop_last();
        lemma_sort_by_name(u);
        lemma_insert_sorted(sort_by_name(u), s.last());
        lemma_insert_multiset(sort_by_name(u), s.last());
        assert(s =~= u.push(s.last()));
    }
}

/// Compares two keys lexicographically.
pub fn key_le(a: &Vec<char>, b: &Vec<char>) -> (r: bool)
    ensures
        r == lex_le(a@, b@),
{
    let mut i: usize = 0;
    while i < a.len() && i < b.len() && a[i] == b[i]
        invariant
            i <= a@.len(),
            i <= b@.len(),
            lex_le_from(a@, b@, 0) == lex_le_from(a@, b@, i as nat),
        decreases a@.len() - i,
    {
        i = i + 1;
    }
    if i == a.len() {
        true
    } else if i == b.len() {
        false
    } else {
        a[i] < b[i]
    }
}

/// Inserting before a larger last element moves it past `x`.
proof fn lemma_insert_step(t: Seq<Rule>, x: Rule, p: int)
    requires
        0 < p <= t.len(),
        !lex_le(rule_key(t[p - 1]), rule_key(x)),
    ensures
        insert_sorted(t.take(p), x) + t.skip(p) == insert_sorted(t.take(p - 1), x) + t.skip(p - 1),
{
    let tp = t.take(p);
    assert(tp.drop_last() =~= t.take(p - 1));
    assert(tp.last() == t[p - 1]);
    assert(insert_sorted(tp, x) == insert_sorted(t.take(p - 1), x).push(t[p - 1]));
    assert(insert_sorted(t.take(p - 1), x).push(t[p - 1]) + t.skip(p) =~= insert_sorted(
        t.take(p - 1),
        x,
    ) + t.skip(p - 1));
}

/// Sorts rules by lower-cased name, stably.
pub fn sort_rules(rules: Vec<Rule>) -> (r: Vec<Rule>)
    ensures
        r@ == sort_by_name(rules@),
        sorted_by_name(r@),
        r@.to_multiset() == rules@.to_multiset(),
        r@.len() == rules@.len(),
{
    proof {
        lemma_sort_by_name(rules@);
    }
    let mut input = rules;
    let ghost orig = input@;
    // Take the rows in order: reverse first so `pop` yields them front to back.
    let mut rev: Vec<Rule> = Vec::new();
    while input.len() > 0
        invariant
            input@.len() + rev@.len() == orig.len(),
            input@ == orig.take(input@.len() as int),
            forall|k: int| 0 <= k < rev@.len() ==> rev@[k] == orig[orig.len() - 1 - k],
        decreases input@.len(),
    {
        let x = input.pop().unwrap();
        rev.push(x);
    }
    let mut out: Vec<Rule> = Vec::new();
    let mut keys: Vec<Vec<char>> = Vec::new();
    while rev.len() > 0
        invariant
            rev@.len() <= orig.len(),
            forall|k: int| 0 <= k < rev@.len() ==> rev@[k] == orig[orig.len() - 1 - k],
            out@ == sort_by_name(orig.take(orig.len() - rev@.len())),
            keys@.len() == out@.len(),
            forall|k: int| 0 <= k < keys@.len() ==> (#[trigger] keys@[k])@ == rule_key(out@[k]),
        decreases rev@.len(),
    {
        let ghost done = orig.len() - rev@.len();
        let x = rev.pop().unwrap();
        assert(x == orig[done]);
        let kx = chars_of(to_lower(x.name.as_str()).as_str());
        let ghost t = out@;
        let mut p = out.len();
        assert(t.take(p as int) =~= t);
        assert(t.skip(p as int) =~= Seq::<Rule>::empty());
        assert(insert_sorted(t, x) =~= insert_sorted(t.take(p as int), x) + t.skip(p as int));
        while p > 0 && !key_le(&keys[p - 1], &kx)
            invariant
                p <= t.len(),
                out@ == t,
                keys@.len() == t.len(),
                forall|k: int| 0 <= k < keys@.len() ==> (#[trigger] keys@[k])@ == rule_key(t[k]),
                kx@ == rule_key(x),
                insert_sorted(t, x) == insert_sorted(t.take(p as int), x) + t.skip(p as int),
            decreases p,
        {
            proof {
                lemma_insert_step(t, x, p as int);
            }
            p = p - 1;
        }
        proof {
            if p == 0 {
                assert(t.take(0) =~= Seq::<Rule>::empty());
                assert(insert_sorted(t, x) =~= seq![x] + t);
            } else {
                let tp = t.take(p as int);
                assert(tp.last() == t[p - 1]);
                assert(insert_sorted(tp, x) == tp.push(x));
                assert(insert_sorted(t, x) =~= t.take(p as int).push(x) + t.skip(p as int));
            }
            let s1 = orig.take(done + 1);
            assert(s1.drop_last() =~= orig.take(done));
            assert(s1.last() == x);
        }
        let ghost keys_before = keys@;
        out.insert(p, x);
        keys.insert(p, kx);
        proof {
            assert(out@ =~= insert_sorted(t, x));
            assert forall|k: int| 0 <= k < keys@.len() implies (#[trigger] keys@[k])@ == rule_key(
                out@[k],
            ) by {
                if k < p {
                    assert(keys@[k] == keys_before[k]);
                } else if k > p {
                    assert(keys@[k] == keys_before[k - 1]);
                }
            }
        }
    }
    assert(orig.take(orig.len() as int) =~= orig);
    out
}

} // verus!
