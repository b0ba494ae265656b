//! Row selections: sets of row ids kept in a vector without repeats.

use vstd::prelude::*;

verus! {

/// The ids of a vector of strings, as a set of character sequences.
pub open spec fn id_set(v: Seq<String>) -> Set<Seq<char>> {
    Set::new(|s: Seq<char>| exists|i: int| 0 <= i < v.len() && (#[trigger] v[i])@ == s)
}

/// No id occurs twice.
pub open spec fn distinct_ids(v: Seq<String>) -> bool {
    forall|i: int, j: int| 0 <= i < j < v.len() ==> (#[trigger] v[i])@ != (#[trigger] v[j])@
}

/// `ids` with repeats removed (first occurrences kept).
pub fn distinct(ids: Vec<String>) -> (r: Vec<String>)
    ensures
        id_set(r@) == id_set(ids@),
        distinct_ids(r@),
{
    let mut out: Vec<String> = Vec::new();
    let n = ids.len();
    for i in 0..n
        invariant
            n == ids@.len(),
            distinct_ids(out@),
            id_set(out@) == id_set(ids@.take(i as int)),
    {
        let ghost before = out@;
        let present = contains_id(&out, &ids[i]);
        if !present {
            out.push(ids[i].clone());
            proof {
                assert forall|a: int, b: int| 0 <= a < b < out@.len() implies (#[trigger] out@[a])@
                    != (#[trigger] out@[b])@ by {
                    assert(out@[a] == before[a]);
                    if b < before.len() {
                        assert(out@[b] == before[b]);
                    } else {
                        if before[a]@ == ids@[i as int]@ {
                            assert(id_set(before).contains(ids@[i as int]@));
                        }
                    }
                }
            }
        }
        proof {
            let t1 = ids@.take(i + 1);
            assert forall|s: Seq<char>| id_set(out@).contains(s) == id_set(t1).contains(s) by {
                if id_set(out@).contains(s) {
                    let k = choose|k: int| 0 <= k < out@.len() && (#[trigger] out@[k])@ == s;
                    if k < before.len() {
                        assert(out@[k] == before[k]);
                        assert(id_set(ids@.take(i as int)).contains(s));
                        let j = choose|j: int| 0 <= j < i && (#[trigger] ids@.take(i as int)[j])@ == s;
                        assert(t1[j] == ids@.take(i as int)[j]);
                    } else {
                        assert(t1[i as int]@ == s);
                    }
                }
                if id_set(t1).contains(s) {
                    let j = choose|j: int| 0 <= j < t1.len() && (#[trigger] t1[j])@ == s;
                    if j < i {
                        assert(ids@.take(i as int)[j] == t1[j]);
                        assert(id_set(ids@.take(i as int)).contains(s));
                        let k = choose|k: int| 0 <= k < before.len() && (#[trigger] before[k])@ == s;
                        assert(out@[k] == before[k]);
                    } else {
                        if present {
                            let k = choose|k: int| 0 <= k < before.len() && (#[trigger] before[k])@ == ids@[i as int]@;
                            assert(out@[k] == before[k]);
                        } else {
                            assert(out@[before.len() as int]@ == s);
                        }
                    }
                }
            }
            assert(id_set(out@) =~= id_set(t1));
        }
    }
    assert(ids@.take(n as int) =~= ids@);
    out
}

/// Whether `id` is among `v`.
pub fn contains_id(v: &Vec<String>, id: &String) -> (b: bool)
    ensures
        b == id_set(v@).contains(id@),
{
    let n = v.len();
    for i in 0..n
        invariant
            n == v@.len(),
            forall|k: int| 0 <= k < i ==> v@[k]@ != id@,
    {
        if v[i] == *id {
            assert(id_set(v@).contains(id@)) by {
                assert(v@[i as int]@ == id@);
            }
            return true;
        }
    }
    false
}

/// `v` without the entries equal to `id`, order kept.
pub fn without_id(v: &Vec<String>, id: &String) -> (r: Vec<String>)
    ensures
        id_set(r@) == id_set(v@).remove(id@),
        distinct_ids(r@),
{
    let mut out: Vec<String> = Vec::new();
    let ghost mut src: Seq<int> = Seq::empty();
    let n = v.len();
    for i in 0..n
        invariant
            n == v@.len(),
            out@.len() <= i,
            forall|k: int| 0 <= k < out@.len() ==> #[trigger] out@[k]@ != id@,
            src.len() == out@.len(),
            forall|k: int| 0 <= k < out@.len() ==> 0 <= #[trigger] src[k] < i && v@[src[k]]@ == out@[k]@,
            forall|j: int| 0 <= j < i && v@[j]@ != id@ ==> exists|k: int|
                0 <= k < out@.len() && (#[trigger] out@[k])@ == (#[trigger] v@[j])@,
    {
        if !(v[i] == *id) {
            let ghost before = out@;
            out.push(v[i].clone());
            proof {
                assert(out@[before.len() as int]@ == v@[i as int]@);
                let old_src = src;
                src = src.push(i as int);
                assert forall|k: int| 0 <= k < out@.len() implies 0 <= #[trigger] src[k] < i + 1
                    && v@[src[k]]@ == out@[k]@ by {
                    if k < before.len() {
                        assert(out@[k] == before[k]);
                        assert(src[k] == old_src[k]);
                    }
                }
                assert forall|j: int| 0 <= j < i + 1 && v@[j]@ != id@ implies exists|k: int|
                    0 <= k < out@.len() && (#[trigger] out@[k])@ == (#[trigger] v@[j])@ by {
                    if j < i {
                        let k = choose|k: int| 0 <= k < before.len() && before[k]@ == v@[j]@;
                        assert(out@[k] == before[k]);
                    } else {
                        assert(out@[before.len() as int]@ == v@[j]@);
                    }
                }
            }
        }
    }
    proof {
        assert forall|s: Seq<char>| id_set(out@).contains(s) == id_set(v@).remove(id@).contains(s) by {
            if id_set(out@).contains(s) {
                let k = choose|k: int| 0 <= k < out@.len() && (#[trigger] out@[k])@ == s;
                assert(v@[src[k]]@ == s);
            }
            if id_set(v@).remove(id@).contains(s) {
                let j = choose|j: int| 0 <= j < v@.len() && (#[trigger] v@[j])@ == s;
                let k = choose|k: int| 0 <= k < out@.len() && (#[trigger] out@[k])@ == (#[trigger] v@[j])@;
                assert(out@[k]@ == s);
            }
        }
        assert(id_set(out@) =~= id_set(v@).remove(id@));
    }
    distinct(out)
}

/// `s` with membership of `id` flipped.
pub open spec fn toggle_set(s: Set<Seq<char>>, id: Seq<char>) -> Set<Seq<char>> {
    if s.contains(id) {
        s.remove(id)
    } else {
        s.insert(id)
    }
}

/// Toggling the same id twice gives back the selection it started from.
pub proof fn lemma_toggle_twice(s: Set<Seq<char>>, id: Seq<char>)
    ensures
        toggle_set(toggle_set(s, id), id) == s,
{
    if s.contains(id) {
        assert(s.remove(id).insert(id) =~= s);
    } else {
        assert(s.insert(id).remove(id) =~= s);
    }
}

/// Flips membership of `id`: removes it when present, adds it otherwise.
pub fn toggle_id(v: &mut Vec<String>, id: &String)
    ensures
        id_set(final(v)@) == toggle_set(id_set(old(v)@), id@),
        id_set(old(v)@).contains(id@) ==> id_set(final(v)@) == id_set(old(v)@).remove(id@),
        !id_set(old(v)@).contains(id@) ==> id_set(final(v)@) == id_set(old(v)@).insert(id@),
        distinct_ids(old(v)@) ==> distinct_ids(final(v)@),
{
    if contains_id(v, id) {
        let r = without_id(v, id);
        *v = r;
    } else {
        let ghost before = v@;
        v.push(id.clone());
        proof {
            assert forall|s: Seq<char>| id_set(v@).contains(s) == id_set(before).insert(id@).contains(s) by {
                if id_set(v@).contains(s) {
                    let k = choose|k: int| 0 <= k < v@.len() && (#[trigger] v@[k])@ == s;
                    if k < before.len() {
                        assert(v@[k] == before[k]);
                    }
                }
                if id_set(before).contains(s) {
                    let k = choose|k: int| 0 <= k < before.len() && (#[trigger] before[k])@ == s;
                    assert(v@[k] == before[k]);
                }
                if s == id@ {
                    assert(v@[before.len() as int]@ == id@);
                }
            }
            assert(id_set(v@) =~= id_set(before).insert(id@));
            if distinct_ids(before) {
                assert forall|a: int, b: int| 0 <= a < b < v@.len() implies (#[trigger] v@[a])@
                    != (#[trigger] v@[b])@ by {
                    assert(v@[a] == before[a]);
                    if b < before.len() {
                        assert(v@[b] == before[b]);
                    } else {
                        assert(!id_set(before).contains(id@));
                        if before[a]@ == id@ {
                            assert(id_set(before).contains(id@));
                        }
                    }
                }
            }
        }
    }
}

/// The entries of `v` whose id is in `keep`, order kept.
pub fn retain_ids(v: &Vec<String>, keep: &Vec<String>) -> (r: Vec<String>)
    ensures
        id_set(r@) == id_set(v@).intersect(id_set(keep@)),
        distinct_ids(r@),
{
    let mut out: Vec<String> = Vec::new();
    let ghost mut src: Seq<int> = Seq::empty();
    let n = v.len();
    for i in 0..n
        invariant
            n == v@.len(),
            forall|k: int| 0 <= k < out@.len() ==> id_set(keep@).contains(#[trigger] out@[k]@),
            src.len() == out@.len(),
            forall|k: int| 0 <= k < out@.len() ==> 0 <= #[trigger] src[k] < i && v@[src[k]]@ == out@[k]@,
            forall|j: int| 0 <= j < i && id_set(keep@).contains(v@[j]@) ==> exists|k: int|
                0 <= k < out@.len() && (#[trigger] out@[k])@ == (#[trigger] v@[j])@,
    {
        if contains_id(keep, &v[i]) {
            let ghost before = out@;
            out.push(v[i].clone());
            proof {
                assert(out@[before.len() as int]@ == v@[i as int]@);
                assert forall|k: int| 0 <= k < out@.len() implies id_set(keep@).contains(
                    #[trigger] out@[k]@,
                ) by {
                    if k < before.len() {
                        assert(out@[k] == before[k]);
                    }
                }
                let old_src = src;
                src = src.push(i as int);
                assert forall|k: int| 0 <= k < out@.len() implies 0 <= #[trigger] src[k] < i + 1
                    && v@[src[k]]@ == out@[k]@ by {
                    if k < before.len() {
                        assert(out@[k] == before[k]);
                        assert(src[k] == old_src[k]);
                    }
                }
                assert forall|j: int|
                    0 <= j < i + 1 && id_set(keep@).contains(v@[j]@) implies exists|k: int|
                    0 <= k < out@.len() && (#[trigger] out@[k])@ == (#[trigger] v@[j])@ by {
                    if j < i {
                        let k = choose|k: int| 0 <= k < before.len() && before[k]@ == v@[j]@;
                        assert(out@[k] == before[k]);
                    } else {
                        assert(out@[before.len() as int]@ == v@[j]@);
                    }
                }
            }
        }
    }
    proof {
        assert forall|s: Seq<char>|
            id_set(out@).contains(s) == id_set(v@).intersect(id_set(keep@)).contains(s) by {
            if id_set(out@).contains(s) {
                let k = choose|k: int| 0 <= k < out@.len() && (#[trigger] out@[k])@ == s;
                assert(v@[src[k]]@ == s);
                assert(id_set(keep@).contains(out@[k]@));
            }
            if id_set(v@).intersect(id_set(keep@)).contains(s) {
                let j = choose|j: int| 0 <= j < v@.len() && (#[trigger] v@[j])@ == s;
                let k = choose|k: int| 0 <= k < out@.len() && (#[trigger] out@[k])@ == (#[trigger] v@[j])@;
                assert(out@[k]@ == s);
            }
        }
        assert(id_set(out@) =~= id_set(v@).intersect(id_set(keep@)));
    }
    distinct(out)
}

} // verus!
