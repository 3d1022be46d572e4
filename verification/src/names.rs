//! Sets of names and small tables keyed by name, kept in vectors: the
//! screens hold a handful of source ids, so a linear scan is all they need.
use vstd::prelude::*;

verus! {

/// The names held in a list, as character sequences, in order.
pub open spec fn name_seq(v: Seq<String>) -> Seq<Seq<char>> {
    v.map_values(|s: String| s@)
}

/// The set of names held in a list.
pub open spec fn names(v: Seq<String>) -> Set<Seq<char>> {
    name_seq(v).to_set()
}

/// No name occurs twice in the list (so its length is the size of the set).
pub open spec fn distinct(v: Seq<String>) -> bool {
    name_seq(v).no_duplicates()
}

/// Whether `k` is one of the names in `v`.
pub fn has_name(v: &Vec<String>, k: &str) -> (r: bool)
    ensures
        r == names(v@).contains(k@),
{
    let mut i: usize = 0;
    while i < v.len()
        invariant
            0 <= i <= v.len(),
            forall|j: int| 0 <= j < i ==> v@[j]@ != k@,
        decreases v.len() - i,
    {
        if crate::text::str_eq(v[i].as_str(), k) {
            assert(name_seq(v@)[i as int] == k@);
            return true;
        }
        i += 1;
    }
    assert forall|j: int| 0 <= j < name_seq(v@).len() implies name_seq(v@)[j] != k@ by {
        assert(v@[j]@ != k@);
    }
    false
}

/// Adds `k` at the end of `v` unless it is there already.
pub fn add_name(v: &mut Vec<String>, k: String)
    requires
        distinct(old(v)@),
    ensures
        distinct(final(v)@),
        names(final(v)@) == names(old(v)@).insert(k@),
        names(old(v)@).contains(k@) ==> final(v)@ == old(v)@,
        !names(old(v)@).contains(k@) ==> final(v)@ == old(v)@.push(k),
{
    if !has_name(v, k.as_str()) {
        let ghost before = v@;
        v.push(k);
        proof {
            assert(name_seq(v@) == name_seq(before).push(k@));
            assert(names(v@) == names(before).insert(k@)) by {
                assert forall|x: Seq<char>| names(v@).contains(x) <==> names(before).insert(k@).contains(x) by {
                    if names(v@).contains(x) {
                        let j = choose|j: int| 0 <= j < name_seq(v@).len() && name_seq(v@)[j] == x;
                        if j < before.len() {
                            assert(name_seq(before)[j] == x);
                        }
                    }
                    if names(before).contains(x) {
                        let j = choose|j: int| 0 <= j < name_seq(before).len() && name_seq(before)[j] == x;
                        assert(name_seq(v@)[j] == x);
                    }
                    if x == k@ {
                        assert(name_seq(v@)[before.len() as int] == x);
                    }
                }
            }
            assert forall|i: int, j: int| 0 <= i < name_seq(v@).len() && 0 <= j < name_seq(v@).len() && i != j
                implies name_seq(v@)[i] != name_seq(v@)[j] by {
                if i < before.len() && j < before.len() {
                } else if i < before.len() {
                    assert(name_seq(before).contains(name_seq(v@)[i]));
                } else {
                    assert(name_seq(before).contains(name_seq(v@)[j]));
                }
            }
        }
    } else {
        proof {
            assert(names(v@).insert(k@) == names(v@));
        }
    }
}

/// Removes `k` from `v`, keeping the order of the other names.
pub fn remove_name(v: &mut Vec<String>, k: &str)
    requires
        distinct(old(v)@),
    ensures
        distinct(final(v)@),
        names(final(v)@) == names(old(v)@).remove(k@),
{
    let ghost before = v@;
    let mut kept: Vec<String> = Vec::new();
    let mut i: usize = 0;
    while i < v.len()
        invariant
            v@ == before,
            distinct(before),
            0 <= i <= v.len(),
            distinct(kept@),
            names(kept@) == names(before.take(i as int)).remove(k@),
        decreases v.len() - i,
    {
        let ghost prev = kept@;
        if !crate::text::str_eq(v[i].as_str(), k) {
            kept.push(v[i].clone());
        }
        i += 1;
        proof {
            let t = before.take(i - 1);
            let t1 = before.take(i as int);
            assert(t1 == t.push(before[i - 1]));
            assert(name_seq(t1) == name_seq(t).push(before[i - 1]@));
            assert(names(prev) == names(t).remove(k@));
            assert forall|x: Seq<char>| names(kept@).contains(x)
                <==> (x != k@ && names(t1).contains(x)) by {
                if names(kept@).contains(x) {
                    let j = choose|j: int| 0 <= j < name_seq(kept@).len() && name_seq(kept@)[j] == x;
                    if j < prev.len() {
                        assert(name_seq(prev)[j] == x);
                        assert(names(prev).contains(x));
                        assert(names(t).remove(k@).contains(x));
                        let m = choose|m: int| 0 <= m < name_seq(t).len() && name_seq(t)[m] == x;
                        assert(name_seq(t1)[m] == x);
                    } else {
                        assert(name_seq(t1)[i - 1] == x);
                    }
                }
                if x != k@ && names(t1).contains(x) {
                    let m = choose|m: int| 0 <= m < name_seq(t1).len() && name_seq(t1)[m] == x;
                    if m < i - 1 {
                        assert(name_seq(t)[m] == x);
                        assert(names(t).remove(k@).contains(x));
                        assert(names(prev).contains(x));
                        let j = choose|j: int| 0 <= j < name_seq(prev).len() && name_seq(prev)[j] == x;
                        assert(name_seq(kept@)[j] == x);
                    } else {
                        assert(name_seq(kept@)[prev.len() as int] == x);
                    }
                }
            }
            assert(names(kept@) =~= names(t1).remove(k@));
            if kept@.len() > prev.len() {
                assert(name_seq(kept@) == name_seq(prev).push(before[i - 1]@));
                assert(!names(prev).contains(before[i - 1]@)) by {
                    if names(prev).contains(before[i - 1]@) {
                        let m = choose|m: int| 0 <= m < name_seq(t).len() && name_seq(t)[m] == before[i - 1]@;
                        assert(name_seq(before)[m] == name_seq(before)[i - 1]);
                    }
                }
                assert forall|a: int, b: int| 0 <= a < name_seq(kept@).len() && 0 <= b < name_seq(kept@).len() && a != b
                    implies name_seq(kept@)[a] != name_seq(kept@)[b] by {
                    if a < prev.len() && b < prev.len() {
                    } else if a < prev.len() {
                        assert(names(prev).contains(name_seq(kept@)[a]));
                    } else {
                        assert(names(prev).contains(name_seq(kept@)[b]));
                    }
                }
            }
        }
    }
    proof {
        assert(before.take(before.len() as int) == before);
        assert(names(kept@) == names(before).remove(k@));
    }
    *v = kept;
}

/// Pushing an element adds its image to the set of images.
pub proof fn lemma_map_set_push<A, B>(s: Seq<A>, a: A, f: spec_fn(A) -> B)
    ensures
        s.push(a).map_values(f).to_set() == s.map_values(f).to_set().insert(f(a)),
{
    let t = s.push(a);
    assert(t.map_values(f) == s.map_values(f).push(f(a)));
    assert forall|x: B| #[trigger] t.map_values(f).to_set().contains(x)
        <==> s.map_values(f).to_set().insert(f(a)).contains(x) by {
        if t.map_values(f).to_set().contains(x) {
            let j = choose|j: int| 0 <= j < t.map_values(f).len() && t.map_values(f)[j] == x;
            if j < s.len() {
                assert(s.map_values(f)[j] == x);
            }
        }
        if s.map_values(f).to_set().contains(x) {
            let j = choose|j: int| 0 <= j < s.map_values(f).len() && s.map_values(f)[j] == x;
            assert(t.map_values(f)[j] == x);
        }
        if x == f(a) {
            assert(t.map_values(f)[s.len() as int] == x);
        }
    }
    assert(t.map_values(f).to_set() =~= s.map_values(f).to_set().insert(f(a)));
}

/// Pushing a name adds it to the set of names.
pub proof fn lemma_names_push(v: Seq<String>, k: String)
    ensures
        names(v.push(k)) == names(v).insert(k@),
{
    let f = |s: String| s@;
    lemma_map_set_push(v, k, f);
    assert(name_seq(v) =~= v.map_values(f));
    assert(name_seq(v.push(k)) =~= v.push(k).map_values(f));
}

/// A list without repeats is as long as its set of names.
pub proof fn lemma_distinct_len(v: Seq<String>)
    requires
        distinct(v),
    ensures
        v.len() == names(v).len(),
        names(v).finite(),
{
    name_seq(v).unique_seq_to_set();
    vstd::seq_lib::seq_to_set_is_finite(name_seq(v));
}

/// The value stored under `k` in a table of `(name, value)` rows: the last
/// row with that name wins.
pub open spec fn lookup<V>(t: Seq<(String, V)>, k: Seq<char>) -> Option<V>
    decreases t.len(),
{
    if t.len() == 0 {
        None
    } else if t.last().0@ == k {
        Some(t.last().1)
    } else {
        lookup(t.drop_last(), k)
    }
}

/// The value stored under `k`, if any.
pub fn get_entry<V: Copy>(t: &Vec<(String, V)>, k: &str) -> (r: Option<V>)
    ensures
        r == lookup(t@, k@),
{
    let mut i: usize = t.len();
    assert(t@.take(i as int) == t@);
    while i > 0
        invariant
            0 <= i <= t.len(),
            lookup(t@, k@) == lookup(t@.take(i as int), k@),
        decreases i,
    {
        assert(t@.take(i as int).drop_last() == t@.take(i - 1));
        if crate::text::str_eq(t[i - 1].0.as_str(), k) {
            return Some(t[i - 1].1);
        }
        i -= 1;
    }
    None
}

/// Stores `v` under `k`, replacing what was stored there.
pub fn set_entry<V: Copy>(t: &mut Vec<(String, V)>, k: String, v: V)
    ensures
        lookup(final(t)@, k@) == Some(v),
        forall|x: Seq<char>| x != k@ ==> lookup(final(t)@, x) == lookup(old(t)@, x),
{
    let ghost before = t@;
    let mut kept: Vec<(String, V)> = Vec::new();
    let mut i: usize = 0;
    while i < t.len()
        invariant
            t@ == before,
            0 <= i <= t.len(),
            lookup(kept@, k@) is None,
            forall|x: Seq<char>| x != k@ ==> #[trigger] lookup(kept@, x) == lookup(before.take(i as int), x),
        decreases t.len() - i,
    {
        let ghost prev = kept@;
        if !crate::text::str_eq(t[i].0.as_str(), k.as_str()) {
            let row = (t[i].0.clone(), t[i].1);
            kept.push(row);
            assert(kept@.drop_last() == prev);
        }
        assert(before.take(i + 1).drop_last() == before.take(i as int));
        assert forall|x: Seq<char>| x != k@ implies #[trigger] lookup(kept@, x) == lookup(before.take(i + 1), x) by {
            assert(lookup(prev, x) == lookup(before.take(i as int), x));
        }
        i += 1;
    }
    assert(before.take(before.len() as int) == before);
    let ghost last = kept@;
    kept.push((k, v));
    assert(kept@.drop_last() == last);
    assert forall|x: Seq<char>| x != k@ implies lookup(kept@, x) == lookup(before, x) by {
        assert(lookup(last, x) == lookup(before, x));
    }
    *t = kept;
}

} // verus!
