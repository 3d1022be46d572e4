//! Grouping by a text key, groups in ascending key order: the grouped
//! search results (by source id) and the chapter lists (by language).
//!
//! Keys are compared character by character; since UTF-8 keeps the order of
//! code points, this is the order of `String`.
use vstd::prelude::*;
use crate::names::{names, name_seq};

verus! {

/// `a` comes before `b`: lexicographic order of characters, a proper prefix
/// first.
pub open spec fn text_lt(a: Seq<char>, b: Seq<char>) -> bool
    decreases a.len(),
{
    if a.len() == 0 {
        b.len() > 0
    } else if b.len() == 0 {
        false
    } else if a[0] != b[0] {
        a[0] < b[0]
    } else {
        text_lt(a.drop_first(), b.drop_first())
    }
}

/// No text comes before itself.
pub proof fn lemma_text_lt_irreflexive(a: Seq<char>)
    ensures
        !text_lt(a, a),
    decreases a.len(),
{
    if a.len() > 0 {
        lemma_text_lt_irreflexive(a.drop_first());
    }
}

/// Of two different texts one comes first.
pub proof fn lemma_text_lt_total(a: Seq<char>, b: Seq<char>)
    ensures
        a != b ==> text_lt(a, b) || text_lt(b, a),
        !(text_lt(a, b) && text_lt(b, a)),
    decreases a.len(),
{
    if a.len() > 0 && b.len() > 0 {
        lemma_text_lt_total(a.drop_first(), b.drop_first());
        if a[0] == b[0] && a.drop_first() == b.drop_first() {
            assert forall|i: int| 0 <= i < a.len() implies a[i] == b[i] by {
                if i > 0 {
                    assert(a[i] == a.drop_first()[i - 1]);
                    assert(b[i] == b.drop_first()[i - 1]);
                }
            }
            assert(a =~= b);
        }
    } else if a.len() == 0 && b.len() == 0 {
        assert(a =~= b);
    }
}

/// The order is transitive.
pub proof fn lemma_text_lt_transitive(a: Seq<char>, b: Seq<char>, c: Seq<char>)
    requires
        text_lt(a, b),
        text_lt(b, c),
    ensures
        text_lt(a, c),
    decreases a.len(),
{
    if a.len() > 0 && b.len() > 0 && c.len() > 0 && a[0] == b[0] && b[0] == c[0] {
        lemma_text_lt_transitive(a.drop_first(), b.drop_first(), c.drop_first());
    }
}

/// Comparing from a common prefix on gives the same answer.
proof fn lemma_text_lt_skip(a: Seq<char>, b: Seq<char>, i: int)
    requires
        0 <= i <= a.len(),
        i <= b.len(),
        a.take(i) == b.take(i),
    ensures
        text_lt(a, b) == text_lt(a.skip(i), b.skip(i)),
    decreases i,
{
    if i > 0 {
        assert(a[0] == a.take(i)[0]);
        assert(b[0] == b.take(i)[0]);
        assert(a.drop_first().take(i - 1) =~= a.take(i).drop_first());
        assert(b.drop_first().take(i - 1) =~= b.take(i).drop_first());
        lemma_text_lt_skip(a.drop_first(), b.drop_first(), i - 1);
        assert(a.drop_first().skip(i - 1) =~= a.skip(i));
        assert(b.drop_first().skip(i - 1) =~= b.skip(i));
    } else {
        assert(a.skip(0) =~= a);
        assert(b.skip(0) =~= b);
    }
}

/// Whether `a` comes before `b`.
pub fn text_less(a: &str, b: &str) -> (r: bool)
    ensures
        r == text_lt(a@, b@),
{
    let x = crate::text::to_chars(a);
    let y = crate::text::to_chars(b);
    let mut i: usize = 0;
    while i < x.len() && i < y.len() && x[i] == y[i]
        invariant
            0 <= i <= x.len(),
            i <= y.len(),
            x@ == a@,
            y@ == b@,
            x@.take(i as int) == y@.take(i as int),
        decreases x.len() - i,
    {
        assert(x@.take(i + 1) == x@.take(i as int).push(x@[i as int]));
        assert(y@.take(i + 1) == y@.take(i as int).push(y@[i as int]));
        i += 1;
    }
    proof {
        lemma_text_lt_skip(x@, y@, i as int);
    }
    if i == x.len() {
        i < y.len()
    } else if i == y.len() {
        false
    } else {
        assert(x@.skip(i as int)[0] == x@[i as int]);
        assert(y@.skip(i as int)[0] == y@[i as int]);
        x[i] < y[i]
    }
}

/// The positions, in order, whose key is `k`.
pub open spec fn positions_of(keys: Seq<Seq<char>>, k: Seq<char>) -> Seq<int>
    decreases keys.len(),
{
    if keys.len() == 0 {
        Seq::empty()
    } else {
        let prev = positions_of(keys.drop_last(), k);
        if keys.last() == k { prev.push(keys.len() - 1) } else { prev }
    }
}

/// Pushing a key adds it to the set of keys.
proof fn lemma_to_set_push(s: Seq<Seq<char>>, a: Seq<char>)
    ensures
        s.push(a).to_set() == s.to_set().insert(a),
{
    let t = s.push(a);
    assert forall|x: Seq<char>| t.to_set().contains(x) <==> s.to_set().insert(a).contains(x) by {
        if t.to_set().contains(x) {
            let j = choose|j: int| 0 <= j < t.len() && t[j] == x;
            if j < s.len() {
                assert(s[j] == x);
            }
        }
        if s.to_set().contains(x) {
            let j = choose|j: int| 0 <= j < s.len() && s[j] == x;
            assert(t[j] == x);
        }
        if x == a {
            assert(t[s.len() as int] == x);
        }
    }
    assert(t.to_set() =~= s.to_set().insert(a));
}

/// A group: a key and the positions that have it.
#[derive(Debug, Clone)]
pub struct Group {
    pub key: String,
    pub members: Vec<usize>,
}

/// The members of a group as integers.
pub open spec fn member_seq(g: Group) -> Seq<int> {
    g.members@.map_values(|i: usize| i as int)
}

/// Groups in strictly ascending key order.
pub open spec fn ascending(gs: Seq<Group>) -> bool {
    forall|i: int, j: int| 0 <= i < j < gs.len() ==> text_lt(#[trigger] gs[i].key@, #[trigger] gs[j].key@)
}

/// The keys of the groups.
pub open spec fn group_keys(gs: Seq<Group>) -> Set<Seq<char>> {
    gs.map_values(|g: Group| g.key@).to_set()
}

/// What a grouping of `keys` is: ascending groups, one per key that occurs,
/// each holding the positions of its key.
pub open spec fn groups_of(gs: Seq<Group>, keys: Seq<Seq<char>>) -> bool {
    &&& ascending(gs)
    &&& group_keys(gs) == keys.to_set()
    &&& forall|i: int| 0 <= i < gs.len() ==> member_seq(#[trigger] gs[i]) == positions_of(keys, gs[i].key@)
}

/// Adding position `n` to the existing group of its key keeps a grouping.
proof fn lemma_after_append(before: Seq<Group>, after: Seq<Group>, keys: Seq<Seq<char>>, n: int, p: int)
    requires
        0 <= n < keys.len(),
        groups_of(before, keys.take(n)),
        0 <= p < before.len(),
        before[p].key@ == keys[n],
        after.len() == before.len(),
        forall|i: int| 0 <= i < after.len() && i != p ==> after[i] == before[i],
        after[p].key == before[p].key,
        member_seq(after[p]) == member_seq(before[p]).push(n),
    ensures
        groups_of(after, keys.take(n + 1)),
{
    let t = keys.take(n);
    let t1 = keys.take(n + 1);
    let k = keys[n];
    assert(t1 =~= t.push(keys[n]));
    assert(t1.drop_last() == t);
    lemma_to_set_push(t, keys[n]);
    assert forall|i: int| 0 <= i < after.len() implies member_seq(#[trigger] after[i]) == positions_of(t1, after[i].key@) by {
        if i != p {
            assert(member_seq(before[i]) == positions_of(t, before[i].key@));
            if before[i].key@ == k {
                if i < p {
                    assert(text_lt(before[i].key@, before[p].key@));
                } else {
                    assert(text_lt(before[p].key@, before[i].key@));
                }
                lemma_text_lt_irreflexive(k);
            }
        }
    }
    assert(after.map_values(|g: Group| g.key@) =~= before.map_values(|g: Group| g.key@));
    assert(t.to_set().contains(k)) by {
        assert(before.map_values(|g: Group| g.key@)[p] == k);
    }
    assert(t1.to_set() =~= t.to_set());
    assert forall|i: int, j: int| 0 <= i < j < after.len() implies text_lt(#[trigger] after[i].key@, #[trigger] after[j].key@) by {
        assert(after[i].key@ == before[i].key@);
        assert(after[j].key@ == before[j].key@);
    }
}

/// A new group for the key of position `n`, inserted at its place in key
/// order, keeps a grouping.
proof fn lemma_after_insert(before: Seq<Group>, keys: Seq<Seq<char>>, n: int, p: int, g: Group)
    requires
        0 <= n < keys.len(),
        groups_of(before, keys.take(n)),
        0 <= p <= before.len(),
        forall|i: int| 0 <= i < p ==> text_lt(#[trigger] before[i].key@, keys[n]),
        p < before.len() ==> before[p].key@ != keys[n] && !text_lt(before[p].key@, keys[n]),
        g.key@ == keys[n],
        member_seq(g) == seq![n],
    ensures
        groups_of(before.insert(p, g), keys.take(n + 1)),
{
    let after = before.insert(p, g);
    let t = keys.take(n);
    let t1 = keys.take(n + 1);
    let k = keys[n];
    let kb = before.map_values(|x: Group| x.key@);
    let ks = after.map_values(|x: Group| x.key@);
    assert(t1 =~= t.push(keys[n]));
    assert(t1.drop_last() == t);
    lemma_to_set_push(t, keys[n]);
    if p < before.len() {
        lemma_text_lt_total(before[p].key@, k);
    }
    assert(!t.to_set().contains(k)) by {
        if t.to_set().contains(k) {
            assert(group_keys(before).contains(k));
            let q = choose|q: int| 0 <= q < kb.len() && #[trigger] kb[q] == k;
            assert(before[q].key@ == k);
            if q < p {
                lemma_text_lt_irreflexive(k);
            } else if q > p {
                assert(text_lt(before[p].key@, before[q].key@));
                lemma_text_lt_total(before[p].key@, k);
            }
        }
    }
    lemma_positions_absent(t, k);
    assert forall|i: int| 0 <= i < after.len() implies member_seq(#[trigger] after[i]) == positions_of(t1, after[i].key@) by {
        if i < p {
            assert(after[i] == before[i]);
            lemma_text_lt_irreflexive(k);
            assert(member_seq(before[i]) == positions_of(t, before[i].key@));
        } else if i > p {
            assert(after[i] == before[i - 1]);
            assert(kb[i - 1] == before[i - 1].key@);
            assert(member_seq(before[i - 1]) == positions_of(t, before[i - 1].key@));
        } else {
            assert(positions_of(t1, k) =~= seq![n]);
        }
    }
    assert forall|i: int, j: int| 0 <= i < j < after.len() implies text_lt(#[trigger] after[i].key@, #[trigger] after[j].key@) by {
        if j < p {
            assert(after[i] == before[i] && after[j] == before[j]);
        } else if j == p {
            assert(after[i] == before[i]);
        } else if i == p {
            assert(after[j] == before[j - 1]);
            if j - 1 > p {
                assert(text_lt(before[p].key@, before[j - 1].key@));
                lemma_text_lt_transitive(k, before[p].key@, before[j - 1].key@);
            }
        } else if i < p {
            assert(after[i] == before[i] && after[j] == before[j - 1]);
            if j - 1 > p {
                assert(text_lt(before[p].key@, before[j - 1].key@));
                lemma_text_lt_transitive(k, before[p].key@, before[j - 1].key@);
            }
            lemma_text_lt_transitive(before[i].key@, k, before[j - 1].key@);
        } else {
            assert(after[i] == before[i - 1] && after[j] == before[j - 1]);
        }
    }
    assert forall|x: Seq<char>| ks.to_set().contains(x) <==> kb.to_set().insert(k).contains(x) by {
        if ks.to_set().contains(x) {
            let q = choose|q: int| 0 <= q < ks.len() && ks[q] == x;
            if q < p {
                assert(kb[q] == x);
            } else if q > p {
                assert(kb[q - 1] == x);
            }
        }
        if kb.to_set().contains(x) {
            let q = choose|q: int| 0 <= q < kb.len() && kb[q] == x;
            if q < p {
                assert(ks[q] == x);
            } else {
                assert(ks[q + 1] == x);
            }
        }
        if x == k {
            assert(ks[p] == x);
        }
    }
    assert(group_keys(after) =~= t1.to_set());
}

/// Groups the positions of `keys` by key, groups in ascending key order (as
/// a `BTreeMap` keyed by the key orders them).
pub fn group_by_key(keys: &Vec<String>) -> (r: Vec<Group>)
    ensures
        groups_of(r@, name_seq(keys@)),
{
    let ghost ks = name_seq(keys@);
    let mut gs: Vec<Group> = Vec::new();
    let mut n: usize = 0;
    proof {
        assert(ks.take(0) =~= Seq::<Seq<char>>::empty());
        assert(group_keys(gs@) =~= ks.take(0).to_set());
    }
    while n < keys.len()
        invariant
            0 <= n <= keys.len(),
            ks == name_seq(keys@),
            groups_of(gs@, ks.take(n as int)),
        decreases keys.len() - n,
    {
        let ghost before = gs@;
        let k = keys[n].as_str();
        let mut p: usize = 0;
        while p < gs.len() && text_less(gs[p].key.as_str(), k)
            invariant
                gs@ == before,
                0 <= p <= gs.len(),
                k@ == ks[n as int],
                forall|i: int| 0 <= i < p ==> text_lt(#[trigger] gs@[i].key@, k@),
            decreases gs.len() - p,
        {
            p += 1;
        }
        if p < gs.len() && crate::text::str_eq(gs[p].key.as_str(), k) {
            let mut g = gs.remove(p);
            let ghost old_members = member_seq(g);
            g.members.push(n);
            assert(member_seq(g) =~= old_members.push(n as int));
            gs.insert(p, g);
            proof {
                lemma_after_append(before, gs@, ks, n as int, p as int);
            }
        } else {
            let mut members: Vec<usize> = Vec::new();
            members.push(n);
            let g = Group { key: keys[n].clone(), members };
            assert(member_seq(g) =~= seq![n as int]);
            proof {
                lemma_after_insert(before, ks, n as int, p as int, g);
            }
            gs.insert(p, g);
        }
        n += 1;
    }
    proof {
        assert(ks.take(keys.len() as int) == ks);
    }
    gs
}

/// A key that does not occur has no positions.
proof fn lemma_positions_absent(keys: Seq<Seq<char>>, k: Seq<char>)
    requires
        !keys.to_set().contains(k),
    ensures
        positions_of(keys, k) == Seq::<int>::empty(),
    decreases keys.len(),
{
    if keys.len() > 0 {
        let d = keys.drop_last();
        lemma_to_set_push(d, keys.last());
        assert(keys == d.push(keys.last()));
        lemma_positions_absent(d, k);
    }
}

} // verus!
