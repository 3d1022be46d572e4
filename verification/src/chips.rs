//! The language row of the source panel: one chip per language of the
//! enabled sources, with how many of them it has, the most common first.
use vstd::prelude::*;
use crate::language::{key, label_for_key, spec_key, spec_label_for_key};
use crate::models::{opt_str, opt_text, Source};
use crate::names::{has_name, names};
use crate::text::{lemma_lex_total, lemma_lex_trans, lex_le, str_eq, str_le};

verus! {

/// A chip of the language row: a language key, its Spanish name and how many
/// enabled sources have that language.
#[derive(Debug, Clone, Copy, PartialEq, Eq)]
pub struct LanguageChip {
    pub key: &'static str,
    pub label: &'static str,
    pub count: usize,
}

/// A source the user has not disabled.
pub open spec fn source_enabled(s: Source, disabled: Set<Seq<char>>) -> bool {
    !disabled.contains(s.id@)
}

/// The language key of a source.
pub open spec fn source_key(s: Source) -> Seq<char> {
    spec_key(opt_text(s.language))
}

/// How many enabled sources of `sources` have the language key `k`.
pub open spec fn key_count(sources: Seq<Source>, disabled: Set<Seq<char>>, k: Seq<char>) -> nat
    decreases sources.len(),
{
    if sources.len() == 0 {
        0
    } else {
        let s = sources.last();
        key_count(sources.drop_last(), disabled, k) + if source_enabled(s, disabled) && source_key(s) == k {
            1nat
        } else {
            0nat
        }
    }
}

/// The keys of a row of chips.
pub open spec fn chip_keys(v: Seq<LanguageChip>) -> Seq<Seq<char>> {
    v.map_values(|c: LanguageChip| c.key@)
}

/// A chip tells the truth about `sources`: its count is the number of
/// enabled sources with its key, and its label is the key's name.
pub open spec fn chip_ok(c: LanguageChip, sources: Seq<Source>, disabled: Set<Seq<char>>) -> bool {
    c.count == key_count(sources, disabled, c.key@) && c.label@ == spec_label_for_key(c.key@)
}

/// `r` holds one true chip for each language of the enabled sources, and no
/// other chip.
pub open spec fn chips_of(r: Seq<LanguageChip>, sources: Seq<Source>, disabled: Set<Seq<char>>) -> bool {
    &&& chip_keys(r).no_duplicates()
    &&& forall|i: int| 0 <= i < r.len() ==> chip_ok(#[trigger] r[i], sources, disabled)
    &&& forall|k: Seq<char>| #[trigger] key_count(sources, disabled, k) > 0 <==> chip_keys(r).contains(k)
}

/// The order of the row: more sources first, then by name.
pub open spec fn chip_before(a: LanguageChip, b: LanguageChip) -> bool {
    a.count > b.count || (a.count == b.count && lex_le(a.label@, b.label@))
}

proof fn lemma_key_count_le(sources: Seq<Source>, disabled: Set<Seq<char>>, k: Seq<char>)
    ensures
        key_count(sources, disabled, k) <= sources.len(),
    decreases sources.len(),
{
    if sources.len() > 0 {
        lemma_key_count_le(sources.drop_last(), disabled, k);
    }
}

proof fn lemma_before_total(a: LanguageChip, b: LanguageChip)
    ensures
        chip_before(a, b) || chip_before(b, a),
{
    lemma_lex_total(a.label@, b.label@);
}

proof fn lemma_before_trans(a: LanguageChip, b: LanguageChip, c: LanguageChip)
    requires
        chip_before(a, b),
        chip_before(b, c),
    ensures
        chip_before(a, c),
{
    if a.count == b.count && b.count == c.count {
        lemma_lex_trans(a.label@, b.label@, c.label@);
    }
}

/// The chips of the enabled sources, in the order the sources come (the
/// first source of a language places its chip).
fn count_chips(sources: &Vec<Source>, disabled: &Vec<String>) -> (r: Vec<LanguageChip>)
    ensures
        chips_of(r@, sources@, names(disabled@)),
{
    let ghost dis = names(disabled@);
    let mut chips: Vec<LanguageChip> = Vec::new();
    let mut i: usize = 0;
    assert forall|k: Seq<char>| #[trigger] key_count(sources@.take(0), dis, k) > 0 <==> chip_keys(chips@).contains(k) by {
        assert(sources@.take(0).len() == 0);
    }
    while i < sources.len()
        invariant
            0 <= i <= sources.len(),
            dis == names(disabled@),
            chips_of(chips@, sources@.take(i as int), dis),
        decreases sources.len() - i,
    {
        let ghost before = sources@.take(i as int);
        let ghost after = sources@.take(i + 1);
        let ghost old_chips = chips@;
        let s = &sources[i];
        assert(after.drop_last() =~= before);
        assert(after.last() == *s);
        if has_name(disabled, s.id.as_str()) {
            assert forall|k: Seq<char>| key_count(after, dis, k) == #[trigger] key_count(before, dis, k) by {}
            assert forall|j: int| 0 <= j < chips@.len() implies chip_ok(#[trigger] chips@[j], after, dis) by {
                assert(key_count(after, dis, chips@[j].key@) == key_count(before, dis, chips@[j].key@));
            }
            assert forall|k: Seq<char>| #[trigger] key_count(after, dis, k) > 0 <==> chip_keys(chips@).contains(k) by {
                assert(key_count(after, dis, k) == key_count(before, dis, k));
            }
        } else {
            let k0 = key(opt_str(&s.language));
            assert(k0@ == source_key(*s));
            let mut j: usize = 0;
            while j < chips.len() && !str_eq(chips[j].key, k0)
                invariant
                    0 <= j <= chips.len(),
                    chips@ == old_chips,
                    forall|t: int| 0 <= t < j ==> (#[trigger] chips@[t]).key@ != k0@,
                decreases chips.len() - j,
            {
                j += 1;
            }
            assert forall|k: Seq<char>| k != k0@ implies key_count(after, dis, k) == #[trigger] key_count(before, dis, k) by {}
            assert(key_count(after, dis, k0@) == key_count(before, dis, k0@) + 1);
            proof {
                lemma_key_count_le(before, dis, k0@);
            }
            if j < chips.len() {
                let c = chips[j];
                assert(chip_keys(old_chips)[j as int] == c.key@);
                assert(chip_ok(c, before, dis));
                chips.set(j, LanguageChip { key: c.key, label: c.label, count: c.count + 1 });
                assert(chip_keys(chips@) =~= chip_keys(old_chips));
                assert forall|t: int| 0 <= t < chips@.len() implies chip_ok(#[trigger] chips@[t], after, dis) by {
                    if t != j as int {
                        assert(chips@[t] == old_chips[t]);
                        assert(chip_ok(old_chips[t], before, dis));
                        assert(chip_keys(old_chips)[t] != chip_keys(old_chips)[j as int]);
                    }
                }
                assert forall|k: Seq<char>| #[trigger] key_count(after, dis, k) > 0 <==> chip_keys(chips@).contains(k) by {
                    if k != k0@ {
                        assert(key_count(after, dis, k) == key_count(before, dis, k));
                    } else {
                        assert(chip_keys(chips@)[j as int] == k);
                    }
                }
            } else {
                assert(!chip_keys(old_chips).contains(k0@)) by {
                    if chip_keys(old_chips).contains(k0@) {
                        let t = choose|t: int| 0 <= t < chip_keys(old_chips).len() && chip_keys(old_chips)[t] == k0@;
                        assert(old_chips[t].key@ == k0@);
                    }
                }
                assert(key_count(before, dis, k0@) == 0);
                let label = label_for_key(k0);
                chips.push(LanguageChip { key: k0, label, count: 1 });
                assert(chip_keys(chips@) =~= chip_keys(old_chips).push(k0@));
                assert forall|t: int| 0 <= t < chips@.len() implies chip_ok(#[trigger] chips@[t], after, dis) by {
                    if t < old_chips.len() {
                        assert(chips@[t] == old_chips[t]);
                        assert(chip_ok(old_chips[t], before, dis));
                        assert(chip_keys(old_chips)[t] == old_chips[t].key@);
                        assert(old_chips[t].key@ != k0@);
                    }
                }
                assert forall|k: Seq<char>| #[trigger] key_count(after, dis, k) > 0 <==> chip_keys(chips@).contains(k) by {
                    if k != k0@ {
                        assert(key_count(after, dis, k) == key_count(before, dis, k));
                        if chip_keys(chips@).contains(k) {
                            let t = choose|t: int| 0 <= t < chip_keys(chips@).len() && chip_keys(chips@)[t] == k;
                            assert(t < old_chips.len());
                            assert(chip_keys(old_chips)[t] == k);
                        }
                        if chip_keys(old_chips).contains(k) {
                            let t = choose|t: int| 0 <= t < chip_keys(old_chips).len() && chip_keys(old_chips)[t] == k;
                            assert(chip_keys(chips@)[t] == k);
                        }
                    } else {
                        assert(chip_keys(chips@)[old_chips.len() as int] == k);
                    }
                }
            }
        }
        i += 1;
    }
    assert(sources@.take(sources.len() as int) =~= sources@);
    chips
}

/// The language row of the source panel: one chip per language of the
/// enabled sources (see `chips_of`), the languages with more sources first
/// and, among those with as many, in order of name.
pub fn language_chips(sources: &Vec<Source>, disabled: &Vec<String>) -> (r: Vec<LanguageChip>)
    ensures
        chips_of(r@, sources@, names(disabled@)),
        forall|i: int, j: int| 0 <= i < j < r.len() ==> chip_before(#[trigger] r[i], #[trigger] r[j]),
{
    let ghost dis = names(disabled@);
    let mut rem = count_chips(sources, disabled);
    let mut out: Vec<LanguageChip> = Vec::new();
    assert forall|k: Seq<char>| #[trigger] key_count(sources@, dis, k) > 0 <==> (chip_keys(out@).contains(k)
        || chip_keys(rem@).contains(k)) by {
        if chip_keys(out@).contains(k) {
            let t = choose|t: int| 0 <= t < chip_keys(out@).len() && chip_keys(out@)[t] == k;
            assert(out@.len() == 0);
        }
    }
    while rem.len() > 0
        invariant
            dis == names(disabled@),
            chip_keys(out@).no_duplicates(),
            chip_keys(rem@).no_duplicates(),
            forall|a: int, b: int| 0 <= a < out.len() && 0 <= b < rem.len() ==> (#[trigger] out@[a]).key@
                != (#[trigger] rem@[b]).key@,
            forall|t: int| 0 <= t < out.len() ==> chip_ok(#[trigger] out@[t], sources@, dis),
            forall|t: int| 0 <= t < rem.len() ==> chip_ok(#[trigger] rem@[t], sources@, dis),
            forall|k: Seq<char>| #[trigger] key_count(sources@, dis, k) > 0 <==> (chip_keys(out@).contains(k)
                || chip_keys(rem@).contains(k)),
            forall|a: int, b: int| 0 <= a < b < out.len() ==> chip_before(#[trigger] out@[a], #[trigger] out@[b]),
            forall|a: int, b: int| 0 <= a < out.len() && 0 <= b < rem.len() ==> chip_before(
                #[trigger] out@[a],
                #[trigger] rem@[b],
            ),
        decreases rem.len(),
    {
        let mut b: usize = 0;
        let mut t: usize = 1;
        proof {
            lemma_before_total(rem@[0], rem@[0]);
        }
        while t < rem.len()
            invariant
                0 <= b < t <= rem.len(),
                forall|u: int| 0 <= u < t ==> chip_before(rem@[b as int], #[trigger] rem@[u]),
            decreases rem.len() - t,
        {
            let x = rem[t];
            let y = rem[b];
            if !(y.count > x.count || (y.count == x.count && str_le(y.label, x.label))) {
                proof {
                    lemma_before_total(x, y);
                    assert forall|u: int| 0 <= u < t + 1 implies chip_before(x, #[trigger] rem@[u]) by {
                        if u < t {
                            lemma_before_trans(x, y, rem@[u]);
                        } else {
                            lemma_before_total(x, x);
                        }
                    }
                }
                b = t;
            }
            t += 1;
        }
        let ghost old_out = out@;
        let ghost old_rem = rem@;
        let best = rem.remove(b);
        out.push(best);
        proof {
            assert(best == old_rem[b as int]);
            assert(rem@ =~= old_rem.remove(b as int));
            assert forall|u: int| 0 <= u < rem@.len() implies #[trigger] rem@[u] == old_rem[if u < b { u } else { u + 1 }] by {}
            assert(chip_keys(out@) =~= chip_keys(old_out).push(best.key@));
            assert(chip_keys(out@).no_duplicates()) by {
                assert forall|a: int, c: int| 0 <= a < c < out@.len() implies chip_keys(out@)[a] != chip_keys(out@)[c] by {
                    if c == old_out.len() {
                        assert(old_out[a].key@ != old_rem[b as int].key@);
                    } else {
                        assert(chip_keys(old_out)[a] != chip_keys(old_out)[c]);
                    }
                }
            }
            assert(chip_keys(rem@).no_duplicates()) by {
                assert forall|a: int, c: int| 0 <= a < c < rem@.len() implies chip_keys(rem@)[a] != chip_keys(rem@)[c] by {
                    let a2 = if a < b { a } else { a + 1 };
                    let c2 = if c < b { c } else { c + 1 };
                    assert(rem@[a] == old_rem[a2] && rem@[c] == old_rem[c2]);
                    assert(chip_keys(old_rem)[a2] != chip_keys(old_rem)[c2]);
                }
            }
            assert forall|a: int, c: int| 0 <= a < out.len() && 0 <= c < rem.len() implies (#[trigger] out@[a]).key@
                != (#[trigger] rem@[c]).key@ by {
                let c2 = if c < b { c } else { c + 1 };
                assert(rem@[c] == old_rem[c2]);
                if a == old_out.len() {
                    assert(chip_keys(old_rem)[b as int] != chip_keys(old_rem)[c2]);
                } else {
                    assert(old_out[a].key@ != old_rem[c2].key@);
                }
            }
            assert forall|a: int| 0 <= a < out.len() implies chip_ok(#[trigger] out@[a], sources@, dis) by {
                if a < old_out.len() {
                    assert(out@[a] == old_out[a]);
                }
            }
            assert forall|c: int| 0 <= c < rem.len() implies chip_ok(#[trigger] rem@[c], sources@, dis) by {
                let c2 = if c < b { c } else { c + 1 };
                assert(rem@[c] == old_rem[c2]);
            }
            assert forall|k: Seq<char>| #[trigger] key_count(sources@, dis, k) > 0 <==> (chip_keys(out@).contains(k)
                || chip_keys(rem@).contains(k)) by {
                if chip_keys(old_out).contains(k) {
                    let a = choose|a: int| 0 <= a < chip_keys(old_out).len() && chip_keys(old_out)[a] == k;
                    assert(chip_keys(out@)[a] == k);
                }
                if chip_keys(old_rem).contains(k) {
                    let c = choose|c: int| 0 <= c < chip_keys(old_rem).len() && chip_keys(old_rem)[c] == k;
                    if c == b as int {
                        assert(chip_keys(out@)[old_out.len() as int] == k);
                    } else {
                        let c1 = if c < b { c } else { c - 1 };
                        assert(rem@[c1] == old_rem[c]);
                        assert(chip_keys(rem@)[c1] == k);
                    }
                }
                if chip_keys(out@).contains(k) {
                    let a = choose|a: int| 0 <= a < chip_keys(out@).len() && chip_keys(out@)[a] == k;
                    if a < old_out.len() {
                        assert(chip_keys(old_out)[a] == k);
                    } else {
                        assert(chip_keys(old_rem)[b as int] == k);
                    }
                }
                if chip_keys(rem@).contains(k) {
                    let c = choose|c: int| 0 <= c < chip_keys(rem@).len() && chip_keys(rem@)[c] == k;
                    let c2 = if c < b { c } else { c + 1 };
                    assert(rem@[c] == old_rem[c2]);
                    assert(chip_keys(old_rem)[c2] == k);
                }
            }
            assert forall|a: int, c: int| 0 <= a < c < out.len() implies chip_before(#[trigger] out@[a], #[trigger] out@[c]) by {
                if c == old_out.len() {
                    assert(chip_before(old_out[a], old_rem[b as int]));
                } else {
                    assert(chip_before(old_out[a], old_out[c]));
                }
            }
            assert forall|a: int, c: int| 0 <= a < out.len() && 0 <= c < rem.len() implies chip_before(
                #[trigger] out@[a],
                #[trigger] rem@[c],
            ) by {
                let c2 = if c < b { c } else { c + 1 };
                assert(rem@[c] == old_rem[c2]);
                if a == old_out.len() {
                    assert(chip_before(old_rem[b as int], old_rem[c2]));
                } else {
                    assert(chip_before(old_out[a], old_rem[c2]));
                }
            }
        }
    }
    assert forall|k: Seq<char>| #[trigger] key_count(sources@, dis, k) > 0 <==> chip_keys(out@).contains(k) by {
        if chip_keys(rem@).contains(k) {
            let c = choose|c: int| 0 <= c < chip_keys(rem@).len() && chip_keys(rem@)[c] == k;
        }
    }
    out
}

} // verus!
