//! The library screen's search and rating filter, and the extensions
//! screen's list of turned-off sources.
use vstd::prelude::*;
use crate::browse::admits_spec;
use crate::models::{Manga, Source};
use crate::names::{add_name, distinct, names, remove_name};
use crate::text::{contains, has_sub, to_chars, to_lowercase, trim, trimmed, unicode_lower};

pub use crate::browse::AdultFilter;

verus! {

/// Whether some author of the list contains `q` in Unicode lower case.
pub open spec fn some_author_has(authors: Seq<String>, q: Seq<char>) -> bool {
    exists|i: int| 0 <= i < authors.len() && has_sub(unicode_lower(#[trigger] authors[i]@), q)
}

/// Whether a manga of the library passes the search box and the rating
/// filter: the query, trimmed and in lower case, occurs in the title or in
/// an author (an empty query matches everything).
pub open spec fn library_passes(m: Manga, query: Seq<char>, filter: AdultFilter) -> bool {
    let q = unicode_lower(trimmed(query));
    &&& (q.len() == 0 || has_sub(unicode_lower(m.title@), q) || some_author_has(m.authors@, q))
    &&& admits_spec(filter, m.is_nsfw)
}

/// The positions, in order, of the mangas that pass.
pub open spec fn passing(list: Seq<Manga>, query: Seq<char>, filter: AdultFilter) -> Seq<int>
    decreases list.len(),
{
    if list.len() == 0 {
        Seq::empty()
    } else {
        let prev = passing(list.drop_last(), query, filter);
        if library_passes(list.last(), query, filter) {
            prev.push(list.len() - 1)
        } else {
            prev
        }
    }
}

fn any_author_has(authors: &Vec<String>, q: &str) -> (r: bool)
    ensures
        r == some_author_has(authors@, q@),
{
    let mut i: usize = 0;
    while i < authors.len()
        invariant
            0 <= i <= authors.len(),
            forall|j: int| 0 <= j < i ==> !has_sub(unicode_lower(#[trigger] authors@[j]@), q@),
        decreases authors.len() - i,
    {
        if contains(to_lowercase(authors[i].as_str()).as_str(), q) {
            return true;
        }
        i += 1;
    }
    false
}

/// Whether a manga passes the library's search and rating filter.
pub fn library_matches(m: &Manga, query: &str, filter: AdultFilter) -> (r: bool)
    ensures
        r == library_passes(*m, query@, filter),
{
    let q = to_lowercase(trim(query));
    let qs = q.as_str();
    let matches_query = to_chars(qs).len() == 0
        || contains(to_lowercase(m.title.as_str()).as_str(), qs)
        || any_author_has(&m.authors, qs);
    matches_query && filter.admits(m.is_nsfw)
}

/// The positions of the library's mangas that the screen shows, in order.
pub fn filter_library(list: &Vec<Manga>, query: &str, filter: AdultFilter) -> (r: Vec<usize>)
    ensures
        r@.map_values(|i: usize| i as int) == passing(list@, query@, filter),
{
    let mut r: Vec<usize> = Vec::new();
    let mut i: usize = 0;
    while i < list.len()
        invariant
            0 <= i <= list.len(),
            r@.map_values(|k: usize| k as int) == passing(list@.take(i as int), query@, filter),
        decreases list.len() - i,
    {
        let ghost prev = r@;
        assert(list@.take(i + 1).drop_last() == list@.take(i as int));
        assert(list@.take(i + 1).last() == list@[i as int]);
        if library_matches(&list[i], query, filter) {
            r.push(i);
            assert(r@.map_values(|k: usize| k as int) == prev.map_values(|k: usize| k as int).push(i as int));
        }
        i += 1;
    }
    assert(list@.take(list.len() as int) == list@);
    r
}

/// Turns a source on (`on`) or off in the extensions screen.
pub fn toggle_source(disabled: &mut Vec<String>, id: String, on: bool)
    requires
        distinct(old(disabled)@),
    ensures
        distinct(final(disabled)@),
        on ==> names(final(disabled)@) == names(old(disabled)@).remove(id@),
        !on ==> names(final(disabled)@) == names(old(disabled)@).insert(id@),
{
    if on {
        remove_name(disabled, id.as_str());
    } else {
        add_name(disabled, id);
    }
}

/// Whether the extensions screen lists a source: its name contains the
/// query in Unicode lower case (not trimmed); an empty query lists all.
pub open spec fn extension_listed(s: Source, query: Seq<char>) -> bool {
    let q = unicode_lower(query);
    q.len() == 0 || has_sub(unicode_lower(s.name@), q)
}

/// Whether the extensions screen lists a source for the query.
pub fn extension_matches(s: &Source, query: &str) -> (r: bool)
    ensures
        r == extension_listed(*s, query@),
{
    let q = to_lowercase(query);
    to_chars(q.as_str()).len() == 0 || contains(to_lowercase(s.name.as_str()).as_str(), q.as_str())
}

} // verus!
