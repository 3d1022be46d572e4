//! Cover cards: which image a card loads, how a long title is cut, and the
//! texts of the grouped search results.
use vstd::prelude::*;
use crate::browse::nonblank;
use crate::models::{Manga, MangaRef};
use crate::groups::{group_by_key, groups_of, Group};
use crate::names::{name_seq, names};
use crate::num::{dec, u64_to_dec};
use crate::text::{
    append, ascii_lower, has_prefix, has_sub, lower_chars, owned, push_char, starts_with_chars,
    string_of, to_chars, trim, trimmed,
};

verus! {

/// The reference that opening a card hands to the details screen: the
/// cover is the small one, else the large one.
pub fn details_ref(m: &Manga) -> (r: MangaRef)
    ensures
        r.source == m.source,
        r.url == m.url,
        r.title == m.title,
        r.cover_url == (if m.cover_url is Some { m.cover_url } else { m.large_cover_url }),
{
    let cover_url = match &m.cover_url {
        Some(c) => Some(c.clone()),
        None => crate::text::copy_opt(&m.large_cover_url),
    };
    MangaRef { source: m.source.clone(), url: m.url.clone(), title: m.title.clone(), cover_url }
}

/// The download of one cover: the small image first, the large one as a
/// fallback, stored under `key` (the first of them).
#[derive(Debug, Clone)]
pub struct CoverJob {
    pub primary: Option<String>,
    pub fallback: Option<String>,
    pub key: String,
}

/// The cover job of a manga, if it has a usable cover url (not blank).
pub open spec fn job_of(m: Manga) -> Option<CoverJob> {
    let primary = nonblank(m.cover_url);
    let fallback = nonblank(m.large_cover_url);
    match primary {
        Some(p) => Some(CoverJob { primary, fallback, key: p }),
        None => match fallback {
            Some(f) => Some(CoverJob { primary, fallback, key: f }),
            None => None,
        },
    }
}

/// The cover jobs of a list, in order, leaving out the covers already
/// loaded.
pub open spec fn jobs(mangas: Seq<Manga>, loaded: Set<Seq<char>>) -> Seq<CoverJob>
    decreases mangas.len(),
{
    if mangas.len() == 0 {
        Seq::empty()
    } else {
        let prev = jobs(mangas.drop_last(), loaded);
        match job_of(mangas.last()) {
            Some(j) => if loaded.contains(j.key@) { prev } else { prev.push(j) },
            None => prev,
        }
    }
}

fn usable_url(o: &Option<String>) -> (r: Option<String>)
    ensures
        r == nonblank(*o),
{
    match o {
        Some(s) => {
            if to_chars(trim(s.as_str())).len() > 0 {
                Some(s.clone())
            } else {
                None
            }
        },
        None => None,
    }
}

/// The cover job of a manga.
pub fn cover_job(m: &Manga) -> (r: Option<CoverJob>)
    ensures
        r == job_of(*m),
{
    let primary = usable_url(&m.cover_url);
    let fallback = usable_url(&m.large_cover_url);
    let key = match &primary {
        Some(p) => p.clone(),
        None => match &fallback {
            Some(f) => f.clone(),
            None => return None,
        },
    };
    Some(CoverJob { primary, fallback, key })
}

/// The covers that a list still has to download, given the urls whose
/// image is loaded already.
pub fn covers_to_fetch(mangas: &Vec<Manga>, loaded: &Vec<String>) -> (r: Vec<CoverJob>)
    ensures
        r@ == jobs(mangas@, names(loaded@)),
{
    let mut r: Vec<CoverJob> = Vec::new();
    let mut i: usize = 0;
    while i < mangas.len()
        invariant
            0 <= i <= mangas.len(),
            r@ == jobs(mangas@.take(i as int), names(loaded@)),
        decreases mangas.len() - i,
    {
        assert(mangas@.take(i + 1).drop_last() == mangas@.take(i as int));
        assert(mangas@.take(i + 1).last() == mangas@[i as int]);
        match cover_job(&mangas[i]) {
            Some(j) => {
                if !crate::names::has_name(loaded, j.key.as_str()) {
                    r.push(j);
                }
            },
            None => {},
        }
        i += 1;
    }
    assert(mangas@.take(mangas.len() as int) == mangas@);
    r
}

/// A title cut to `max_chars` characters, the last one an ellipsis.
pub open spec fn ellipsized(value: Seq<char>, max_chars: nat) -> Seq<char> {
    if value.len() <= max_chars {
        value
    } else {
        value.take(if max_chars > 0 { max_chars - 1 } else { 0 }).push('…')
    }
}

/// Cuts a title that is longer than `max_chars` characters.
pub fn ellipsize(value: &str, max_chars: usize) -> (r: String)
    ensures
        r@ == ellipsized(value@, max_chars as nat),
{
    let v = to_chars(value);
    if v.len() <= max_chars {
        return owned(value);
    }
    let keep: usize = if max_chars > 0 { max_chars - 1 } else { 0 };
    let mut r = string_of(&v, 0, keep);
    push_char(&mut r, '…');
    assert(v@.subrange(0, keep as int) == v@.take(keep as int));
    r
}

/// The short language name of a grouped source, from the start of its
/// locale (in ASCII lower case).
pub open spec fn short_language_label(locale: Seq<char>) -> Seq<char> {
    let l = ascii_lower(locale);
    if has_prefix(l, "es"@) {
        "Español"@
    } else if has_prefix(l, "en"@) {
        "Inglés"@
    } else if has_prefix(l, "pt"@) {
        "Portugués"@
    } else if has_prefix(l, "fr"@) {
        "Francés"@
    } else if has_prefix(l, "ja"@) {
        "Japonés"@
    } else if has_prefix(l, "zh"@) {
        "Chino"@
    } else {
        "Otro idioma"@
    }
}

/// The language shown in the heading of a source's group of results.
pub fn language_label(locale: &str) -> (r: &'static str)
    ensures
        r@ == short_language_label(locale@),
{
    let l = lower_chars(&to_chars(locale));
    if starts_with_chars(&l, "es") {
        "Español"
    } else if starts_with_chars(&l, "en") {
        "Inglés"
    } else if starts_with_chars(&l, "pt") {
        "Portugués"
    } else if starts_with_chars(&l, "fr") {
        "Francés"
    } else if starts_with_chars(&l, "ja") {
        "Japonés"
    } else if starts_with_chars(&l, "zh") {
        "Chino"
    } else {
        "Otro idioma"
    }
}

/// How a source's group of results is shown: the first `limit` results, and
/// a "more" button while results are hidden or the source may have more.
pub fn group_view(count: usize, limit: usize, exhausted: bool) -> (r: (usize, bool))
    ensures
        r.0 == if count < limit { count } else { limit },
        r.1 == (count > limit || !exhausted),
{
    (if count < limit { count } else { limit }, count > limit || !exhausted)
}

/// The heading of a group: `<language> · <count> mangas encontrados`.
pub fn group_heading(language: &str, count: u64) -> (r: String)
    ensures
        r@ == language@ + " · "@ + dec(count as nat) + " mangas encontrados"@,
{
    let mut r = owned(language);
    append(&mut r, " · ");
    let n = u64_to_dec(count);
    append(&mut r, n.as_str());
    append(&mut r, " mangas encontrados");
    r
}

/// The subtitle of a grouped result: the language, and the first author
/// when there is one.
pub open spec fn result_subtitle_text(language: Seq<char>, authors: Seq<String>) -> Seq<char> {
    if authors.len() == 0 || authors[0]@.len() == 0 {
        language
    } else {
        language + " · "@ + authors[0]@
    }
}

/// The subtitle of a grouped result.
pub fn result_subtitle(language: &str, authors: &Vec<String>) -> (r: String)
    ensures
        r@ == result_subtitle_text(language@, authors@),
{
    if authors.len() == 0 || to_chars(authors[0].as_str()).len() == 0 {
        return owned(language);
    }
    let mut r = owned(language);
    append(&mut r, " · ");
    append(&mut r, authors[0].as_str());
    r
}

/// The source of each result, in order.
pub open spec fn result_sources(mangas: Seq<Manga>) -> Seq<Seq<char>> {
    mangas.map_values(|m: Manga| m.source@)
}

/// The grouped search results: one group per source, in ascending order of
/// source id, each with the positions of that source's results in order.
pub fn group_by_source(mangas: &Vec<Manga>) -> (r: Vec<Group>)
    ensures
        groups_of(r@, result_sources(mangas@)),
{
    let mut keys: Vec<String> = Vec::new();
    let mut i: usize = 0;
    while i < mangas.len()
        invariant
            0 <= i <= mangas.len(),
            name_seq(keys@) == result_sources(mangas@.take(i as int)),
        decreases mangas.len() - i,
    {
        let ghost prev = keys@;
        keys.push(mangas[i].source.clone());
        assert(name_seq(keys@) =~= name_seq(prev).push(mangas@[i as int].source@));
        assert(result_sources(mangas@.take(i + 1)) =~= result_sources(mangas@.take(i as int)).push(mangas@[i as int].source@));
        i += 1;
    }
    assert(mangas@.take(mangas.len() as int) == mangas@);
    group_by_key(&keys)
}

} // verus!
