//! The details screen: which language a chapter is filed under, and which
//! chapter titles are worth showing under the chapter's label.
use vstd::prelude::*;
use crate::language::{key, label_for_key, opt_chars, spec_key, spec_label_for_key};
use crate::models::{opt_str, opt_view, Chapter, Manga};
use crate::groups::{group_by_key, groups_of, Group};
use crate::names::name_seq;
use crate::shell::Screen;
use crate::text::str_eq;
use crate::text::{
    ascii_lower, eq_ignore_ascii_case, has_prefix, owned, starts_with, string_of, to_chars,
    to_lowercase, trim, trimmed, unicode_lower,
};

verus! {

/// A language key that names a language (not `other` nor `mixed`).
pub open spec fn names_language(k: Seq<char>) -> bool {
    k != "other"@ && k != "mixed"@
}

/// The part of `s` after its last `c` (all of `s` when there is none), as
/// `str::rsplit(c).next()` gives it.
pub open spec fn after_last(s: Seq<char>, c: char) -> Seq<char>
    decreases s.len(),
{
    if s.len() == 0 {
        s
    } else if s.last() == c {
        Seq::empty()
    } else {
        after_last(s.drop_last(), c).push(s.last())
    }
}

/// The key of a locale or of a display name, when it is not blank and
/// names a language.
pub open spec fn key_from(text: Option<Seq<char>>) -> Option<Seq<char>> {
    match text {
        Some(t) => if trimmed(t).len() > 0 && names_language(spec_key(t)) { Some(spec_key(t)) } else { None },
        None => None,
    }
}

/// The language key of a chapter: its locale when that names a language,
/// else its branch (multilingual sources keep the language's display name
/// there), else the locale suffix of the source id (`..._ES`).
pub open spec fn chapter_key(language: Option<Seq<char>>, branch: Option<Seq<char>>, source: Seq<char>) -> Seq<char> {
    match key_from(language) {
        Some(k) => k,
        None => match key_from(branch) {
            Some(k) => k,
            None => spec_key(after_last(source, '_')),
        },
    }
}

fn after_last_underscore(s: &str) -> (r: String)
    ensures
        r@ == after_last(s@, '_'),
{
    let v = to_chars(s);
    let mut i: usize = v.len();
    assert(v@.take(i as int) == v@);
    assert(v@.subrange(i as int, v.len() as int) == Seq::<char>::empty());
    assert(after_last(v@, '_') + Seq::<char>::empty() == after_last(v@, '_'));
    while i > 0 && v[i - 1] != '_'
        invariant
            0 <= i <= v.len(),
            forall|j: int| i <= j < v.len() ==> v@[j] != '_',
            after_last(v@, '_') == after_last(v@.take(i as int), '_') + v@.subrange(i as int, v.len() as int),
        decreases i,
    {
        proof {
            let t = v@.take(i as int);
            assert(t.drop_last() == v@.take(i - 1));
            assert(t.last() == v@[i - 1]);
            assert(v@.subrange(i - 1, v.len() as int) == seq![v@[i - 1]] + v@.subrange(i as int, v.len() as int));
            assert(after_last(t, '_') == after_last(v@.take(i - 1), '_').push(v@[i - 1]));
            assert(after_last(v@.take(i - 1), '_').push(v@[i - 1]) + v@.subrange(i as int, v.len() as int)
                == after_last(v@.take(i - 1), '_') + v@.subrange(i - 1, v.len() as int));
        }
        i -= 1;
    }
    proof {
        let t = v@.take(i as int);
        if i > 0 {
            assert(t.last() == '_');
        }
        assert(after_last(t, '_') == Seq::<char>::empty());
        assert(Seq::<char>::empty() + v@.subrange(i as int, v.len() as int) == v@.subrange(i as int, v.len() as int));
    }
    assert(v@.take(v.len() as int) == v@);
    string_of(&v, i, v.len())
}

fn usable_key(text: Option<&str>) -> (r: Option<&'static str>)
    ensures
        opt_chars(r) == key_from(opt_chars(text)),
{
    match text {
        Some(t) => {
            if to_chars(trim(t)).len() > 0 {
                let k = key(Some(t));
                if !crate::text::str_eq(k, "other") && !crate::text::str_eq(k, "mixed") {
                    return Some(k);
                }
            }
            None
        },
        None => None,
    }
}

/// The language key under which a chapter is filed.
pub fn chapter_language_key(language: Option<&str>, branch: Option<&str>, source: &str) -> (r: &'static str)
    ensures
        r@ == chapter_key(opt_chars(language), opt_chars(branch), source@),
{
    match usable_key(language) {
        Some(k) => k,
        None => match usable_key(branch) {
            Some(k) => k,
            None => {
                let tail = after_last_underscore(source);
                key(Some(tail.as_str()))
            },
        },
    }
}

/// The Spanish name of the language under which a chapter is filed.
pub fn chapter_language_label(language: Option<&str>, branch: Option<&str>, source: &str) -> (r: &'static str)
    ensures
        r@ == spec_label_for_key(chapter_key(opt_chars(language), opt_chars(branch), source@)),
{
    label_for_key(chapter_language_key(language, branch, source))
}

/// Whether a lower-case title starts like a generic chapter name.
pub open spec fn generic_title(lower: Seq<char>) -> bool {
    has_prefix(lower, "capítulo"@) || has_prefix(lower, "capitulo"@) || has_prefix(lower, "chapter"@)
        || has_prefix(lower, "cap."@) || has_prefix(lower, "ch."@)
}

/// The subtitle of a chapter card: its trimmed title, unless it is blank,
/// equal to the card's label (ignoring ASCII case) or a generic name such
/// as `Capítulo 5` or `Chapter 5`.
pub open spec fn subtitle_of(title: Seq<char>, label: Seq<char>) -> Option<Seq<char>> {
    let t = trimmed(title);
    if t.len() == 0 || ascii_lower(t) == ascii_lower(label) || generic_title(unicode_lower(t)) {
        None
    } else {
        Some(t)
    }
}

/// The subtitle shown under a chapter's label, if its title says more.
pub fn chapter_subtitle(title: &str, label: &str) -> (r: Option<String>)
    ensures
        match r {
            Some(s) => subtitle_of(title@, label@) == Some(s@),
            None => subtitle_of(title@, label@) is None,
        },
{
    let t = trim(title);
    if to_chars(t).len() == 0 || eq_ignore_ascii_case(t, label) {
        return None;
    }
    let lower = to_lowercase(t);
    let l = lower.as_str();
    if starts_with(l, "capítulo") || starts_with(l, "capitulo") || starts_with(l, "chapter")
        || starts_with(l, "cap.") || starts_with(l, "ch.") {
        return None;
    }
    Some(owned(t))
}

/// Whether the library holds the manga with this source and url.
pub open spec fn held_in(library: Seq<Manga>, source: Seq<char>, url: Seq<char>) -> bool {
    exists|i: int| 0 <= i < library.len() && library[i].source@ == source && #[trigger] library[i].url@ == url
}

/// Whether the library holds the manga with this source and url (the
/// details screen's "in library" mark).
pub fn in_library(library: &Vec<Manga>, source: &str, url: &str) -> (r: bool)
    ensures
        r == held_in(library@, source@, url@),
{
    let mut i: usize = 0;
    while i < library.len()
        invariant
            0 <= i <= library.len(),
            forall|j: int| 0 <= j < i ==> !(library@[j].source@ == source@ && #[trigger] library@[j].url@ == url@),
        decreases library.len() - i,
    {
        if str_eq(library[i].source.as_str(), source) && str_eq(library[i].url.as_str(), url) {
            return true;
        }
        i += 1;
    }
    false
}

/// The screen that "back" returns to after opening details from `current`:
/// the screen it came from, kept when details are opened from details.
pub fn back_target_after_open(current: Screen, previous: Option<Screen>) -> (r: Option<Screen>)
    ensures
        r == if current != Screen::Details { Some(current) } else { previous },
{
    if current != Screen::Details { Some(current) } else { previous }
}

/// The screen that "back" leads to: the remembered one, else home.
pub fn back_destination(target: Option<Screen>) -> (r: Screen)
    ensures
        r == match target {
            Some(s) => s,
            None => Screen::Home,
        },
{
    match target {
        Some(s) => s,
        None => Screen::Home,
    }
}

/// The language key of a chapter record.
pub open spec fn key_of_chapter(c: Chapter) -> Seq<char> {
    chapter_key(opt_view(c.language), opt_view(c.branch), c.source@)
}

/// The positions, in order, of the chapters shown for a language filter
/// (all of them without filter).
pub open spec fn shown_chapters(chapters: Seq<Chapter>, filter: Option<Seq<char>>) -> Seq<int>
    decreases chapters.len(),
{
    if chapters.len() == 0 {
        Seq::empty()
    } else {
        let prev = shown_chapters(chapters.drop_last(), filter);
        let keep = match filter {
            Some(f) => key_of_chapter(chapters.last()) == f,
            None => true,
        };
        if keep { prev.push(chapters.len() - 1) } else { prev }
    }
}

/// The chapters that the details screen lists for a language filter.
pub fn chapters_for_language(chapters: &Vec<Chapter>, filter: Option<&str>) -> (r: Vec<usize>)
    ensures
        r@.map_values(|i: usize| i as int) == shown_chapters(chapters@, opt_chars(filter)),
{
    let mut r: Vec<usize> = Vec::new();
    let mut i: usize = 0;
    while i < chapters.len()
        invariant
            0 <= i <= chapters.len(),
            r@.map_values(|k: usize| k as int) == shown_chapters(chapters@.take(i as int), opt_chars(filter)),
        decreases chapters.len() - i,
    {
        let ghost prev = r@;
        assert(chapters@.take(i + 1).drop_last() == chapters@.take(i as int));
        assert(chapters@.take(i + 1).last() == chapters@[i as int]);
        let c = &chapters[i];
        let keep = match filter {
            Some(f) => str_eq(chapter_language_key(opt_str(&c.language), opt_str(&c.branch), c.source.as_str()), f),
            None => true,
        };
        if keep {
            r.push(i);
            assert(r@.map_values(|k: usize| k as int) == prev.map_values(|k: usize| k as int).push(i as int));
        }
        i += 1;
    }
    assert(chapters@.take(chapters.len() as int) == chapters@);
    r
}

/// Where the chosen chapter stands among the listed ones (by url); the first
/// when it is not listed.
pub fn position_in(chapters: &Vec<Chapter>, shown: &Vec<usize>, url: &str) -> (r: usize)
    requires
        forall|k: int| 0 <= k < shown.len() ==> #[trigger] shown@[k] < chapters.len(),
    ensures
        (exists|k: int| 0 <= k < shown.len() && chapters@[shown@[k] as int].url@ == url@) ==> {
            &&& r < shown.len()
            &&& chapters@[shown@[r as int] as int].url@ == url@
            &&& forall|k: int| 0 <= k < r ==> chapters@[#[trigger] shown@[k] as int].url@ != url@
        },
        !(exists|k: int| 0 <= k < shown.len() && chapters@[shown@[k] as int].url@ == url@) ==> r == 0,
{
    let mut k: usize = 0;
    while k < shown.len()
        invariant
            0 <= k <= shown.len(),
            forall|j: int| 0 <= j < shown.len() ==> #[trigger] shown@[j] < chapters.len(),
            forall|j: int| 0 <= j < k ==> chapters@[#[trigger] shown@[j] as int].url@ != url@,
        decreases shown.len() - k,
    {
        if str_eq(chapters[shown[k]].url.as_str(), url) {
            return k;
        }
        k += 1;
    }
    0
}

/// The name of the language under which a chapter is filed.
pub open spec fn label_of_chapter(c: Chapter) -> Seq<char> {
    spec_label_for_key(key_of_chapter(c))
}

/// The chapter list of the details screen: one group per language name, in
/// ascending order of name, each with the positions of its chapters in list
/// order.
pub fn chapter_groups(chapters: &Vec<Chapter>) -> (r: Vec<Group>)
    ensures
        groups_of(r@, chapters@.map_values(|c: Chapter| label_of_chapter(c))),
{
    let ghost labels = chapters@.map_values(|c: Chapter| label_of_chapter(c));
    let mut keys: Vec<String> = Vec::new();
    let mut i: usize = 0;
    while i < chapters.len()
        invariant
            0 <= i <= chapters.len(),
            labels == chapters@.map_values(|c: Chapter| label_of_chapter(c)),
            name_seq(keys@) == labels.take(i as int),
        decreases chapters.len() - i,
    {
        let ghost prev = keys@;
        let c = &chapters[i];
        let label = chapter_language_label(opt_str(&c.language), opt_str(&c.branch), c.source.as_str());
        keys.push(owned(label));
        assert(name_seq(keys@) =~= name_seq(prev).push(labels[i as int]));
        assert(labels.take(i + 1) =~= labels.take(i as int).push(labels[i as int]));
        i += 1;
    }
    assert(labels.take(chapters.len() as int) == labels);
    group_by_key(&keys)
}

} // verus!
