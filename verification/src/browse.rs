//! The browse screen: a federated search over several catalogue sources.
//!
//! Each search asks every chosen source for a page of its catalogue; the
//! answers arrive one by one and are merged into a single list without
//! repeating a manga. A source that fails is skipped with a friendly note and
//! the others go on; answers of an older search are ignored.
use vstd::prelude::*;
use crate::language::{key, locale_text, opt_chars, spec_key, spec_label_for_key};
use crate::num::{dec, u64_to_dec};
use crate::models::{manga_key, opt_str, opt_text, opt_view, Manga, Source};
use crate::names::{
    add_name, distinct, get_entry, has_name, lemma_distinct_len, lemma_map_set_push, lemma_names_push, lookup, name_seq, names,
    remove_name, set_entry,
};
use crate::rpc::{error_text, DaemonError};
use crate::text::{
    append, ascii_lower, contains, has_sub, owned, to_ascii_lowercase, to_chars, to_lowercase,
    trim, trimmed, unicode_lower,
};

verus! {

/// The most sources one search may ask at once.
pub const MAX_SEARCH_SOURCES: usize = 24;

/// How many sources are queried at the same time.
pub const MAX_CONCURRENT_SEARCHES: usize = 6;

/// Which works a grid shows by their adult rating.
#[derive(Debug, Clone, Copy, PartialEq, Eq, Structural)]
pub enum AdultFilter {
    All,
    Safe,
    Adult,
}

/// Whether a work with the given rating passes the filter.
pub open spec fn admits_spec(f: AdultFilter, is_nsfw: bool) -> bool {
    match f {
        AdultFilter::All => true,
        AdultFilter::Safe => !is_nsfw,
        AdultFilter::Adult => is_nsfw,
    }
}

impl AdultFilter {
    /// Whether a work with the given rating passes the filter.
    pub fn admits(self, is_nsfw: bool) -> (r: bool)
        ensures
            r == admits_spec(self, is_nsfw),
    {
        match self {
            AdultFilter::All => true,
            AdultFilter::Safe => !is_nsfw,
            AdultFilter::Adult => is_nsfw,
        }
    }
}

/// Why a source failed, told from the error text (compared in ASCII lower
/// case).
pub open spec fn failure_reason(detail: Seq<char>) -> Seq<char> {
    let lower = ascii_lower(detail);
    if has_sub(lower, "google.com"@) || has_sub(lower, "signin"@) || has_sub(lower, "401"@) {
        "requiere iniciar sesión o no está disponible"@
    } else if has_sub(lower, "cannot find"@) || has_sub(lower, "404"@) || has_sub(lower, "not found"@) {
        "cambió su sitio y necesita actualización"@
    } else if has_sub(lower, "timeout"@) || has_sub(lower, "unknownhost"@) || has_sub(lower, "name or service"@) {
        "no responde en este momento"@
    } else {
        "no pudo responder"@
    }
}

/// The note shown for a source that failed.
pub open spec fn source_error_text(source: Seq<char>, detail: Seq<char>) -> Seq<char> {
    source + ": "@ + failure_reason(detail) + ". Se omitió esta fuente para continuar."@
}

/// Turns a parser or HTTP error into a note for the person searching; the
/// full detail stays in the daemon's logs.
pub fn friendly_source_error(source: &str, detail: &str) -> (r: String)
    ensures
        r@ == source_error_text(source@, detail@),
{
    let lower = to_ascii_lowercase(detail);
    let l = lower.as_str();
    let reason = if contains(l, "google.com") || contains(l, "signin") || contains(l, "401") {
        "requiere iniciar sesión o no está disponible"
    } else if contains(l, "cannot find") || contains(l, "404") || contains(l, "not found") {
        "cambió su sitio y necesita actualización"
    } else if contains(l, "timeout") || contains(l, "unknownhost") || contains(l, "name or service") {
        "no responde en este momento"
    } else {
        "no pudo responder"
    };
    let mut r = owned(source);
    append(&mut r, ": ");
    append(&mut r, reason);
    append(&mut r, ". Se omitió esta fuente para continuar.");
    r
}

/// Whether a source's name or id contains the query, trimmed and compared
/// in Unicode lower case; an empty query matches every source.
pub open spec fn query_matches(name: Seq<char>, id: Seq<char>, query: Seq<char>) -> bool {
    let q = unicode_lower(trimmed(query));
    q.len() == 0 || has_sub(unicode_lower(name), q) || has_sub(unicode_lower(id), q)
}

/// Whether a source's language has the selected key; no selection matches
/// every source.
pub open spec fn language_matches(language: Option<String>, selected: Option<Seq<char>>) -> bool {
    match selected {
        Some(k) => spec_key(opt_text(language)) == k,
        None => true,
    }
}

/// Whether a source passes the source panel's text and language filters.
pub open spec fn source_passes(source: Source, query: Seq<char>, language: Option<Seq<char>>) -> bool {
    query_matches(source.name@, source.id@, query) && language_matches(source.language, language)
}

/// Whether a source passes the text filter and the language filter of the
/// source panel.
pub fn source_matches_filters(source: &Source, query: &str, language: Option<&str>) -> (r: bool)
    ensures
        r == source_passes(*source, query@, opt_chars(language)),
{
    let q = to_lowercase(trim(query));
    let qv = to_chars(q.as_str());
    let matches_query = qv.len() == 0
        || contains(to_lowercase(source.name.as_str()).as_str(), q.as_str())
        || contains(to_lowercase(source.id.as_str()).as_str(), q.as_str());
    let matches_language = match language {
        Some(selected) => crate::text::str_eq(key(opt_str(&source.language)), selected),
        None => true,
    };
    matches_query && matches_language
}

/// The keys (`source|url`) of a list of mangas.
pub open spec fn list_keys(l: Seq<Manga>) -> Set<Seq<char>> {
    l.map_values(|m: Manga| manga_key(m.source@, m.url@)).to_set()
}

/// Pushing a manga adds its key to the keys of the list.
pub proof fn lemma_keys_push(l: Seq<Manga>, m: Manga)
    ensures
        list_keys(l.push(m)) == list_keys(l).insert(manga_key(m.source@, m.url@)),
{
    let f = |x: Manga| manga_key(x.source@, x.url@);
    lemma_map_set_push(l, m, f);
    assert(l.map_values(|x: Manga| manga_key(x.source@, x.url@)) =~= l.map_values(f));
    assert(l.push(m).map_values(|x: Manga| manga_key(x.source@, x.url@)) =~= l.push(m).map_values(f));
}

/// `list` followed by the `items` whose key is not yet in it, in order; of
/// two items with one key only the first is kept.
pub open spec fn merged(list: Seq<Manga>, items: Seq<Manga>) -> Seq<Manga>
    decreases items.len(),
{
    if items.len() == 0 {
        list
    } else {
        let prev = merged(list, items.drop_last());
        let m = items.last();
        if list_keys(prev).contains(manga_key(m.source@, m.url@)) {
            prev
        } else {
            prev.push(m)
        }
    }
}

/// The keys of a list of mangas, in order.
pub open spec fn key_seq(l: Seq<Manga>) -> Seq<Seq<char>> {
    l.map_values(|m: Manga| manga_key(m.source@, m.url@))
}

/// No two mangas of the list share a key.
pub open spec fn unique_keys(l: Seq<Manga>) -> bool {
    key_seq(l).no_duplicates()
}

/// Merging the pages of several sources never shows a manga twice: a list
/// without repeated keys stays so, keeps its order at the front, and ends up
/// holding the key of every merged item.
pub proof fn merge_keeps_keys_unique(list: Seq<Manga>, items: Seq<Manga>)
    requires
        unique_keys(list),
    ensures
        unique_keys(merged(list, items)),
        merged(list, items).len() >= list.len(),
        merged(list, items).take(list.len() as int) == list,
        list_keys(merged(list, items)) == list_keys(list).union(list_keys(items)),
    decreases items.len(),
{
    if items.len() == 0 {
        assert(list.take(list.len() as int) == list);
        assert(list_keys(items) =~= Set::empty());
        assert(list_keys(list).union(list_keys(items)) =~= list_keys(list));
    } else {
        let d = items.drop_last();
        let m = items.last();
        let k = manga_key(m.source@, m.url@);
        merge_keeps_keys_unique(list, d);
        let prev = merged(list, d);
        assert(items == d.push(m));
        lemma_keys_push(d, m);
        if !list_keys(prev).contains(k) {
            lemma_keys_push(prev, m);
            let ks = key_seq(prev.push(m));
            assert(ks == key_seq(prev).push(k));
            assert forall|a: int, b: int| 0 <= a < ks.len() && 0 <= b < ks.len() && a != b
                implies ks[a] != ks[b] by {
                if a < prev.len() && b < prev.len() {
                } else if a < prev.len() {
                    assert(list_keys(prev).contains(ks[a]));
                } else {
                    assert(list_keys(prev).contains(ks[b]));
                }
            }
            assert(prev.push(m).take(list.len() as int) == prev.take(list.len() as int));
        }
        assert(list_keys(merged(list, items)) =~= list_keys(list).union(list_keys(items)));
    }
}

/// Appends to `list` the items whose key it does not hold yet.
pub fn merge_into(list: &mut Vec<Manga>, items: Vec<Manga>)
    ensures
        final(list)@ == merged(old(list)@, items@),
{
    let ghost start = list@;
    let ghost all = items@;
    let mut known: Vec<String> = Vec::new();
    let mut i: usize = 0;
    while i < list.len()
        invariant
            list@ == start,
            0 <= i <= list.len(),
            names(known@) == list_keys(start.take(i as int)),
        decreases list.len() - i,
    {
        let k = list[i].key();
        proof {
            assert(start.take(i + 1) == start.take(i as int).push(start[i as int]));
            lemma_keys_push(start.take(i as int), start[i as int]);
            lemma_names_push(known@, k);
        }
        known.push(k);
        i += 1;
    }
    proof {
        assert(start.take(start.len() as int) == start);
        assert(merged(start, all.take(0)) == start);
    }
    for m in it: items.into_iter()
        invariant
            it.seq() == all,
            list@ == merged(start, all.take(it.index() as int)),
            names(known@) == list_keys(list@),
    {
        let ghost n = it.index() as int;
        let ghost prev = list@;
        assert(all.take(n + 1).drop_last() == all.take(n));
        assert(all.take(n + 1).last() == m);
        let k = m.key();
        if !has_name(&known, k.as_str()) {
            proof {
                lemma_keys_push(prev, m);
                lemma_names_push(known@, k);
            }
            known.push(k);
            list.push(m);
        }
    }
    proof {
        assert(all.take(all.len() as int) == all);
    }
}

/// What the browse screen remembers between messages.
#[derive(Debug)]
pub struct State {
    /// The source picked last from the source selector.
    pub source: Option<String>,
    /// The sources that a search asks (a set: no id twice).
    pub selected_sources: Vec<String>,
    /// How many works each source has returned so far in this search.
    pub source_offsets: Vec<(String, i32)>,
    /// Sources with nothing more to give in this search.
    pub exhausted_sources: Vec<String>,
    pub source_panel_open: bool,
    pub category_panel_open: bool,
    /// The genres that the search is restricted to.
    pub selected_categories: Vec<String>,
    pub adult_filter: AdultFilter,
    pub source_query: String,
    pub source_language: Option<String>,
    pub category_query: String,
    /// Number of the current search; answers of older ones are dropped.
    pub search_generation: u64,
    /// Sources of the current request that have not answered yet.
    pub pending_sources: usize,
    pub search_errors: Vec<String>,
    /// Sources that failed in this search.
    pub failed_sources: Vec<String>,
    /// Whether a search was started at all.
    pub has_searched: bool,
    /// The text being typed in the search box.
    pub query: Option<String>,
    /// The query that produced the current list.
    pub active_query: Option<String>,
    /// Whether results are shown grouped by source.
    pub group_results: bool,
    /// How many results of each source the grouped view shows.
    pub visible_per_source: Vec<(String, usize)>,
    /// The merged results, without two works of one key.
    pub list: Vec<Manga>,
    pub loading: bool,
    /// A next page is being fetched.
    pub loading_more: bool,
    /// `false` once every selected source is exhausted.
    pub has_more: bool,
}

impl State {
    /// The sets of the state hold no name twice.
    pub open spec fn wf(&self) -> bool {
        &&& distinct(self.selected_sources@)
        &&& distinct(self.exhausted_sources@)
        &&& distinct(self.failed_sources@)
        &&& distinct(self.selected_categories@)
    }

    /// The fields that only the user changes: the choices of the panels and
    /// the search box, and the search that is running.
    pub open spec fn same_choices(&self, other: &State) -> bool {
        &&& self.source == other.source
        &&& self.selected_sources == other.selected_sources
        &&& self.source_panel_open == other.source_panel_open
        &&& self.category_panel_open == other.category_panel_open
        &&& self.selected_categories == other.selected_categories
        &&& self.adult_filter == other.adult_filter
        &&& self.source_query == other.source_query
        &&& self.source_language == other.source_language
        &&& self.category_query == other.category_query
        &&& self.search_generation == other.search_generation
        &&& self.has_searched == other.has_searched
        &&& self.query == other.query
        &&& self.active_query == other.active_query
        &&& self.group_results == other.group_results
        &&& self.visible_per_source == other.visible_per_source
    }
}

impl State {
    /// The screen before any choice: nothing selected, no search yet, more
    /// can be asked, every work shown whatever its rating.
    pub fn new() -> (r: State)
        ensures
            r.wf(),
            r.source is None,
            r.selected_sources.len() == 0,
            r.source_offsets.len() == 0,
            r.exhausted_sources.len() == 0,
            !r.source_panel_open,
            !r.category_panel_open,
            r.selected_categories.len() == 0,
            r.adult_filter == AdultFilter::All,
            r.source_query@.len() == 0,
            r.source_language is None,
            r.category_query@.len() == 0,
            r.search_generation == 0,
            r.pending_sources == 0,
            r.search_errors.len() == 0,
            r.failed_sources.len() == 0,
            !r.has_searched,
            r.query is None,
            r.active_query is None,
            !r.group_results,
            r.visible_per_source.len() == 0,
            r.list.len() == 0,
            !r.loading,
            !r.loading_more,
            !r.has_more,
    {
        State {
            source: None,
            selected_sources: Vec::new(),
            source_offsets: Vec::new(),
            exhausted_sources: Vec::new(),
            source_panel_open: false,
            category_panel_open: false,
            selected_categories: Vec::new(),
            adult_filter: AdultFilter::All,
            source_query: String::new(),
            source_language: None,
            category_query: String::new(),
            search_generation: 0,
            pending_sources: 0,
            search_errors: Vec::new(),
            failed_sources: Vec::new(),
            has_searched: false,
            query: None,
            active_query: None,
            group_results: false,
            visible_per_source: Vec::new(),
            list: Vec::new(),
            loading: false,
            loading_more: false,
            has_more: false,
        }
    }
}

impl Default for State {
    fn default() -> (r: State)
        ensures
            r.wf(),
            r.selected_sources.len() == 0,
            r.list.len() == 0,
            r.search_generation == 0,
            r.pending_sources == 0,
    {
        State::new()
    }
}

/// Whether some selected source is not exhausted yet.
pub open spec fn any_open(selected: Seq<String>, exhausted: Set<Seq<char>>) -> bool {
    exists|i: int| 0 <= i < selected.len() && !exhausted.contains(#[trigger] selected[i]@)
}

/// The offset of a source: what it has returned so far, 0 before its first
/// page.
pub open spec fn offset_of(t: Seq<(String, i32)>, k: Seq<char>) -> int {
    match lookup(t, k) {
        Some(v) => v as int,
        None => 0,
    }
}

fn some_open(selected: &Vec<String>, exhausted: &Vec<String>) -> (r: bool)
    ensures
        r == any_open(selected@, names(exhausted@)),
{
    let mut i: usize = 0;
    while i < selected.len()
        invariant
            0 <= i <= selected.len(),
            forall|j: int| 0 <= j < i ==> names(exhausted@).contains(#[trigger] selected@[j]@),
        decreases selected.len() - i,
    {
        if !has_name(exhausted, selected[i].as_str()) {
            return true;
        }
        i += 1;
    }
    false
}

/// Takes the answer of one source to the search numbered `generation`.
///
/// An answer to an older search changes nothing. Otherwise one answer less
/// is pending; works are merged without repeating a key and the source's
/// offset grows by their number; an empty page marks the source exhausted;
/// an error marks it exhausted and failed and adds a note. Once no answer is
/// pending, loading stops and more can be asked while some selected source
/// is not exhausted.
pub fn apply_search_result(
    state: &mut State,
    generation: u64,
    source: String,
    result: Result<Vec<Manga>, DaemonError>,
)
    requires
        old(state).wf(),
        result is Ok ==> result->Ok_0.len() <= i32::MAX,
        result is Ok ==> offset_of(old(state).source_offsets@, source@) + result->Ok_0.len() <= i32::MAX,
    ensures
        final(state).wf(),
        generation != old(state).search_generation ==> *final(state) == *old(state),
        generation == old(state).search_generation ==> final(state).same_choices(&*old(state)),
        generation == old(state).search_generation ==> final(state).pending_sources
            == if old(state).pending_sources > 0 { old(state).pending_sources - 1 } else { 0int },
        generation == old(state).search_generation && result is Ok ==> {
            &&& names(final(state).failed_sources@) == names(old(state).failed_sources@).remove(source@)
            &&& final(state).search_errors == old(state).search_errors
        },
        generation == old(state).search_generation && result is Ok && result->Ok_0.len() == 0 ==> {
            &&& names(final(state).exhausted_sources@) == names(old(state).exhausted_sources@).insert(source@)
            &&& final(state).source_offsets == old(state).source_offsets
            &&& final(state).list == old(state).list
        },
        generation == old(state).search_generation && result is Ok && result->Ok_0.len() > 0 ==> {
            &&& final(state).exhausted_sources == old(state).exhausted_sources
            &&& lookup(final(state).source_offsets@, source@)
                == Some((offset_of(old(state).source_offsets@, source@) + result->Ok_0.len()) as i32)
            &&& forall|k: Seq<char>| k != source@
                ==> lookup(final(state).source_offsets@, k) == lookup(old(state).source_offsets@, k)
            &&& final(state).list@ == merged(old(state).list@, result->Ok_0@)
        },
        generation == old(state).search_generation && result is Err ==> {
            &&& names(final(state).exhausted_sources@) == names(old(state).exhausted_sources@).insert(source@)
            &&& names(final(state).failed_sources@) == names(old(state).failed_sources@).insert(source@)
            &&& name_seq(final(state).search_errors@) == name_seq(old(state).search_errors@).push(
                source_error_text(source@, error_text(result->Err_0)))
            &&& final(state).source_offsets == old(state).source_offsets
            &&& final(state).list == old(state).list
        },
        generation == old(state).search_generation && final(state).pending_sources == 0 ==> {
            &&& !final(state).loading
            &&& !final(state).loading_more
            &&& final(state).has_more == any_open(final(state).selected_sources@, names(final(state).exhausted_sources@))
        },
        generation == old(state).search_generation && final(state).pending_sources != 0 ==> {
            &&& final(state).loading == old(state).loading
            &&& final(state).loading_more == old(state).loading_more
            &&& final(state).has_more == old(state).has_more
        },
{
    if generation != state.search_generation {
        return;
    }
    state.pending_sources = if state.pending_sources > 0 { state.pending_sources - 1 } else { 0 };
    match result {
        Ok(items) => {
            remove_name(&mut state.failed_sources, source.as_str());
            if items.len() == 0 {
                add_name(&mut state.exhausted_sources, source);
            } else {
                let before = match get_entry(&state.source_offsets, source.as_str()) {
                    Some(v) => v,
                    None => 0,
                };
                let n = items.len() as i32;
                set_entry(&mut state.source_offsets, source, before + n);
                merge_into(&mut state.list, items);
            }
        },
        Err(error) => {
            add_name(&mut state.exhausted_sources, source.clone());
            add_name(&mut state.failed_sources, source.clone());
            let detail = error.message();
            let note = friendly_source_error(source.as_str(), detail.as_str());
            let ghost errors = state.search_errors@;
            state.search_errors.push(note);
            assert(name_seq(state.search_errors@) == name_seq(errors).push(note@));
        },
    }
    if state.pending_sources == 0 {
        state.loading = false;
        state.loading_more = false;
        state.has_more = some_open(&state.selected_sources, &state.exhausted_sources);
    }
}

/// The fields that searches fill: results, progress and failures.
pub open spec fn same_results(a: &State, b: &State) -> bool {
    &&& a.source_offsets == b.source_offsets
    &&& a.exhausted_sources == b.exhausted_sources
    &&& a.pending_sources == b.pending_sources
    &&& a.search_errors == b.search_errors
    &&& a.failed_sources == b.failed_sources
    &&& a.list == b.list
    &&& a.loading == b.loading
    &&& a.loading_more == b.loading_more
    &&& a.has_more == b.has_more
}

/// One request of a search: ask `source` for the page after `offset`.
#[derive(Debug, Clone)]
pub struct SourceRequest {
    pub source: String,
    pub offset: i32,
}

/// What a started search asks the daemon: one request per source, all
/// tagged with the search's number, the query and the genres.
#[derive(Debug)]
pub struct SearchPlan {
    pub generation: u64,
    pub query: Option<String>,
    pub categories: Vec<String>,
    pub requests: Vec<SourceRequest>,
}

/// The candidates that a search asks, in order: not disabled, and, when a
/// next page is asked, not exhausted.
pub open spec fn chosen(
    cands: Seq<String>,
    disabled: Set<Seq<char>>,
    exhausted: Set<Seq<char>>,
    append: bool,
) -> Seq<String>
    decreases cands.len(),
{
    if cands.len() == 0 {
        Seq::empty()
    } else {
        let prev = chosen(cands.drop_last(), disabled, exhausted, append);
        let id = cands.last();
        if !disabled.contains(id@) && !(append && exhausted.contains(id@)) {
            prev.push(id)
        } else {
            prev
        }
    }
}

/// A search never asks a disabled source, nor, for a next page, an
/// exhausted one; and it asks only candidates.
pub proof fn search_skips_disabled_sources(
    cands: Seq<String>,
    disabled: Set<Seq<char>>,
    exhausted: Set<Seq<char>>,
    append: bool,
)
    ensures
        forall|i: int| 0 <= i < chosen(cands, disabled, exhausted, append).len() ==> {
            let id = #[trigger] chosen(cands, disabled, exhausted, append)[i];
            &&& !disabled.contains(id@)
            &&& !(append && exhausted.contains(id@))
            &&& cands.contains(id)
        },
    decreases cands.len(),
{
    if cands.len() > 0 {
        let d = cands.drop_last();
        search_skips_disabled_sources(d, disabled, exhausted, append);
        let prev = chosen(d, disabled, exhausted, append);
        let c = chosen(cands, disabled, exhausted, append);
        assert forall|i: int| 0 <= i < c.len() implies {
            let id = #[trigger] c[i];
            &&& !disabled.contains(id@)
            &&& !(append && exhausted.contains(id@))
            &&& cands.contains(id)
        } by {
            if i < prev.len() {
                assert(c[i] == prev[i]);
                assert(d.contains(prev[i]));
                let k = choose|k: int| 0 <= k < d.len() && d[k] == prev[i];
                assert(cands[k] == d[k]);
            } else {
                assert(c[i] == cands.last());
                assert(cands[cands.len() - 1] == cands.last());
            }
        }
    }
}

/// The query when it has something besides white space.
pub open spec fn nonblank(q: Option<String>) -> Option<String> {
    match q {
        Some(s) => if trimmed(s@).len() > 0 { Some(s) } else { None },
        None => None,
    }
}

/// The note shown when a search has no source to ask.
pub open spec fn no_source_note() -> Seq<char> {
    "Selecciona al menos una fuente para buscar."@
}

fn nonblank_query(q: &Option<String>) -> (r: Option<String>)
    ensures
        r == nonblank(*q),
{
    match q {
        Some(s) => {
            let t = to_chars(trim(s.as_str()));
            if t.len() > 0 {
                Some(s.clone())
            } else {
                None
            }
        },
        None => None,
    }
}

fn pick_sources(cands: &Vec<String>, disabled: &Vec<String>, exhausted: &Vec<String>, append: bool) -> (r: Vec<String>)
    ensures
        r@ == chosen(cands@, names(disabled@), names(exhausted@), append),
{
    let mut picked: Vec<String> = Vec::new();
    let mut i: usize = 0;
    while i < cands.len()
        invariant
            0 <= i <= cands.len(),
            picked@ == chosen(cands@.take(i as int), names(disabled@), names(exhausted@), append),
        decreases cands.len() - i,
    {
        assert(cands@.take(i + 1).drop_last() == cands@.take(i as int));
        let id = cands[i].as_str();
        if !has_name(disabled, id) && !(append && has_name(exhausted, id)) {
            picked.push(cands[i].clone());
        }
        i += 1;
    }
    assert(cands@.take(cands.len() as int) == cands@);
    picked
}

/// How a search starts (see `start_search_for`): `o` is the state before,
/// `f` the state after, `cands` the sources asked for.
pub open spec fn search_started(
    o: State,
    f: State,
    append: bool,
    cands: Seq<String>,
    disabled: Set<Seq<char>>,
    daemon_ready: bool,
    plan: Option<SearchPlan>,
) -> bool {
    if !daemon_ready {
        f == o && plan is None
    } else {
        let picked = chosen(cands, disabled, names(o.exhausted_sources@), append);
        let q = nonblank(o.query);
        &&& picked.len() == 0 ==> {
            &&& plan is None
            &&& f.same_choices(&o)
            &&& name_seq(f.search_errors@) == seq![no_source_note()]
            &&& !f.loading
            &&& !f.loading_more
            &&& f.source_offsets == o.source_offsets
            &&& f.exhausted_sources == o.exhausted_sources
            &&& f.pending_sources == o.pending_sources
            &&& f.failed_sources == o.failed_sources
            &&& f.list == o.list
            &&& f.has_more == o.has_more
        }
        &&& picked.len() > 0 ==> {
            &&& f.pending_sources == picked.len()
            &&& f.has_more
            &&& f.source == o.source
            &&& f.selected_sources == o.selected_sources
            &&& f.source_panel_open == o.source_panel_open
            &&& f.category_panel_open == o.category_panel_open
            &&& f.selected_categories == o.selected_categories
            &&& f.adult_filter == o.adult_filter
            &&& f.source_query == o.source_query
            &&& f.source_language == o.source_language
            &&& f.category_query == o.category_query
            &&& f.query == o.query
            &&& plan is Some
            &&& plan->0.generation == f.search_generation
            &&& plan->0.query == q
            &&& plan->0.categories@ == o.selected_categories@
            &&& plan->0.requests.len() == picked.len()
            &&& forall|i: int| 0 <= i < picked.len() ==> {
                &&& (#[trigger] plan->0.requests@[i]).source == picked[i]
                &&& plan->0.requests@[i].offset == if append {
                    offset_of(o.source_offsets@, picked[i]@)
                } else {
                    0
                }
            }
        }
        &&& picked.len() > 0 && !append ==> {
            &&& f.search_generation == if o.search_generation == u64::MAX { 0 } else { o.search_generation + 1 }
            &&& f.list.len() == 0
            &&& f.source_offsets.len() == 0
            &&& f.exhausted_sources.len() == 0
            &&& f.visible_per_source.len() == 0
            &&& f.search_errors.len() == 0
            &&& f.failed_sources.len() == 0
            &&& f.has_searched
            &&& f.loading
            &&& !f.loading_more
            &&& f.active_query == q
            &&& f.group_results == (q is Some || o.selected_categories.len() > 0)
        }
        &&& picked.len() > 0 && append ==> {
            &&& f.search_generation == o.search_generation
            &&& f.list == o.list
            &&& f.source_offsets == o.source_offsets
            &&& f.exhausted_sources == o.exhausted_sources
            &&& f.visible_per_source == o.visible_per_source
            &&& f.search_errors == o.search_errors
            &&& f.failed_sources == o.failed_sources
            &&& f.has_searched == o.has_searched
            &&& f.loading == o.loading
            &&& f.loading_more
            &&& f.active_query == o.active_query
            &&& f.group_results == o.group_results
        }
    }
}

/// A search is always restricted to the selected genres and the typed text:
/// whenever a search (or a next page) starts, the plan asks every source for
/// works of exactly the genres selected, with the query when it is not blank
/// (a blank query asks for the catalogue), at least one source is asked, and
/// a new search asks each from its first page. No search starts without the
/// daemon.
pub proof fn search_asks_for_the_selected_genres(
    o: State,
    f: State,
    append: bool,
    cands: Seq<String>,
    disabled: Set<Seq<char>>,
    daemon_ready: bool,
    plan: Option<SearchPlan>,
)
    requires
        search_started(o, f, append, cands, disabled, daemon_ready, plan),
        plan is Some,
    ensures
        plan->0.categories@ == o.selected_categories@,
        f.selected_categories == o.selected_categories,
        plan->0.query is Some ==> plan->0.query == o.query && trimmed(o.query->0@).len() > 0,
        o.query is Some && trimmed(o.query->0@).len() > 0 ==> plan->0.query == o.query,
        plan->0.requests.len() > 0,
        !append ==> forall|i: int| 0 <= i < plan->0.requests.len() ==> (#[trigger] plan->0.requests@[i]).offset == 0,
        daemon_ready,
{
}

/// Starts a search, or asks the next page (`append`), over the requested
/// sources or, without a request, over the selected ones.
///
/// Without the daemon nothing happens. Disabled sources are left out, and
/// so are exhausted ones when a next page is asked; with no source left the
/// screen says so and stops loading. A new search gets the next number and
/// forgets the previous results; a next page keeps them. Either way every
/// asked source is pending and more may come.
pub fn start_search_for(
    state: &mut State,
    append: bool,
    requested: Option<Vec<String>>,
    disabled: &Vec<String>,
    daemon_ready: bool,
) -> (plan: Option<SearchPlan>)
    requires
        old(state).wf(),
    ensures
        final(state).wf(),
        search_started(
            *old(state),
            *final(state),
            append,
            match requested {
                Some(v) => v@,
                None => old(state).selected_sources@,
            },
            names(disabled@),
            daemon_ready,
            plan,
        ),
        plan is Some ==> plan->0.categories@ == old(state).selected_categories@,
{
    if !daemon_ready {
        return None;
    }
    let cands: Vec<String> = match requested {
        Some(v) => v,
        None => crate::text::copy_strings(&state.selected_sources),
    };
    let picked = pick_sources(&cands, disabled, &state.exhausted_sources, append);
    if picked.len() == 0 {
        let mut notes: Vec<String> = Vec::new();
        notes.push(owned("Selecciona al menos una fuente para buscar."));
        assert(name_seq(notes@) == seq![no_source_note()]);
        state.search_errors = notes;
        state.loading = false;
        state.loading_more = false;
        return None;
    }
    let ghost o = *state;
    let mut requests: Vec<SourceRequest> = Vec::new();
    let mut i: usize = 0;
    while i < picked.len()
        invariant
            0 <= i <= picked.len(),
            *state == o,
            requests.len() == i,
            forall|j: int| 0 <= j < i ==> {
                &&& (#[trigger] requests@[j]).source == picked@[j]
                &&& requests@[j].offset == if append { offset_of(o.source_offsets@, picked@[j]@) } else { 0 }
            },
        decreases picked.len() - i,
    {
        let offset: i32 = if append {
            match get_entry(&state.source_offsets, picked[i].as_str()) {
                Some(v) => v,
                None => 0,
            }
        } else {
            0
        };
        requests.push(SourceRequest { source: picked[i].clone(), offset });
        i += 1;
    }
    if !append {
        state.search_generation = if state.search_generation == u64::MAX { 0 } else { state.search_generation + 1 };
        state.list = Vec::new();
        state.source_offsets = Vec::new();
        state.exhausted_sources = Vec::new();
        state.visible_per_source = Vec::new();
        state.search_errors = Vec::new();
        state.failed_sources = Vec::new();
        state.has_searched = true;
        state.loading = true;
        state.loading_more = false;
    } else {
        state.loading_more = true;
    }
    state.pending_sources = picked.len();
    state.has_more = true;
    let query = nonblank_query(&state.query);
    if !append {
        state.active_query = crate::text::copy_opt(&query);
        state.group_results = query.is_some() || state.selected_categories.len() > 0;
    }
    let categories = crate::text::copy_strings(&state.selected_categories);
    Some(SearchPlan { generation: state.search_generation, query, categories, requests })
}

/// What the browse screen reacts to.
#[derive(Debug, Clone)]
pub enum Message {
    SourceSelected(String),
    QueryChanged(String),
    Search,
    RetryFailed,
    ToggleSourcePanel,
    ToggleCategoryPanel,
    ToggleCategory(String),
    ClearCategories,
    SetAdultFilter(AdultFilter),
    CategoryQueryChanged(String),
    SourceQueryChanged(String),
    SetSourceLanguage(Option<String>),
    ToggleSearchSource(String, bool),
    SelectAllSources,
    ClearSources,
    More,
    MoreSource(String),
    /// The list was scrolled; `true` once the view is past 85 % of it.
    Scrolled(bool),
}

/// The note shown when a source would exceed the limit of a search.
pub open spec fn max_sources_note() -> Seq<char> {
    "Puedes buscar en un máximo de 24 fuentes a la vez."@
}

/// The sources that the source panel lists: enabled and passing its filters.
pub open spec fn pool(
    sources: Seq<Source>,
    disabled: Set<Seq<char>>,
    query: Seq<char>,
    language: Option<Seq<char>>,
) -> Seq<Source>
    decreases sources.len(),
{
    if sources.len() == 0 {
        Seq::empty()
    } else {
        let prev = pool(sources.drop_last(), disabled, query, language);
        let s = sources.last();
        if !disabled.contains(s.id@) && source_passes(s, query, language) {
            prev.push(s)
        } else {
            prev
        }
    }
}

/// The ids of a list of sources, as a set.
pub open spec fn source_ids(p: Seq<Source>) -> Set<Seq<char>> {
    p.map_values(|s: Source| s.id@).to_set()
}

/// The panel's pool of a prefix of the sources is a prefix of the pool.
pub proof fn lemma_pool_prefix(
    s: Seq<Source>,
    i: int,
    disabled: Set<Seq<char>>,
    query: Seq<char>,
    language: Option<Seq<char>>,
)
    requires
        0 <= i <= s.len(),
    ensures
        pool(s.take(i), disabled, query, language).len() <= pool(s, disabled, query, language).len(),
        pool(s, disabled, query, language).take(pool(s.take(i), disabled, query, language).len() as int)
            == pool(s.take(i), disabled, query, language),
    decreases s.len(),
{
    if i == s.len() {
        assert(s.take(i) == s);
    } else {
        let d = s.drop_last();
        assert(d.take(i) == s.take(i));
        lemma_pool_prefix(d, i, disabled, query, language);
        let whole = pool(s, disabled, query, language);
        let p = pool(d, disabled, query, language);
        let q = pool(s.take(i), disabled, query, language);
        assert(whole.take(p.len() as int) == p);
        assert(whole.take(q.len() as int) == p.take(q.len() as int));
    }
}

/// How many results of the list come from `source`.
pub open spec fn count_from(list: Seq<Manga>, source: Seq<char>) -> nat
    decreases list.len(),
{
    if list.len() == 0 {
        0
    } else {
        count_from(list.drop_last(), source) + if list.last().source@ == source { 1nat } else { 0nat }
    }
}

/// How many results the grouped view shows of a source: 10 until the user
/// asks for more.
pub open spec fn shown_of(t: Seq<(String, usize)>, k: Seq<char>) -> int {
    match lookup(t, k) {
        Some(v) => v as int,
        None => 10,
    }
}

fn count_source(list: &Vec<Manga>, source: &str) -> (r: usize)
    ensures
        r == count_from(list@, source@),
{
    let mut n: usize = 0;
    let mut i: usize = 0;
    while i < list.len()
        invariant
            0 <= i <= list.len(),
            n == count_from(list@.take(i as int), source@),
            n <= i,
        decreases list.len() - i,
    {
        assert(list@.take(i + 1).drop_last() == list@.take(i as int));
        if crate::text::str_eq(list[i].source.as_str(), source) {
            n += 1;
        }
        i += 1;
    }
    assert(list@.take(list.len() as int) == list@);
    n
}

fn select_visible(
    sources: &Vec<Source>,
    disabled: &Vec<String>,
    query: &String,
    language: &Option<String>,
) -> (r: Vec<String>)
    ensures
        distinct(r@),
        names(r@) == source_ids({
            let p = pool(sources@, names(disabled@), query@, opt_view(*language));
            p.take(if p.len() < MAX_SEARCH_SOURCES { p.len() as int } else { MAX_SEARCH_SOURCES as int })
        }),
{
    let ghost dis = names(disabled@);
    let ghost lang = opt_view(*language);
    let mut picked: Vec<String> = Vec::new();
    let mut n: usize = 0;
    let mut i: usize = 0;
    while i < sources.len() && n < MAX_SEARCH_SOURCES
        invariant
            0 <= i <= sources.len(),
            n == pool(sources@.take(i as int), dis, query@, lang).len(),
            n <= MAX_SEARCH_SOURCES,
            distinct(picked@),
            names(picked@) == source_ids(pool(sources@.take(i as int), dis, query@, lang)),
            dis == names(disabled@),
            lang == opt_view(*language),
        decreases sources.len() - i,
    {
        let ghost p = pool(sources@.take(i as int), dis, query@, lang);
        assert(sources@.take(i + 1).drop_last() == sources@.take(i as int));
        let src = &sources[i];
        if !has_name(disabled, src.id.as_str())
            && source_matches_filters(src, query.as_str(), opt_str(language)) {
            let ghost before = picked@;
            add_name(&mut picked, src.id.clone());
            n += 1;
            proof {
                let f = |x: Source| x.id@;
                lemma_map_set_push(p, *src, f);
                assert(p.map_values(|x: Source| x.id@) =~= p.map_values(f));
                assert(p.push(*src).map_values(|x: Source| x.id@) =~= p.push(*src).map_values(f));
            }
        }
        i += 1;
    }
    proof {
        let whole = pool(sources@, dis, query@, lang);
        lemma_pool_prefix(sources@, i as int, dis, query@, lang);
        if i == sources.len() {
            assert(sources@.take(i as int) == sources@);
            assert(whole.take(whole.len() as int) == whole);
        }
    }
    picked
}

/// The state after a browse message, and the search it starts, if any.
///
/// `sources` are the daemon's sources, `disabled` the ids turned off in the
/// extensions screen, and `daemon_ready` whether the daemon is up. Choices of
/// the panels and of the search box only change the state; selecting a source,
/// searching, retrying the failed sources, scrolling to the end and asking
/// more of one source start a search (see `search_started`).
#[verifier::spinoff_prover]
#[verifier::rlimit(40)]
pub fn update(
    state: &mut State,
    msg: Message,
    sources: &Vec<Source>,
    disabled: &Vec<String>,
    daemon_ready: bool,
) -> (plan: Option<SearchPlan>)
    requires
        old(state).wf(),
        msg is MoreSource ==> shown_of(old(state).visible_per_source@, msg->MoreSource_0@) + 10 <= usize::MAX,
    ensures
        final(state).wf(),
        old(state).selected_sources.len() <= MAX_SEARCH_SOURCES
            ==> final(state).selected_sources.len() <= MAX_SEARCH_SOURCES,
        ({
            let o = *old(state);
            let f = *final(state);
            let dis = names(disabled@);
            match msg {
                Message::SourceSelected(id) => exists|v: Vec<String>| {
                    &&& v@ == seq![id]
                    &&& search_started(
                        State { source: Some(id), selected_sources: v, ..o },
                        f, false, v@, dis, daemon_ready, plan)
                },
                Message::QueryChanged(q) => f == (State { query: Some(q), ..o }) && plan is None,
                Message::Search => search_started(
                    State { source_panel_open: false, category_panel_open: false, ..o },
                    f, false, o.selected_sources@, dis, daemon_ready, plan),
                Message::RetryFailed => if o.failed_sources.len() == 0 {
                    f == o && plan is None
                } else {
                    search_started(o, f, false, o.failed_sources@, dis, daemon_ready, plan)
                },
                Message::ToggleSourcePanel => plan is None && f == (State {
                    source_panel_open: !o.source_panel_open,
                    category_panel_open: false,
                    ..o
                }),
                Message::ToggleCategoryPanel => plan is None && f == (State {
                    category_panel_open: !o.category_panel_open,
                    source_panel_open: false,
                    ..o
                }),
                Message::ToggleCategory(c) => {
                    &&& plan is None
                    &&& f == (State { selected_categories: f.selected_categories, ..o })
                    &&& names(o.selected_categories@).contains(c@) ==> names(f.selected_categories@)
                        == names(o.selected_categories@).remove(c@)
                    &&& !names(o.selected_categories@).contains(c@) ==> names(f.selected_categories@)
                        == names(o.selected_categories@).insert(c@)
                },
                Message::ClearCategories => {
                    &&& plan is None
                    &&& f == (State { selected_categories: f.selected_categories, ..o })
                    &&& f.selected_categories.len() == 0
                },
                Message::SetAdultFilter(a) => f == (State { adult_filter: a, ..o }) && plan is None,
                Message::CategoryQueryChanged(q) => f == (State { category_query: q, ..o }) && plan is None,
                Message::SourceQueryChanged(q) => f == (State { source_query: q, ..o }) && plan is None,
                Message::SetSourceLanguage(l) => f == (State { source_language: l, ..o }) && plan is None,
                Message::ToggleSearchSource(id, enabled) => {
                    &&& plan is None
                    &&& f == (State {
                        selected_sources: f.selected_sources,
                        search_errors: f.search_errors,
                        ..o
                    })
                    &&& if enabled && o.selected_sources.len() >= MAX_SEARCH_SOURCES {
                        &&& f.selected_sources == o.selected_sources
                        &&& name_seq(f.search_errors@) == seq![max_sources_note()]
                    } else if enabled {
                        &&& names(f.selected_sources@) == names(o.selected_sources@).insert(id@)
                        &&& f.search_errors.len() == 0
                    } else {
                        &&& names(f.selected_sources@) == names(o.selected_sources@).remove(id@)
                        &&& f.search_errors.len() == 0
                    }
                },
                Message::SelectAllSources => {
                    let p = pool(sources@, dis, o.source_query@, opt_view(o.source_language));
                    &&& plan is None
                    &&& f == (State {
                        selected_sources: f.selected_sources,
                        search_errors: f.search_errors,
                        ..o
                    })
                    &&& names(f.selected_sources@) == source_ids(
                        p.take(if p.len() < MAX_SEARCH_SOURCES { p.len() as int } else { MAX_SEARCH_SOURCES as int }))
                    &&& f.search_errors.len() == 0
                },
                Message::ClearSources => {
                    &&& plan is None
                    &&& f == (State {
                        selected_sources: f.selected_sources,
                        search_errors: f.search_errors,
                        ..o
                    })
                    &&& f.selected_sources.len() == 0
                    &&& f.search_errors.len() == 0
                },
                Message::More => if o.loading_more || !o.has_more || o.loading {
                    f == o && plan is None
                } else {
                    search_started(o, f, true, o.selected_sources@, dis, daemon_ready, plan)
                },
                Message::MoreSource(src) => if o.loading || o.loading_more {
                    f == o && plan is None
                } else {
                    let shown = shown_of(o.visible_per_source@, src@) + 10;
                    exists|mid: State| {
                        &&& mid == (State { visible_per_source: mid.visible_per_source, ..o })
                        &&& lookup(mid.visible_per_source@, src@) == Some(shown as usize)
                        &&& forall|k: Seq<char>| k != src@ ==> lookup(mid.visible_per_source@, k)
                            == lookup(o.visible_per_source@, k)
                        &&& if count_from(o.list@, src@) >= shown || names(o.exhausted_sources@).contains(src@) {
                            f == mid && plan is None
                        } else {
                            exists|v: Vec<String>| v@ == seq![src]
                                && search_started(mid, f, true, v@, dis, daemon_ready, plan)
                        }
                    }
                },
                Message::Scrolled(near_end) => if near_end && o.active_query is None
                    && !(o.loading_more || !o.has_more || o.loading) {
                    search_started(o, f, true, o.selected_sources@, dis, daemon_ready, plan)
                } else {
                    f == o && plan is None
                },
            }
        }),
{
    match msg {
        Message::SourceSelected(id) => {
            state.source = Some(id.clone());
            let mut v: Vec<String> = Vec::new();
            v.push(id);
            state.selected_sources = v;
            start_search_for(state, false, None, disabled, daemon_ready)
        },
        Message::QueryChanged(q) => {
            state.query = Some(q);
            None
        },
        Message::Search => {
            state.source_panel_open = false;
            state.category_panel_open = false;
            start_search_for(state, false, None, disabled, daemon_ready)
        },
        Message::RetryFailed => {
            if state.failed_sources.len() == 0 {
                None
            } else {
                let failed = crate::text::copy_strings(&state.failed_sources);
                start_search_for(state, false, Some(failed), disabled, daemon_ready)
            }
        },
        Message::ToggleSourcePanel => {
            state.source_panel_open = !state.source_panel_open;
            state.category_panel_open = false;
            None
        },
        Message::ToggleCategoryPanel => {
            state.category_panel_open = !state.category_panel_open;
            state.source_panel_open = false;
            None
        },
        Message::ToggleCategory(c) => {
            if has_name(&state.selected_categories, c.as_str()) {
                remove_name(&mut state.selected_categories, c.as_str());
            } else {
                add_name(&mut state.selected_categories, c);
            }
            None
        },
        Message::ClearCategories => {
            state.selected_categories = Vec::new();
            None
        },
        Message::SetAdultFilter(a) => {
            state.adult_filter = a;
            None
        },
        Message::CategoryQueryChanged(q) => {
            state.category_query = q;
            None
        },
        Message::SourceQueryChanged(q) => {
            state.source_query = q;
            None
        },
        Message::SetSourceLanguage(l) => {
            state.source_language = l;
            None
        },
        Message::ToggleSearchSource(id, enabled) => {
            if enabled {
                if state.selected_sources.len() >= MAX_SEARCH_SOURCES {
                    let mut notes: Vec<String> = Vec::new();
                    notes.push(owned("Puedes buscar en un máximo de 24 fuentes a la vez."));
                    assert(name_seq(notes@) == seq![max_sources_note()]);
                    state.search_errors = notes;
                } else {
                    let ghost before = state.selected_sources@;
                    add_name(&mut state.selected_sources, id);
                    state.search_errors = Vec::new();
                    proof {
                        lemma_distinct_len(before);
                        lemma_distinct_len(state.selected_sources@);
                    }
                }
            } else {
                let ghost before = state.selected_sources@;
                remove_name(&mut state.selected_sources, id.as_str());
                state.search_errors = Vec::new();
                proof {
                    lemma_distinct_len(before);
                    lemma_distinct_len(state.selected_sources@);
                }
            }
            None
        },
        Message::SelectAllSources => {
            let picked = select_visible(sources, disabled, &state.source_query, &state.source_language);
            proof {
                let p = pool(sources@, names(disabled@), state.source_query@, opt_view(state.source_language));
                let t = p.take(if p.len() < MAX_SEARCH_SOURCES { p.len() as int } else { MAX_SEARCH_SOURCES as int });
                lemma_distinct_len(picked@);
                t.map_values(|x: Source| x.id@).lemma_cardinality_of_set();
            }
            state.selected_sources = picked;
            state.search_errors = Vec::new();
            None
        },
        Message::ClearSources => {
            state.selected_sources = Vec::new();
            state.search_errors = Vec::new();
            None
        },
        Message::More => {
            if state.loading_more || !state.has_more || state.loading {
                None
            } else {
                start_search_for(state, true, None, disabled, daemon_ready)
            }
        },
        Message::MoreSource(src) => {
            if state.loading || state.loading_more {
                return None;
            }
            let loaded = count_source(&state.list, src.as_str());
            let shown: usize = match get_entry(&state.visible_per_source, src.as_str()) {
                Some(v) => v,
                None => 10,
            } + 10;
            set_entry(&mut state.visible_per_source, src.clone(), shown);
            let ghost mid = *state;
            if loaded >= shown || has_name(&state.exhausted_sources, src.as_str()) {
                None
            } else {
                let mut v: Vec<String> = Vec::new();
                v.push(src);
                let plan = start_search_for(state, true, Some(v), disabled, daemon_ready);
                plan
            }
        },
        Message::Scrolled(near_end) => {
            if near_end && state.active_query.is_none() {
                if state.loading_more || !state.has_more || state.loading {
                    None
                } else {
                    start_search_for(state, true, None, disabled, daemon_ready)
                }
            } else {
                None
            }
        },
    }
}

/// A list of (id, label) pairs as characters.
pub open spec fn pairs_view(v: Seq<(&str, &str)>) -> Seq<(Seq<char>, Seq<char>)> {
    v.map_values(|p: (&str, &str)| (p.0@, p.1@))
}

/// The genres of the category panel, as (id, Spanish label), in the order
/// the panel lists them.
pub open spec fn spec_categories() -> Seq<(Seq<char>, Seq<char>)> {
    seq![
        ("action"@, "Acción"@),
        ("adventure"@, "Aventura"@),
        ("comedy"@, "Comedia"@),
        ("drama"@, "Drama"@),
        ("fantasy"@, "Fantasía"@),
        ("romance"@, "Romance"@),
        ("school"@, "Escolar"@),
        ("mystery"@, "Misterio"@),
        ("horror"@, "Terror"@),
        ("sci-fi"@, "Ciencia ficción"@),
        ("sports"@, "Deportes"@),
        ("isekai"@, "Isekai"@),
        ("slice-of-life"@, "Slice of Life"@),
        ("yaoi"@, "Yaoi / BL"@),
        ("yuri"@, "Yuri / GL"@),
        ("ecchi"@, "Ecchi"@),
        ("hentai"@, "Hentai / Adulto"@),
    ]
}

/// The genres of the category panel (see `spec_categories`).
pub fn categories() -> (r: Vec<(&'static str, &'static str)>)
    ensures
        pairs_view(r@) == spec_categories(),
{
    let mut r: Vec<(&'static str, &'static str)> = Vec::new();
    r.push(("action", "Acción"));
    r.push(("adventure", "Aventura"));
    r.push(("comedy", "Comedia"));
    r.push(("drama", "Drama"));
    r.push(("fantasy", "Fantasía"));
    r.push(("romance", "Romance"));
    r.push(("school", "Escolar"));
    r.push(("mystery", "Misterio"));
    r.push(("horror", "Terror"));
    r.push(("sci-fi", "Ciencia ficción"));
    r.push(("sports", "Deportes"));
    r.push(("isekai", "Isekai"));
    r.push(("slice-of-life", "Slice of Life"));
    r.push(("yaoi", "Yaoi / BL"));
    r.push(("yuri", "Yuri / GL"));
    r.push(("ecchi", "Ecchi"));
    r.push(("hentai", "Hentai / Adulto"));
    assert(pairs_view(r@) =~= spec_categories());
    r
}

/// Whether the panel shows the genre labelled `label` for the filter text
/// `query`: the trimmed query in Unicode lower case is empty or occurs in
/// the label in Unicode lower case.
pub open spec fn category_shown(label: Seq<char>, query: Seq<char>) -> bool {
    let q = unicode_lower(trimmed(query));
    q.len() == 0 || has_sub(unicode_lower(label), q)
}

/// The genres of `cats`, in order, that the filter shows and that are
/// selected (`sel`) or not (`!sel`).
pub open spec fn shown_part(
    cats: Seq<(Seq<char>, Seq<char>)>,
    query: Seq<char>,
    selected: Set<Seq<char>>,
    sel: bool,
) -> Seq<(Seq<char>, Seq<char>)>
    decreases cats.len(),
{
    if cats.len() == 0 {
        Seq::empty()
    } else {
        let rest = shown_part(cats.drop_last(), query, selected, sel);
        let c = cats.last();
        if category_shown(c.1, query) && selected.contains(c.0) == sel {
            rest.push(c)
        } else {
            rest
        }
    }
}

/// The genres the category panel shows: those the filter text matches, the
/// selected ones first, each part in panel order.
pub open spec fn spec_visible_categories(query: Seq<char>, selected: Set<Seq<char>>) -> Seq<(Seq<char>, Seq<char>)> {
    shown_part(spec_categories(), query, selected, true) + shown_part(spec_categories(), query, selected, false)
}

/// The genres the category panel shows for the filter text `query` and the
/// selected genre ids (see `spec_visible_categories`).
pub fn visible_categories(query: &str, selected: &Vec<String>) -> (r: Vec<(&'static str, &'static str)>)
    ensures
        pairs_view(r@) == spec_visible_categories(query@, names(selected@)),
{
    let cats = categories();
    let q = to_lowercase(trim(query));
    let blank = to_chars(q.as_str()).len() == 0;
    let ghost all = pairs_view(cats@);
    let ghost sel = names(selected@);
    let mut first: Vec<(&'static str, &'static str)> = Vec::new();
    let mut second: Vec<(&'static str, &'static str)> = Vec::new();
    let mut i: usize = 0;
    while i < cats.len()
        invariant
            0 <= i <= cats.len(),
            all == pairs_view(cats@),
            sel == names(selected@),
            q@ == unicode_lower(trimmed(query@)),
            blank == (q@.len() == 0),
            pairs_view(first@) == shown_part(all.take(i as int), query@, sel, true),
            pairs_view(second@) == shown_part(all.take(i as int), query@, sel, false),
        decreases cats.len() - i,
    {
        let (id, label) = cats[i];
        let ghost t = all.take(i + 1);
        assert(t.drop_last() =~= all.take(i as int));
        assert(t.last() == (id@, label@));
        let shown = blank || contains(to_lowercase(label).as_str(), q.as_str());
        if shown {
            if has_name(selected, id) {
                first.push((id, label));
                assert(pairs_view(first@) =~= shown_part(all.take(i as int), query@, sel, true).push((id@, label@)));
            } else {
                second.push((id, label));
                assert(pairs_view(second@) =~= shown_part(all.take(i as int), query@, sel, false).push((id@, label@)));
            }
        }
        i += 1;
    }
    assert(all.take(cats.len() as int) =~= all);
    let ghost f = first@;
    let ghost g = second@;
    first.append(&mut second);
    assert(pairs_view(first@) =~= pairs_view(f) + pairs_view(g));
    first
}

/// The Spanish name of the language of a source.
pub open spec fn source_label(s: Source) -> Seq<char> {
    spec_label_for_key(spec_key(opt_text(s.language)))
}

/// The sources of `sources` whose id is selected, in order.
pub open spec fn picked_sources(sources: Seq<Source>, sel: Set<Seq<char>>) -> Seq<Source>
    decreases sources.len(),
{
    if sources.len() == 0 {
        Seq::empty()
    } else {
        let rest = picked_sources(sources.drop_last(), sel);
        if sel.contains(sources.last().id@) {
            rest.push(sources.last())
        } else {
            rest
        }
    }
}

/// Some source is picked, and all the picked ones share one language name.
pub open spec fn one_language(p: Seq<Source>) -> bool {
    p.len() > 0 && forall|i: int| 0 <= i < p.len() ==> source_label(#[trigger] p[i]) == source_label(p[0])
}

/// The text of the button that opens the source panel: a prompt when no
/// source is selected (or a wait while the daemon lists them), the language
/// and the count when all selected sources share a language, the source's
/// name when one is selected, and the count otherwise.
pub open spec fn spec_source_button_label(sources: Seq<Source>, selected: Seq<String>, daemon_ready: bool) -> Seq<char> {
    let count = selected.len();
    let p = picked_sources(sources, names(selected));
    if count == 0 {
        if sources.len() == 0 && daemon_ready {
            "Cargando fuentes…"@
        } else {
            "Elige dónde buscar"@
        }
    } else if one_language(p) {
        source_label(p[0]) + " · "@ + dec(count)
    } else if count == 1 {
        if p.len() > 0 {
            "En "@ + p[0].name@
        } else {
            "1 fuente"@
        }
    } else {
        "En "@ + dec(count) + " fuentes"@
    }
}

/// The text of the source panel's button (see `spec_source_button_label`).
pub fn source_button_label(sources: &Vec<Source>, selected: &Vec<String>, daemon_ready: bool) -> (r: String)
    ensures
        r@ == spec_source_button_label(sources@, selected@, daemon_ready),
{
    let count = selected.len();
    if count == 0 {
        if sources.len() == 0 && daemon_ready {
            return owned("Cargando fuentes…");
        }
        return owned("Elige dónde buscar");
    }
    let ghost sel = names(selected@);
    let mut first: Option<usize> = None;
    let mut uniform = true;
    let mut i: usize = 0;
    while i < sources.len()
        invariant
            0 <= i <= sources.len(),
            sel == names(selected@),
            ({
                let p = picked_sources(sources@.take(i as int), sel);
                &&& (p.len() == 0 <==> first is None)
                &&& first matches Some(j) ==> j < i && sources@[j as int] == p[0]
                &&& p.len() > 0 ==> (uniform == one_language(p))
            }),
        decreases sources.len() - i,
    {
        let ghost p = picked_sources(sources@.take(i as int), sel);
        let ghost t = sources@.take(i + 1);
        assert(t.drop_last() =~= sources@.take(i as int));
        assert(t.last() == sources@[i as int]);
        let s = &sources[i];
        if has_name(selected, s.id.as_str()) {
            let ghost q = p.push(*s);
            assert(picked_sources(t, sel) == q);
            match first {
                None => {
                    first = Some(i);
                    uniform = true;
                    assert(q.len() == 1);
                    assert(one_language(q));
                },
                Some(j) => {
                    let same = crate::text::str_eq(
                        crate::language::label(opt_str(&s.language)),
                        crate::language::label(opt_str(&sources[j].language)),
                    );
                    assert(q[0] == p[0]);
                    if !same {
                        assert(q[q.len() - 1] == *s);
                        assert(!one_language(q));
                    } else if uniform {
                        assert forall|u: int| 0 <= u < q.len() implies source_label(#[trigger] q[u]) == source_label(q[0]) by {
                            if u < p.len() {
                                assert(q[u] == p[u]);
                            }
                        }
                    } else {
                        proof {
                            let w = choose|u: int| 0 <= u < p.len() && source_label(#[trigger] p[u]) != source_label(p[0]);
                            assert(q[w] == p[w]);
                        }
                    }
                    uniform = uniform && same;
                },
            }
        }
        i += 1;
    }
    assert(sources@.take(sources.len() as int) =~= sources@);
    let ghost p = picked_sources(sources@, sel);
    let n = u64_to_dec(count as u64);
    if uniform && first.is_some() {
        let j = first.unwrap();
        let mut r = owned(crate::language::label(opt_str(&sources[j].language)));
        append(&mut r, " · ");
        append(&mut r, n.as_str());
        r
    } else if count == 1 {
        match first {
            Some(j) => {
                let mut r = owned("En ");
                append(&mut r, sources[j].name.as_str());
                r
            },
            None => owned("1 fuente"),
        }
    } else {
        let mut r = owned("En ");
        append(&mut r, n.as_str());
        append(&mut r, " fuentes");
        r
    }
}

/// What the genre button adds for the rating filter.
pub open spec fn adult_suffix(f: AdultFilter) -> Seq<char> {
    match f {
        AdultFilter::All => Seq::empty(),
        AdultFilter::Safe => " · Apto"@,
        AdultFilter::Adult => " · +18"@,
    }
}

/// The text of the button that opens the genre panel: how many genres are
/// selected, when any, and the rating filter, when one is set.
pub open spec fn spec_category_button_label(selected: nat, f: AdultFilter) -> Seq<char> {
    let count = if selected == 0 { Seq::empty() } else { " ("@ + dec(selected) + ")"@ };
    "Géneros"@ + count + adult_suffix(f)
}

/// The text of the genre panel's button (see `spec_category_button_label`).
pub fn category_button_label(selected: usize, f: AdultFilter) -> (r: String)
    ensures
        r@ == spec_category_button_label(selected as nat, f),
{
    let mut r = owned("Géneros");
    if selected > 0 {
        append(&mut r, " (");
        let n = u64_to_dec(selected as u64);
        append(&mut r, n.as_str());
        append(&mut r, ")");
    } else {
        assert(r@ =~= "Géneros"@ + Seq::<char>::empty());
    }
    match f {
        AdultFilter::All => {
            assert(r@ =~= r@ + Seq::<char>::empty());
        },
        AdultFilter::Safe => append(&mut r, " · Apto"),
        AdultFilter::Adult => append(&mut r, " · +18"),
    }
    r
}

} // verus!
