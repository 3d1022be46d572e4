//! The download queue: states, their stored names, and the in-memory queue
//! that the downloads screen keeps up to date from the manager's events.
use vstd::prelude::*;
use crate::text::str_eq;

verus! {

/// State of a chapter in the download queue.
#[derive(Debug, Clone, Copy, PartialEq, Eq, Structural)]
pub enum DownloadState {
    Idle,
    Queued,
    Downloading,
    Done,
    Error,
}

/// A row of the download queue.
#[derive(Debug, Clone)]
pub struct DownloadEntry {
    pub manga_id: i64,
    pub chapter_url: String,
    pub state: DownloadState,
    pub total_pages: i32,
    pub done_pages: i32,
}

/// What the download manager reports while it works.
#[derive(Debug, Clone)]
pub enum DownloadEvent {
    Queued(i64, String),
    Progress { manga_id: i64, chapter_url: String, done: i32, total: i32 },
    Done(i64, String),
    Errored(i64, String, String),
}

/// The name under which a state is stored in the database (and serialised).
pub open spec fn state_name(s: DownloadState) -> Seq<char> {
    match s {
        DownloadState::Idle => "idle"@,
        DownloadState::Queued => "queued"@,
        DownloadState::Downloading => "downloading"@,
        DownloadState::Done => "done"@,
        DownloadState::Error => "error"@,
    }
}

/// The state a stored name stands for; unknown names read as `Idle`.
pub open spec fn state_from_name(v: Seq<char>) -> DownloadState {
    if v == "idle"@ {
        DownloadState::Idle
    } else if v == "queued"@ {
        DownloadState::Queued
    } else if v == "downloading"@ {
        DownloadState::Downloading
    } else if v == "done"@ {
        DownloadState::Done
    } else if v == "error"@ {
        DownloadState::Error
    } else {
        DownloadState::Idle
    }
}

/// The Spanish label of a state on the downloads screen.
pub open spec fn spec_state_label(s: DownloadState) -> Seq<char> {
    match s {
        DownloadState::Idle => "Inactivo"@,
        DownloadState::Queued => "En cola"@,
        DownloadState::Downloading => "Descargando"@,
        DownloadState::Done => "Hecho"@,
        DownloadState::Error => "Error"@,
    }
}

/// The name under which a state is stored.
pub fn ds_to_str(s: DownloadState) -> (r: &'static str)
    ensures
        r@ == state_name(s),
{
    match s {
        DownloadState::Idle => "idle",
        DownloadState::Queued => "queued",
        DownloadState::Downloading => "downloading",
        DownloadState::Done => "done",
        DownloadState::Error => "error",
    }
}

/// The state a stored name stands for; unknown names read as `Idle`.
pub fn str_to_ds(s: &str) -> (r: DownloadState)
    ensures
        r == state_from_name(s@),
{
    if str_eq(s, "idle") {
        DownloadState::Idle
    } else if str_eq(s, "queued") {
        DownloadState::Queued
    } else if str_eq(s, "downloading") {
        DownloadState::Downloading
    } else if str_eq(s, "done") {
        DownloadState::Done
    } else if str_eq(s, "error") {
        DownloadState::Error
    } else {
        DownloadState::Idle
    }
}

/// The Spanish label of a state.
pub fn state_label(s: DownloadState) -> (r: &'static str)
    ensures
        r@ == spec_state_label(s),
{
    match s {
        DownloadState::Idle => "Inactivo",
        DownloadState::Queued => "En cola",
        DownloadState::Downloading => "Descargando",
        DownloadState::Done => "Hecho",
        DownloadState::Error => "Error",
    }
}

/// Storing a state and reading it back gives the same state.
pub proof fn state_name_roundtrip(s: DownloadState)
    ensures
        state_from_name(state_name(s)) == s,
{
    reveal_strlit("idle");
    reveal_strlit("queued");
    reveal_strlit("downloading");
    reveal_strlit("done");
    reveal_strlit("error");
    assert("idle"@.len() == 4);
    assert("queued"@.len() == 6);
    assert("downloading"@.len() == 11);
    assert("done"@.len() == 4);
    assert("error"@.len() == 5);
    assert("idle"@[0] != "done"@[0]);
}

/// Whether an entry is the one of chapter `url` of manga `id`.
pub open spec fn is_entry(e: DownloadEntry, id: i64, url: Seq<char>) -> bool {
    e.manga_id == id && e.chapter_url@ == url
}

/// The position of the first entry of chapter `url` of manga `id`.
pub open spec fn entry_index(s: Seq<DownloadEntry>, id: i64, url: Seq<char>) -> Option<int> {
    if exists|i: int| 0 <= i < s.len() && is_entry(s[i], id, url) {
        Some(choose|i: int| 0 <= i < s.len() && is_entry(s[i], id, url)
            && forall|j: int| 0 <= j < i ==> !is_entry(#[trigger] s[j], id, url))
    } else {
        None
    }
}

/// An entry with a new state, keeping everything else.
pub open spec fn with_state(e: DownloadEntry, st: DownloadState) -> DownloadEntry {
    DownloadEntry { state: st, ..e }
}

/// An entry updated by an event: the new state, and the page counts that the
/// event reports when they are positive.
pub open spec fn updated(e: DownloadEntry, st: DownloadState, done: i32, total: i32) -> DownloadEntry {
    DownloadEntry {
        state: st,
        total_pages: if total > 0 { total } else { e.total_pages },
        done_pages: if done > 0 { done } else { e.done_pages },
        ..e
    }
}

/// Creates the entry of a chapter, or updates the first one that exists.
pub open spec fn upserted(
    s: Seq<DownloadEntry>,
    id: i64,
    url: Seq<char>,
    fresh: DownloadEntry,
    st: DownloadState,
    done: i32,
    total: i32,
) -> Seq<DownloadEntry> {
    match entry_index(s, id, url) {
        Some(i) => s.update(i, updated(s[i], st, done, total)),
        None => s.push(fresh),
    }
}

/// Changes the state of the first entry of a chapter, if there is one.
pub open spec fn restated(s: Seq<DownloadEntry>, id: i64, url: Seq<char>, st: DownloadState) -> Seq<DownloadEntry> {
    match entry_index(s, id, url) {
        Some(i) => s.update(i, with_state(s[i], st)),
        None => s,
    }
}

/// The queue after an event: `Queued` and `Progress` create the entry when it
/// is missing (as `Queued` with no pages, or as `Downloading` with the reported
/// counts); `Done` and `Errored` only change the state of a known entry.
pub open spec fn after_event(s: Seq<DownloadEntry>, ev: DownloadEvent) -> Seq<DownloadEntry> {
    match ev {
        DownloadEvent::Queued(id, url) => upserted(
            s, id, url@,
            DownloadEntry { manga_id: id, chapter_url: url, state: DownloadState::Queued, total_pages: 0, done_pages: 0 },
            DownloadState::Queued, 0, 0,
        ),
        DownloadEvent::Progress { manga_id, chapter_url, done, total } => upserted(
            s, manga_id, chapter_url@,
            DownloadEntry { manga_id, chapter_url, state: DownloadState::Downloading, total_pages: total, done_pages: done },
            DownloadState::Downloading, done, total,
        ),
        DownloadEvent::Done(id, url) => restated(s, id, url@, DownloadState::Done),
        DownloadEvent::Errored(id, url, _) => restated(s, id, url@, DownloadState::Error),
    }
}

/// `i` is the position of the first entry of chapter `url` of manga `id`.
pub open spec fn first_entry_at(s: Seq<DownloadEntry>, id: i64, url: Seq<char>, i: int) -> bool {
    &&& 0 <= i < s.len()
    &&& is_entry(s[i], id, url)
    &&& forall|j: int| 0 <= j < i ==> !is_entry(#[trigger] s[j], id, url)
}

/// What the queue `t` shows after event `ev` on queue `s`, entry by entry:
/// the chapter's first entry takes the state the event reports (`Done` for a
/// finished chapter, `Error` for a failed one, `Queued` or `Downloading` for
/// the others) and, for `Progress`, the positive page counts it reports; a
/// chapter without an entry gets one only from `Queued` (no pages) or
/// `Progress` (its counts); every other entry stays as it was.
pub open spec fn final_state_of_event(s: Seq<DownloadEntry>, ev: DownloadEvent, t: Seq<DownloadEntry>) -> bool {
    let (id, url, st, creates) = match ev {
        DownloadEvent::Queued(id, url) => (id, url@, DownloadState::Queued, true),
        DownloadEvent::Progress { manga_id, chapter_url, .. } => (manga_id, chapter_url@, DownloadState::Downloading, true),
        DownloadEvent::Done(id, url) => (id, url@, DownloadState::Done, false),
        DownloadEvent::Errored(id, url, _) => (id, url@, DownloadState::Error, false),
    };
    &&& forall|i: int| #[trigger] first_entry_at(s, id, url, i) ==> t.len() == s.len() && t[i].state == st
        && is_entry(t[i], id, url) && match ev {
            DownloadEvent::Progress { done, total, .. } => {
                &&& t[i].total_pages == (if total > 0 { total } else { s[i].total_pages })
                &&& t[i].done_pages == (if done > 0 { done } else { s[i].done_pages })
            },
            _ => t[i].total_pages == s[i].total_pages && t[i].done_pages == s[i].done_pages,
        }
    &&& forall|i: int, k: int| #[trigger] first_entry_at(s, id, url, i) && 0 <= k < s.len() && k != i ==> #[trigger] t[k] == s[k]
    &&& (forall|j: int| 0 <= j < s.len() ==> !is_entry(#[trigger] s[j], id, url)) ==> if creates {
        &&& t.len() == s.len() + 1
        &&& t[s.len() as int].state == st
        &&& is_entry(t[s.len() as int], id, url)
        &&& match ev {
            DownloadEvent::Progress { done, total, .. } => t[s.len() as int].total_pages == total
                && t[s.len() as int].done_pages == done,
            _ => t[s.len() as int].total_pages == 0 && t[s.len() as int].done_pages == 0,
        }
        &&& forall|k: int| 0 <= k < s.len() ==> #[trigger] t[k] == s[k]
    } else {
        t == s
    }
}

proof fn lemma_first_entry(s: Seq<DownloadEntry>, id: i64, url: Seq<char>, i: int)
    requires
        first_entry_at(s, id, url, i),
    ensures
        entry_index(s, id, url) == Some(i),
{
    lemma_entry_index(s, id, url);
    let k = entry_index(s, id, url)->0;
    assert(first_entry_at(s, id, url, k));
    if k < i {
        assert(!is_entry(s[k], id, url));
    }
    if k > i {
        assert(!is_entry(s[i], id, url));
    }
}

/// Each event sets the state it reports on its chapter's entry and leaves
/// the others alone: a finished chapter shows `Done`, a failed one `Error`,
/// a queued one `Queued` and one in progress `Downloading`; `Done` and
/// `Errored` for a chapter without an entry change nothing.
pub proof fn event_sets_the_state(s: Seq<DownloadEntry>, ev: DownloadEvent)
    ensures
        final_state_of_event(s, ev, after_event(s, ev)),
{
    let (id, url) = match ev {
        DownloadEvent::Queued(id, url) => (id, url@),
        DownloadEvent::Progress { manga_id, chapter_url, .. } => (manga_id, chapter_url@),
        DownloadEvent::Done(id, url) => (id, url@),
        DownloadEvent::Errored(id, url, _) => (id, url@),
    };
    lemma_entry_index(s, id, url);
    assert forall|i: int| #[trigger] first_entry_at(s, id, url, i) implies entry_index(s, id, url) == Some(i) by {
        lemma_first_entry(s, id, url, i);
    }
}

/// The in-memory download queue of the downloads screen.
pub struct State {
    pub entries: Vec<DownloadEntry>,
}

/// Finds the first entry of chapter `url` of manga `id`.
fn find_entry(entries: &Vec<DownloadEntry>, id: i64, url: &String) -> (r: Option<usize>)
    ensures
        match r {
            Some(i) => entry_index(entries@, id, url@) == Some(i as int) && i < entries.len(),
            None => entry_index(entries@, id, url@) is None,
        },
{
    let mut i: usize = 0;
    while i < entries.len()
        invariant
            0 <= i <= entries.len(),
            forall|j: int| 0 <= j < i ==> !is_entry(#[trigger] entries@[j], id, url@),
        decreases entries.len() - i,
    {
        if entries[i].manga_id == id && entries[i].chapter_url == *url {
            proof {
                let s = entries@;
                let k = choose|k: int| 0 <= k < s.len() && is_entry(s[k], id, url@)
                    && forall|j: int| 0 <= j < k ==> !is_entry(#[trigger] s[j], id, url@);
                assert(is_entry(s[i as int], id, url@));
                if k < i {
                    assert(!is_entry(s[k], id, url@));
                }
                if k > i {
                    assert(!is_entry(s[i as int], id, url@));
                }
            }
            return Some(i);
        }
        i += 1;
    }
    None
}

/// Creates or updates the entry of a chapter.
fn upsert_entry(st: &mut State, id: i64, url: String, state: DownloadState, done: i32, total: i32)
    ensures
        final(st).entries@ == upserted(
            old(st).entries@, id, url@,
            DownloadEntry { manga_id: id, chapter_url: url, state, total_pages: total, done_pages: done },
            state, done, total,
        ),
{
    match find_entry(&st.entries, id, &url) {
        Some(i) => {
            let e = &st.entries[i];
            let next = DownloadEntry {
                manga_id: e.manga_id,
                chapter_url: e.chapter_url.clone(),
                state,
                total_pages: if total > 0 { total } else { e.total_pages },
                done_pages: if done > 0 { done } else { e.done_pages },
            };
            st.entries.set(i, next);
        },
        None => {
            st.entries.push(DownloadEntry { manga_id: id, chapter_url: url, state, total_pages: total, done_pages: done });
        },
    }
}

/// Changes the state of the first entry of a chapter, if it is known.
fn restate_entry(st: &mut State, id: i64, url: &String, state: DownloadState)
    ensures
        final(st).entries@ == restated(old(st).entries@, id, url@, state),
{
    match find_entry(&st.entries, id, url) {
        Some(i) => {
            let e = &st.entries[i];
            let next = DownloadEntry {
                manga_id: e.manga_id,
                chapter_url: e.chapter_url.clone(),
                state,
                total_pages: e.total_pages,
                done_pages: e.done_pages,
            };
            st.entries.set(i, next);
        },
        None => {},
    }
}

/// Applies an event of the download manager to the in-memory queue, in
/// place, without reading the database again.
pub fn apply_event(st: &mut State, ev: DownloadEvent)
    ensures
        final(st).entries@ == after_event(old(st).entries@, ev),
        final_state_of_event(old(st).entries@, ev, final(st).entries@),
{
    proof {
        event_sets_the_state(old(st).entries@, ev);
    }
    match ev {
        DownloadEvent::Queued(id, url) => upsert_entry(st, id, url, DownloadState::Queued, 0, 0),
        DownloadEvent::Progress { manga_id, chapter_url, done, total } =>
            upsert_entry(st, manga_id, chapter_url, DownloadState::Downloading, done, total),
        DownloadEvent::Done(id, url) => restate_entry(st, id, &url, DownloadState::Done),
        DownloadEvent::Errored(id, url, _) => restate_entry(st, id, &url, DownloadState::Error),
    }
}

/// No chapter has two entries.
pub open spec fn unique_entries(s: Seq<DownloadEntry>) -> bool {
    forall|i: int, j: int|
        0 <= i < s.len() && 0 <= j < s.len() && i != j
            ==> !(#[trigger] s[i].manga_id == #[trigger] s[j].manga_id && s[i].chapter_url@ == s[j].chapter_url@)
}

proof fn lemma_entry_index(s: Seq<DownloadEntry>, id: i64, url: Seq<char>)
    ensures
        match entry_index(s, id, url) {
            Some(i) => 0 <= i < s.len() && is_entry(s[i], id, url),
            None => forall|j: int| 0 <= j < s.len() ==> !is_entry(#[trigger] s[j], id, url),
        },
{
    if exists|i: int| 0 <= i < s.len() && is_entry(s[i], id, url) {
        let w = choose|i: int| 0 <= i < s.len() && is_entry(s[i], id, url);
        lemma_least_entry(s, id, url, w);
    }
}

proof fn lemma_least_entry(s: Seq<DownloadEntry>, id: i64, url: Seq<char>, w: int)
    requires
        0 <= w < s.len(),
        is_entry(s[w], id, url),
    ensures
        exists|i: int| 0 <= i < s.len() && is_entry(s[i], id, url)
            && forall|j: int| 0 <= j < i ==> !is_entry(#[trigger] s[j], id, url),
    decreases w,
{
    if exists|j: int| 0 <= j < w && is_entry(s[j], id, url) {
        let v = choose|j: int| 0 <= j < w && is_entry(s[j], id, url);
        lemma_least_entry(s, id, url, v);
    } else {
        assert(forall|j: int| 0 <= j < w ==> !is_entry(#[trigger] s[j], id, url));
    }
}

/// Applying events to a queue with one entry per chapter keeps one entry
/// per chapter: events update the existing entry instead of adding another.
pub proof fn events_keep_entries_unique(s: Seq<DownloadEntry>, ev: DownloadEvent)
    requires
        unique_entries(s),
    ensures
        unique_entries(after_event(s, ev)),
{
    let (id, url) = match ev {
        DownloadEvent::Queued(id, url) => (id, url@),
        DownloadEvent::Progress { manga_id, chapter_url, .. } => (manga_id, chapter_url@),
        DownloadEvent::Done(id, url) => (id, url@),
        DownloadEvent::Errored(id, url, _) => (id, url@),
    };
    lemma_entry_index(s, id, url);
    let t = after_event(s, ev);
    assert forall|i: int, j: int|
        0 <= i < t.len() && 0 <= j < t.len() && i != j
            implies !(#[trigger] t[i].manga_id == #[trigger] t[j].manga_id && t[i].chapter_url@ == t[j].chapter_url@) by {
        if i < s.len() && j < s.len() {
            assert(t[i].manga_id == s[i].manga_id && t[i].chapter_url@ == s[i].chapter_url@);
            assert(t[j].manga_id == s[j].manga_id && t[j].chapter_url@ == s[j].chapter_url@);
        } else if i < s.len() {
            assert(t[i].manga_id == s[i].manga_id && t[i].chapter_url@ == s[i].chapter_url@);
        } else {
            assert(t[j].manga_id == s[j].manga_id && t[j].chapter_url@ == s[j].chapter_url@);
        }
    }
}

/// The jobs that one round of the manager takes: the first `concurrency`
/// queued entries, in queue order.
pub fn take_batch(queued: Vec<DownloadEntry>, concurrency: usize) -> (r: Vec<DownloadEntry>)
    ensures
        r@ == queued@.take(if concurrency < queued@.len() { concurrency as int } else { queued@.len() as int }),
{
    let mut queued = queued;
    if concurrency < queued.len() {
        queued.truncate(concurrency);
    }
    queued
}

/// A chapter being downloaded page by page: what the manager reports as
/// the pages arrive.
#[derive(Debug)]
pub struct DownloadJob {
    pub manga_id: i64,
    pub chapter_url: String,
    pub total: i32,
    pub done: i32,
}

/// What happened to a job since its last step.
#[derive(Debug, Clone)]
pub enum JobStep {
    /// The manager takes the job up.
    Begin,
    /// The daemon listed this many pages for the chapter.
    PagesListed(usize),
    /// One more page is saved in the image cache.
    PageSaved,
    /// Something the job needed failed (the database, the daemon, a page);
    /// the text says what.
    PageFailed(String),
    /// Every page is saved.
    Finished,
}

/// What the manager does after a step: the state to store for the job,
/// the event to send, and whether the job is over.
#[derive(Debug, Clone)]
pub struct JobAction {
    pub set_state: Option<DownloadState>,
    pub event: Option<DownloadEvent>,
    pub stop: bool,
}

/// `next` and `a` are what `step` makes of job `j` and step `s`.
pub open spec fn job_step(j: DownloadJob, s: JobStep, next: DownloadJob, a: JobAction) -> bool {
    &&& next.manga_id == j.manga_id
    &&& next.chapter_url == j.chapter_url
    &&& match s {
        JobStep::Begin => {
            &&& next == j
            &&& a.set_state == Some(DownloadState::Downloading)
            &&& a.event is None
            &&& !a.stop
        },
        JobStep::PagesListed(n) => {
            &&& next.total == n as i32
            &&& next.done == 0
            &&& a.set_state is None
            &&& a.event is None
            &&& !a.stop
        },
        JobStep::PageSaved => {
            &&& next.done == j.done + 1
            &&& next.total == j.total
            &&& a.set_state is None
            &&& !a.stop
            &&& a.event matches Some(DownloadEvent::Progress { manga_id, chapter_url, done, total })
                && manga_id == j.manga_id && chapter_url@ == j.chapter_url@ && done == next.done
                && total == j.total
        },
        JobStep::PageFailed(m) => {
            &&& next == j
            &&& a.set_state == Some(DownloadState::Error)
            &&& a.stop
            &&& a.event matches Some(DownloadEvent::Errored(id, url, text)) && id == j.manga_id
                && url@ == j.chapter_url@ && text == m
        },
        JobStep::Finished => {
            &&& next == j
            &&& a.set_state == Some(DownloadState::Done)
            &&& a.stop
            &&& a.event matches Some(DownloadEvent::Done(id, url)) && id == j.manga_id && url@ == j.chapter_url@
        },
    }
}

impl DownloadJob {
    /// A job over `page_count` pages, none saved yet. The count is kept as
    /// an `i32`, wrapping as `as i32` does.
    pub fn start(manga_id: i64, chapter_url: String, page_count: usize) -> (r: DownloadJob)
        ensures
            r.manga_id == manga_id,
            r.chapter_url == chapter_url,
            r.total == page_count as i32,
            r.done == 0,
    {
        DownloadJob { manga_id, chapter_url, total: page_count as i32, done: 0 }
    }

    /// Takes one step of the job (see `job_step`): taking it up marks it
    /// downloading; each saved page adds one to `done` and reports the
    /// progress; a failure marks it in error, reports the failure and ends
    /// it; the end marks it done and reports it.
    pub fn step(&mut self, s: JobStep) -> (a: JobAction)
        requires
            s is PageSaved ==> old(self).done < old(self).total,
        ensures
            job_step(*old(self), s, *final(self), a),
    {
        match s {
            JobStep::Begin => JobAction { set_state: Some(DownloadState::Downloading), event: None, stop: false },
            JobStep::PagesListed(n) => {
                self.total = n as i32;
                self.done = 0;
                JobAction { set_state: None, event: None, stop: false }
            },
            JobStep::PageSaved => {
                self.done = self.done + 1;
                let ev = DownloadEvent::Progress {
                    manga_id: self.manga_id,
                    chapter_url: self.chapter_url.clone(),
                    done: self.done,
                    total: self.total,
                };
                JobAction { set_state: None, event: Some(ev), stop: false }
            },
            JobStep::PageFailed(m) => {
                let ev = DownloadEvent::Errored(self.manga_id, self.chapter_url.clone(), m);
                JobAction { set_state: Some(DownloadState::Error), event: Some(ev), stop: true }
            },
            JobStep::Finished => {
                let ev = DownloadEvent::Done(self.manga_id, self.chapter_url.clone());
                JobAction { set_state: Some(DownloadState::Done), event: Some(ev), stop: true }
            },
        }
    }
}

/// What a batch leaves of job `e` whose run ended with `failure` (the
/// error text, if it failed): `Error` and an `Errored` event with the text,
/// or `Done` and a `Done` event.
pub open spec fn job_result(e: DownloadEntry, failure: Option<String>, r: (DownloadState, DownloadEvent)) -> bool {
    match failure {
        Some(m) => {
            &&& r.0 == DownloadState::Error
            &&& r.1 matches DownloadEvent::Errored(id, url, text) && id == e.manga_id && url@ == e.chapter_url@
                && text@ == m@
        },
        None => {
            &&& r.0 == DownloadState::Done
            &&& r.1 matches DownloadEvent::Done(id, url) && id == e.manga_id && url@ == e.chapter_url@
        },
    }
}

/// The outcome of a round of the manager, job by job: a job that failed is
/// left in `Error` with an `Errored` event, and a failure stops nothing else,
/// since every other job of the batch gets the result of its own run.
pub fn batch_results(batch: &Vec<DownloadEntry>, failures: &Vec<Option<String>>) -> (r: Vec<(DownloadState, DownloadEvent)>)
    requires
        batch.len() == failures.len(),
    ensures
        r.len() == batch.len(),
        forall|i: int| 0 <= i < batch.len() ==> job_result(#[trigger] batch@[i], failures@[i], r@[i]),
{
    let mut r: Vec<(DownloadState, DownloadEvent)> = Vec::new();
    let mut i: usize = 0;
    while i < batch.len()
        invariant
            0 <= i <= batch.len(),
            batch.len() == failures.len(),
            r.len() == i,
            forall|k: int| 0 <= k < i ==> job_result(#[trigger] batch@[k], failures@[k], r@[k]),
        decreases batch.len() - i,
    {
        let e = &batch[i];
        let res = match &failures[i] {
            Some(m) => (DownloadState::Error, DownloadEvent::Errored(e.manga_id, e.chapter_url.clone(), m.clone())),
            None => (DownloadState::Done, DownloadEvent::Done(e.manga_id, e.chapter_url.clone())),
        };
        r.push(res);
        i += 1;
    }
    r
}

} // verus!
