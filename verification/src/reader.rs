//! The chapter reader: reading modes, colour filters and page navigation.
use vstd::prelude::*;
use crate::text::str_eq;

verus! {

/// Reading mode: one long vertical strip, or one page per screen.
#[derive(Debug, Clone, Copy, PartialEq, Eq, Structural, Default)]
pub enum ReadMode {
    #[default]
    Webtoon,
    Paginated,
}

/// Colour filter applied to the pages.
#[derive(Debug, Clone, Copy, PartialEq, Eq, Structural, Default)]
pub enum ColorFilter {
    #[default]
    Off,
    Inverted,
    Grayscale,
    Sepia,
    Bluelight,
}

/// The value stored in the settings for a filter.
pub open spec fn filter_setting(f: ColorFilter) -> Seq<char> {
    match f {
        ColorFilter::Off => "none"@,
        ColorFilter::Inverted => "inverted"@,
        ColorFilter::Grayscale => "grayscale"@,
        ColorFilter::Sepia => "sepia"@,
        ColorFilter::Bluelight => "bluelight"@,
    }
}

/// The filter that a stored setting names; anything unknown is no filter.
pub open spec fn filter_from(v: Seq<char>) -> ColorFilter {
    if v == "inverted"@ {
        ColorFilter::Inverted
    } else if v == "grayscale"@ {
        ColorFilter::Grayscale
    } else if v == "sepia"@ {
        ColorFilter::Sepia
    } else if v == "bluelight"@ {
        ColorFilter::Bluelight
    } else {
        ColorFilter::Off
    }
}

/// The label shown for a filter in the reader's panel.
pub open spec fn filter_label(f: ColorFilter) -> Seq<char> {
    match f {
        ColorFilter::Off => "Ninguno"@,
        ColorFilter::Inverted => "Invertir (Modo noche)"@,
        ColorFilter::Grayscale => "Blanco y negro"@,
        ColorFilter::Sepia => "Sepia (Papel)"@,
        ColorFilter::Bluelight => "Anti luz azul"@,
    }
}

/// The filters in the order the panel lists them.
pub open spec fn all_filters() -> Seq<ColorFilter> {
    seq![ColorFilter::Off, ColorFilter::Inverted, ColorFilter::Grayscale, ColorFilter::Sepia, ColorFilter::Bluelight]
}

impl ColorFilter {
    /// Every filter, in the order the panel lists them.
    pub fn all() -> (r: Vec<ColorFilter>)
        ensures
            r@ == all_filters(),
    {
        let mut r: Vec<ColorFilter> = Vec::new();
        r.push(ColorFilter::Off);
        r.push(ColorFilter::Inverted);
        r.push(ColorFilter::Grayscale);
        r.push(ColorFilter::Sepia);
        r.push(ColorFilter::Bluelight);
        r
    }

    /// The label shown for the filter.
    pub fn label(&self) -> (r: &'static str)
        ensures
            r@ == filter_label(*self),
    {
        match self {
            ColorFilter::Off => "Ninguno",
            ColorFilter::Inverted => "Invertir (Modo noche)",
            ColorFilter::Grayscale => "Blanco y negro",
            ColorFilter::Sepia => "Sepia (Papel)",
            ColorFilter::Bluelight => "Anti luz azul",
        }
    }

    /// The filter named by a stored setting; unknown values select no filter.
    pub fn from_setting(value: &str) -> (r: ColorFilter)
        ensures
            r == filter_from(value@),
    {
        if str_eq(value, "inverted") {
            ColorFilter::Inverted
        } else if str_eq(value, "grayscale") {
            ColorFilter::Grayscale
        } else if str_eq(value, "sepia") {
            ColorFilter::Sepia
        } else if str_eq(value, "bluelight") {
            ColorFilter::Bluelight
        } else {
            ColorFilter::Off
        }
    }

    /// The value stored in the settings for the filter.
    pub fn setting(self) -> (r: &'static str)
        ensures
            r@ == filter_setting(self),
    {
        match self {
            ColorFilter::Off => "none",
            ColorFilter::Inverted => "inverted",
            ColorFilter::Grayscale => "grayscale",
            ColorFilter::Sepia => "sepia",
            ColorFilter::Bluelight => "bluelight",
        }
    }
}

/// The value stored in the settings for a reading mode.
pub open spec fn mode_setting(m: ReadMode) -> Seq<char> {
    match m {
        ReadMode::Webtoon => "webtoon"@,
        ReadMode::Paginated => "paginated"@,
    }
}

/// The mode a stored setting names: `paginated`, or the vertical strip.
pub open spec fn mode_from(v: Seq<char>) -> ReadMode {
    if v == "paginated"@ { ReadMode::Paginated } else { ReadMode::Webtoon }
}

impl ReadMode {
    /// The mode named by a stored setting; anything but `paginated` is webtoon.
    pub fn from_setting(value: &str) -> (r: ReadMode)
        ensures
            r == mode_from(value@),
    {
        if str_eq(value, "paginated") { ReadMode::Paginated } else { ReadMode::Webtoon }
    }

    /// The value stored in the settings for the mode.
    pub fn setting(self) -> (r: &'static str)
        ensures
            r@ == mode_setting(self),
    {
        match self {
            ReadMode::Webtoon => "webtoon",
            ReadMode::Paginated => "paginated",
        }
    }

    /// The other mode (the reader's toggle).
    pub fn toggled(self) -> (r: ReadMode)
        ensures
            r != self,
    {
        match self {
            ReadMode::Webtoon => ReadMode::Paginated,
            ReadMode::Paginated => ReadMode::Webtoon,
        }
    }
}

/// Storing a filter in the settings and reading it back gives the same filter.
pub proof fn filter_setting_roundtrip(f: ColorFilter)
    ensures
        filter_from(filter_setting(f)) == f,
{
    reveal_strlit("none");
    reveal_strlit("inverted");
    reveal_strlit("grayscale");
    reveal_strlit("sepia");
    reveal_strlit("bluelight");
    assert("none"@.len() == 4);
    assert("inverted"@.len() == 8);
    assert("grayscale"@.len() == 9);
    assert("sepia"@.len() == 5);
    assert("bluelight"@.len() == 9);
    assert("grayscale"@[0] != "bluelight"@[0]);
}

/// Storing a reading mode in the settings and reading it back gives the same mode.
pub proof fn mode_setting_roundtrip(m: ReadMode)
    ensures
        mode_from(mode_setting(m)) == m,
{
    reveal_strlit("webtoon");
    reveal_strlit("paginated");
    assert("webtoon"@.len() == 7);
    assert("paginated"@.len() == 9);
}

/// The inverted image: every colour channel `c` of an RGBA pixel becomes
/// `255 - c`; alpha is kept.
pub open spec fn inverted_byte(bytes: Seq<u8>, i: int) -> u8 {
    if i % 4 == 3 { bytes[i] } else { (255 - bytes[i]) as u8 }
}

/// Applies the `Inverted` filter to raw RGBA pixels (four bytes per pixel).
/// The other filters weigh channels with floating-point factors and are
/// applied by the application.
pub fn invert_rgba(pixels: &mut Vec<u8>)
    ensures
        final(pixels)@.len() == old(pixels)@.len(),
        forall|i: int| 0 <= i < old(pixels)@.len() ==> #[trigger] final(pixels)@[i] == inverted_byte(old(pixels)@, i),
{
    let n = pixels.len();
    let mut i: usize = 0;
    while i < n
        invariant
            n == pixels.len(),
            n == old(pixels)@.len(),
            0 <= i <= n,
            forall|j: int| 0 <= j < i ==> #[trigger] pixels@[j] == inverted_byte(old(pixels)@, j),
            forall|j: int| i <= j < n ==> #[trigger] pixels@[j] == old(pixels)@[j],
        decreases n - i,
    {
        if i % 4 != 3 {
            let b = pixels[i];
            pixels.set(i, 255 - b);
        }
        i += 1;
    }
}

/// The page after `cur`, staying on the last page.
pub open spec fn next_page_index(cur: nat, count: nat) -> nat {
    if cur + 1 < count { cur + 1 } else { cur }
}

/// The page before `cur`, staying on the first page.
pub open spec fn prev_page_index(cur: nat) -> nat {
    if cur > 0 { (cur - 1) as nat } else { 0 }
}

/// Turning a page forward keeps the reader inside the chapter, and turning
/// it back again returns to the page where it was.
pub proof fn page_turns_stay_in_chapter(cur: nat, count: nat)
    ensures
        cur < count ==> next_page_index(cur, count) < count,
        cur + 1 < count ==> prev_page_index(next_page_index(cur, count)) == cur,
        prev_page_index(cur) <= cur,
{
}

/// The note shown when a chapter has no pages.
pub open spec fn no_pages_note() -> Seq<char> {
    "No se encontraron páginas."@
}

/// What the reader remembers of the open chapter: where the reader is, which
/// pages are on disk and shown, and the state of its panels.
#[derive(Debug)]
pub struct Session {
    /// The open chapter.
    pub chapter: Option<crate::models::Chapter>,
    /// How many chapters the manga has (the list itself stays with the
    /// screen).
    pub chapter_count: usize,
    /// Position of the open chapter in that list.
    pub current_chapter: usize,
    /// For each page, whether its image is on disk.
    pub on_disk: Vec<bool>,
    /// For each page, whether its image is ready to be shown.
    pub ready: Vec<bool>,
    /// For each page, the file its image was saved to (empty until it is).
    pub paths: Vec<String>,
    /// For each page, the width and height of its image ((0, 0) until it
    /// is known); the strip keeps a page's height before it is drawn.
    pub dims: Vec<(u32, u32)>,
    pub current_page: usize,
    pub loading: bool,
    /// Number of the current chapter load; answers of older loads are dropped.
    pub load_generation: u64,
    /// The HTTP headers that the source asks for its images.
    pub headers: Vec<(String, String)>,
    pub read_mode: ReadMode,
    pub color_filter: ColorFilter,
    pub show_ui: bool,
    pub show_filters: bool,
    pub error: Option<String>,
    pub is_fullscreen: bool,
    /// Number of the current filter run; results of older runs are dropped.
    pub filter_generation: u64,
    /// Pages of the current filter run still being processed.
    pub filter_pending: usize,
}

impl Session {
    /// One flag of each kind per page.
    pub open spec fn wf(&self) -> bool {
        &&& self.on_disk.len() == self.ready.len()
        &&& self.paths.len() == self.ready.len()
        &&& self.dims.len() == self.ready.len()
    }
}

/// `u64::wrapping_add(1)`.
pub open spec fn next_generation(g: u64) -> u64 {
    if g == u64::MAX { 0 } else { (g + 1) as u64 }
}

fn bump(g: u64) -> (r: u64)
    ensures
        r == next_generation(g),
{
    if g == u64::MAX { 0 } else { g + 1 }
}

/// The positions of the pages that are on disk, in order.
pub open spec fn disk_pages(on_disk: Seq<bool>) -> Seq<int>
    decreases on_disk.len(),
{
    if on_disk.len() == 0 {
        Seq::empty()
    } else {
        let prev = disk_pages(on_disk.drop_last());
        if on_disk.last() { prev.push(on_disk.len() - 1) } else { prev }
    }
}

/// `next` and `out` are what `pages_fetched` makes of `w` and an answer.
pub open spec fn pages_step(
    w: Session,
    generation: u64,
    result: Result<Vec<crate::models::Page>, crate::rpc::DaemonError>,
    next: Session,
    out: Option<Vec<crate::models::Page>>,
) -> bool {
    &&& generation != w.load_generation ==> next == w && out is None
    &&& generation == w.load_generation ==> match result {
        Err(e) => {
            &&& out is None
            &&& next == (Session { loading: false, error: next.error, ..w })
            &&& next.error is Some
            &&& next.error->0@ == crate::rpc::error_text(e)
        },
        Ok(pages) => if pages.len() == 0 {
            &&& out is None
            &&& next == (Session { loading: false, error: next.error, ..w })
            &&& next.error is Some
            &&& next.error->0@ == no_pages_note()
        } else {
            &&& out == Some(pages)
            &&& next == (Session { current_page: next.current_page, ..w })
            &&& next.current_page == if w.current_page < pages.len() {
                w.current_page as int
            } else {
                pages.len() - 1
            }
        }
    }
}

/// `next` is what `headers_fetched` makes of `w` and an answer.
pub open spec fn headers_step(
    w: Session,
    generation: u64,
    result: Result<Vec<(String, String)>, crate::rpc::DaemonError>,
    next: Session,
) -> bool {
    &&& generation != w.load_generation ==> next == w
    &&& generation == w.load_generation ==> match result {
        Ok(h) => next == (Session { headers: h, ..w }),
        Err(e) => {
            &&& next == (Session { error: next.error, ..w })
            &&& next.error is Some
            &&& next.error->0@ == crate::rpc::error_text(e)
        }
    }
}

/// The image headers that the source answers for the current load are the
/// ones the page downloads use: a successful answer of the current load
/// stores exactly the answered headers, and an answer of an older load
/// leaves them as they were.
pub proof fn current_headers_are_kept(
    w: Session,
    generation: u64,
    result: Result<Vec<(String, String)>, crate::rpc::DaemonError>,
    next: Session,
)
    requires
        headers_step(w, generation, result, next),
    ensures
        generation == w.load_generation && result is Ok ==> next.headers == result->Ok_0,
        generation != w.load_generation ==> next.headers == w.headers,
        result is Err ==> next.headers == w.headers,
        generation == w.load_generation && result is Err ==> next.error is Some
            && next.error->0@ == crate::rpc::error_text(result->Err_0),
        next.load_generation == w.load_generation,
        next.paths == w.paths && next.ready == w.ready && next.current_page == w.current_page,
{
}

/// `next` and `out` are what `page_downloaded` makes of `w` and a download.
pub open spec fn download_step(
    w: Session,
    generation: u64,
    index: usize,
    entry: Option<(String, (u32, u32))>,
    next: Session,
    out: bool,
) -> bool {
    &&& out == (generation == w.load_generation)
    &&& !out ==> next == w
    &&& out ==> next.ready.len() == if index < w.ready.len() { w.ready.len() as int } else { index + 1 }
    &&& out ==> forall|i: int| 0 <= i < next.ready.len() && i != index ==> #[trigger] next.ready@[i]
            == (i < w.ready.len() && w.ready@[i])
    &&& out ==> forall|i: int| 0 <= i < next.on_disk.len() && i != index ==> #[trigger] next.on_disk@[i]
            == (i < w.on_disk.len() && w.on_disk@[i])
    &&& out ==> forall|i: int| 0 <= i < next.paths.len() && i != index ==> #[trigger] next.paths@[i]@
            == (if i < w.paths.len() { w.paths@[i]@ } else { Seq::empty() })
    &&& out ==> forall|i: int| 0 <= i < next.dims.len() && i != index ==> #[trigger] next.dims@[i]
            == (if i < w.dims.len() { w.dims@[i] } else { (0u32, 0u32) })
    &&& out ==> match entry {
        Some((p, d)) => {
            &&& next.ready@[index as int]
            &&& next.on_disk@[index as int]
            &&& next.paths@[index as int]@ == p@
            &&& next.dims@[index as int] == d
        },
        None => {
            &&& next.ready@[index as int] == (index < w.ready.len() && w.ready@[index as int])
            &&& next.on_disk@[index as int] == (index < w.on_disk.len()
                && w.on_disk@[index as int])
            &&& next.paths@[index as int]@ == (if index < w.paths.len() {
                w.paths@[index as int]@
            } else {
                Seq::empty()
            })
            &&& next.dims@[index as int] == (if index < w.dims.len() {
                w.dims@[index as int]
            } else {
                (0u32, 0u32)
            })
        }
    }
    &&& out ==> next.loading == (w.loading
            && !(exists|i: int| 0 <= i < next.ready.len() && #[trigger] next.ready@[i]))
    &&& out ==> next == (Session {
            ready: next.ready,
            on_disk: next.on_disk,
            paths: next.paths,
            dims: next.dims,
            loading: next.loading,
            ..w
        })
}

/// `next` and `out` are what `filtered_page` makes of `w` and a filtered page.
pub open spec fn filter_step(
    w: Session,
    generation: u64,
    next: Session,
    out: bool,
) -> bool {
    &&& out == (generation == w.filter_generation)
    &&& !out ==> next == w
    &&& out ==> next == (Session {
        filter_pending: if w.filter_pending > 0 { (w.filter_pending - 1) as usize } else { 0 },
        ..w
    })
}

impl Session {
    /// Opens `chapter`: a new load starts (older answers will be dropped),
    /// mode and filter come from the settings, no page is known yet, the
    /// reader starts at `saved_page` (see `resume_page`), and the bar shows.
    /// Without the daemon nothing is loading.
    pub fn open_chapter(
        &mut self,
        chapter: crate::models::Chapter,
        mode_value: &str,
        filter_value: &str,
        saved_page: usize,
        daemon_ready: bool,
    ) -> (g: u64)
        ensures
            final(self).wf(),
            final(self).chapter == Some(chapter),
            g == final(self).load_generation,
            final(self).load_generation == next_generation(old(self).load_generation),
            final(self).read_mode == mode_from(mode_value@),
            final(self).color_filter == filter_from(filter_value@),
            final(self).on_disk.len() == 0,
            final(self).ready.len() == 0,
            final(self).paths.len() == 0,
            final(self).dims.len() == 0,
            final(self).current_page == saved_page,
            final(self).loading == daemon_ready,
            final(self).error is None,
            final(self).show_ui,
            !final(self).show_filters,
            final(self).chapter_count == old(self).chapter_count,
            final(self).current_chapter == old(self).current_chapter,
            final(self).headers == old(self).headers,
            final(self).is_fullscreen == old(self).is_fullscreen,
            final(self).filter_generation == old(self).filter_generation,
            final(self).filter_pending == old(self).filter_pending,
    {
        self.load_generation = bump(self.load_generation);
        self.chapter = Some(chapter);
        self.read_mode = ReadMode::from_setting(mode_value);
        self.color_filter = ColorFilter::from_setting(filter_value);
        self.on_disk = Vec::new();
        self.ready = Vec::new();
        self.paths = Vec::new();
        self.dims = Vec::new();
        self.current_page = saved_page;
        self.loading = daemon_ready;
        self.error = None;
        self.show_ui = true;
        self.show_filters = false;
        self.load_generation
    }

    /// Takes the list of pages of load `generation`. Answers of older loads
    /// change nothing. An error, or an empty chapter, stops loading with a
    /// note. Otherwise the current page is kept inside the chapter and the
    /// pages are handed back to be downloaded.
    pub fn pages_fetched(
        &mut self,
        generation: u64,
        result: Result<Vec<crate::models::Page>, crate::rpc::DaemonError>,
    ) -> (r: Option<Vec<crate::models::Page>>)
        requires
            old(self).wf(),
        ensures
            final(self).wf(),
            pages_step(*old(self), generation, result, *final(self), r),
    {
        if generation != self.load_generation {
            return None;
        }
        match result {
            Err(e) => {
                self.loading = false;
                self.error = Some(e.message());
                None
            },
            Ok(pages) => {
                if pages.len() == 0 {
                    self.loading = false;
                    self.error = Some(crate::text::owned("No se encontraron páginas."));
                    return None;
                }
                if self.current_page >= pages.len() {
                    self.current_page = pages.len() - 1;
                }
                Some(pages)
            },
        }
    }

    /// Takes the headers of load `generation`: stored on success, reported
    /// on failure; older answers change nothing.
    pub fn headers_fetched(
        &mut self,
        generation: u64,
        result: Result<Vec<(String, String)>, crate::rpc::DaemonError>,
    )
        ensures
            headers_step(*old(self), generation, result, *final(self)),
            generation == old(self).load_generation && result is Ok ==> final(self).headers == result->Ok_0,
    {
        if generation != self.load_generation {
            return;
        }
        match result {
            Ok(h) => self.headers = h,
            Err(e) => self.error = Some(e.message()),
        }
    }

    /// Takes a downloaded page of load `generation`: the page list grows to
    /// hold `index` (new slots hold no file and no size), a page that
    /// arrived (`entry`: its file and size) is recorded, on disk and ready,
    /// and loading stops once some page is ready. Older downloads are
    /// dropped. Answers whether the page belongs to the current load.
    pub fn page_downloaded(&mut self, generation: u64, index: usize, entry: Option<(String, (u32, u32))>) -> (r: bool)
        requires
            old(self).wf(),
            index < usize::MAX,
        ensures
            final(self).wf(),
            download_step(*old(self), generation, index, entry, *final(self), r),
    {
        if generation != self.load_generation {
            return false;
        }
        let ghost before = self.ready@;
        let ghost before_disk = self.on_disk@;
        let ghost before_paths = self.paths@;
        let ghost before_dims = self.dims@;
        while self.ready.len() <= index
            invariant
                self.on_disk.len() == self.ready.len(),
                self.paths.len() == self.ready.len(),
                self.dims.len() == self.ready.len(),
                index < usize::MAX,
                before.len() <= self.ready.len(),
                self.ready.len() <= if index < before.len() { before.len() as int } else { index + 1 },
                forall|i: int| 0 <= i < self.ready.len() ==> #[trigger] self.ready@[i]
                    == (i < before.len() && before[i]),
                forall|i: int| 0 <= i < self.on_disk.len() ==> #[trigger] self.on_disk@[i]
                    == (i < before_disk.len() && before_disk[i]),
                forall|i: int| 0 <= i < self.paths.len() ==> #[trigger] self.paths@[i]@
                    == (if i < before_paths.len() { before_paths[i]@ } else { Seq::empty() }),
                forall|i: int| 0 <= i < self.dims.len() ==> #[trigger] self.dims@[i]
                    == (if i < before_dims.len() { before_dims[i] } else { (0u32, 0u32) }),
                before.len() == before_disk.len(),
                before.len() == before_paths.len(),
                before.len() == before_dims.len(),
                *self == (Session { ready: self.ready, on_disk: self.on_disk, paths: self.paths, dims: self.dims, ..*old(self) }),
            decreases index + 1 - self.ready.len(),
        {
            self.ready.push(false);
            self.on_disk.push(false);
            self.paths.push(String::new());
            self.dims.push((0, 0));
        }
        match entry {
            Some((p, d)) => {
                self.ready.set(index, true);
                self.on_disk.set(index, true);
                self.paths.set(index, p);
                self.dims.set(index, d);
            },
            None => {},
        }
        let mut any = false;
        let mut i: usize = 0;
        while i < self.ready.len()
            invariant
                0 <= i <= self.ready.len(),
                any == exists|j: int| 0 <= j < i && #[trigger] self.ready@[j],
            decreases self.ready.len() - i,
        {
            if self.ready[i] {
                any = true;
            }
            i += 1;
        }
        if any {
            self.loading = false;
        }
        true
    }

    /// Takes a page of filter run `generation`: older runs change nothing;
    /// otherwise one page less is pending. Answers whether the page belongs
    /// to the current run.
    pub fn filtered_page(&mut self, generation: u64) -> (r: bool)
        ensures
            filter_step(*old(self), generation, *final(self), r),
    {
        if generation != self.filter_generation {
            return false;
        }
        self.filter_pending = if self.filter_pending > 0 { self.filter_pending - 1 } else { 0 };
        true
    }

    /// The webtoon strip was scrolled to the page at `candidate` (counted by
    /// the application from the scroll offset): the page becomes current,
    /// kept inside the chapter. Answers whether the current page changed.
    pub fn scrolled_to(&mut self, candidate: usize) -> (r: bool)
        ensures
            old(self).ready.len() == 0 ==> *final(self) == *old(self) && !r,
            old(self).ready.len() > 0 ==> {
                let idx = if candidate < old(self).ready.len() { candidate as int } else { old(self).ready.len() - 1 };
                &&& r == (idx != old(self).current_page)
                &&& *final(self) == (Session { current_page: idx as usize, ..*old(self) })
            },
    {
        let total = self.ready.len();
        if total == 0 {
            return false;
        }
        let idx = if candidate < total { candidate } else { total - 1 };
        if idx != self.current_page {
            self.current_page = idx;
            true
        } else {
            false
        }
    }

    /// The previous page (paginated mode).
    pub fn prev_page(&mut self)
        ensures
            *final(self) == (Session {
                current_page: prev_page_index(old(self).current_page as nat) as usize,
                ..*old(self)
            }),
    {
        self.current_page = if self.current_page > 0 { self.current_page - 1 } else { 0 };
    }

    /// The next page (paginated mode), staying on the last one.
    pub fn next_page(&mut self)
        ensures
            *final(self) == (Session {
                current_page: next_page_index(old(self).current_page as nat, old(self).ready.len() as nat) as usize,
                ..*old(self)
            }),
    {
        if self.current_page < usize::MAX && self.current_page + 1 < self.ready.len() {
            self.current_page = self.current_page + 1;
        }
    }

    /// Moves to the next chapter if there is one, and answers its position
    /// (the application then opens it).
    pub fn next_chapter(&mut self) -> (r: Option<usize>)
        ensures
            old(self).current_chapter + 1 < old(self).chapter_count ==> {
                &&& r == Some((old(self).current_chapter + 1) as usize)
                &&& *final(self) == (Session { current_chapter: r->0, ..*old(self) })
            },
            !(old(self).current_chapter + 1 < old(self).chapter_count) ==> r is None && *final(self) == *old(self),
    {
        if self.current_chapter < usize::MAX && self.current_chapter + 1 < self.chapter_count {
            self.current_chapter = self.current_chapter + 1;
            Some(self.current_chapter)
        } else {
            None
        }
    }

    /// Moves to the previous chapter if there is one, and answers its
    /// position.
    pub fn prev_chapter(&mut self) -> (r: Option<usize>)
        ensures
            old(self).current_chapter > 0 ==> {
                &&& r == Some((old(self).current_chapter - 1) as usize)
                &&& *final(self) == (Session { current_chapter: r->0, ..*old(self) })
            },
            old(self).current_chapter == 0 ==> r is None && *final(self) == *old(self),
    {
        if self.current_chapter > 0 {
            self.current_chapter = self.current_chapter - 1;
            Some(self.current_chapter)
        } else {
            None
        }
    }

    /// Switches the reading mode and answers the value to store in the
    /// settings.
    pub fn toggle_mode(&mut self) -> (r: &'static str)
        ensures
            final(self).read_mode != old(self).read_mode,
            *final(self) == (Session { read_mode: final(self).read_mode, ..*old(self) }),
            r@ == mode_setting(final(self).read_mode),
    {
        self.read_mode = self.read_mode.toggled();
        self.read_mode.setting()
    }

    /// Opens or closes the filter panel.
    pub fn toggle_filter_panel(&mut self)
        ensures
            *final(self) == (Session { show_filters: !old(self).show_filters, ..*old(self) }),
    {
        self.show_filters = !self.show_filters;
    }

    /// A tap on the page: it first closes the filter panel, and otherwise
    /// shows or hides the bar.
    pub fn toggle_ui(&mut self)
        ensures
            old(self).show_filters ==> *final(self) == (Session { show_filters: false, ..*old(self) }),
            !old(self).show_filters ==> *final(self) == (Session { show_ui: !old(self).show_ui, ..*old(self) }),
    {
        if self.show_filters {
            self.show_filters = false;
        } else {
            self.show_ui = !self.show_ui;
        }
    }

    /// Enters or leaves full screen, and answers the new state.
    pub fn toggle_fullscreen(&mut self) -> (r: bool)
        ensures
            r == !old(self).is_fullscreen,
            *final(self) == (Session { is_fullscreen: r, ..*old(self) }),
    {
        self.is_fullscreen = !self.is_fullscreen;
        self.is_fullscreen
    }

    /// Leaving the reader: answers whether the window has to leave full
    /// screen.
    pub fn leave(&mut self) -> (r: bool)
        ensures
            r == old(self).is_fullscreen,
            *final(self) == (Session { is_fullscreen: false, ..*old(self) }),
    {
        let was = self.is_fullscreen;
        self.is_fullscreen = false;
        was
    }

    /// Chooses a colour filter: a new filter run starts over the pages on
    /// disk, whose positions are answered. With no filter nothing is left
    /// to process (the application shows the files as they are).
    pub fn set_filter(&mut self, f: ColorFilter) -> (r: (u64, Vec<usize>))
        requires
            old(self).wf(),
        ensures
            r.0 == final(self).filter_generation,
            r.1@.map_values(|i: usize| i as int) == disk_pages(old(self).on_disk@),
            *final(self) == (Session {
                color_filter: f,
                filter_generation: next_generation(old(self).filter_generation),
                filter_pending: if f == ColorFilter::Off { 0 } else { r.1.len() },
                ..*old(self)
            }),
    {
        self.color_filter = f;
        self.filter_generation = bump(self.filter_generation);
        let mut pages: Vec<usize> = Vec::new();
        let mut i: usize = 0;
        while i < self.on_disk.len()
            invariant
                0 <= i <= self.on_disk.len(),
                pages@.map_values(|k: usize| k as int) == disk_pages(self.on_disk@.take(i as int)),
                pages.len() <= i,
            decreases self.on_disk.len() - i,
        {
            let ghost prev = pages@;
            assert(self.on_disk@.take(i + 1).drop_last() == self.on_disk@.take(i as int));
            assert(self.on_disk@.take(i + 1).last() == self.on_disk@[i as int]);
            if self.on_disk[i] {
                pages.push(i);
                assert(pages@.map_values(|k: usize| k as int) == prev.map_values(|k: usize| k as int).push(i as int));
            }
            i += 1;
        }
        assert(self.on_disk@.take(self.on_disk.len() as int) == self.on_disk@);
        self.filter_pending = if f == ColorFilter::Off { 0 } else { pages.len() };
        (self.filter_generation, pages)
    }
}

/// A key pressed while the reader is shown, as the keyboard reports it.
#[derive(Debug, Clone)]
pub enum ReaderKey {
    ArrowLeft,
    ArrowRight,
    Escape,
    /// A key that types text; the text it types.
    Character(String),
    /// Any other named key.
    Other,
}

/// What a keyboard shortcut of the reader does.
#[derive(Debug, Clone, Copy, PartialEq, Eq, Structural)]
pub enum ReaderShortcut {
    PrevPage,
    NextPage,
    Back,
    ToggleFullscreen,
}

/// The reader's shortcuts: the arrows turn pages, Escape leaves the reader
/// and `f` toggles full screen; every other key does nothing.
pub open spec fn spec_shortcut(key: ReaderKey) -> Option<ReaderShortcut> {
    match key {
        ReaderKey::ArrowLeft => Some(ReaderShortcut::PrevPage),
        ReaderKey::ArrowRight => Some(ReaderShortcut::NextPage),
        ReaderKey::Escape => Some(ReaderShortcut::Back),
        ReaderKey::Character(c) => if c@ == "f"@ { Some(ReaderShortcut::ToggleFullscreen) } else { None },
        ReaderKey::Other => None,
    }
}

/// The shortcut bound to a key in the reader (see `spec_shortcut`).
pub fn reader_shortcut(key: &ReaderKey) -> (r: Option<ReaderShortcut>)
    ensures
        r == spec_shortcut(*key),
{
    match key {
        ReaderKey::ArrowLeft => Some(ReaderShortcut::PrevPage),
        ReaderKey::ArrowRight => Some(ReaderShortcut::NextPage),
        ReaderKey::Escape => Some(ReaderShortcut::Back),
        ReaderKey::Character(c) => if str_eq(c.as_str(), "f") { Some(ReaderShortcut::ToggleFullscreen) } else { None },
        ReaderKey::Other => None,
    }
}

/// Whether page `idx` lies within two pages of `current`.
pub open spec fn in_render_window(idx: int, current: int) -> bool {
    idx - 2 <= current <= idx + 2
}

impl Session {
    /// Whether the webtoon strip draws the image of page `idx`: only a
    /// ready page within two pages of the current one does (drawing every
    /// page of a long chapter exhausts the graphics memory); every other page
    /// keeps a placeholder of its height.
    pub fn draws_page(&self, idx: usize) -> (r: bool)
        ensures
            r == (idx < self.ready.len() && self.ready@[idx as int]
                && in_render_window(idx as int, self.current_page as int)),
    {
        let near = if idx >= self.current_page { idx - self.current_page <= 2 } else { self.current_page - idx <= 2 };
        idx < self.ready.len() && self.ready[idx] && near
    }
}

/// An answer that reaches the reader from work it started.
#[derive(Debug)]
pub enum ReaderAnswer {
    /// The page list of chapter load `generation`.
    PagesFetched { generation: u64, result: Result<Vec<crate::models::Page>, crate::rpc::DaemonError> },
    /// The image headers of the source, asked by chapter load `generation`.
    HeadersFetched { generation: u64, result: Result<Vec<(String, String)>, crate::rpc::DaemonError> },
    /// Page `index` of chapter load `generation`: its file and size when it
    /// arrived.
    PageDownloaded { generation: u64, index: usize, entry: Option<(String, (u32, u32))> },
    /// A page of filter run `generation`.
    FilteredPage { generation: u64 },
}

/// The answer belongs to a chapter load, or a filter run, that a newer one
/// has replaced.
pub open spec fn answer_is_stale(w: Session, a: ReaderAnswer) -> bool {
    match a {
        ReaderAnswer::PagesFetched { generation, .. } => generation != w.load_generation,
        ReaderAnswer::HeadersFetched { generation, .. } => generation != w.load_generation,
        ReaderAnswer::PageDownloaded { generation, .. } => generation != w.load_generation,
        ReaderAnswer::FilteredPage { generation } => generation != w.filter_generation,
    }
}

/// `next` and `pages` are what `take_answer` makes of `w` and `a`: each
/// answer is taken by its own step, and only a page list asks for
/// downloads.
pub open spec fn answer_step(w: Session, a: ReaderAnswer, next: Session, pages: Option<Vec<crate::models::Page>>) -> bool {
    match a {
        ReaderAnswer::PagesFetched { generation, result } => pages_step(w, generation, result, next, pages),
        ReaderAnswer::HeadersFetched { generation, result } => headers_step(w, generation, result, next)
            && pages is None,
        ReaderAnswer::PageDownloaded { generation, index, entry } => download_step(
            w,
            generation,
            index,
            entry,
            next,
            generation == w.load_generation,
        ) && pages is None,
        ReaderAnswer::FilteredPage { generation } => filter_step(w, generation, next, generation
            == w.filter_generation) && pages is None,
    }
}

impl Session {
    /// Takes an answer to work the reader started; hands back the pages to
    /// download when a current page list arrived.
    pub fn take_answer(&mut self, a: ReaderAnswer) -> (r: Option<Vec<crate::models::Page>>)
        requires
            old(self).wf(),
            a matches ReaderAnswer::PageDownloaded { index, .. } ==> index < usize::MAX,
        ensures
            final(self).wf(),
            answer_step(*old(self), a, *final(self), r),
            a matches ReaderAnswer::HeadersFetched { generation, result } ==> (generation
                == old(self).load_generation && result is Ok ==> final(self).headers == result->Ok_0),
    {
        match a {
            ReaderAnswer::PagesFetched { generation, result } => self.pages_fetched(generation, result),
            ReaderAnswer::HeadersFetched { generation, result } => {
                self.headers_fetched(generation, result);
                None
            },
            ReaderAnswer::PageDownloaded { generation, index, entry } => {
                self.page_downloaded(generation, index, entry);
                None
            },
            ReaderAnswer::FilteredPage { generation } => {
                self.filtered_page(generation);
                None
            },
        }
    }
}

/// Answers that belong to a superseded chapter load (or filter run) are
/// ignored: they leave the reader as it was and ask for nothing.
pub proof fn stale_answers_change_nothing(
    w: Session,
    a: ReaderAnswer,
    next: Session,
    pages: Option<Vec<crate::models::Page>>,
)
    requires
        answer_step(w, a, next, pages),
        answer_is_stale(w, a),
    ensures
        next == w,
        pages is None,
{
}

/// The page to open a chapter at: the page saved in the history (never
/// below the first) when the history's chapter is this one, else the first.
/// `saved` is the history's (chapter, page) for the work, if any.
pub open spec fn spec_resume_page(saved: Option<(i32, i32)>, chapter_index: i32) -> nat {
    match saved {
        Some((c, p)) => if c == chapter_index && p > 0 { p as nat } else { 0 },
        None => 0,
    }
}

/// The page to open a chapter at (see `spec_resume_page`).
pub fn resume_page(saved: Option<(i32, i32)>, chapter_index: i32) -> (r: usize)
    ensures
        r == spec_resume_page(saved, chapter_index),
{
    match saved {
        Some((c, p)) => if c == chapter_index && p > 0 { p as usize } else { 0 },
        None => 0,
    }
}

} // verus!
