use bakeneko::reader::{reader_shortcut, resume_page, ReaderAnswer, ReaderKey, ReaderShortcut};
use bakeneko::models::{Chapter, Page};
use bakeneko::reader::{invert_rgba, ColorFilter, ReadMode, Session};
use bakeneko::rpc::DaemonError;

fn session() -> Session {
    Session {
        chapter: None,
        chapter_count: 3,
        current_chapter: 1,
        on_disk: Vec::new(),
        ready: Vec::new(),
        paths: Vec::new(),
        dims: Vec::new(),
        current_page: 0,
        loading: false,
        load_generation: 0,
        headers: Vec::new(),
        read_mode: ReadMode::Webtoon,
        color_filter: ColorFilter::Off,
        show_ui: false,
        show_filters: false,
        error: None,
        is_fullscreen: false,
        filter_generation: 0,
        filter_pending: 0,
    }
}

fn chapter(url: &str) -> Chapter {
    Chapter {
        source: "S".into(),
        url: url.into(),
        title: "Capítulo".into(),
        volume: 0,
        language: None,
        scanlator: None,
        upload_date: 0,
        branch: None,
    }
}

fn page(url: &str) -> Page {
    Page { source: "S".into(), url: url.into(), preview: None }
}

#[test]
fn filters_and_modes_round_trip_through_settings() {
    for f in ColorFilter::all() {
        assert_eq!(ColorFilter::from_setting(f.setting()), f);
    }
    assert_eq!(ColorFilter::from_setting("???"), ColorFilter::Off);
    assert_eq!(ColorFilter::Sepia.label(), "Sepia (Papel)");
    assert_eq!(ReadMode::from_setting(ReadMode::Paginated.setting()), ReadMode::Paginated);
    assert_eq!(ReadMode::from_setting("x"), ReadMode::Webtoon);
}

#[test]
fn inverting_keeps_alpha() {
    let mut px = vec![0, 10, 255, 7, 1, 2, 3, 200];
    invert_rgba(&mut px);
    assert_eq!(px, vec![255, 245, 0, 7, 254, 253, 252, 200]);
}

#[test]
fn opening_a_chapter_resets_the_pages() {
    let mut s = session();
    s.ready = vec![true];
    s.on_disk = vec![true];
    let g = s.open_chapter(chapter("/c1"), "paginated", "sepia", 4, true);
    assert_eq!(g, 1);
    assert_eq!(s.read_mode, ReadMode::Paginated);
    assert_eq!(s.color_filter, ColorFilter::Sepia);
    assert!(s.ready.is_empty() && s.loading && s.show_ui && s.current_page == 4);
}

#[test]
fn page_list_clamps_the_saved_page_and_ignores_old_loads() {
    let mut s = session();
    let g = s.open_chapter(chapter("/c1"), "webtoon", "none", 9, true);
    assert!(s.pages_fetched(g.wrapping_add(5), Ok(vec![page("a")])).is_none());
    assert_eq!(s.current_page, 9);
    let pages = s.pages_fetched(g, Ok(vec![page("a"), page("b")])).unwrap();
    assert_eq!(pages.len(), 2);
    assert_eq!(s.current_page, 1);
}

#[test]
fn empty_or_failed_page_lists_stop_loading() {
    let mut s = session();
    let g = s.open_chapter(chapter("/c1"), "webtoon", "none", 0, true);
    assert!(s.pages_fetched(g, Ok(vec![])).is_none());
    assert_eq!(s.error.as_deref(), Some("No se encontraron páginas."));
    assert!(!s.loading);
    let g = s.open_chapter(chapter("/c1"), "webtoon", "none", 0, true);
    assert!(s.pages_fetched(g, Err(DaemonError::Socket("socket cerrado".into()))).is_none());
    assert_eq!(s.error.as_deref(), Some("socket cerrado"));
}

#[test]
fn downloaded_pages_fill_in_and_end_loading() {
    let mut s = session();
    let g = s.open_chapter(chapter("/c1"), "webtoon", "none", 0, true);
    assert!(s.page_downloaded(g, 2, None));
    assert_eq!(s.ready, vec![false, false, false]);
    assert_eq!(s.paths, vec![String::new(), String::new(), String::new()]);
    assert_eq!(s.dims, vec![(0, 0), (0, 0), (0, 0)]);
    assert!(s.loading);
    assert!(s.page_downloaded(g, 1, Some(("/c/1.jpg".to_string(), (800, 1200)))));
    assert_eq!(s.ready, vec![false, true, false]);
    assert_eq!(s.on_disk, vec![false, true, false]);
    assert_eq!(s.paths, vec![String::new(), "/c/1.jpg".to_string(), String::new()]);
    assert_eq!(s.dims, vec![(0, 0), (800, 1200), (0, 0)]);
    assert!(!s.loading);
    assert!(s.page_downloaded(g, 4, Some(("/c/4.png".to_string(), (10, 20)))));
    assert_eq!(s.paths.len(), 5);
    assert_eq!(s.dims[3], (0, 0));
    assert_eq!(s.dims[4], (10, 20));
    assert!(!s.page_downloaded(g + 1, 0, Some(("/c/0.jpg".to_string(), (1, 1)))));
    assert_eq!(s.paths[0], "");
}

#[test]
fn page_and_chapter_navigation_stay_in_range() {
    let mut s = session();
    s.ready = vec![true, true];
    s.on_disk = vec![true, true];
    s.next_page();
    s.next_page();
    assert_eq!(s.current_page, 1);
    s.prev_page();
    s.prev_page();
    assert_eq!(s.current_page, 0);
    assert!(s.scrolled_to(7));
    assert_eq!(s.current_page, 1);
    assert!(!s.scrolled_to(1));
    assert_eq!(s.next_chapter(), Some(2));
    assert_eq!(s.next_chapter(), None);
    assert_eq!(s.prev_chapter(), Some(1));
}

#[test]
fn panels_and_filters() {
    let mut s = session();
    s.on_disk = vec![true, false, true];
    s.ready = vec![true, false, true];
    let (g, pages) = s.set_filter(ColorFilter::Grayscale);
    assert_eq!(g, 1);
    assert_eq!(pages, vec![0, 2]);
    assert_eq!(s.filter_pending, 2);
    assert!(!s.filtered_page(0));
    assert!(s.filtered_page(1));
    assert_eq!(s.filter_pending, 1);
    let (_, _) = s.set_filter(ColorFilter::Off);
    assert_eq!(s.filter_pending, 0);
    s.toggle_filter_panel();
    s.toggle_ui();
    assert!(!s.show_filters && !s.show_ui);
    s.toggle_ui();
    assert!(s.show_ui);
    assert_eq!(s.toggle_mode(), "paginated");
    assert!(s.toggle_fullscreen());
    assert!(s.leave());
    assert!(!s.is_fullscreen);
}

#[test]
fn reader_keyboard_shortcuts() {
    assert_eq!(reader_shortcut(&ReaderKey::ArrowLeft), Some(ReaderShortcut::PrevPage));
    assert_eq!(reader_shortcut(&ReaderKey::ArrowRight), Some(ReaderShortcut::NextPage));
    assert_eq!(reader_shortcut(&ReaderKey::Escape), Some(ReaderShortcut::Back));
    assert_eq!(reader_shortcut(&ReaderKey::Character("f".into())), Some(ReaderShortcut::ToggleFullscreen));
    assert_eq!(reader_shortcut(&ReaderKey::Character("F".into())), None);
    assert_eq!(reader_shortcut(&ReaderKey::Character("g".into())), None);
    assert_eq!(reader_shortcut(&ReaderKey::Other), None);
}

#[test]
fn webtoon_draws_only_ready_pages_near_the_current_one() {
    let mut s = session();
    s.on_disk = vec![true; 8];
    s.ready = vec![true, true, true, false, true, true, true, true];
    s.current_page = 4;
    let drawn: Vec<usize> = (0..10).filter(|&i| s.draws_page(i)).collect();
    assert_eq!(drawn, vec![2, 4, 5, 6]);
    s.current_page = 0;
    let drawn: Vec<usize> = (0..10).filter(|&i| s.draws_page(i)).collect();
    assert_eq!(drawn, vec![0, 1, 2]);
}

#[test]
fn stale_answers_are_ignored() {
    let mut s = session();
    let g = s.open_chapter(chapter("/c1"), "webtoon", "none", 0, true);
    let stale = g.wrapping_add(1);
    assert!(s.take_answer(ReaderAnswer::PagesFetched { generation: stale, result: Ok(vec![page("a")]) }).is_none());
    assert!(s.take_answer(ReaderAnswer::HeadersFetched { generation: stale, result: Ok(vec![("Referer".into(), "x".into())]) }).is_none());
    assert!(s.take_answer(ReaderAnswer::PageDownloaded { generation: stale, index: 3, entry: Some(("/p".into(), (1, 1))) }).is_none());
    s.filter_pending = 2;
    let fg = s.filter_generation.wrapping_add(1);
    assert!(s.take_answer(ReaderAnswer::FilteredPage { generation: fg }).is_none());
    assert!(s.ready.is_empty() && s.paths.is_empty() && s.headers.is_empty() && s.loading);
    assert_eq!(s.filter_pending, 2);
    let pages = s.take_answer(ReaderAnswer::PagesFetched { generation: g, result: Ok(vec![page("a"), page("b")]) });
    assert_eq!(pages.map(|p| p.len()), Some(2));
    assert!(s.take_answer(ReaderAnswer::PageDownloaded { generation: g, index: 0, entry: Some(("/p0".into(), (5, 7))) }).is_none());
    assert_eq!(s.dims, vec![(5, 7)]);
    assert!(!s.loading);
}

#[test]
fn opening_a_chapter_holds_it_and_resumes_only_its_own_page() {
    let mut s = session();
    s.open_chapter(chapter("/c1"), "webtoon", "none", 0, true);
    s.open_chapter(chapter("/c2"), "webtoon", "none", resume_page(Some((3, 7)), 3), false);
    assert_eq!(s.chapter.as_ref().map(|c| c.url.as_str()), Some("/c2"));
    assert_eq!(s.current_page, 7);
    assert!(!s.loading);
    assert_eq!(resume_page(Some((3, 7)), 4), 0);
    assert_eq!(resume_page(Some((3, -2)), 3), 0);
    assert_eq!(resume_page(None, 3), 0);
}
