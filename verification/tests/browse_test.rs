use bakeneko::chips::{language_chips, LanguageChip};
use bakeneko::browse::{categories, category_button_label, source_button_label, visible_categories};
use bakeneko::browse::{
    apply_search_result, friendly_source_error, merge_into, source_matches_filters, start_search_for, update,
    AdultFilter, Message, State, MAX_SEARCH_SOURCES,
};
use bakeneko::language::key;
use bakeneko::models::{Manga, Source};
use bakeneko::names::{get_entry, has_name};
use bakeneko::rpc::DaemonError;

fn manga(source: &str, url: &str) -> Manga {
    Manga {
        source: source.into(),
        url: url.into(),
        title: url.into(),
        public_url: None,
        is_nsfw: false,
        cover_url: None,
        large_cover_url: None,
        description: None,
        authors: Vec::new(),
        state: None,
    }
}

fn source(id: &str, name: &str, language: Option<&str>) -> Source {
    Source { id: id.into(), name: name.into(), language: language.map(|l| l.to_string()) }
}

fn language_key(locale: Option<&str>) -> &'static str {
    key(locale)
}

#[test]
fn federated_results_merge_without_duplicates() {
    let mut state = State::default();
    state.search_generation = 7;
    state.pending_sources = 2;
    state.selected_sources.extend(["A".to_string(), "B".to_string()]);

    apply_search_result(&mut state, 7, "A".into(), Ok(vec![manga("A", "/same"), manga("A", "/same")]));
    apply_search_result(&mut state, 7, "B".into(), Ok(vec![manga("B", "/same")]));

    assert_eq!(state.list.len(), 2);
    assert_eq!(get_entry(&state.source_offsets, "A"), Some(2));
    assert_eq!(get_entry(&state.source_offsets, "B"), Some(1));
    assert_eq!(state.pending_sources, 0);
    assert!(!state.loading);
}

#[test]
fn stale_results_are_ignored_and_source_errors_are_isolated() {
    let mut state = State::default();
    state.search_generation = 3;
    state.pending_sources = 1;

    apply_search_result(&mut state, 2, "OLD".into(), Ok(vec![manga("OLD", "/old")]));
    assert!(state.list.is_empty());

    apply_search_result(&mut state, 3, "BROKEN".into(), Err(DaemonError::Spawn("falló".into())));
    assert_eq!(state.search_errors.len(), 1);
    assert!(has_name(&state.failed_sources, "BROKEN"));
    assert_eq!(state.pending_sources, 0);
}

#[test]
fn source_filter_combines_language_and_text() {
    let source = Source {
        id: "MANGAFIRE_ES".into(),
        name: "MangaFire".into(),
        language: Some("es".into()),
    };
    assert!(source_matches_filters(&source, "fire", Some("es")));
    assert!(!source_matches_filters(&source, "fire", Some("en")));
    assert!(!source_matches_filters(&source, "dex", Some("es")));
}

#[test]
fn language_keys_normalize_locale_variants() {
    assert_eq!(language_key(Some("pt-BR")), "pt");
    assert_eq!(language_key(Some("es-419")), "es");
    assert_eq!(language_key(None), "mixed");
}

#[test]
fn source_filter_matches_id_trimmed_query_and_any_language() {
    let s = source("MANGADEX", "MangaDex", Some("en"));
    assert!(source_matches_filters(&s, "  dex  ", None));
    assert!(source_matches_filters(&s, "MANGAD", Some("en")));
    assert!(source_matches_filters(&s, "", None));
    assert!(!source_matches_filters(&s, "", Some("es")));
}

#[test]
fn friendly_errors_name_the_reason() {
    assert_eq!(
        friendly_source_error("X", "Redirect to accounts.GOOGLE.com"),
        "X: requiere iniciar sesión o no está disponible. Se omitió esta fuente para continuar."
    );
    assert_eq!(
        friendly_source_error("X", "HTTP 404"),
        "X: cambió su sitio y necesita actualización. Se omitió esta fuente para continuar."
    );
    assert_eq!(
        friendly_source_error("X", "Read Timeout"),
        "X: no responde en este momento. Se omitió esta fuente para continuar."
    );
    assert_eq!(
        friendly_source_error("X", "boom"),
        "X: no pudo responder. Se omitió esta fuente para continuar."
    );
}

#[test]
fn empty_page_exhausts_the_source_and_ends_the_search() {
    let mut state = State::default();
    state.search_generation = 1;
    state.pending_sources = 1;
    state.loading = true;
    state.has_more = true;
    state.selected_sources.push("A".into());
    apply_search_result(&mut state, 1, "A".into(), Ok(vec![]));
    assert!(has_name(&state.exhausted_sources, "A"));
    assert!(!state.loading);
    assert!(!state.has_more);
}

#[test]
fn merging_keeps_the_first_of_each_key() {
    let mut list = vec![manga("A", "/1")];
    merge_into(&mut list, vec![manga("A", "/1"), manga("A", "/2"), manga("B", "/1"), manga("A", "/2")]);
    let keys: Vec<String> = list.iter().map(|m| m.key()).collect();
    assert_eq!(keys, vec!["A|/1", "A|/2", "B|/1"]);
}

#[test]
fn new_search_without_sources_says_so() {
    let mut state = State::default();
    let plan = start_search_for(&mut state, false, None, &vec![], true);
    assert!(plan.is_none());
    assert_eq!(state.search_errors, vec!["Selecciona al menos una fuente para buscar.".to_string()]);
}

#[test]
fn new_search_asks_enabled_sources_from_offset_zero() {
    let mut state = State::default();
    state.selected_sources = vec!["A".into(), "B".into(), "C".into()];
    state.query = Some("  one piece ".into());
    state.search_generation = u64::MAX;
    let plan = start_search_for(&mut state, false, None, &vec!["B".to_string()], true).unwrap();
    assert_eq!(plan.generation, 0);
    assert_eq!(state.search_generation, 0);
    assert_eq!(plan.query.as_deref(), Some("  one piece "));
    let asked: Vec<(String, i32)> = plan.requests.iter().map(|r| (r.source.clone(), r.offset)).collect();
    assert_eq!(asked, vec![("A".to_string(), 0), ("C".to_string(), 0)]);
    assert_eq!(state.pending_sources, 2);
    assert!(state.loading && state.has_searched && state.group_results);
}

#[test]
fn next_page_asks_from_each_offset_and_skips_exhausted() {
    let mut state = State::default();
    state.selected_sources = vec!["A".into(), "B".into()];
    state.source_offsets = vec![("A".into(), 20)];
    state.exhausted_sources = vec!["B".into()];
    let plan = start_search_for(&mut state, true, None, &vec![], true).unwrap();
    let asked: Vec<(String, i32)> = plan.requests.iter().map(|r| (r.source.clone(), r.offset)).collect();
    assert_eq!(asked, vec![("A".to_string(), 20)]);
    assert!(state.loading_more);
}

#[test]
fn toggling_sources_respects_the_limit() {
    let mut state = State::default();
    for i in 0..MAX_SEARCH_SOURCES {
        update(&mut state, Message::ToggleSearchSource(format!("S{i}"), true), &vec![], &vec![], true);
    }
    assert_eq!(state.selected_sources.len(), MAX_SEARCH_SOURCES);
    update(&mut state, Message::ToggleSearchSource("EXTRA".into(), true), &vec![], &vec![], true);
    assert_eq!(state.selected_sources.len(), MAX_SEARCH_SOURCES);
    assert_eq!(state.search_errors, vec!["Puedes buscar en un máximo de 24 fuentes a la vez.".to_string()]);
    update(&mut state, Message::ToggleSearchSource("S0".into(), false), &vec![], &vec![], true);
    assert_eq!(state.selected_sources.len(), MAX_SEARCH_SOURCES - 1);
    assert!(state.search_errors.is_empty());
}

#[test]
fn select_all_takes_the_visible_enabled_sources() {
    let mut state = State::default();
    state.source_language = Some("es".into());
    let sources = vec![
        source("A_ES", "Alpha", Some("es-419")),
        source("B_EN", "Beta", Some("en")),
        source("C_ES", "Gamma", Some("es")),
        source("D_ES", "Delta", Some("es")),
    ];
    update(&mut state, Message::SelectAllSources, &sources, &vec!["D_ES".to_string()], true);
    assert_eq!(state.selected_sources, vec!["A_ES".to_string(), "C_ES".to_string()]);
}

#[test]
fn more_of_one_source_grows_its_visible_count() {
    let mut state = State::default();
    state.list = vec![manga("A", "/1")];
    let plan = update(&mut state, Message::MoreSource("A".into()), &vec![], &vec![], true);
    assert_eq!(get_entry(&state.visible_per_source, "A"), Some(20));
    let plan = plan.unwrap();
    assert_eq!(plan.requests.len(), 1);
    assert_eq!(plan.requests[0].source, "A");
}

#[test]
fn panels_and_filters_only_change_the_screen() {
    let mut state = State::default();
    assert!(update(&mut state, Message::ToggleSourcePanel, &vec![], &vec![], true).is_none());
    assert!(state.source_panel_open);
    update(&mut state, Message::ToggleCategoryPanel, &vec![], &vec![], true);
    assert!(state.category_panel_open && !state.source_panel_open);
    update(&mut state, Message::ToggleCategory("action".into()), &vec![], &vec![], true);
    update(&mut state, Message::ToggleCategory("drama".into()), &vec![], &vec![], true);
    update(&mut state, Message::ToggleCategory("action".into()), &vec![], &vec![], true);
    assert_eq!(state.selected_categories, vec!["drama".to_string()]);
    update(&mut state, Message::SetAdultFilter(AdultFilter::Safe), &vec![], &vec![], true);
    assert_eq!(state.adult_filter, AdultFilter::Safe);
    assert!(AdultFilter::Safe.admits(false) && !AdultFilter::Safe.admits(true));
}

#[test]
fn stale_more_and_scroll_do_nothing_while_loading() {
    let mut state = State::default();
    state.loading = true;
    state.has_more = true;
    state.selected_sources = vec!["A".into()];
    assert!(update(&mut state, Message::More, &vec![], &vec![], true).is_none());
    assert!(update(&mut state, Message::Scrolled(true), &vec![], &vec![], true).is_none());
    state.loading = false;
    assert!(update(&mut state, Message::Scrolled(true), &vec![], &vec![], true).is_some());
}

#[test]
fn source_query_ignores_case() {
    let s = source("mangadex", "MangaDex", None);
    assert!(source_matches_filters(&s, "MANGADEX", None));
    assert!(source_matches_filters(&s, " Dex ", None));
    assert!(!source_matches_filters(&s, "DEXX", None));
}

#[test]
fn category_panel_filters_and_puts_selected_first() {
    let all = categories();
    assert_eq!(all.len(), 17);
    assert_eq!(visible_categories("", &vec![]), all);
    assert_eq!(visible_categories("  TERR ", &vec![]), vec![("horror", "Terror")]);
    assert_eq!(visible_categories("CIÓN", &vec![]), vec![("action", "Acción"), ("sci-fi", "Ciencia ficción")]);
    let picked = visible_categories("", &vec!["romance".to_string(), "action".to_string()]);
    assert_eq!(picked[0], ("action", "Acción"));
    assert_eq!(picked[1], ("romance", "Romance"));
    assert_eq!(picked[2], ("adventure", "Aventura"));
    assert_eq!(picked.len(), 17);
    assert!(visible_categories("zzz", &vec![]).is_empty());
}

#[test]
fn language_chips_count_enabled_sources_most_common_first() {
    let sources = vec![
        source("a", "A", Some("en")),
        source("b", "B", Some("es")),
        source("c", "C", Some("es-419")),
        source("d", "D", Some("pt-BR")),
        source("e", "E", Some("en")),
        source("f", "F", None),
    ];
    let chips = language_chips(&sources, &vec!["e".to_string()]);
    assert_eq!(
        chips,
        vec![
            LanguageChip { key: "es", label: "Español", count: 2 },
            LanguageChip { key: "mixed", label: "Idioma mixto", count: 1 },
            LanguageChip { key: "en", label: "Inglés", count: 1 },
            LanguageChip { key: "pt", label: "Portugués", count: 1 },
        ]
    );
    assert!(language_chips(&sources, &sources.iter().map(|s| s.id.clone()).collect()).is_empty());
}

#[test]
fn panel_buttons_describe_the_selection() {
    let sources = vec![
        source("a", "MangaDex", Some("es")),
        source("b", "Comick", Some("es-419")),
        source("c", "Webtoons", Some("en")),
    ];
    let none: Vec<String> = vec![];
    assert_eq!(source_button_label(&vec![], &none, true), "Cargando fuentes…");
    assert_eq!(source_button_label(&vec![], &none, false), "Elige dónde buscar");
    assert_eq!(source_button_label(&sources, &none, true), "Elige dónde buscar");
    assert_eq!(source_button_label(&sources, &vec!["a".into(), "b".into()], true), "Español · 2");
    assert_eq!(source_button_label(&sources, &vec!["c".into()], true), "Inglés · 1");
    assert_eq!(source_button_label(&sources, &vec!["a".into(), "c".into()], true), "En 2 fuentes");
    assert_eq!(source_button_label(&sources, &vec!["zz".into()], true), "1 fuente");
    assert_eq!(source_button_label(&sources, &vec!["a".into(), "zz".into()], true), "Español · 2");
    assert_eq!(category_button_label(0, AdultFilter::All), "Géneros");
    assert_eq!(category_button_label(3, AdultFilter::Safe), "Géneros (3) · Apto");
    assert_eq!(category_button_label(12, AdultFilter::Adult), "Géneros (12) · +18");
}
