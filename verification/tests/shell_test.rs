use bakeneko::models::Source;
use bakeneko::shell::{default_source, nav_items, navigation_effects, retry_source_list, screen_of, NavMsg, Screen, ScreenLoad};

fn source(id: &str) -> Source {
    Source { id: id.into(), name: id.into(), language: None }
}

#[test]
fn mangadex_is_the_default_source_when_enabled() {
    let sources = vec![source("A"), source("MANGADEX")];
    assert_eq!(default_source(&sources, &vec![]).as_deref(), Some("MANGADEX"));
    assert_eq!(default_source(&sources, &vec!["MANGADEX".into()]).as_deref(), Some("A"));
    assert_eq!(default_source(&sources, &vec!["MANGADEX".into(), "A".into()]), None);
}

#[test]
fn source_list_retries_three_times() {
    assert_eq!(retry_source_list(0), (1, None));
    assert_eq!(retry_source_list(2), (3, None));
    let (n, note) = retry_source_list(3);
    assert_eq!(n, 4);
    assert!(note.unwrap().starts_with("No se pudieron cargar las fuentes"));
    assert_eq!(retry_source_list(255).0, 255);
}

#[test]
fn navigation() {
    assert_eq!(screen_of(NavMsg::Navigate(Screen::Library)), Screen::Library);
    assert_eq!(navigation_effects(Screen::Home), (true, ScreenLoad::RecentAndLibrary));
    assert_eq!(navigation_effects(Screen::Reader), (false, ScreenLoad::Nothing));
    assert_eq!(nav_items()[2], ("Explorar", Screen::Browse));
}
