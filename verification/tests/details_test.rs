use bakeneko::details::{chapter_language_key, chapter_language_label, chapter_subtitle};

fn language_label(language: Option<&str>, branch: Option<&str>) -> &'static str {
    chapter_language_label(language, branch, "MANGADEX")
}

#[test]
fn groups_futon_bcp47_locales_by_base_language() {
    assert_eq!(language_label(Some("pt-BR"), None), "Portugués");
    assert_eq!(language_label(Some("es-419"), None), "Español");
    assert_eq!(language_label(Some("zh-Hans"), None), "Chino");
    assert_eq!(language_label(Some("sl"), None), "Esloveno");
}

#[test]
fn uses_futon_multilingual_branch_when_locale_is_missing() {
    assert_eq!(language_label(None, Some("English")), "Inglés");
    assert_eq!(language_label(None, Some("Українська")), "Ucraniano");
}

#[test]
fn falls_back_to_the_source_suffix() {
    assert_eq!(chapter_language_key(None, None, "MANGAFIRE_ES"), "es");
    assert_eq!(chapter_language_key(Some("  "), Some("??"), "LECTOR_EN"), "en");
    assert_eq!(chapter_language_key(None, None, "MANGADEX"), "other");
}

#[test]
fn subtitle_keeps_descriptive_titles_only() {
    assert_eq!(chapter_subtitle(" Reunión lasciva ", "Capítulo 5.5").as_deref(), Some("Reunión lasciva"));
    assert!(chapter_subtitle("Capítulo 5", "Capítulo 5").is_none());
    assert!(chapter_subtitle("CHAPTER 5", "Capítulo 5").is_none());
    assert!(chapter_subtitle("Ch. 7", "Capítulo 7").is_none());
    assert!(chapter_subtitle("   ", "Capítulo 1").is_none());
}

use bakeneko::details::{back_destination, back_target_after_open, chapters_for_language, in_library, position_in};
use bakeneko::models::{Chapter, Manga};
use bakeneko::shell::Screen;

fn chapter(url: &str, language: Option<&str>) -> Chapter {
    Chapter {
        source: "MANGADEX".into(),
        url: url.into(),
        title: String::new(),
        volume: 0,
        language: language.map(|l| l.to_string()),
        scanlator: None,
        upload_date: 0,
        branch: None,
    }
}

#[test]
fn chapters_are_listed_by_language() {
    let chapters = vec![chapter("/1", Some("es")), chapter("/2", Some("en")), chapter("/3", Some("es-419"))];
    assert_eq!(chapters_for_language(&chapters, Some("es")), vec![0, 2]);
    assert_eq!(chapters_for_language(&chapters, None), vec![0, 1, 2]);
    let shown = chapters_for_language(&chapters, Some("es"));
    assert_eq!(position_in(&chapters, &shown, "/3"), 1);
    assert_eq!(position_in(&chapters, &shown, "/2"), 0);
}

#[test]
fn opening_details_remembers_where_back_goes() {
    assert_eq!(back_target_after_open(Screen::Browse, None), Some(Screen::Browse));
    assert_eq!(back_target_after_open(Screen::Details, Some(Screen::Library)), Some(Screen::Library));
    assert_eq!(back_destination(None), Screen::Home);
    let library = vec![Manga {
        source: "S".into(),
        url: "/m".into(),
        title: "M".into(),
        public_url: None,
        is_nsfw: false,
        cover_url: None,
        large_cover_url: None,
        description: None,
        authors: Vec::new(),
        state: None,
    }];
    assert!(in_library(&library, "S", "/m"));
    assert!(!in_library(&library, "S", "/x"));
}

#[test]
fn chapters_are_grouped_by_language_name_in_order() {
    let chapters = vec![chapter("/2", Some("es")), chapter("/1", Some("en")), chapter("/1b", Some("es-419"))];
    let groups = bakeneko::details::chapter_groups(&chapters);
    let summary: Vec<(String, Vec<usize>)> = groups.into_iter().map(|g| (g.key, g.members)).collect();
    assert_eq!(summary, vec![("Español".to_string(), vec![0, 2]), ("Inglés".to_string(), vec![1])]);
}
