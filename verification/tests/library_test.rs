use bakeneko::library::{extension_matches, filter_library, library_matches, toggle_source, AdultFilter};
use bakeneko::models::{Manga, Source};

fn manga(title: &str, authors: &[&str], nsfw: bool) -> Manga {
    Manga {
        source: "S".into(),
        url: format!("/{title}"),
        title: title.into(),
        public_url: None,
        is_nsfw: nsfw,
        cover_url: None,
        large_cover_url: None,
        description: None,
        authors: authors.iter().map(|a| a.to_string()).collect(),
        state: None,
    }
}

#[test]
fn search_looks_at_title_and_authors() {
    let m = manga("One Piece", &["Eiichiro Oda"], false);
    assert!(library_matches(&m, "  PIECE ", AdultFilter::All));
    assert!(library_matches(&m, "oda", AdultFilter::Safe));
    assert!(!library_matches(&m, "naruto", AdultFilter::All));
    assert!(!library_matches(&m, "", AdultFilter::Adult));
}

#[test]
fn filtering_keeps_order() {
    let list = vec![manga("A", &[], false), manga("B", &[], true), manga("AB", &[], false)];
    assert_eq!(filter_library(&list, "a", AdultFilter::All), vec![0, 2]);
    assert_eq!(filter_library(&list, "", AdultFilter::Adult), vec![1]);
}

#[test]
fn extensions_can_be_turned_off_and_on() {
    let mut disabled: Vec<String> = Vec::new();
    toggle_source(&mut disabled, "A".into(), false);
    toggle_source(&mut disabled, "A".into(), false);
    assert_eq!(disabled, vec!["A".to_string()]);
    toggle_source(&mut disabled, "A".into(), true);
    assert!(disabled.is_empty());
    let s = Source { id: "X".into(), name: "MangaDex".into(), language: None };
    assert!(extension_matches(&s, "Dex"));
    assert!(!extension_matches(&s, " dex"));
}
