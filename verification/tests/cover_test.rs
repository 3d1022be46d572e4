use bakeneko::cover::{covers_to_fetch, details_ref, ellipsize, group_heading, group_view, language_label, result_subtitle};
use bakeneko::models::Manga;

fn manga(cover: Option<&str>, large: Option<&str>) -> Manga {
    Manga {
        source: "S".into(),
        url: "/u".into(),
        title: "T".into(),
        public_url: None,
        is_nsfw: false,
        cover_url: cover.map(|c| c.to_string()),
        large_cover_url: large.map(|c| c.to_string()),
        description: None,
        authors: Vec::new(),
        state: None,
    }
}

#[test]
fn opening_a_card_prefers_the_small_cover() {
    assert_eq!(details_ref(&manga(Some("a"), Some("b"))).cover_url.as_deref(), Some("a"));
    assert_eq!(details_ref(&manga(None, Some("b"))).cover_url.as_deref(), Some("b"));
}

#[test]
fn covers_skip_blank_and_loaded_urls() {
    let list = vec![manga(Some(" "), Some("big")), manga(None, None), manga(Some("c"), None), manga(Some("done"), None)];
    let jobs = covers_to_fetch(&list, &vec!["done".to_string()]);
    assert_eq!(jobs.len(), 2);
    assert_eq!(jobs[0].key, "big");
    assert!(jobs[0].primary.is_none());
    assert_eq!(jobs[1].key, "c");
}

#[test]
fn long_titles_are_cut() {
    assert_eq!(ellipsize("Hola", 4), "Hola");
    assert_eq!(ellipsize("Holaa", 4), "Hol…");
    assert_eq!(ellipsize("ab", 0), "…");
}

#[test]
fn group_texts() {
    assert_eq!(language_label("ES-419"), "Español");
    assert_eq!(language_label("ko"), "Otro idioma");
    assert_eq!(group_view(25, 10, true), (10, true));
    assert_eq!(group_view(5, 10, true), (5, false));
    assert_eq!(group_view(5, 10, false), (5, true));
    assert_eq!(group_heading("Español", 12), "Español · 12 mangas encontrados");
    assert_eq!(result_subtitle("Inglés", &vec!["Oda".to_string()]), "Inglés · Oda");
    assert_eq!(result_subtitle("Inglés", &vec![]), "Inglés");
}

#[test]
fn results_are_grouped_by_source_id() {
    let mut a = manga(None, None);
    a.source = "ZED".into();
    let mut b = manga(None, None);
    b.source = "ALPHA".into();
    let mut c = manga(None, None);
    c.source = "ZED".into();
    let groups = bakeneko::cover::group_by_source(&vec![a, b, c]);
    let summary: Vec<(String, Vec<usize>)> = groups.into_iter().map(|g| (g.key, g.members)).collect();
    assert_eq!(summary, vec![("ALPHA".to_string(), vec![1]), ("ZED".to_string(), vec![0, 2])]);
}

#[test]
fn keys_compare_like_strings() {
    assert!(bakeneko::groups::text_less("Español", "Inglés"));
    assert!(bakeneko::groups::text_less("ab", "abc"));
    assert!(!bakeneko::groups::text_less("b", "abc"));
    assert!(!bakeneko::groups::text_less("x", "x"));
    assert_eq!(bakeneko::groups::text_less("Ñ", "Z"), "Ñ" < "Z");
}
