use bakeneko::language::{key, label, label_for_key};

#[test]
fn normalizes_futon_and_legacy_locales() {
    assert_eq!(key(Some("es-419")), "es");
    assert_eq!(key(Some("pt_BR")), "pt");
    assert_eq!(key(Some("zh-Hans")), "zh");
    assert_eq!(key(Some("ENG")), "en");
    assert_eq!(key(None), "mixed");
    assert_eq!(label(Some("sl-SI")), "Esloveno");
}

#[test]
fn blank_and_unknown_locales() {
    assert_eq!(key(Some("   ")), "mixed");
    assert_eq!(key(Some("xx-YY")), "other");
    assert_eq!(label_for_key("zz"), "Otro idioma");
    assert_eq!(label(Some("English")), "Inglés");
}

const KNOWN_KEYS: [&str; 36] = [
    "es", "en", "pt", "fr", "de", "it", "ja", "ko", "zh", "ru", "id", "vi", "th", "sl", "tr", "pl", "nl", "ar",
    "hi", "ms", "ca", "ro", "uk", "hu", "sv", "no", "da", "fi", "cs", "el", "he", "fa", "bn", "fil", "mixed",
    "other",
];

#[test]
fn keys_are_known_and_stable() {
    for locale in ["es-419", "pt_BR", "ENG", "tl", "fil-PH", "xx-YY", "English", "Українська", "  ", "qq"] {
        let k = key(Some(locale));
        assert!(KNOWN_KEYS.contains(&k));
        assert_eq!(k == "mixed", locale.trim().is_empty());
        if k != "mixed" {
            assert_eq!(key(Some(k)), k);
        }
    }
    assert_eq!(key(Some("mixed")), "other");
}

#[test]
fn separators_and_case_do_not_split_a_language() {
    for (p, r) in [("pt", "BR"), ("es", "419"), ("zh", "Hans"), ("xx", "YY"), ("qq", "z"), ("pt", ""), ("fr", "CA  "), ("qq", "")] {
        assert_eq!(key(Some(&format!("{p}-{r}"))), key(Some(p)));
        assert_eq!(key(Some(&format!("{p}_{r}"))), key(Some(p)));
        assert_eq!(key(Some(&p.to_ascii_uppercase())), key(Some(p)));
    }
    assert_eq!(key(Some("English")), "en");
    assert_eq!(key(Some("English-x")), "other");
}
