use bakeneko::net::{normalize_url, referer_for, sniff_ext, stem, url_ext, ImageCache};
use bakeneko::xdg::Xdg;

fn xdg_with_cache(cache: &str) -> Xdg {
    Xdg {
        env_home: Some("/home/u".into()),
        env_data_home: None,
        env_config_home: None,
        env_cache_home: Some(cache.into()),
        env_runtime_dir: None,
        uid: 1000,
    }
}

#[test]
fn cached_path_is_stable_sha256() {
    let cache = ImageCache::new(xdg_with_cache("/tmp/net-test-cache2").cache_root());
    let a = ImageCache::cached_path(cache.candidates("http://x/1.jpg"), &vec![]);
    let b = ImageCache::cached_path(cache.candidates("http://x/1.jpg"), &vec![]);
    assert_eq!(a, b);
    assert_ne!(a, ImageCache::cached_path(cache.candidates("http://x/2.jpg"), &vec![]));
}

#[test]
fn stem_is_the_hex_sha256_of_the_url() {
    assert_eq!(stem("abc"), "ba7816bf8f01cfea414140de5dae2223b00361a396177a9cb410ff61f20015ad");
}

#[test]
fn candidates_start_with_the_url_extension() {
    let cache = ImageCache::new("/c".into());
    let c = cache.candidates("//img.site/a/b.PNG?x=1");
    let s = stem("https://img.site/a/b.PNG?x=1");
    assert_eq!(c, vec![
        format!("/c/{s}.png"), format!("/c/{s}.jpg"), format!("/c/{s}.webp"), format!("/c/{s}.gif"),
    ]);
    let found = ImageCache::cached_path(c.clone(), &vec![false, false, true]);
    assert_eq!(found, c[2]);
}

#[test]
fn extensions_from_url_and_bytes() {
    assert_eq!(url_ext("http://a/b.jpeg#f"), Some("jpg"));
    assert_eq!(url_ext("http://a/b.bmp"), None);
    assert_eq!(sniff_ext(&[0x89, 0x50, 0x4E, 0x47, 0]), Some("png"));
    assert_eq!(sniff_ext(b"GIF89a"), Some("gif"));
    assert_eq!(sniff_ext(b"RIFF0000WEBPVP8 "), Some("webp"));
    assert_eq!(sniff_ext(&[0xFF, 0xD8, 0xFF]), Some("jpg"));
    assert_eq!(sniff_ext(b"xx"), None);
    assert_eq!(normalize_url("//a/b"), "https://a/b");
    assert_eq!(normalize_url("http://a/b"), "http://a/b");
}

#[test]
fn referer_comes_from_the_site() {
    assert_eq!(referer_for("https://cdn.mangadex.org/x.jpg", &vec![]).as_deref(), Some("https://mangadex.org/"));
    assert_eq!(referer_for("https://img.example.com/x.jpg", &vec![]).as_deref(), Some("https://img.example.com/"));
    assert_eq!(referer_for("https://img.example.com/x.jpg", &vec!["Referer".to_string()]), None);
}

#[test]
fn normalizing_a_url_twice_changes_nothing() {
    for url in ["//a/b.png", "https://a/b", "", "/local"] {
        assert_eq!(normalize_url(&normalize_url(url)), normalize_url(url));
    }
}
