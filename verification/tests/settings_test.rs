use bakeneko::settings::{apply_message, normalize_loaded, save_failed_note, Message, Section, Settings, DISCORD_APPLICATION_ID};

#[test]
fn defaults() {
    let s = Settings::default();
    assert_eq!(s.theme, "dark");
    assert_eq!(s.reader_mode, "webtoon");
    assert_eq!(s.reader_filter, "none");
    assert_eq!(s.download_concurrency, 2);
    assert_eq!(s.discord_client_id, DISCORD_APPLICATION_ID);
    assert!(s.discord_presence_enabled && !s.discord_show_adult);
}

#[test]
fn loading_forces_the_application_discord_id() {
    let mut s = Settings::default();
    s.discord_client_id = "123456".into();
    s.accent = "#ff0000".into();
    let n = normalize_loaded(s);
    assert_eq!(n.discord_client_id, DISCORD_APPLICATION_ID);
    assert_eq!(n.accent, "#ff0000");
}

#[test]
fn messages_change_one_setting_and_ask_to_save() {
    let mut s = Settings::default();
    let mut section = Section::Appearance;
    assert!(!apply_message(&mut s, &mut section, Message::SectionChanged(Section::Reader)));
    assert_eq!(section, Section::Reader);
    assert!(apply_message(&mut s, &mut section, Message::ReaderFilterChanged("sepia".into())));
    assert_eq!(s.reader_filter, "sepia");
    assert!(apply_message(&mut s, &mut section, Message::DiscordAdultChanged(true)));
    assert!(s.discord_show_adult);
    assert_eq!(save_failed_note("disk full"), "No se pudo guardar la configuración: disk full");
}

#[test]
fn normalizing_twice_changes_nothing() {
    let mut s = Settings::default();
    s.discord_client_id = "1".into();
    let once = normalize_loaded(s);
    let twice = normalize_loaded(once.clone());
    assert_eq!(twice.discord_client_id, once.discord_client_id);
    assert_eq!(twice.theme, once.theme);
}
