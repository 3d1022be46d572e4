use bakeneko::discord::{
    discord_text, presence_client_id, presence_content, status_from_code, ConnectionStatus, PresenceCommand,
    PresenceWorker, ReadingActivity, WorkerAction, WorkerInput,
};

fn activity(adult: bool, show_adult: bool) -> ReadingActivity {
    ReadingActivity {
        title: "One Piece".into(),
        chapter: "Capítulo 1".into(),
        cover_url: Some("https://c/1.jpg".into()),
        is_adult: adult,
        show_adult,
    }
}

#[test]
fn discord_text_is_never_too_short_or_too_long() {
    assert_eq!(discord_text(""), "Bakeneko");
    assert_eq!(discord_text("A").chars().count(), 2);
    assert_eq!(discord_text(&"x".repeat(200)).chars().count(), 128);
}

#[test]
fn discord_text_trims_and_pads() {
    assert_eq!(discord_text("  Hola  "), "Hola");
    assert_eq!(discord_text(" B "), "B\u{3164}");
}

#[test]
fn client_id_must_be_digits() {
    assert_eq!(presence_client_id(" 123 ").as_deref(), Some("123"));
    assert!(presence_client_id("").is_none());
    assert!(presence_client_id("12a").is_none());
}

#[test]
fn private_activity_hides_title_and_cover() {
    let shown = presence_content(&activity(true, true));
    assert_eq!(shown.title, "One Piece");
    assert_eq!(shown.cover_url.as_deref(), Some("https://c/1.jpg"));
    let hidden = presence_content(&activity(true, false));
    assert_eq!(hidden.title, "Leyendo una obra");
    assert_eq!(hidden.chapter, "Contenido privado");
    assert!(hidden.cover_url.is_none());
}

#[test]
fn status_codes() {
    assert_eq!(status_from_code(2), ConnectionStatus::Connected);
    assert_eq!(status_from_code(1), ConnectionStatus::Connecting);
    assert_eq!(status_from_code(0), ConnectionStatus::Disconnected);
    assert_eq!(status_from_code(9), ConnectionStatus::Disconnected);
}

#[test]
fn worker_connects_then_publishes() {
    let mut w = PresenceWorker::new();
    assert_eq!(w.connection_status(), ConnectionStatus::Connecting);
    let a = w.on_input(WorkerInput::Command(PresenceCommand::Show(activity(false, false))));
    assert!(matches!(a, WorkerAction::Connect));
    let b = w.on_connect_result(true);
    assert!(matches!(b, WorkerAction::Publish(_)));
    assert_eq!(w.connection_status(), ConnectionStatus::Connected);
    let c = w.on_input(WorkerInput::Command(PresenceCommand::Clear));
    assert!(matches!(c, WorkerAction::ClearActivity));
    let d = w.on_input(WorkerInput::Closed);
    assert!(matches!(d, WorkerAction::Shutdown { close: true }));
}

#[test]
fn status_stays_connecting_until_an_activity_is_shown() {
    let mut w = PresenceWorker::new();
    for input in [WorkerInput::Command(PresenceCommand::Clear), WorkerInput::Timeout, WorkerInput::Command(PresenceCommand::Clear)] {
        let a = w.on_input(input);
        assert!(matches!(a, WorkerAction::Nothing));
        assert_eq!(w.connection_status(), ConnectionStatus::Connecting);
        assert!(!w.connected && w.current.is_none() && w.status == 1);
    }
    let last = w.on_input(WorkerInput::Command(PresenceCommand::Stop));
    assert!(matches!(last, WorkerAction::Shutdown { close: false }));
    assert_eq!(w.connection_status(), ConnectionStatus::Connecting);
}
