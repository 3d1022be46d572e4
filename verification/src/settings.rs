//! User settings: their defaults and how a loaded file is normalised.
//! Reading and writing the file is left to the application.
use vstd::prelude::*;
use crate::text::owned;

verus! {

/// Public identifier of the Bakeneko application registered in Discord. It is
/// not a secret: every installation ships it.
pub const DISCORD_APPLICATION_ID: &'static str = "1004971679476363274";

/// The user's settings. Fields missing from a stored file take their default.
#[derive(Debug, Clone)]
pub struct Settings {
    pub theme: String,
    pub accent: String,
    pub default_source: Option<String>,
    pub download_concurrency: u32,
    pub library_view: String,
    pub discord_client_id: String,
    pub reader_mode: String,
    pub reader_filter: String,
    pub discord_presence_enabled: bool,
    pub discord_show_adult: bool,
}

/// The settings as plain values.
pub struct SettingsView {
    pub theme: Seq<char>,
    pub accent: Seq<char>,
    pub default_source: Option<Seq<char>>,
    pub download_concurrency: u32,
    pub library_view: Seq<char>,
    pub discord_client_id: Seq<char>,
    pub reader_mode: Seq<char>,
    pub reader_filter: Seq<char>,
    pub discord_presence_enabled: bool,
    pub discord_show_adult: bool,
}

impl View for Settings {
    type V = SettingsView;

    open spec fn view(&self) -> SettingsView {
        SettingsView {
            theme: self.theme@,
            accent: self.accent@,
            default_source: match self.default_source {
                Some(s) => Some(s@),
                None => None,
            },
            download_concurrency: self.download_concurrency,
            library_view: self.library_view@,
            discord_client_id: self.discord_client_id@,
            reader_mode: self.reader_mode@,
            reader_filter: self.reader_filter@,
            discord_presence_enabled: self.discord_presence_enabled,
            discord_show_adult: self.discord_show_adult,
        }
    }
}

/// The defaults: dark theme, the purple accent, no default source, two
/// concurrent downloads, grid view, the application's Discord id, the
/// vertical reader without filter, presence shown and adult works hidden.
pub open spec fn is_default(s: Settings) -> bool {
    &&& s.theme@ == "dark"@
    &&& s.accent@ == "#7c5cbf"@
    &&& s.default_source is None
    &&& s.download_concurrency == 2
    &&& s.library_view@ == "grid"@
    &&& s.discord_client_id@ == DISCORD_APPLICATION_ID@
    &&& s.reader_mode@ == "webtoon"@
    &&& s.reader_filter@ == "none"@
    &&& s.discord_presence_enabled
    &&& !s.discord_show_adult
}

impl Default for Settings {
    fn default() -> (r: Settings)
        ensures
            is_default(r),
    {
        Settings {
            theme: owned("dark"),
            accent: owned("#7c5cbf"),
            default_source: None,
            download_concurrency: 2,
            library_view: owned("grid"),
            discord_client_id: owned(DISCORD_APPLICATION_ID),
            reader_mode: owned("webtoon"),
            reader_filter: owned("none"),
            discord_presence_enabled: true,
            discord_show_adult: false,
        }
    }
}

/// Settings as loaded: the stored values, except the Discord client id, which
/// is always the application's own.
pub open spec fn normalized_settings(stored: SettingsView) -> SettingsView {
    SettingsView { discord_client_id: DISCORD_APPLICATION_ID@, ..stored }
}

/// Normalises settings read from the file: the stored values are kept, but
/// the Discord client id is replaced with the application's own.
pub fn normalize_loaded(stored: Settings) -> (r: Settings)
    ensures
        r@ == normalized_settings(stored@),
{
    Settings { discord_client_id: owned(DISCORD_APPLICATION_ID), ..stored }
}

/// Loading normalised settings again changes nothing.
pub proof fn normalize_is_idempotent(stored: SettingsView)
    ensures
        normalized_settings(normalized_settings(stored)) == normalized_settings(stored),
{
}

/// The sections of the settings screen.
#[derive(Debug, Clone, Copy, PartialEq, Eq, Structural, Default)]
pub enum Section {
    #[default]
    Appearance,
    Reader,
}

/// What the settings screen sends.
#[derive(Debug, Clone)]
pub enum Message {
    SectionChanged(Section),
    AccentChanged(String),
    DensityChanged(String),
    ReaderModeChanged(String),
    ReaderFilterChanged(String),
    DiscordPresenceChanged(bool),
    DiscordAdultChanged(bool),
}

/// Applies a settings message. Changing the section only moves the screen;
/// every other message changes one setting, and answers `true`: the settings
/// are then written to disk at once.
pub fn apply_message(settings: &mut Settings, section: &mut Section, msg: Message) -> (save: bool)
    ensures
        save == !(msg is SectionChanged),
        match msg {
            Message::SectionChanged(s) => *final(section) == s && final(settings)@ == old(settings)@,
            Message::AccentChanged(a) => *final(section) == *old(section)
                && final(settings)@ == (SettingsView { accent: a@, ..old(settings)@ }),
            Message::DensityChanged(d) => *final(section) == *old(section)
                && final(settings)@ == (SettingsView { library_view: d@, ..old(settings)@ }),
            Message::ReaderModeChanged(m) => *final(section) == *old(section)
                && final(settings)@ == (SettingsView { reader_mode: m@, ..old(settings)@ }),
            Message::ReaderFilterChanged(f) => *final(section) == *old(section)
                && final(settings)@ == (SettingsView { reader_filter: f@, ..old(settings)@ }),
            Message::DiscordPresenceChanged(on) => *final(section) == *old(section)
                && final(settings)@ == (SettingsView { discord_presence_enabled: on, ..old(settings)@ }),
            Message::DiscordAdultChanged(show) => *final(section) == *old(section)
                && final(settings)@ == (SettingsView { discord_show_adult: show, ..old(settings)@ }),
        },
{
    match msg {
        Message::SectionChanged(s) => {
            *section = s;
            return false;
        },
        Message::AccentChanged(a) => settings.accent = a,
        Message::DensityChanged(d) => settings.library_view = d,
        Message::ReaderModeChanged(m) => settings.reader_mode = m,
        Message::ReaderFilterChanged(f) => settings.reader_filter = f,
        Message::DiscordPresenceChanged(on) => settings.discord_presence_enabled = on,
        Message::DiscordAdultChanged(show) => settings.discord_show_adult = show,
    }
    true
}

/// The note shown when the settings could not be written.
pub fn save_failed_note(detail: &str) -> (r: String)
    ensures
        r@ == "No se pudo guardar la configuración: "@ + detail@,
{
    let mut r = owned("No se pudo guardar la configuración: ");
    crate::text::append(&mut r, detail);
    r
}

} // verus!
