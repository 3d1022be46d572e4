//! The application shell: its screens, the sidebar's navigation, and the
//! decisions taken when the daemon reports its sources.
use vstd::prelude::*;
use crate::models::Source;
use crate::names::{has_name, names};
use crate::text::{owned, str_eq};

verus! {

/// The screens of the application.
#[derive(Debug, Clone, Copy, PartialEq, Eq, Structural)]
pub enum Screen {
    Home,
    Browse,
    Details,
    Library,
    Reader,
    Downloads,
    Settings,
    Extensions,
}

/// What the sidebar sends.
#[derive(Debug, Clone, Copy, PartialEq, Eq, Structural)]
pub enum NavMsg {
    Navigate(Screen),
}

/// The screen a navigation message opens.
pub fn screen_of(n: NavMsg) -> (r: Screen)
    ensures
        n == NavMsg::Navigate(r),
{
    match n {
        NavMsg::Navigate(s) => s,
    }
}

/// The entries of the sidebar, in order: label and screen.
pub fn nav_items() -> (r: Vec<(&'static str, Screen)>)
    ensures
        r.len() == 6,
        r[0].0@ == "Home"@ && r[0].1 == Screen::Home,
        r[1].0@ == "Biblioteca"@ && r[1].1 == Screen::Library,
        r[2].0@ == "Explorar"@ && r[2].1 == Screen::Browse,
        r[3].0@ == "Descargas"@ && r[3].1 == Screen::Downloads,
        r[4].0@ == "Extensiones"@ && r[4].1 == Screen::Extensions,
        r[5].0@ == "Ajustes"@ && r[5].1 == Screen::Settings,
{
    let mut r: Vec<(&'static str, Screen)> = Vec::new();
    r.push(("Home", Screen::Home));
    r.push(("Biblioteca", Screen::Library));
    r.push(("Explorar", Screen::Browse));
    r.push(("Descargas", Screen::Downloads));
    r.push(("Extensiones", Screen::Extensions));
    r.push(("Ajustes", Screen::Settings));
    r
}

/// What entering a screen loads.
#[derive(Debug, Clone, Copy, PartialEq, Eq, Structural)]
pub enum ScreenLoad {
    Nothing,
    Downloads,
    Library,
    RecentAndLibrary,
}

/// What navigating to a screen does: whether the reading presence is
/// cleared (when the reader is left) and what the screen loads.
pub fn navigation_effects(s: Screen) -> (r: (bool, ScreenLoad))
    ensures
        r.0 == (s != Screen::Reader),
        r.1 == match s {
            Screen::Downloads => ScreenLoad::Downloads,
            Screen::Library => ScreenLoad::Library,
            Screen::Home => ScreenLoad::RecentAndLibrary,
            _ => ScreenLoad::Nothing,
        },
{
    let load = match s {
        Screen::Downloads => ScreenLoad::Downloads,
        Screen::Library => ScreenLoad::Library,
        Screen::Home => ScreenLoad::RecentAndLibrary,
        _ => ScreenLoad::Nothing,
    };
    (s != Screen::Reader, load)
}

/// The source that browsing opens with: MangaDex when the daemon has it and
/// it is enabled, else the first enabled source.
pub open spec fn default_source_id(sources: Seq<Source>, disabled: Set<Seq<char>>) -> Option<Seq<char>> {
    if (exists|i: int| 0 <= i < sources.len() && sources[i].id@ == "MANGADEX"@)
        && !disabled.contains("MANGADEX"@) {
        Some("MANGADEX"@)
    } else if exists|i: int| 0 <= i < sources.len() && !disabled.contains(#[trigger] sources[i].id@) {
        let i = choose|i: int| 0 <= i < sources.len() && !disabled.contains(#[trigger] sources[i].id@)
            && forall|j: int| 0 <= j < i ==> disabled.contains(#[trigger] sources[j].id@);
        Some(sources[i].id@)
    } else {
        None
    }
}

fn has_source(sources: &Vec<Source>, id: &str) -> (r: bool)
    ensures
        r == exists|i: int| 0 <= i < sources.len() && sources@[i].id@ == id@,
{
    let mut i: usize = 0;
    while i < sources.len()
        invariant
            0 <= i <= sources.len(),
            forall|j: int| 0 <= j < i ==> sources@[j].id@ != id@,
        decreases sources.len() - i,
    {
        if str_eq(sources[i].id.as_str(), id) {
            return true;
        }
        i += 1;
    }
    false
}

/// The source that browsing opens with once the sources are known.
pub fn default_source(sources: &Vec<Source>, disabled: &Vec<String>) -> (r: Option<String>)
    ensures
        match r {
            Some(s) => default_source_id(sources@, names(disabled@)) == Some(s@),
            None => default_source_id(sources@, names(disabled@)) is None,
        },
{
    let ghost dis = names(disabled@);
    if has_source(sources, "MANGADEX") && !has_name(disabled, "MANGADEX") {
        return Some(owned("MANGADEX"));
    }
    let mut i: usize = 0;
    while i < sources.len()
        invariant
            0 <= i <= sources.len(),
            dis == names(disabled@),
            !((exists|k: int| 0 <= k < sources.len() && sources@[k].id@ == "MANGADEX"@)
                && !dis.contains("MANGADEX"@)),
            forall|j: int| 0 <= j < i ==> dis.contains(#[trigger] sources@[j].id@),
        decreases sources.len() - i,
    {
        if !has_name(disabled, sources[i].id.as_str()) {
            proof {
                let s = sources@;
                assert(!dis.contains(s[i as int].id@));
                let k = choose|k: int| 0 <= k < s.len() && !dis.contains(#[trigger] s[k].id@)
                    && forall|j: int| 0 <= j < k ==> dis.contains(#[trigger] s[j].id@);
                if k < i {
                    assert(dis.contains(s[k].id@));
                }
                if k > i {
                    assert(dis.contains(s[i as int].id@));
                }
            }
            return Some(sources[i].id.clone());
        }
        i += 1;
    }
    None
}

/// How many times the list of sources is asked again before giving up.
pub const MAX_SOURCE_RETRIES: u8 = 3;

/// The note shown when the daemon answered with no source.
pub open spec fn empty_sources_note() -> Seq<char> {
    "El daemon respondió sin fuentes; reintentando…"@
}

/// The note shown after the last retry failed.
pub open spec fn sources_gave_up_note() -> Seq<char> {
    "No se pudieron cargar las fuentes después de 3 intentos. Reinicia el daemon desde la aplicación."@
}

/// One more attempt at listing the sources: the count grows (saturating),
/// and past three attempts the shell gives up with a note; otherwise it
/// asks again after a second.
pub fn retry_source_list(attempts: u8) -> (r: (u8, Option<String>))
    ensures
        r.0 == if attempts == u8::MAX { u8::MAX } else { (attempts + 1) as u8 },
        r.0 > MAX_SOURCE_RETRIES ==> r.1 is Some && r.1->0@ == sources_gave_up_note(),
        r.0 <= MAX_SOURCE_RETRIES ==> r.1 is None,
{
    let next: u8 = if attempts == u8::MAX { u8::MAX } else { attempts + 1 };
    if next > MAX_SOURCE_RETRIES {
        (next, Some(owned("No se pudieron cargar las fuentes después de 3 intentos. Reinicia el daemon desde la aplicación.")))
    } else {
        (next, None)
    }
}

} // verus!
