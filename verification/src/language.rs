//! Normalisation of the locales that the daemon's sources report.
//!
//! Sources give BCP-47-like tags (`es-419`, `pt-BR`, `zh-Hans`), legacy
//! three-letter codes (`ENG`) or, for multilingual branches, the display name
//! of the language (`English`, `Українська`). Filters group them by base
//! language so that region or script variants never duplicate a language.
use vstd::prelude::*;
use crate::text::{
    ascii_lower, char_lower, chars_eq, is_ws, lemma_trim_end, lemma_trim_start, lower_char, to_chars, trim, trim_end,
    trim_start, trimmed,
};

verus! {

/// The characters of an optional string slice.
pub open spec fn opt_chars(o: Option<&str>) -> Option<Seq<char>> {
    match o {
        Some(s) => Some(s@),
        None => None,
    }
}

/// `locale.unwrap_or("")`, as characters.
pub open spec fn locale_text(o: Option<&str>) -> Seq<char> {
    match o {
        Some(s) => s@,
        None => Seq::empty(),
    }
}

/// A locale separator: `-`, or `_` (which is read as `-`).
pub open spec fn is_sep(c: char) -> bool {
    c == '-' || c == '_'
}

/// The primary subtag, lower-cased: the characters before the first separator.
pub open spec fn primary_part(s: Seq<char>) -> Seq<char>
    decreases s.len(),
{
    if s.len() == 0 || is_sep(s[0]) {
        Seq::empty()
    } else {
        seq![lower_char(s[0])] + primary_part(s.drop_first())
    }
}

/// ASCII lower case, with `_` read as `-`.
pub open spec fn norm_char(c: char) -> char {
    if c == '_' { '-' } else { lower_char(c) }
}

/// The whole locale, lower-cased and with `_` read as `-`.
pub open spec fn normalized(s: Seq<char>) -> Seq<char> {
    s.map_values(|c: char| norm_char(c))
}

/// Language key of a primary language subtag (entries 0 and on).
pub open spec fn spec_code_key_0(p: Seq<char>) -> Option<Seq<char>> {
    if p == "es"@ || p == "spa"@ {
        Some("es"@)
    } else if p == "en"@ || p == "eng"@ {
        Some("en"@)
    } else if p == "pt"@ || p == "por"@ || p == "br"@ {
        Some("pt"@)
    } else if p == "fr"@ || p == "fra"@ || p == "fre"@ {
        Some("fr"@)
    } else if p == "de"@ || p == "deu"@ || p == "ger"@ {
        Some("de"@)
    } else if p == "it"@ || p == "ita"@ {
        Some("it"@)
    } else if p == "ja"@ || p == "jpn"@ || p == "jp"@ {
        Some("ja"@)
    } else if p == "ko"@ || p == "kor"@ || p == "kr"@ {
        Some("ko"@)
    } else if p == "zh"@ || p == "zho"@ || p == "chi"@ || p == "cn"@ {
        Some("zh"@)
    } else {
        spec_code_key_1(p)
    }
}

fn code_key_0(p: &Vec<char>) -> (r: Option<&'static str>)
    ensures
        opt_chars(r) == spec_code_key_0(p@),
{
    if chars_eq(p, "es") || chars_eq(p, "spa") {
        Some("es")
    } else if chars_eq(p, "en") || chars_eq(p, "eng") {
        Some("en")
    } else if chars_eq(p, "pt") || chars_eq(p, "por") || chars_eq(p, "br") {
        Some("pt")
    } else if chars_eq(p, "fr") || chars_eq(p, "fra") || chars_eq(p, "fre") {
        Some("fr")
    } else if chars_eq(p, "de") || chars_eq(p, "deu") || chars_eq(p, "ger") {
        Some("de")
    } else if chars_eq(p, "it") || chars_eq(p, "ita") {
        Some("it")
    } else if chars_eq(p, "ja") || chars_eq(p, "jpn") || chars_eq(p, "jp") {
        Some("ja")
    } else if chars_eq(p, "ko") || chars_eq(p, "kor") || chars_eq(p, "kr") {
        Some("ko")
    } else if chars_eq(p, "zh") || chars_eq(p, "zho") || chars_eq(p, "chi") || chars_eq(p, "cn") {
        Some("zh")
    } else {
        code_key_1(p)
    }
}

/// Language key of a primary language subtag (entries 9 and on).
pub open spec fn spec_code_key_1(p: Seq<char>) -> Option<Seq<char>> {
    if p == "ru"@ || p == "rus"@ {
        Some("ru"@)
    } else if p == "id"@ || p == "ind"@ {
        Some("id"@)
    } else if p == "vi"@ || p == "vie"@ {
        Some("vi"@)
    } else if p == "th"@ || p == "tha"@ {
        Some("th"@)
    } else if p == "sl"@ || p == "slv"@ {
        Some("sl"@)
    } else if p == "tr"@ || p == "tur"@ {
        Some("tr"@)
    } else if p == "pl"@ || p == "pol"@ {
        Some("pl"@)
    } else if p == "nl"@ || p == "nld"@ || p == "dut"@ {
        Some("nl"@)
    } else if p == "ar"@ || p == "ara"@ {
        Some("ar"@)
    } else {
        spec_code_key_2(p)
    }
}

fn code_key_1(p: &Vec<char>) -> (r: Option<&'static str>)
    ensures
        opt_chars(r) == spec_code_key_1(p@),
{
    if chars_eq(p, "ru") || chars_eq(p, "rus") {
        Some("ru")
    } else if chars_eq(p, "id") || chars_eq(p, "ind") {
        Some("id")
    } else if chars_eq(p, "vi") || chars_eq(p, "vie") {
        Some("vi")
    } else if chars_eq(p, "th") || chars_eq(p, "tha") {
        Some("th")
    } else if chars_eq(p, "sl") || chars_eq(p, "slv") {
        Some("sl")
    } else if chars_eq(p, "tr") || chars_eq(p, "tur") {
        Some("tr")
    } else if chars_eq(p, "pl") || chars_eq(p, "pol") {
        Some("pl")
    } else if chars_eq(p, "nl") || chars_eq(p, "nld") || chars_eq(p, "dut") {
        Some("nl")
    } else if chars_eq(p, "ar") || chars_eq(p, "ara") {
        Some("ar")
    } else {
        code_key_2(p)
    }
}

/// Language key of a primary language subtag (entries 18 and on).
pub open spec fn spec_code_key_2(p: Seq<char>) -> Option<Seq<char>> {
    if p == "hi"@ || p == "hin"@ {
        Some("hi"@)
    } else if p == "ms"@ || p == "msa"@ || p == "may"@ {
        Some("ms"@)
    } else if p == "ca"@ || p == "cat"@ {
        Some("ca"@)
    } else if p == "ro"@ || p == "ron"@ || p == "rum"@ {
        Some("ro"@)
    } else if p == "uk"@ || p == "ukr"@ {
        Some("uk"@)
    } else if p == "hu"@ || p == "hun"@ {
        Some("hu"@)
    } else if p == "sv"@ || p == "swe"@ {
        Some("sv"@)
    } else if p == "no"@ || p == "nor"@ || p == "nb"@ || p == "nn"@ {
        Some("no"@)
    } else if p == "da"@ || p == "dan"@ {
        Some("da"@)
    } else {
        spec_code_key_3(p)
    }
}

fn code_key_2(p: &Vec<char>) -> (r: Option<&'static str>)
    ensures
        opt_chars(r) == spec_code_key_2(p@),
{
    if chars_eq(p, "hi") || chars_eq(p, "hin") {
        Some("hi")
    } else if chars_eq(p, "ms") || chars_eq(p, "msa") || chars_eq(p, "may") {
        Some("ms")
    } else if chars_eq(p, "ca") || chars_eq(p, "cat") {
        Some("ca")
    } else if chars_eq(p, "ro") || chars_eq(p, "ron") || chars_eq(p, "rum") {
        Some("ro")
    } else if chars_eq(p, "uk") || chars_eq(p, "ukr") {
        Some("uk")
    } else if chars_eq(p, "hu") || chars_eq(p, "hun") {
        Some("hu")
    } else if chars_eq(p, "sv") || chars_eq(p, "swe") {
        Some("sv")
    } else if chars_eq(p, "no") || chars_eq(p, "nor") || chars_eq(p, "nb") || chars_eq(p, "nn") {
        Some("no")
    } else if chars_eq(p, "da") || chars_eq(p, "dan") {
        Some("da")
    } else {
        code_key_3(p)
    }
}

/// Language key of a primary language subtag (entries 27 and on).
pub open spec fn spec_code_key_3(p: Seq<char>) -> Option<Seq<char>> {
    if p == "fi"@ || p == "fin"@ {
        Some("fi"@)
    } else if p == "cs"@ || p == "ces"@ || p == "cze"@ {
        Some("cs"@)
    } else if p == "el"@ || p == "ell"@ || p == "gre"@ {
        Some("el"@)
    } else if p == "he"@ || p == "heb"@ || p == "iw"@ {
        Some("he"@)
    } else if p == "fa"@ || p == "fas"@ || p == "per"@ {
        Some("fa"@)
    } else if p == "bn"@ || p == "ben"@ {
        Some("bn"@)
    } else if p == "tl"@ || p == "fil"@ {
        Some("fil"@)
    } else {
        None
    }
}

fn code_key_3(p: &Vec<char>) -> (r: Option<&'static str>)
    ensures
        opt_chars(r) == spec_code_key_3(p@),
{
    if chars_eq(p, "fi") || chars_eq(p, "fin") {
        Some("fi")
    } else if chars_eq(p, "cs") || chars_eq(p, "ces") || chars_eq(p, "cze") {
        Some("cs")
    } else if chars_eq(p, "el") || chars_eq(p, "ell") || chars_eq(p, "gre") {
        Some("el")
    } else if chars_eq(p, "he") || chars_eq(p, "heb") || chars_eq(p, "iw") {
        Some("he")
    } else if chars_eq(p, "fa") || chars_eq(p, "fas") || chars_eq(p, "per") {
        Some("fa")
    } else if chars_eq(p, "bn") || chars_eq(p, "ben") {
        Some("bn")
    } else if chars_eq(p, "tl") || chars_eq(p, "fil") {
        Some("fil")
    } else {
        None
    }
}

/// Language key of a language's display name (entries 0 and on).
pub open spec fn spec_name_key_0(p: Seq<char>) -> Option<Seq<char>> {
    if p == "spanish"@ || p == "español"@ {
        Some("es"@)
    } else if p == "english"@ {
        Some("en"@)
    } else if p == "portuguese"@ || p == "português"@ {
        Some("pt"@)
    } else if p == "french"@ || p == "français"@ {
        Some("fr"@)
    } else if p == "german"@ || p == "deutsch"@ {
        Some("de"@)
    } else if p == "italian"@ || p == "italiano"@ {
        Some("it"@)
    } else if p == "japanese"@ || p == "日本語"@ {
        Some("ja"@)
    } else if p == "korean"@ || p == "한국어"@ {
        Some("ko"@)
    } else if p == "chinese"@ || p == "中文"@ {
        Some("zh"@)
    } else {
        spec_name_key_1(p)
    }
}

fn name_key_0(p: &Vec<char>) -> (r: Option<&'static str>)
    ensures
        opt_chars(r) == spec_name_key_0(p@),
{
    if chars_eq(p, "spanish") || chars_eq(p, "español") {
        Some("es")
    } else if chars_eq(p, "english") {
        Some("en")
    } else if chars_eq(p, "portuguese") || chars_eq(p, "português") {
        Some("pt")
    } else if chars_eq(p, "french") || chars_eq(p, "français") {
        Some("fr")
    } else if chars_eq(p, "german") || chars_eq(p, "deutsch") {
        Some("de")
    } else if chars_eq(p, "italian") || chars_eq(p, "italiano") {
        Some("it")
    } else if chars_eq(p, "japanese") || chars_eq(p, "日本語") {
        Some("ja")
    } else if chars_eq(p, "korean") || chars_eq(p, "한국어") {
        Some("ko")
    } else if chars_eq(p, "chinese") || chars_eq(p, "中文") {
        Some("zh")
    } else {
        name_key_1(p)
    }
}

/// Language key of a language's display name (entries 9 and on).
pub open spec fn spec_name_key_1(p: Seq<char>) -> Option<Seq<char>> {
    if p == "russian"@ || p == "Русский"@ {
        Some("ru"@)
    } else if p == "indonesian"@ || p == "bahasa indonesia"@ {
        Some("id"@)
    } else if p == "vietnamese"@ || p == "tiếng việt"@ {
        Some("vi"@)
    } else if p == "thai"@ || p == "ไทย"@ {
        Some("th"@)
    } else if p == "slovenian"@ || p == "slovenščina"@ {
        Some("sl"@)
    } else if p == "turkish"@ || p == "türkçe"@ {
        Some("tr"@)
    } else if p == "polish"@ || p == "polski"@ {
        Some("pl"@)
    } else if p == "dutch"@ || p == "nederlands"@ {
        Some("nl"@)
    } else if p == "arabic"@ || p == "العربية"@ {
        Some("ar"@)
    } else {
        spec_name_key_2(p)
    }
}

fn name_key_1(p: &Vec<char>) -> (r: Option<&'static str>)
    ensures
        opt_chars(r) == spec_name_key_1(p@),
{
    if chars_eq(p, "russian") || chars_eq(p, "Русский") {
        Some("ru")
    } else if chars_eq(p, "indonesian") || chars_eq(p, "bahasa indonesia") {
        Some("id")
    } else if chars_eq(p, "vietnamese") || chars_eq(p, "tiếng việt") {
        Some("vi")
    } else if chars_eq(p, "thai") || chars_eq(p, "ไทย") {
        Some("th")
    } else if chars_eq(p, "slovenian") || chars_eq(p, "slovenščina") {
        Some("sl")
    } else if chars_eq(p, "turkish") || chars_eq(p, "türkçe") {
        Some("tr")
    } else if chars_eq(p, "polish") || chars_eq(p, "polski") {
        Some("pl")
    } else if chars_eq(p, "dutch") || chars_eq(p, "nederlands") {
        Some("nl")
    } else if chars_eq(p, "arabic") || chars_eq(p, "العربية") {
        Some("ar")
    } else {
        name_key_2(p)
    }
}

/// Language key of a language's display name (entries 18 and on).
pub open spec fn spec_name_key_2(p: Seq<char>) -> Option<Seq<char>> {
    if p == "hindi"@ || p == "हिन्दी"@ {
        Some("hi"@)
    } else if p == "malay"@ || p == "bahasa melayu"@ {
        Some("ms"@)
    } else if p == "catalan"@ || p == "català"@ {
        Some("ca"@)
    } else if p == "romanian"@ || p == "română"@ {
        Some("ro"@)
    } else if p == "ukrainian"@ || p == "Українська"@ {
        Some("uk"@)
    } else if p == "hungarian"@ || p == "magyar"@ {
        Some("hu"@)
    } else if p == "swedish"@ || p == "svenska"@ {
        Some("sv"@)
    } else if p == "norwegian"@ || p == "norsk"@ {
        Some("no"@)
    } else if p == "danish"@ || p == "dansk"@ {
        Some("da"@)
    } else {
        spec_name_key_3(p)
    }
}

fn name_key_2(p: &Vec<char>) -> (r: Option<&'static str>)
    ensures
        opt_chars(r) == spec_name_key_2(p@),
{
    if chars_eq(p, "hindi") || chars_eq(p, "हिन्दी") {
        Some("hi")
    } else if chars_eq(p, "malay") || chars_eq(p, "bahasa melayu") {
        Some("ms")
    } else if chars_eq(p, "catalan") || chars_eq(p, "català") {
        Some("ca")
    } else if chars_eq(p, "romanian") || chars_eq(p, "română") {
        Some("ro")
    } else if chars_eq(p, "ukrainian") || chars_eq(p, "Українська") {
        Some("uk")
    } else if chars_eq(p, "hungarian") || chars_eq(p, "magyar") {
        Some("hu")
    } else if chars_eq(p, "swedish") || chars_eq(p, "svenska") {
        Some("sv")
    } else if chars_eq(p, "norwegian") || chars_eq(p, "norsk") {
        Some("no")
    } else if chars_eq(p, "danish") || chars_eq(p, "dansk") {
        Some("da")
    } else {
        name_key_3(p)
    }
}

/// Language key of a language's display name (entries 27 and on).
pub open spec fn spec_name_key_3(p: Seq<char>) -> Option<Seq<char>> {
    if p == "finnish"@ || p == "suomi"@ {
        Some("fi"@)
    } else if p == "czech"@ || p == "čeština"@ {
        Some("cs"@)
    } else if p == "greek"@ || p == "Ελληνικά"@ {
        Some("el"@)
    } else if p == "hebrew"@ || p == "עברית"@ {
        Some("he"@)
    } else if p == "persian"@ || p == "فارسی"@ {
        Some("fa"@)
    } else if p == "bengali"@ || p == "বাংলা"@ {
        Some("bn"@)
    } else if p == "filipino"@ || p == "tagalog"@ {
        Some("fil"@)
    } else {
        None
    }
}

fn name_key_3(p: &Vec<char>) -> (r: Option<&'static str>)
    ensures
        opt_chars(r) == spec_name_key_3(p@),
{
    if chars_eq(p, "finnish") || chars_eq(p, "suomi") {
        Some("fi")
    } else if chars_eq(p, "czech") || chars_eq(p, "čeština") {
        Some("cs")
    } else if chars_eq(p, "greek") || chars_eq(p, "Ελληνικά") {
        Some("el")
    } else if chars_eq(p, "hebrew") || chars_eq(p, "עברית") {
        Some("he")
    } else if chars_eq(p, "persian") || chars_eq(p, "فارسی") {
        Some("fa")
    } else if chars_eq(p, "bengali") || chars_eq(p, "বাংলা") {
        Some("bn")
    } else if chars_eq(p, "filipino") || chars_eq(p, "tagalog") {
        Some("fil")
    } else {
        None
    }
}

/// Spanish display name of a language key (entries 0 and on).
pub open spec fn spec_label_part_0(k: Seq<char>) -> Seq<char> {
    if k == "es"@ {
        "Español"@
    } else if k == "en"@ {
        "Inglés"@
    } else if k == "pt"@ {
        "Portugués"@
    } else if k == "fr"@ {
        "Francés"@
    } else if k == "de"@ {
        "Alemán"@
    } else if k == "it"@ {
        "Italiano"@
    } else if k == "ja"@ {
        "Japonés"@
    } else if k == "ko"@ {
        "Coreano"@
    } else if k == "zh"@ {
        "Chino"@
    } else if k == "ru"@ {
        "Ruso"@
    } else if k == "id"@ {
        "Indonesio"@
    } else if k == "vi"@ {
        "Vietnamita"@
    } else {
        spec_label_part_1(k)
    }
}

fn label_part_0(k: &Vec<char>) -> (r: &'static str)
    ensures
        r@ == spec_label_part_0(k@),
{
    if chars_eq(k, "es") {
        "Español"
    } else if chars_eq(k, "en") {
        "Inglés"
    } else if chars_eq(k, "pt") {
        "Portugués"
    } else if chars_eq(k, "fr") {
        "Francés"
    } else if chars_eq(k, "de") {
        "Alemán"
    } else if chars_eq(k, "it") {
        "Italiano"
    } else if chars_eq(k, "ja") {
        "Japonés"
    } else if chars_eq(k, "ko") {
        "Coreano"
    } else if chars_eq(k, "zh") {
        "Chino"
    } else if chars_eq(k, "ru") {
        "Ruso"
    } else if chars_eq(k, "id") {
        "Indonesio"
    } else if chars_eq(k, "vi") {
        "Vietnamita"
    } else {
        label_part_1(k)
    }
}

/// Spanish display name of a language key (entries 12 and on).
pub open spec fn spec_label_part_1(k: Seq<char>) -> Seq<char> {
    if k == "th"@ {
        "Tailandés"@
    } else if k == "sl"@ {
        "Esloveno"@
    } else if k == "tr"@ {
        "Turco"@
    } else if k == "pl"@ {
        "Polaco"@
    } else if k == "nl"@ {
        "Neerlandés"@
    } else if k == "ar"@ {
        "Árabe"@
    } else if k == "hi"@ {
        "Hindi"@
    } else if k == "ms"@ {
        "Malayo"@
    } else if k == "ca"@ {
        "Catalán"@
    } else if k == "ro"@ {
        "Rumano"@
    } else if k == "uk"@ {
        "Ucraniano"@
    } else if k == "hu"@ {
        "Húngaro"@
    } else {
        spec_label_part_2(k)
    }
}

fn label_part_1(k: &Vec<char>) -> (r: &'static str)
    ensures
        r@ == spec_label_part_1(k@),
{
    if chars_eq(k, "th") {
        "Tailandés"
    } else if chars_eq(k, "sl") {
        "Esloveno"
    } else if chars_eq(k, "tr") {
        "Turco"
    } else if chars_eq(k, "pl") {
        "Polaco"
    } else if chars_eq(k, "nl") {
        "Neerlandés"
    } else if chars_eq(k, "ar") {
        "Árabe"
    } else if chars_eq(k, "hi") {
        "Hindi"
    } else if chars_eq(k, "ms") {
        "Malayo"
    } else if chars_eq(k, "ca") {
        "Catalán"
    } else if chars_eq(k, "ro") {
        "Rumano"
    } else if chars_eq(k, "uk") {
        "Ucraniano"
    } else if chars_eq(k, "hu") {
        "Húngaro"
    } else {
        label_part_2(k)
    }
}

/// Spanish display name of a language key (entries 24 and on).
pub open spec fn spec_label_part_2(k: Seq<char>) -> Seq<char> {
    if k == "sv"@ {
        "Sueco"@
    } else if k == "no"@ {
        "Noruego"@
    } else if k == "da"@ {
        "Danés"@
    } else if k == "fi"@ {
        "Finés"@
    } else if k == "cs"@ {
        "Checo"@
    } else if k == "el"@ {
        "Griego"@
    } else if k == "he"@ {
        "Hebreo"@
    } else if k == "fa"@ {
        "Persa"@
    } else if k == "bn"@ {
        "Bengalí"@
    } else if k == "fil"@ {
        "Filipino"@
    } else if k == "mixed"@ {
        "Idioma mixto"@
    } else {
        "Otro idioma"@
    }
}

fn label_part_2(k: &Vec<char>) -> (r: &'static str)
    ensures
        r@ == spec_label_part_2(k@),
{
    if chars_eq(k, "sv") {
        "Sueco"
    } else if chars_eq(k, "no") {
        "Noruego"
    } else if chars_eq(k, "da") {
        "Danés"
    } else if chars_eq(k, "fi") {
        "Finés"
    } else if chars_eq(k, "cs") {
        "Checo"
    } else if chars_eq(k, "el") {
        "Griego"
    } else if chars_eq(k, "he") {
        "Hebreo"
    } else if chars_eq(k, "fa") {
        "Persa"
    } else if chars_eq(k, "bn") {
        "Bengalí"
    } else if chars_eq(k, "fil") {
        "Filipino"
    } else if chars_eq(k, "mixed") {
        "Idioma mixto"
    } else {
        "Otro idioma"
    }
}
/// The canonical language key of a locale.
pub open spec fn spec_key(locale: Seq<char>) -> Seq<char> {
    let raw = trimmed(locale);
    if raw.len() == 0 {
        "mixed"@
    } else {
        match spec_code_key_0(primary_part(raw)) {
            Some(k) => k,
            None => match spec_name_key_0(normalized(raw)) {
                Some(k) => k,
                None => "other"@,
            },
        }
    }
}

/// The Spanish display name of a language key.
pub open spec fn spec_label_for_key(k: Seq<char>) -> Seq<char> {
    spec_label_part_0(k)
}

proof fn lemma_primary(s: Seq<char>, i: int)
    requires
        0 <= i <= s.len(),
        forall|j: int| 0 <= j < i ==> !is_sep(#[trigger] s[j]),
    ensures
        primary_part(s) == ascii_lower(s.take(i)) + primary_part(s.skip(i)),
    decreases i,
{
    if i == 0 {
        assert(s.skip(0) == s);
        assert(ascii_lower(s.take(0)) == Seq::<char>::empty());
    } else {
        let t = s.drop_first();
        assert forall|j: int| 0 <= j < i - 1 implies !is_sep(#[trigger] t[j]) by {
            assert(t[j] == s[j + 1]);
        }
        lemma_primary(t, i - 1);
        assert(t.skip(i - 1) == s.skip(i));
        assert(ascii_lower(s.take(i)) == seq![lower_char(s[0])] + ascii_lower(t.take(i - 1)));
    }
}

/// Region and script variants never split a language: a known primary
/// subtag followed by a separator (`-` or `_`) and any region, script or
/// variant has the key of the subtag alone (`pt-BR` and `pt`, `es_419` and
/// `es`, `zh-Hans` and `zh`).
pub proof fn variants_share_the_key(p: Seq<char>, sep: char, rest: Seq<char>)
    requires
        p.len() > 0,
        forall|j: int| 0 <= j < p.len() ==> !is_sep(#[trigger] p[j]) && !is_ws(p[j]),
        is_sep(sep),
        spec_code_key_0(ascii_lower(p)) is Some,
    ensures
        spec_key(p + seq![sep] + rest) == spec_key(p),
{
    lemma_variant_parts(p, sep, rest);
}

/// Trailing whitespace is cut from the tail only, when the head ends in
/// something else.
proof fn lemma_trim_end_append(q: Seq<char>, r: Seq<char>)
    requires
        q.len() > 0,
        !is_ws(q.last()),
    ensures
        trim_end(q + r) == q + trim_end(r),
    decreases r.len(),
{
    if r.len() == 0 {
        assert(q + r =~= q);
        assert(q + trim_end(r) =~= q);
    } else {
        assert((q + r).last() == r.last());
        if is_ws(r.last()) {
            assert((q + r).drop_last() =~= q + r.drop_last());
            lemma_trim_end_append(q, r.drop_last());
        }
    }
}

/// The trimmed text and primary subtag of a subtag followed by a separator
/// and a tail, and of the subtag alone.
proof fn lemma_variant_parts(p: Seq<char>, sep: char, rest: Seq<char>)
    requires
        p.len() > 0,
        forall|j: int| 0 <= j < p.len() ==> !is_sep(#[trigger] p[j]) && !is_ws(p[j]),
        is_sep(sep),
    ensures
        trimmed(p + seq![sep] + rest) == p + seq![sep] + trim_end(rest),
        trimmed(p) == p,
        primary_part(trimmed(p + seq![sep] + rest)) == ascii_lower(p),
        primary_part(p) == ascii_lower(p),
{
    let whole = p + seq![sep] + rest;
    let head = p + seq![sep];
    assert(whole == head + rest);
    assert(whole[0] == p[0]);
    lemma_trim_start(whole, 0);
    assert(whole.subrange(0, whole.len() as int) == whole);
    assert(trim_start(whole) == whole);
    assert(head.last() == sep);
    lemma_trim_end_append(head, rest);
    let t = head + trim_end(rest);
    lemma_trim_start(p, 0);
    lemma_trim_end(p, p.len() as int);
    assert(p.subrange(0, p.len() as int) == p);
    assert forall|j: int| 0 <= j < p.len() implies !is_sep(#[trigger] t[j]) by {
        assert(t[j] == p[j]);
    }
    lemma_primary(t, p.len() as int);
    assert(t.take(p.len() as int) == p);
    assert(t.skip(p.len() as int)[0] == sep);
    assert(primary_part(t.skip(p.len() as int)) == Seq::<char>::empty());
    lemma_primary(p, p.len() as int);
    assert(p.take(p.len() as int) == p);
    assert(p.skip(p.len() as int).len() == 0);
}

/// No `-` in `s`.
pub open spec fn dash_free(s: Seq<char>) -> bool {
    forall|i: int| 0 <= i < s.len() ==> #[trigger] s[i] != '-'
}

/// No display name of the name table holds a `-`.
proof fn lemma_names_dash_free()
    ensures
        dash_free("spanish"@),
        dash_free("español"@),
        dash_free("english"@),
        dash_free("portuguese"@),
        dash_free("português"@),
        dash_free("french"@),
        dash_free("français"@),
        dash_free("german"@),
        dash_free("deutsch"@),
        dash_free("italian"@),
        dash_free("italiano"@),
        dash_free("japanese"@),
        dash_free("日本語"@),
        dash_free("korean"@),
        dash_free("한국어"@),
        dash_free("chinese"@),
        dash_free("中文"@),
        dash_free("russian"@),
        dash_free("Русский"@),
        dash_free("indonesian"@),
        dash_free("bahasa indonesia"@),
        dash_free("vietnamese"@),
        dash_free("tiếng việt"@),
        dash_free("thai"@),
        dash_free("ไทย"@),
        dash_free("slovenian"@),
        dash_free("slovenščina"@),
        dash_free("turkish"@),
        dash_free("türkçe"@),
        dash_free("polish"@),
        dash_free("polski"@),
        dash_free("dutch"@),
        dash_free("nederlands"@),
        dash_free("arabic"@),
        dash_free("العربية"@),
        dash_free("hindi"@),
        dash_free("हिन्दी"@),
        dash_free("malay"@),
        dash_free("bahasa melayu"@),
        dash_free("catalan"@),
        dash_free("català"@),
        dash_free("romanian"@),
        dash_free("română"@),
        dash_free("ukrainian"@),
        dash_free("Українська"@),
        dash_free("hungarian"@),
        dash_free("magyar"@),
        dash_free("swedish"@),
        dash_free("svenska"@),
        dash_free("norwegian"@),
        dash_free("norsk"@),
        dash_free("danish"@),
        dash_free("dansk"@),
        dash_free("finnish"@),
        dash_free("suomi"@),
        dash_free("czech"@),
        dash_free("čeština"@),
        dash_free("greek"@),
        dash_free("Ελληνικά"@),
        dash_free("hebrew"@),
        dash_free("עברית"@),
        dash_free("persian"@),
        dash_free("فارسی"@),
        dash_free("bengali"@),
        dash_free("বাংলা"@),
        dash_free("filipino"@),
        dash_free("tagalog"@),
{
    reveal_strlit("spanish");
    assert("spanish"@ =~= seq!['s', 'p', 'a', 'n', 'i', 's', 'h']);
    reveal_strlit("español");
    assert("español"@ =~= seq!['e', 's', 'p', 'a', 'ñ', 'o', 'l']);
    reveal_strlit("english");
    assert("english"@ =~= seq!['e', 'n', 'g', 'l', 'i', 's', 'h']);
    reveal_strlit("portuguese");
    assert("portuguese"@ =~= seq!['p', 'o', 'r', 't', 'u', 'g', 'u', 'e', 's', 'e']);
    reveal_strlit("português");
    assert("português"@ =~= seq!['p', 'o', 'r', 't', 'u', 'g', 'u', 'ê', 's']);
    reveal_strlit("french");
    assert("french"@ =~= seq!['f', 'r', 'e', 'n', 'c', 'h']);
    reveal_strlit("français");
    assert("français"@ =~= seq!['f', 'r', 'a', 'n', 'ç', 'a', 'i', 's']);
    reveal_strlit("german");
    assert("german"@ =~= seq!['g', 'e', 'r', 'm', 'a', 'n']);
    reveal_strlit("deutsch");
    assert("deutsch"@ =~= seq!['d', 'e', 'u', 't', 's', 'c', 'h']);
    reveal_strlit("italian");
    assert("italian"@ =~= seq!['i', 't', 'a', 'l', 'i', 'a', 'n']);
    reveal_strlit("italiano");
    assert("italiano"@ =~= seq!['i', 't', 'a', 'l', 'i', 'a', 'n', 'o']);
    reveal_strlit("japanese");
    assert("japanese"@ =~= seq!['j', 'a', 'p', 'a', 'n', 'e', 's', 'e']);
    reveal_strlit("日本語");
    assert("日本語"@ =~= seq!['日', '本', '語']);
    reveal_strlit("korean");
    assert("korean"@ =~= seq!['k', 'o', 'r', 'e', 'a', 'n']);
    reveal_strlit("한국어");
    assert("한국어"@ =~= seq!['한', '국', '어']);
    reveal_strlit("chinese");
    assert("chinese"@ =~= seq!['c', 'h', 'i', 'n', 'e', 's', 'e']);
    reveal_strlit("中文");
    assert("中文"@ =~= seq!['中', '文']);
    reveal_strlit("russian");
    assert("russian"@ =~= seq!['r', 'u', 's', 's', 'i', 'a', 'n']);
    reveal_strlit("Русский");
    assert("Русский"@ =~= seq!['Р', 'у', 'с', 'с', 'к', 'и', 'й']);
    reveal_strlit("indonesian");
    assert("indonesian"@ =~= seq!['i', 'n', 'd', 'o', 'n', 'e', 's', 'i', 'a', 'n']);
    reveal_strlit("bahasa indonesia");
    assert("bahasa indonesia"@ =~= seq!['b', 'a', 'h', 'a', 's', 'a', ' ', 'i', 'n', 'd', 'o', 'n', 'e', 's', 'i', 'a']);
    reveal_strlit("vietnamese");
    assert("vietnamese"@ =~= seq!['v', 'i', 'e', 't', 'n', 'a', 'm', 'e', 's', 'e']);
    reveal_strlit("tiếng việt");
    assert("tiếng việt"@ =~= seq!['t', 'i', 'ế', 'n', 'g', ' ', 'v', 'i', 'ệ', 't']);
    reveal_strlit("thai");
    assert("thai"@ =~= seq!['t', 'h', 'a', 'i']);
    reveal_strlit("ไทย");
    assert("ไทย"@ =~= seq!['ไ', 'ท', 'ย']);
    reveal_strlit("slovenian");
    assert("slovenian"@ =~= seq!['s', 'l', 'o', 'v', 'e', 'n', 'i', 'a', 'n']);
    reveal_strlit("slovenščina");
    assert("slovenščina"@ =~= seq!['s', 'l', 'o', 'v', 'e', 'n', 'š', 'č', 'i', 'n', 'a']);
    reveal_strlit("turkish");
    assert("turkish"@ =~= seq!['t', 'u', 'r', 'k', 'i', 's', 'h']);
    reveal_strlit("türkçe");
    assert("türkçe"@ =~= seq!['t', 'ü', 'r', 'k', 'ç', 'e']);
    reveal_strlit("polish");
    assert("polish"@ =~= seq!['p', 'o', 'l', 'i', 's', 'h']);
    reveal_strlit("polski");
    assert("polski"@ =~= seq!['p', 'o', 'l', 's', 'k', 'i']);
    reveal_strlit("dutch");
    assert("dutch"@ =~= seq!['d', 'u', 't', 'c', 'h']);
    reveal_strlit("nederlands");
    assert("nederlands"@ =~= seq!['n', 'e', 'd', 'e', 'r', 'l', 'a', 'n', 'd', 's']);
    reveal_strlit("arabic");
    assert("arabic"@ =~= seq!['a', 'r', 'a', 'b', 'i', 'c']);
    reveal_strlit("العربية");
    assert("العربية"@ =~= seq!['ا', 'ل', 'ع', 'ر', 'ب', 'ي', 'ة']);
    reveal_strlit("hindi");
    assert("hindi"@ =~= seq!['h', 'i', 'n', 'd', 'i']);
    reveal_strlit("हिन्दी");
    assert("हिन्दी"@ =~= seq!['ह', 'ि', 'न', '्', 'द', 'ी']);
    reveal_strlit("malay");
    assert("malay"@ =~= seq!['m', 'a', 'l', 'a', 'y']);
    reveal_strlit("bahasa melayu");
    assert("bahasa melayu"@ =~= seq!['b', 'a', 'h', 'a', 's', 'a', ' ', 'm', 'e', 'l', 'a', 'y', 'u']);
    reveal_strlit("catalan");
    assert("catalan"@ =~= seq!['c', 'a', 't', 'a', 'l', 'a', 'n']);
    reveal_strlit("català");
    assert("català"@ =~= seq!['c', 'a', 't', 'a', 'l', 'à']);
    reveal_strlit("romanian");
    assert("romanian"@ =~= seq!['r', 'o', 'm', 'a', 'n', 'i', 'a', 'n']);
    reveal_strlit("română");
    assert("română"@ =~= seq!['r', 'o', 'm', 'â', 'n', 'ă']);
    reveal_strlit("ukrainian");
    assert("ukrainian"@ =~= seq!['u', 'k', 'r', 'a', 'i', 'n', 'i', 'a', 'n']);
    reveal_strlit("Українська");
    assert("Українська"@ =~= seq!['У', 'к', 'р', 'а', 'ї', 'н', 'с', 'ь', 'к', 'а']);
    reveal_strlit("hungarian");
    assert("hungarian"@ =~= seq!['h', 'u', 'n', 'g', 'a', 'r', 'i', 'a', 'n']);
    reveal_strlit("magyar");
    assert("magyar"@ =~= seq!['m', 'a', 'g', 'y', 'a', 'r']);
    reveal_strlit("swedish");
    assert("swedish"@ =~= seq!['s', 'w', 'e', 'd', 'i', 's', 'h']);
    reveal_strlit("svenska");
    assert("svenska"@ =~= seq!['s', 'v', 'e', 'n', 's', 'k', 'a']);
    reveal_strlit("norwegian");
    assert("norwegian"@ =~= seq!['n', 'o', 'r', 'w', 'e', 'g', 'i', 'a', 'n']);
    reveal_strlit("norsk");
    assert("norsk"@ =~= seq!['n', 'o', 'r', 's', 'k']);
    reveal_strlit("danish");
    assert("danish"@ =~= seq!['d', 'a', 'n', 'i', 's', 'h']);
    reveal_strlit("dansk");
    assert("dansk"@ =~= seq!['d', 'a', 'n', 's', 'k']);
    reveal_strlit("finnish");
    assert("finnish"@ =~= seq!['f', 'i', 'n', 'n', 'i', 's', 'h']);
    reveal_strlit("suomi");
    assert("suomi"@ =~= seq!['s', 'u', 'o', 'm', 'i']);
    reveal_strlit("czech");
    assert("czech"@ =~= seq!['c', 'z', 'e', 'c', 'h']);
    reveal_strlit("čeština");
    assert("čeština"@ =~= seq!['č', 'e', 'š', 't', 'i', 'n', 'a']);
    reveal_strlit("greek");
    assert("greek"@ =~= seq!['g', 'r', 'e', 'e', 'k']);
    reveal_strlit("Ελληνικά");
    assert("Ελληνικά"@ =~= seq!['Ε', 'λ', 'λ', 'η', 'ν', 'ι', 'κ', 'ά']);
    reveal_strlit("hebrew");
    assert("hebrew"@ =~= seq!['h', 'e', 'b', 'r', 'e', 'w']);
    reveal_strlit("עברית");
    assert("עברית"@ =~= seq!['ע', 'ב', 'ר', 'י', 'ת']);
    reveal_strlit("persian");
    assert("persian"@ =~= seq!['p', 'e', 'r', 's', 'i', 'a', 'n']);
    reveal_strlit("فارسی");
    assert("فارسی"@ =~= seq!['ف', 'ا', 'ر', 'س', 'ی']);
    reveal_strlit("bengali");
    assert("bengali"@ =~= seq!['b', 'e', 'n', 'g', 'a', 'l', 'i']);
    reveal_strlit("বাংলা");
    assert("বাংলা"@ =~= seq!['ব', 'া', 'ং', 'ল', 'া']);
    reveal_strlit("filipino");
    assert("filipino"@ =~= seq!['f', 'i', 'l', 'i', 'p', 'i', 'n', 'o']);
    reveal_strlit("tagalog");
    assert("tagalog"@ =~= seq!['t', 'a', 'g', 'a', 'l', 'o', 'g']);
}

/// A text holding a `-` is no display name of the table.
proof fn lemma_dash_is_no_name(s: Seq<char>, k: int)
    requires
        0 <= k < s.len(),
        s[k] == '-',
    ensures
        spec_name_key_0(s) is None,
{
    lemma_names_dash_free();
}

/// A primary subtag that is neither a known code nor a language's display
/// name keys to `other`, and so does the subtag followed by a separator and
/// any tail: variants of an unknown language do not split either. (A display
/// name is a key of its own that its variants do not share: `english` keys to
/// `en`, `english-x` to `other`.)
pub proof fn unknown_variants_share_the_key(p: Seq<char>, sep: char, rest: Seq<char>)
    requires
        p.len() > 0,
        forall|j: int| 0 <= j < p.len() ==> !is_sep(#[trigger] p[j]) && !is_ws(p[j]),
        is_sep(sep),
        spec_code_key_0(ascii_lower(p)) is None,
        spec_name_key_0(normalized(p)) is None,
    ensures
        spec_key(p + seq![sep] + rest) == spec_key(p),
        spec_key(p) == "other"@,
{
    let t = trimmed(p + seq![sep] + rest);
    lemma_variant_parts(p, sep, rest);
    let n = normalized(t);
    assert(n[p.len() as int] == norm_char(t[p.len() as int]));
    assert(t[p.len() as int] == sep);
    lemma_dash_is_no_name(n, p.len() as int);
}

/// `char::to_ascii_uppercase`.
pub open spec fn upper_char(c: char) -> char {
    if 'a' <= c && c <= 'z' {
        ((c as u32) - 32) as char
    } else {
        c
    }
}

/// `str::to_ascii_uppercase`.
pub open spec fn ascii_upper(s: Seq<char>) -> Seq<char> {
    s.map_values(|c: char| upper_char(c))
}

proof fn lemma_upper_char(c: char)
    ensures
        is_ws(upper_char(c)) == is_ws(c),
        is_sep(upper_char(c)) == is_sep(c),
        lower_char(upper_char(c)) == lower_char(c),
        norm_char(upper_char(c)) == norm_char(c),
{
}

proof fn lemma_upper_trim_start(s: Seq<char>)
    ensures
        trim_start(ascii_upper(s)) == ascii_upper(trim_start(s)),
    decreases s.len(),
{
    let u = ascii_upper(s);
    if s.len() > 0 {
        lemma_upper_char(s[0]);
        assert(u[0] == upper_char(s[0]));
        if is_ws(s[0]) {
            assert(u.drop_first() =~= ascii_upper(s.drop_first()));
            lemma_upper_trim_start(s.drop_first());
        }
    }
}

proof fn lemma_upper_trim_end(s: Seq<char>)
    ensures
        trim_end(ascii_upper(s)) == ascii_upper(trim_end(s)),
    decreases s.len(),
{
    let u = ascii_upper(s);
    if s.len() > 0 {
        lemma_upper_char(s.last());
        assert(u.last() == upper_char(s.last()));
        if is_ws(s.last()) {
            assert(u.drop_last() =~= ascii_upper(s.drop_last()));
            lemma_upper_trim_end(s.drop_last());
        }
    }
}

proof fn lemma_upper_primary(s: Seq<char>)
    ensures
        primary_part(ascii_upper(s)) == primary_part(s),
    decreases s.len(),
{
    let u = ascii_upper(s);
    if s.len() > 0 {
        lemma_upper_char(s[0]);
        assert(u[0] == upper_char(s[0]));
        assert(u.drop_first() =~= ascii_upper(s.drop_first()));
        lemma_upper_primary(s.drop_first());
    }
}

/// Case never changes the key: a locale written in upper case (`PT-BR`,
/// `ENG`) has the key of the same locale in any other case.
pub proof fn key_ignores_case(locale: Seq<char>)
    ensures
        spec_key(ascii_upper(locale)) == spec_key(locale),
{
    lemma_upper_trim_start(locale);
    lemma_upper_trim_end(trim_start(locale));
    let t = trimmed(locale);
    assert(trimmed(ascii_upper(locale)) == ascii_upper(t));
    lemma_upper_primary(t);
    assert forall|i: int| 0 <= i < t.len() implies #[trigger] normalized(ascii_upper(t))[i] == normalized(t)[i] by {
        lemma_upper_char(t[i]);
    }
    assert(normalized(ascii_upper(t)) =~= normalized(t));
}

/// A base language of the tables.
pub open spec fn is_base_key(k: Seq<char>) -> bool {
    ||| k == "es"@
    ||| k == "en"@
    ||| k == "pt"@
    ||| k == "fr"@
    ||| k == "de"@
    ||| k == "it"@
    ||| k == "ja"@
    ||| k == "ko"@
    ||| k == "zh"@
    ||| k == "ru"@
    ||| k == "id"@
    ||| k == "vi"@
    ||| k == "th"@
    ||| k == "sl"@
    ||| k == "tr"@
    ||| k == "pl"@
    ||| k == "nl"@
    ||| k == "ar"@
    ||| k == "hi"@
    ||| k == "ms"@
    ||| k == "ca"@
    ||| k == "ro"@
    ||| k == "uk"@
    ||| k == "hu"@
    ||| k == "sv"@
    ||| k == "no"@
    ||| k == "da"@
    ||| k == "fi"@
    ||| k == "cs"@
    ||| k == "el"@
    ||| k == "he"@
    ||| k == "fa"@
    ||| k == "bn"@
    ||| k == "fil"@
}

/// One of the keys that `key` gives: a base language, `mixed` or `other`.
pub open spec fn is_language_key(k: Seq<char>) -> bool {
    is_base_key(k) || k == "mixed"@ || k == "other"@
}

/// A non-empty word of ASCII lower-case letters.
pub open spec fn plain_word(s: Seq<char>) -> bool {
    s.len() > 0 && forall|i: int| 0 <= i < s.len() ==> 'a' <= #[trigger] s[i] && s[i] <= 'z'
}

/// A plain word is its own trimmed text, primary subtag and normalised form.
proof fn lemma_plain_word(s: Seq<char>)
    requires
        plain_word(s),
    ensures
        trimmed(s) == s,
        primary_part(s) == s,
        normalized(s) == s,
{
    assert('a' <= s[0] && s[0] <= 'z');
    assert('a' <= s.last() && s.last() <= 'z');
    lemma_trim_start(s, 0);
    lemma_trim_end(s, s.len() as int);
    assert(s.subrange(0, s.len() as int) == s);
    assert forall|j: int| 0 <= j < s.len() implies !is_sep(#[trigger] s[j]) by {
        assert('a' <= s[j] && s[j] <= 'z');
    }
    lemma_primary(s, s.len() as int);
    assert(s.take(s.len() as int) == s);
    assert(s.skip(s.len() as int).len() == 0);
    assert(ascii_lower(s) =~= s);
    assert(normalized(s) =~= s);
}

/// Keys 0 to 8 of the code table are plain words that the table maps
/// to themselves.
proof fn lemma_code_keys_0()
    ensures
        plain_word("es"@) && spec_code_key_0("es"@) == Some("es"@),
        plain_word("en"@) && spec_code_key_0("en"@) == Some("en"@),
        plain_word("pt"@) && spec_code_key_0("pt"@) == Some("pt"@),
        plain_word("fr"@) && spec_code_key_0("fr"@) == Some("fr"@),
        plain_word("de"@) && spec_code_key_0("de"@) == Some("de"@),
        plain_word("it"@) && spec_code_key_0("it"@) == Some("it"@),
        plain_word("ja"@) && spec_code_key_0("ja"@) == Some("ja"@),
        plain_word("ko"@) && spec_code_key_0("ko"@) == Some("ko"@),
        plain_word("zh"@) && spec_code_key_0("zh"@) == Some("zh"@),
{
    reveal_strlit("es"); reveal_strlit("spa");
    reveal_strlit("en"); reveal_strlit("eng");
    reveal_strlit("pt"); reveal_strlit("por"); reveal_strlit("br");
    reveal_strlit("fr"); reveal_strlit("fra"); reveal_strlit("fre");
    reveal_strlit("de"); reveal_strlit("deu"); reveal_strlit("ger");
    reveal_strlit("it"); reveal_strlit("ita");
    reveal_strlit("ja"); reveal_strlit("jpn"); reveal_strlit("jp");
    reveal_strlit("ko"); reveal_strlit("kor"); reveal_strlit("kr");
    reveal_strlit("zh"); reveal_strlit("zho"); reveal_strlit("chi"); reveal_strlit("cn");
    assert("es"@ =~= seq!['e', 's']);
    assert("en"@ =~= seq!['e', 'n']);
    assert("pt"@ =~= seq!['p', 't']);
    assert("fr"@ =~= seq!['f', 'r']);
    assert("de"@ =~= seq!['d', 'e']);
    assert("it"@ =~= seq!['i', 't']);
    assert("ja"@ =~= seq!['j', 'a']);
    assert("ko"@ =~= seq!['k', 'o']);
    assert("zh"@ =~= seq!['z', 'h']);
}

/// Keys 9 to 17 of the code table are plain words that the table maps
/// to themselves.
proof fn lemma_code_keys_1()
    ensures
        plain_word("ru"@) && spec_code_key_0("ru"@) == Some("ru"@),
        plain_word("id"@) && spec_code_key_0("id"@) == Some("id"@),
        plain_word("vi"@) && spec_code_key_0("vi"@) == Some("vi"@),
        plain_word("th"@) && spec_code_key_0("th"@) == Some("th"@),
        plain_word("sl"@) && spec_code_key_0("sl"@) == Some("sl"@),
        plain_word("tr"@) && spec_code_key_0("tr"@) == Some("tr"@),
        plain_word("pl"@) && spec_code_key_0("pl"@) == Some("pl"@),
        plain_word("nl"@) && spec_code_key_0("nl"@) == Some("nl"@),
        plain_word("ar"@) && spec_code_key_0("ar"@) == Some("ar"@),
{
    reveal_strlit("es"); reveal_strlit("spa");
    reveal_strlit("en"); reveal_strlit("eng");
    reveal_strlit("pt"); reveal_strlit("por"); reveal_strlit("br");
    reveal_strlit("fr"); reveal_strlit("fra"); reveal_strlit("fre");
    reveal_strlit("de"); reveal_strlit("deu"); reveal_strlit("ger");
    reveal_strlit("it"); reveal_strlit("ita");
    reveal_strlit("ja"); reveal_strlit("jpn"); reveal_strlit("jp");
    reveal_strlit("ko"); reveal_strlit("kor"); reveal_strlit("kr");
    reveal_strlit("zh"); reveal_strlit("zho"); reveal_strlit("chi"); reveal_strlit("cn");
    reveal_strlit("ru"); reveal_strlit("rus");
    reveal_strlit("id"); reveal_strlit("ind");
    reveal_strlit("vi"); reveal_strlit("vie");
    reveal_strlit("th"); reveal_strlit("tha");
    reveal_strlit("sl"); reveal_strlit("slv");
    reveal_strlit("tr"); reveal_strlit("tur");
    reveal_strlit("pl"); reveal_strlit("pol");
    reveal_strlit("nl"); reveal_strlit("nld"); reveal_strlit("dut");
    reveal_strlit("ar"); reveal_strlit("ara");
    assert("ru"@ =~= seq!['r', 'u']);
    assert("id"@ =~= seq!['i', 'd']);
    assert("vi"@ =~= seq!['v', 'i']);
    assert("th"@ =~= seq!['t', 'h']);
    assert("sl"@ =~= seq!['s', 'l']);
    assert("tr"@ =~= seq!['t', 'r']);
    assert("pl"@ =~= seq!['p', 'l']);
    assert("nl"@ =~= seq!['n', 'l']);
    assert("ar"@ =~= seq!['a', 'r']);
}

/// Keys 18 to 26 of the code table are plain words that the table maps
/// to themselves.
proof fn lemma_code_keys_2()
    ensures
        plain_word("hi"@) && spec_code_key_0("hi"@) == Some("hi"@),
        plain_word("ms"@) && spec_code_key_0("ms"@) == Some("ms"@),
        plain_word("ca"@) && spec_code_key_0("ca"@) == Some("ca"@),
        plain_word("ro"@) && spec_code_key_0("ro"@) == Some("ro"@),
        plain_word("uk"@) && spec_code_key_0("uk"@) == Some("uk"@),
        plain_word("hu"@) && spec_code_key_0("hu"@) == Some("hu"@),
        plain_word("sv"@) && spec_code_key_0("sv"@) == Some("sv"@),
        plain_word("no"@) && spec_code_key_0("no"@) == Some("no"@),
        plain_word("da"@) && spec_code_key_0("da"@) == Some("da"@),
{
    reveal_strlit("es"); reveal_strlit("spa");
    reveal_strlit("en"); reveal_strlit("eng");
    reveal_strlit("pt"); reveal_strlit("por"); reveal_strlit("br");
    reveal_strlit("fr"); reveal_strlit("fra"); reveal_strlit("fre");
    reveal_strlit("de"); reveal_strlit("deu"); reveal_strlit("ger");
    reveal_strlit("it"); reveal_strlit("ita");
    reveal_strlit("ja"); reveal_strlit("jpn"); reveal_strlit("jp");
    reveal_strlit("ko"); reveal_strlit("kor"); reveal_strlit("kr");
    reveal_strlit("zh"); reveal_strlit("zho"); reveal_strlit("chi"); reveal_strlit("cn");
    reveal_strlit("ru"); reveal_strlit("rus");
    reveal_strlit("id"); reveal_strlit("ind");
    reveal_strlit("vi"); reveal_strlit("vie");
    reveal_strlit("th"); reveal_strlit("tha");
    reveal_strlit("sl"); reveal_strlit("slv");
    reveal_strlit("tr"); reveal_strlit("tur");
    reveal_strlit("pl"); reveal_strlit("pol");
    reveal_strlit("nl"); reveal_strlit("nld"); reveal_strlit("dut");
    reveal_strlit("ar"); reveal_strlit("ara");
    reveal_strlit("hi"); reveal_strlit("hin");
    reveal_strlit("ms"); reveal_strlit("msa"); reveal_strlit("may");
    reveal_strlit("ca"); reveal_strlit("cat");
    reveal_strlit("ro"); reveal_strlit("ron"); reveal_strlit("rum");
    reveal_strlit("uk"); reveal_strlit("ukr");
    reveal_strlit("hu"); reveal_strlit("hun");
    reveal_strlit("sv"); reveal_strlit("swe");
    reveal_strlit("no"); reveal_strlit("nor"); reveal_strlit("nb"); reveal_strlit("nn");
    reveal_strlit("da"); reveal_strlit("dan");
    assert("hi"@ =~= seq!['h', 'i']);
    assert("ms"@ =~= seq!['m', 's']);
    assert("ca"@ =~= seq!['c', 'a']);
    assert("ro"@ =~= seq!['r', 'o']);
    assert("uk"@ =~= seq!['u', 'k']);
    assert("hu"@ =~= seq!['h', 'u']);
    assert("sv"@ =~= seq!['s', 'v']);
    assert("no"@ =~= seq!['n', 'o']);
    assert("da"@ =~= seq!['d', 'a']);
}

/// Keys 27 to 33 of the code table are plain words that the table maps
/// to themselves.
proof fn lemma_code_keys_3()
    ensures
        plain_word("fi"@) && spec_code_key_0("fi"@) == Some("fi"@),
        plain_word("cs"@) && spec_code_key_0("cs"@) == Some("cs"@),
        plain_word("el"@) && spec_code_key_0("el"@) == Some("el"@),
        plain_word("he"@) && spec_code_key_0("he"@) == Some("he"@),
        plain_word("fa"@) && spec_code_key_0("fa"@) == Some("fa"@),
        plain_word("bn"@) && spec_code_key_0("bn"@) == Some("bn"@),
        plain_word("fil"@) && spec_code_key_0("fil"@) == Some("fil"@),
{
    reveal_strlit("es"); reveal_strlit("spa");
    reveal_strlit("en"); reveal_strlit("eng");
    reveal_strlit("pt"); reveal_strlit("por"); reveal_strlit("br");
    reveal_strlit("fr"); reveal_strlit("fra"); reveal_strlit("fre");
    reveal_strlit("de"); reveal_strlit("deu"); reveal_strlit("ger");
    reveal_strlit("it"); reveal_strlit("ita");
    reveal_strlit("ja"); reveal_strlit("jpn"); reveal_strlit("jp");
    reveal_strlit("ko"); reveal_strlit("kor"); reveal_strlit("kr");
    reveal_strlit("zh"); reveal_strlit("zho"); reveal_strlit("chi"); reveal_strlit("cn");
    reveal_strlit("ru"); reveal_strlit("rus");
    reveal_strlit("id"); reveal_strlit("ind");
    reveal_strlit("vi"); reveal_strlit("vie");
    reveal_strlit("th"); reveal_strlit("tha");
    reveal_strlit("sl"); reveal_strlit("slv");
    reveal_strlit("tr"); reveal_strlit("tur");
    reveal_strlit("pl"); reveal_strlit("pol");
    reveal_strlit("nl"); reveal_strlit("nld"); reveal_strlit("dut");
    reveal_strlit("ar"); reveal_strlit("ara");
    reveal_strlit("hi"); reveal_strlit("hin");
    reveal_strlit("ms"); reveal_strlit("msa"); reveal_strlit("may");
    reveal_strlit("ca"); reveal_strlit("cat");
    reveal_strlit("ro"); reveal_strlit("ron"); reveal_strlit("rum");
    reveal_strlit("uk"); reveal_strlit("ukr");
    reveal_strlit("hu"); reveal_strlit("hun");
    reveal_strlit("sv"); reveal_strlit("swe");
    reveal_strlit("no"); reveal_strlit("nor"); reveal_strlit("nb"); reveal_strlit("nn");
    reveal_strlit("da"); reveal_strlit("dan");
    reveal_strlit("fi"); reveal_strlit("fin");
    reveal_strlit("cs"); reveal_strlit("ces"); reveal_strlit("cze");
    reveal_strlit("el"); reveal_strlit("ell"); reveal_strlit("gre");
    reveal_strlit("he"); reveal_strlit("heb"); reveal_strlit("iw");
    reveal_strlit("fa"); reveal_strlit("fas"); reveal_strlit("per");
    reveal_strlit("bn"); reveal_strlit("ben");
    reveal_strlit("tl"); reveal_strlit("fil");
    assert("fi"@ =~= seq!['f', 'i']);
    assert("cs"@ =~= seq!['c', 's']);
    assert("el"@ =~= seq!['e', 'l']);
    assert("he"@ =~= seq!['h', 'e']);
    assert("fa"@ =~= seq!['f', 'a']);
    assert("bn"@ =~= seq!['b', 'n']);
    assert("fil"@ =~= seq!['f', 'i', 'l']);
}

/// `other` is a plain word that neither table knows.
proof fn lemma_other_unknown()
    ensures
        plain_word("other"@) && spec_code_key_0("other"@) is None && spec_name_key_0("other"@) is None,
{
    reveal_strlit("other");
    assert("other"@ =~= seq!['o', 't', 'h', 'e', 'r']);
    reveal_strlit("es"); reveal_strlit("spa");
    reveal_strlit("en"); reveal_strlit("eng");
    reveal_strlit("pt"); reveal_strlit("por"); reveal_strlit("br");
    reveal_strlit("fr"); reveal_strlit("fra"); reveal_strlit("fre");
    reveal_strlit("de"); reveal_strlit("deu"); reveal_strlit("ger");
    reveal_strlit("it"); reveal_strlit("ita");
    reveal_strlit("ja"); reveal_strlit("jpn"); reveal_strlit("jp");
    reveal_strlit("ko"); reveal_strlit("kor"); reveal_strlit("kr");
    reveal_strlit("zh"); reveal_strlit("zho"); reveal_strlit("chi"); reveal_strlit("cn");
    reveal_strlit("ru"); reveal_strlit("rus");
    reveal_strlit("id"); reveal_strlit("ind");
    reveal_strlit("vi"); reveal_strlit("vie");
    reveal_strlit("th"); reveal_strlit("tha");
    reveal_strlit("sl"); reveal_strlit("slv");
    reveal_strlit("tr"); reveal_strlit("tur");
    reveal_strlit("pl"); reveal_strlit("pol");
    reveal_strlit("nl"); reveal_strlit("nld"); reveal_strlit("dut");
    reveal_strlit("ar"); reveal_strlit("ara");
    reveal_strlit("hi"); reveal_strlit("hin");
    reveal_strlit("ms"); reveal_strlit("msa"); reveal_strlit("may");
    reveal_strlit("ca"); reveal_strlit("cat");
    reveal_strlit("ro"); reveal_strlit("ron"); reveal_strlit("rum");
    reveal_strlit("uk"); reveal_strlit("ukr");
    reveal_strlit("hu"); reveal_strlit("hun");
    reveal_strlit("sv"); reveal_strlit("swe");
    reveal_strlit("no"); reveal_strlit("nor"); reveal_strlit("nb"); reveal_strlit("nn");
    reveal_strlit("da"); reveal_strlit("dan");
    reveal_strlit("fi"); reveal_strlit("fin");
    reveal_strlit("cs"); reveal_strlit("ces"); reveal_strlit("cze");
    reveal_strlit("el"); reveal_strlit("ell"); reveal_strlit("gre");
    reveal_strlit("he"); reveal_strlit("heb"); reveal_strlit("iw");
    reveal_strlit("fa"); reveal_strlit("fas"); reveal_strlit("per");
    reveal_strlit("bn"); reveal_strlit("ben");
    reveal_strlit("tl"); reveal_strlit("fil");
    reveal_strlit("spanish"); reveal_strlit("español");
    reveal_strlit("english");
    reveal_strlit("portuguese"); reveal_strlit("português");
    reveal_strlit("french"); reveal_strlit("français");
    reveal_strlit("german"); reveal_strlit("deutsch");
    reveal_strlit("italian"); reveal_strlit("italiano");
    reveal_strlit("japanese"); reveal_strlit("日本語");
    reveal_strlit("korean"); reveal_strlit("한국어");
    reveal_strlit("chinese"); reveal_strlit("中文");
    reveal_strlit("russian"); reveal_strlit("Русский");
    reveal_strlit("indonesian"); reveal_strlit("bahasa indonesia");
    reveal_strlit("vietnamese"); reveal_strlit("tiếng việt");
    reveal_strlit("thai"); reveal_strlit("ไทย");
    reveal_strlit("slovenian"); reveal_strlit("slovenščina");
    reveal_strlit("turkish"); reveal_strlit("türkçe");
    reveal_strlit("polish"); reveal_strlit("polski");
    reveal_strlit("dutch"); reveal_strlit("nederlands");
    reveal_strlit("arabic"); reveal_strlit("العربية");
    reveal_strlit("hindi"); reveal_strlit("हिन्दी");
    reveal_strlit("malay"); reveal_strlit("bahasa melayu");
    reveal_strlit("catalan"); reveal_strlit("català");
    reveal_strlit("romanian"); reveal_strlit("română");
    reveal_strlit("ukrainian"); reveal_strlit("Українська");
    reveal_strlit("hungarian"); reveal_strlit("magyar");
    reveal_strlit("swedish"); reveal_strlit("svenska");
    reveal_strlit("norwegian"); reveal_strlit("norsk");
    reveal_strlit("danish"); reveal_strlit("dansk");
    reveal_strlit("finnish"); reveal_strlit("suomi");
    reveal_strlit("czech"); reveal_strlit("čeština");
    reveal_strlit("greek"); reveal_strlit("Ελληνικά");
    reveal_strlit("hebrew"); reveal_strlit("עברית");
    reveal_strlit("persian"); reveal_strlit("فارسی");
    reveal_strlit("bengali"); reveal_strlit("বাংলা");
    reveal_strlit("filipino"); reveal_strlit("tagalog");
}

/// Whatever the locale, its key is one of the known keys.
pub proof fn key_is_known(locale: Seq<char>)
    ensures
        is_language_key(spec_key(locale)),
{
}

/// A locale has the key `mixed` exactly when it is blank.
pub proof fn key_mixed_iff_blank(locale: Seq<char>)
    ensures
        spec_key(locale) == "mixed"@ <==> trimmed(locale).len() == 0,
{
    if trimmed(locale).len() > 0 {
        assert(is_base_key(spec_key(locale)) || spec_key(locale) == "other"@);
        reveal_strlit("es"); reveal_strlit("en"); reveal_strlit("pt"); reveal_strlit("fr"); reveal_strlit("de"); reveal_strlit("it"); reveal_strlit("ja"); reveal_strlit("ko"); reveal_strlit("zh"); reveal_strlit("ru"); reveal_strlit("id"); reveal_strlit("vi"); reveal_strlit("th"); reveal_strlit("sl"); reveal_strlit("tr"); reveal_strlit("pl"); reveal_strlit("nl");
        reveal_strlit("ar"); reveal_strlit("hi"); reveal_strlit("ms"); reveal_strlit("ca"); reveal_strlit("ro"); reveal_strlit("uk"); reveal_strlit("hu"); reveal_strlit("sv"); reveal_strlit("no"); reveal_strlit("da"); reveal_strlit("fi"); reveal_strlit("cs"); reveal_strlit("el"); reveal_strlit("he"); reveal_strlit("fa"); reveal_strlit("bn"); reveal_strlit("fil");
        reveal_strlit("mixed");
        reveal_strlit("other");
        assert("mixed"@.len() == 5 && "mixed"@[0] == 'm');
        assert("other"@[0] == 'o');
        assert(is_base_key(spec_key(locale)) ==> spec_key(locale).len() < 5);
    }
}

/// A key is its own key: a locale that is not blank keys to a key that
/// keys to itself. (A blank locale keys to `mixed`, which read as a locale
/// names no language and keys to `other`.)
pub proof fn key_is_stable(locale: Seq<char>)
    requires
        trimmed(locale).len() > 0,
    ensures
        spec_key(spec_key(locale)) == spec_key(locale),
{
    key_mixed_iff_blank(locale);
    lemma_code_keys_0();
    lemma_code_keys_1();
    lemma_code_keys_2();
    lemma_code_keys_3();
    lemma_other_unknown();
    let k = spec_key(locale);
    assert(plain_word(k));
    lemma_plain_word(k);
}


/// The primary subtag of `v`, lower-cased.
fn primary_of(v: &Vec<char>) -> (r: Vec<char>)
    ensures
        r@ == primary_part(v@),
{
    let mut r: Vec<char> = Vec::new();
    let mut i: usize = 0;
    while i < v.len() && v[i] != '-' && v[i] != '_'
        invariant
            0 <= i <= v.len(),
            forall|j: int| 0 <= j < i ==> !is_sep(#[trigger] v@[j]),
            r@ == ascii_lower(v@.take(i as int)),
        decreases v.len() - i,
    {
        r.push(char_lower(v[i]));
        assert(ascii_lower(v@.take(i + 1)) == ascii_lower(v@.take(i as int)).push(lower_char(v@[i as int])));
        i += 1;
    }
    proof {
        lemma_primary(v@, i as int);
        let rest = v@.skip(i as int);
        if rest.len() > 0 {
            assert(rest[0] == v@[i as int]);
        }
        assert(primary_part(rest) == Seq::<char>::empty());
    }
    r
}

/// `v`, lower-cased and with `_` read as `-`.
fn normalized_of(v: &Vec<char>) -> (r: Vec<char>)
    ensures
        r@ == normalized(v@),
{
    let mut r: Vec<char> = Vec::new();
    let mut i: usize = 0;
    while i < v.len()
        invariant
            0 <= i <= v.len(),
            r@ == normalized(v@.take(i as int)),
        decreases v.len() - i,
    {
        let c = v[i];
        let n = if c == '_' { '-' } else { char_lower(c) };
        r.push(n);
        assert(normalized(v@.take(i + 1)) == normalized(v@.take(i as int)).push(norm_char(v@[i as int])));
        i += 1;
    }
    assert(v@.take(v@.len() as int) == v@);
    r
}

/// The canonical key that every filter of the application uses for a locale:
/// `mixed` when the locale is missing or blank, the base language (`es`, `pt`,
/// `zh`, ...) when its primary subtag or its display name is known, `other`
/// otherwise.
pub fn key(locale: Option<&str>) -> (r: &'static str)
    ensures
        r@ == spec_key(locale_text(locale)),
{
    let text = match locale {
        Some(s) => s,
        None => "",
    };
    proof {
        if locale is None {
            reveal_strlit("");
        }
    }
    let raw = trim(text);
    let v = to_chars(raw);
    if v.len() == 0 {
        return "mixed";
    }
    let primary = primary_of(&v);
    match code_key_0(&primary) {
        Some(k) => k,
        None => {
            let whole = normalized_of(&v);
            match name_key_0(&whole) {
                Some(k) => k,
                None => "other",
            }
        },
    }
}

/// The Spanish display name shown for a language key; `Otro idioma` for an
/// unknown key.
pub fn label_for_key(language: &str) -> (r: &'static str)
    ensures
        r@ == spec_label_for_key(language@),
{
    let v = to_chars(language);
    label_part_0(&v)
}

/// The Spanish display name of a locale, for chips, cards and chapters.
pub fn label(locale: Option<&str>) -> (r: &'static str)
    ensures
        r@ == spec_label_for_key(spec_key(locale_text(locale))),
{
    label_for_key(key(locale))
}

} // verus!
