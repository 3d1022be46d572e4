//! Colour schemes: the names offered in the settings screen, the key under
//! which a choice is stored, and the three base colours of each scheme.
use vstd::prelude::*;
use crate::text::{
    ascii_lower, contains, has_sub, lemma_trim_end, lemma_trim_start, occurs_at, str_eq, to_ascii_lowercase, trim,
    trimmed,
};

verus! {

/// The names of the schemes, in the order the settings screen lists them.
pub fn color_schemes() -> (r: Vec<&'static str>)
    ensures
        r.len() == 15,
        r[0]@ == "Matecito"@,
        r[1]@ == "Cacao"@,
        r[2]@ == "Salvia"@,
        r[3]@ == "Arcilla"@,
        r[4]@ == "Tinta"@,
        r[5]@ == "Terracotta"@,
        r[6]@ == "Gruvbox"@,
        r[7]@ == "Catppuccin Mocha"@,
        r[8]@ == "Nord"@,
        r[9]@ == "Tokyo Night"@,
        r[10]@ == "Dracula"@,
        r[11]@ == "Everforest"@,
        r[12]@ == "Rosé Pine"@,
        r[13]@ == "Monokai"@,
        r[14]@ == "Kanagawa"@,
{
    let mut r: Vec<&'static str> = Vec::new();
    r.push("Matecito");
    r.push("Cacao");
    r.push("Salvia");
    r.push("Arcilla");
    r.push("Tinta");
    r.push("Terracotta");
    r.push("Gruvbox");
    r.push("Catppuccin Mocha");
    r.push("Nord");
    r.push("Tokyo Night");
    r.push("Dracula");
    r.push("Everforest");
    r.push("Rosé Pine");
    r.push("Monokai");
    r.push("Kanagawa");
    r
}

/// The key of a stored or displayed scheme name: the first known name that
/// the trimmed, ASCII lower-cased value contains; `terracotta` otherwise.
pub open spec fn spec_scheme_key(value: Seq<char>) -> Seq<char> {
    let v = ascii_lower(trimmed(value));
    if has_sub(v, "matecito"@) || has_sub(v, "mate"@) {
        "matecito"@
    } else if has_sub(v, "cacao"@) {
        "cacao"@
    } else if has_sub(v, "salvia"@) {
        "salvia"@
    } else if has_sub(v, "arcilla"@) {
        "arcilla"@
    } else if has_sub(v, "tinta"@) {
        "tinta"@
    } else if has_sub(v, "gruvbox"@) {
        "gruvbox"@
    } else if has_sub(v, "catppuccin"@) {
        "catppuccin"@
    } else if has_sub(v, "nord"@) {
        "nord"@
    } else if has_sub(v, "tokyo"@) {
        "tokyo-night"@
    } else if has_sub(v, "dracula"@) {
        "dracula"@
    } else if has_sub(v, "everforest"@) {
        "everforest"@
    } else if has_sub(v, "rose"@) || has_sub(v, "rosé"@) {
        "rose-pine"@
    } else if has_sub(v, "monokai"@) {
        "monokai"@
    } else if has_sub(v, "kanagawa"@) {
        "kanagawa"@
    } else {
        "terracotta"@
    }
}

/// The display name of a scheme key.
pub open spec fn spec_label_of(k: Seq<char>) -> Seq<char> {
    if k == "matecito"@ {
        "Matecito"@
    } else if k == "cacao"@ {
        "Cacao"@
    } else if k == "salvia"@ {
        "Salvia"@
    } else if k == "arcilla"@ {
        "Arcilla"@
    } else if k == "tinta"@ {
        "Tinta"@
    } else if k == "gruvbox"@ {
        "Gruvbox"@
    } else if k == "catppuccin"@ {
        "Catppuccin Mocha"@
    } else if k == "nord"@ {
        "Nord"@
    } else if k == "tokyo-night"@ {
        "Tokyo Night"@
    } else if k == "dracula"@ {
        "Dracula"@
    } else if k == "everforest"@ {
        "Everforest"@
    } else if k == "rose-pine"@ {
        "Rosé Pine"@
    } else if k == "monokai"@ {
        "Monokai"@
    } else if k == "kanagawa"@ {
        "Kanagawa"@
    } else {
        "Terracotta"@
    }
}

/// The key of a scheme name (stored setting or displayed label).
pub fn scheme_key(value: &str) -> (r: &'static str)
    ensures
        r@ == spec_scheme_key(value@),
{
    let lower = to_ascii_lowercase(trim(value));
    let v = lower.as_str();
    if contains(v, "matecito") || contains(v, "mate") {
        "matecito"
    } else if contains(v, "cacao") {
        "cacao"
    } else if contains(v, "salvia") {
        "salvia"
    } else if contains(v, "arcilla") {
        "arcilla"
    } else if contains(v, "tinta") {
        "tinta"
    } else if contains(v, "gruvbox") {
        "gruvbox"
    } else if contains(v, "catppuccin") {
        "catppuccin"
    } else if contains(v, "nord") {
        "nord"
    } else if contains(v, "tokyo") {
        "tokyo-night"
    } else if contains(v, "dracula") {
        "dracula"
    } else if contains(v, "everforest") {
        "everforest"
    } else if contains(v, "rose") || contains(v, "rosé") {
        "rose-pine"
    } else if contains(v, "monokai") {
        "monokai"
    } else if contains(v, "kanagawa") {
        "kanagawa"
    } else {
        "terracotta"
    }
}

/// The display name of the scheme that a value names.
pub fn scheme_label(value: &str) -> (r: &'static str)
    ensures
        r@ == spec_label_of(spec_scheme_key(value@)),
{
    let k = scheme_key(value);
    if str_eq(k, "matecito") {
        "Matecito"
    } else if str_eq(k, "cacao") {
        "Cacao"
    } else if str_eq(k, "salvia") {
        "Salvia"
    } else if str_eq(k, "arcilla") {
        "Arcilla"
    } else if str_eq(k, "tinta") {
        "Tinta"
    } else if str_eq(k, "gruvbox") {
        "Gruvbox"
    } else if str_eq(k, "catppuccin") {
        "Catppuccin Mocha"
    } else if str_eq(k, "nord") {
        "Nord"
    } else if str_eq(k, "tokyo-night") {
        "Tokyo Night"
    } else if str_eq(k, "dracula") {
        "Dracula"
    } else if str_eq(k, "everforest") {
        "Everforest"
    } else if str_eq(k, "rose-pine") {
        "Rosé Pine"
    } else if str_eq(k, "monokai") {
        "Monokai"
    } else if str_eq(k, "kanagawa") {
        "Kanagawa"
    } else {
        "Terracotta"
    }
}

/// The key stored for a label chosen in the settings screen.
pub fn scheme_id(label: &str) -> (r: &'static str)
    ensures
        r@ == spec_scheme_key(label@),
{
    scheme_key(label)
}

/// A colour as its red, green and blue bytes.
#[derive(Debug, Clone, Copy, PartialEq, Eq, Structural)]
pub struct Rgb {
    pub r: u8,
    pub g: u8,
    pub b: u8,
}

/// The background, text and accent colours of a scheme key; the default
/// terracotta palette for an unknown key.
pub open spec fn spec_palette(k: Seq<char>) -> (Rgb, Rgb, Rgb) {
    if k == "matecito"@ {
        (Rgb { r: 0x1D, g: 0x21, b: 0x1A }, Rgb { r: 0xE2, g: 0xDD, b: 0xC7 }, Rgb { r: 0x9E, g: 0xA6, b: 0x72 })
    } else if k == "cacao"@ {
        (Rgb { r: 0x20, g: 0x19, b: 0x17 }, Rgb { r: 0xE7, g: 0xD8, b: 0xCA }, Rgb { r: 0xB2, g: 0x82, b: 0x68 })
    } else if k == "salvia"@ {
        (Rgb { r: 0x1C, g: 0x21, b: 0x20 }, Rgb { r: 0xD9, g: 0xDE, b: 0xD4 }, Rgb { r: 0x8F, g: 0xA5, b: 0x94 })
    } else if k == "arcilla"@ {
        (Rgb { r: 0x22, g: 0x1A, b: 0x17 }, Rgb { r: 0xE8, g: 0xD8, b: 0xCD }, Rgb { r: 0xC0, g: 0x78, b: 0x5E })
    } else if k == "tinta"@ {
        (Rgb { r: 0x18, g: 0x1B, b: 0x1E }, Rgb { r: 0xD8, g: 0xDC, b: 0xDF }, Rgb { r: 0x7F, g: 0x96, b: 0xA3 })
    } else if k == "gruvbox"@ {
        (Rgb { r: 0x28, g: 0x28, b: 0x28 }, Rgb { r: 0xEB, g: 0xDB, b: 0xB2 }, Rgb { r: 0xD7, g: 0x99, b: 0x21 })
    } else if k == "catppuccin"@ {
        (Rgb { r: 0x1E, g: 0x1E, b: 0x2E }, Rgb { r: 0xCD, g: 0xD6, b: 0xF4 }, Rgb { r: 0xCB, g: 0xA6, b: 0xF7 })
    } else if k == "nord"@ {
        (Rgb { r: 0x2E, g: 0x34, b: 0x40 }, Rgb { r: 0xEC, g: 0xEF, b: 0xF4 }, Rgb { r: 0x88, g: 0xC0, b: 0xD0 })
    } else if k == "tokyo-night"@ {
        (Rgb { r: 0x1A, g: 0x1B, b: 0x26 }, Rgb { r: 0xC0, g: 0xCA, b: 0xF5 }, Rgb { r: 0x7A, g: 0xA2, b: 0xF7 })
    } else if k == "dracula"@ {
        (Rgb { r: 0x28, g: 0x2A, b: 0x36 }, Rgb { r: 0xF8, g: 0xF8, b: 0xF2 }, Rgb { r: 0xBD, g: 0x93, b: 0xF9 })
    } else if k == "everforest"@ {
        (Rgb { r: 0x2D, g: 0x35, b: 0x3B }, Rgb { r: 0xD3, g: 0xC6, b: 0xAA }, Rgb { r: 0xA7, g: 0xC0, b: 0x80 })
    } else if k == "rose-pine"@ {
        (Rgb { r: 0x19, g: 0x17, b: 0x24 }, Rgb { r: 0xE0, g: 0xDE, b: 0xF4 }, Rgb { r: 0xC4, g: 0xA7, b: 0xE7 })
    } else if k == "monokai"@ {
        (Rgb { r: 0x27, g: 0x28, b: 0x22 }, Rgb { r: 0xF8, g: 0xF8, b: 0xF2 }, Rgb { r: 0xA6, g: 0xE2, b: 0x2E })
    } else if k == "kanagawa"@ {
        (Rgb { r: 0x1F, g: 0x1F, b: 0x28 }, Rgb { r: 0xDC, g: 0xD7, b: 0xBA }, Rgb { r: 0xE6, g: 0xC3, b: 0x84 })
    } else {
        (Rgb { r: 0x18, g: 0x13, b: 0x10 }, Rgb { r: 0xF7, g: 0xF0, b: 0xE8 }, Rgb { r: 0xE0, g: 0x78, b: 0x56 })
    }
}

/// The background, text and accent colours of the scheme a value names.
pub fn scheme_palette(value: &str) -> (r: (Rgb, Rgb, Rgb))
    ensures
        r == spec_palette(spec_scheme_key(value@)),
{
    let k = scheme_key(value);
    if str_eq(k, "matecito") {
        (Rgb { r: 0x1D, g: 0x21, b: 0x1A }, Rgb { r: 0xE2, g: 0xDD, b: 0xC7 }, Rgb { r: 0x9E, g: 0xA6, b: 0x72 })
    } else if str_eq(k, "cacao") {
        (Rgb { r: 0x20, g: 0x19, b: 0x17 }, Rgb { r: 0xE7, g: 0xD8, b: 0xCA }, Rgb { r: 0xB2, g: 0x82, b: 0x68 })
    } else if str_eq(k, "salvia") {
        (Rgb { r: 0x1C, g: 0x21, b: 0x20 }, Rgb { r: 0xD9, g: 0xDE, b: 0xD4 }, Rgb { r: 0x8F, g: 0xA5, b: 0x94 })
    } else if str_eq(k, "arcilla") {
        (Rgb { r: 0x22, g: 0x1A, b: 0x17 }, Rgb { r: 0xE8, g: 0xD8, b: 0xCD }, Rgb { r: 0xC0, g: 0x78, b: 0x5E })
    } else if str_eq(k, "tinta") {
        (Rgb { r: 0x18, g: 0x1B, b: 0x1E }, Rgb { r: 0xD8, g: 0xDC, b: 0xDF }, Rgb { r: 0x7F, g: 0x96, b: 0xA3 })
    } else if str_eq(k, "gruvbox") {
        (Rgb { r: 0x28, g: 0x28, b: 0x28 }, Rgb { r: 0xEB, g: 0xDB, b: 0xB2 }, Rgb { r: 0xD7, g: 0x99, b: 0x21 })
    } else if str_eq(k, "catppuccin") {
        (Rgb { r: 0x1E, g: 0x1E, b: 0x2E }, Rgb { r: 0xCD, g: 0xD6, b: 0xF4 }, Rgb { r: 0xCB, g: 0xA6, b: 0xF7 })
    } else if str_eq(k, "nord") {
        (Rgb { r: 0x2E, g: 0x34, b: 0x40 }, Rgb { r: 0xEC, g: 0xEF, b: 0xF4 }, Rgb { r: 0x88, g: 0xC0, b: 0xD0 })
    } else if str_eq(k, "tokyo-night") {
        (Rgb { r: 0x1A, g: 0x1B, b: 0x26 }, Rgb { r: 0xC0, g: 0xCA, b: 0xF5 }, Rgb { r: 0x7A, g: 0xA2, b: 0xF7 })
    } else if str_eq(k, "dracula") {
        (Rgb { r: 0x28, g: 0x2A, b: 0x36 }, Rgb { r: 0xF8, g: 0xF8, b: 0xF2 }, Rgb { r: 0xBD, g: 0x93, b: 0xF9 })
    } else if str_eq(k, "everforest") {
        (Rgb { r: 0x2D, g: 0x35, b: 0x3B }, Rgb { r: 0xD3, g: 0xC6, b: 0xAA }, Rgb { r: 0xA7, g: 0xC0, b: 0x80 })
    } else if str_eq(k, "rose-pine") {
        (Rgb { r: 0x19, g: 0x17, b: 0x24 }, Rgb { r: 0xE0, g: 0xDE, b: 0xF4 }, Rgb { r: 0xC4, g: 0xA7, b: 0xE7 })
    } else if str_eq(k, "monokai") {
        (Rgb { r: 0x27, g: 0x28, b: 0x22 }, Rgb { r: 0xF8, g: 0xF8, b: 0xF2 }, Rgb { r: 0xA6, g: 0xE2, b: 0x2E })
    } else if str_eq(k, "kanagawa") {
        (Rgb { r: 0x1F, g: 0x1F, b: 0x28 }, Rgb { r: 0xDC, g: 0xD7, b: 0xBA }, Rgb { r: 0xE6, g: 0xC3, b: 0x84 })
    } else {
        (Rgb { r: 0x18, g: 0x13, b: 0x10 }, Rgb { r: 0xF7, g: 0xF0, b: 0xE8 }, Rgb { r: 0xE0, g: 0x78, b: 0x56 })
    }
}

/// The accent colour of the scheme a value names.
pub fn accent_rgb(value: &str) -> (r: Rgb)
    ensures
        r == spec_palette(spec_scheme_key(value@)).2,
{
    scheme_palette(value).2
}

/// No two adjacent characters of `s` from position `i` on are `a` then `b`.
pub open spec fn lacks_pair(s: Seq<char>, a: char, b: char, i: int) -> bool
    decreases s.len() - i,
{
    if i < 0 || i + 1 >= s.len() {
        true
    } else {
        !(s[i] == a && s[i + 1] == b) && lacks_pair(s, a, b, i + 1)
    }
}

proof fn lemma_lacks_pair(s: Seq<char>, a: char, b: char, i: int, p: int)
    requires
        0 <= i <= p,
        p + 1 < s.len(),
        lacks_pair(s, a, b, i),
    ensures
        !(s[p] == a && s[p + 1] == b),
    decreases p - i,
{
    if i < p {
        lemma_lacks_pair(s, a, b, i + 1, p);
    }
}

/// A text in which two adjacent characters of a word never follow each
/// other does not contain the word.
proof fn lemma_no_sub_by_pair(hay: Seq<char>, needle: Seq<char>, j: int)
    requires
        0 <= j,
        j + 1 < needle.len(),
        lacks_pair(hay, needle[j], needle[j + 1], 0),
    ensures
        !has_sub(hay, needle),
{
    if has_sub(hay, needle) {
        let i = choose|i: int| occurs_at(hay, needle, i);
        let w = hay.subrange(i, i + needle.len());
        assert(w[j] == hay[i + j]);
        assert(w[j + 1] == hay[i + j + 1]);
        lemma_lacks_pair(hay, needle[j], needle[j + 1], 0, i + j);
    }
}

proof fn lemma_label_key_0()
    ensures
        spec_scheme_key("Matecito"@) == "matecito"@,
{
    reveal_strlit("Matecito");
    let s = "Matecito"@;
    assert(s.len() == 8);
    lemma_trim_start(s, 0);
    lemma_trim_end(s, s.len() as int);
    assert(s.subrange(0, s.len() as int) == s);
    assert(trimmed(s) == s);
    let v = ascii_lower(s);
    let w = seq!['m', 'a', 't', 'e', 'c', 'i', 't', 'o'];
    assert(v =~= w);
    reveal_with_fuel(lacks_pair, 10);
    reveal_strlit("matecito");
    assert(w.subrange(0, 8) =~= "matecito"@);
    assert(occurs_at(w, "matecito"@, 0));
}

proof fn lemma_label_key_1()
    ensures
        spec_scheme_key("Cacao"@) == "cacao"@,
{
    reveal_strlit("Cacao");
    let s = "Cacao"@;
    assert(s.len() == 5);
    lemma_trim_start(s, 0);
    lemma_trim_end(s, s.len() as int);
    assert(s.subrange(0, s.len() as int) == s);
    assert(trimmed(s) == s);
    let v = ascii_lower(s);
    let w = seq!['c', 'a', 'c', 'a', 'o'];
    assert(v =~= w);
    reveal_with_fuel(lacks_pair, 7);
    reveal_strlit("matecito");
    lemma_no_sub_by_pair(w, "matecito"@, 0);
    reveal_strlit("mate");
    lemma_no_sub_by_pair(w, "mate"@, 0);
    reveal_strlit("cacao");
    assert(w.subrange(0, 5) =~= "cacao"@);
    assert(occurs_at(w, "cacao"@, 0));
}

proof fn lemma_label_key_2()
    ensures
        spec_scheme_key("Salvia"@) == "salvia"@,
{
    reveal_strlit("Salvia");
    let s = "Salvia"@;
    assert(s.len() == 6);
    lemma_trim_start(s, 0);
    lemma_trim_end(s, s.len() as int);
    assert(s.subrange(0, s.len() as int) == s);
    assert(trimmed(s) == s);
    let v = ascii_lower(s);
    let w = seq!['s', 'a', 'l', 'v', 'i', 'a'];
    assert(v =~= w);
    reveal_with_fuel(lacks_pair, 8);
    reveal_strlit("matecito");
    lemma_no_sub_by_pair(w, "matecito"@, 0);
    reveal_strlit("mate");
    lemma_no_sub_by_pair(w, "mate"@, 0);
    reveal_strlit("cacao");
    lemma_no_sub_by_pair(w, "cacao"@, 0);
    reveal_strlit("salvia");
    assert(w.subrange(0, 6) =~= "salvia"@);
    assert(occurs_at(w, "salvia"@, 0));
}

proof fn lemma_label_key_3()
    ensures
        spec_scheme_key("Arcilla"@) == "arcilla"@,
{
    reveal_strlit("Arcilla");
    let s = "Arcilla"@;
    assert(s.len() == 7);
    lemma_trim_start(s, 0);
    lemma_trim_end(s, s.len() as int);
    assert(s.subrange(0, s.len() as int) == s);
    assert(trimmed(s) == s);
    let v = ascii_lower(s);
    let w = seq!['a', 'r', 'c', 'i', 'l', 'l', 'a'];
    assert(v =~= w);
    reveal_with_fuel(lacks_pair, 9);
    reveal_strlit("matecito");
    lemma_no_sub_by_pair(w, "matecito"@, 0);
    reveal_strlit("mate");
    lemma_no_sub_by_pair(w, "mate"@, 0);
    reveal_strlit("cacao");
    lemma_no_sub_by_pair(w, "cacao"@, 0);
    reveal_strlit("salvia");
    lemma_no_sub_by_pair(w, "salvia"@, 0);
    reveal_strlit("arcilla");
    assert(w.subrange(0, 7) =~= "arcilla"@);
    assert(occurs_at(w, "arcilla"@, 0));
}

proof fn lemma_label_key_4()
    ensures
        spec_scheme_key("Tinta"@) == "tinta"@,
{
    reveal_strlit("Tinta");
    let s = "Tinta"@;
    assert(s.len() == 5);
    lemma_trim_start(s, 0);
    lemma_trim_end(s, s.len() as int);
    assert(s.subrange(0, s.len() as int) == s);
    assert(trimmed(s) == s);
    let v = ascii_lower(s);
    let w = seq!['t', 'i', 'n', 't', 'a'];
    assert(v =~= w);
    reveal_with_fuel(lacks_pair, 7);
    reveal_strlit("matecito");
    lemma_no_sub_by_pair(w, "matecito"@, 0);
    reveal_strlit("mate");
    lemma_no_sub_by_pair(w, "mate"@, 0);
    reveal_strlit("cacao");
    lemma_no_sub_by_pair(w, "cacao"@, 0);
    reveal_strlit("salvia");
    lemma_no_sub_by_pair(w, "salvia"@, 0);
    reveal_strlit("arcilla");
    lemma_no_sub_by_pair(w, "arcilla"@, 0);
    reveal_strlit("tinta");
    assert(w.subrange(0, 5) =~= "tinta"@);
    assert(occurs_at(w, "tinta"@, 0));
}

proof fn lemma_label_key_5()
    ensures
        spec_scheme_key("Terracotta"@) == "terracotta"@,
{
    reveal_strlit("Terracotta");
    let s = "Terracotta"@;
    assert(s.len() == 10);
    lemma_trim_start(s, 0);
    lemma_trim_end(s, s.len() as int);
    assert(s.subrange(0, s.len() as int) == s);
    assert(trimmed(s) == s);
    let v = ascii_lower(s);
    let w = seq!['t', 'e', 'r', 'r', 'a', 'c', 'o', 't', 't', 'a'];
    assert(v =~= w);
    reveal_with_fuel(lacks_pair, 12);
    reveal_strlit("matecito");
    lemma_no_sub_by_pair(w, "matecito"@, 0);
    reveal_strlit("mate");
    lemma_no_sub_by_pair(w, "mate"@, 0);
    reveal_strlit("cacao");
    lemma_no_sub_by_pair(w, "cacao"@, 0);
    reveal_strlit("salvia");
    lemma_no_sub_by_pair(w, "salvia"@, 0);
    reveal_strlit("arcilla");
    lemma_no_sub_by_pair(w, "arcilla"@, 0);
    reveal_strlit("tinta");
    lemma_no_sub_by_pair(w, "tinta"@, 0);
    reveal_strlit("gruvbox");
    lemma_no_sub_by_pair(w, "gruvbox"@, 0);
    reveal_strlit("catppuccin");
    lemma_no_sub_by_pair(w, "catppuccin"@, 0);
    reveal_strlit("nord");
    lemma_no_sub_by_pair(w, "nord"@, 0);
    reveal_strlit("tokyo");
    lemma_no_sub_by_pair(w, "tokyo"@, 0);
    reveal_strlit("dracula");
    lemma_no_sub_by_pair(w, "dracula"@, 0);
    reveal_strlit("everforest");
    lemma_no_sub_by_pair(w, "everforest"@, 0);
    reveal_strlit("rose");
    lemma_no_sub_by_pair(w, "rose"@, 0);
    reveal_strlit("rosé");
    lemma_no_sub_by_pair(w, "rosé"@, 0);
    reveal_strlit("monokai");
    lemma_no_sub_by_pair(w, "monokai"@, 0);
    reveal_strlit("kanagawa");
    lemma_no_sub_by_pair(w, "kanagawa"@, 0);
}

proof fn lemma_label_key_6()
    ensures
        spec_scheme_key("Gruvbox"@) == "gruvbox"@,
{
    reveal_strlit("Gruvbox");
    let s = "Gruvbox"@;
    assert(s.len() == 7);
    lemma_trim_start(s, 0);
    lemma_trim_end(s, s.len() as int);
    assert(s.subrange(0, s.len() as int) == s);
    assert(trimmed(s) == s);
    let v = ascii_lower(s);
    let w = seq!['g', 'r', 'u', 'v', 'b', 'o', 'x'];
    assert(v =~= w);
    reveal_with_fuel(lacks_pair, 9);
    reveal_strlit("matecito");
    lemma_no_sub_by_pair(w, "matecito"@, 0);
    reveal_strlit("mate");
    lemma_no_sub_by_pair(w, "mate"@, 0);
    reveal_strlit("cacao");
    lemma_no_sub_by_pair(w, "cacao"@, 0);
    reveal_strlit("salvia");
    lemma_no_sub_by_pair(w, "salvia"@, 0);
    reveal_strlit("arcilla");
    lemma_no_sub_by_pair(w, "arcilla"@, 0);
    reveal_strlit("tinta");
    lemma_no_sub_by_pair(w, "tinta"@, 0);
    reveal_strlit("gruvbox");
    assert(w.subrange(0, 7) =~= "gruvbox"@);
    assert(occurs_at(w, "gruvbox"@, 0));
}

proof fn lemma_label_key_7()
    ensures
        spec_scheme_key("Catppuccin Mocha"@) == "catppuccin"@,
{
    reveal_strlit("Catppuccin Mocha");
    let s = "Catppuccin Mocha"@;
    assert(s.len() == 16);
    lemma_trim_start(s, 0);
    lemma_trim_end(s, s.len() as int);
    assert(s.subrange(0, s.len() as int) == s);
    assert(trimmed(s) == s);
    let v = ascii_lower(s);
    let w = seq!['c', 'a', 't', 'p', 'p', 'u', 'c', 'c', 'i', 'n', ' ', 'm', 'o', 'c', 'h', 'a'];
    assert(v =~= w);
    reveal_with_fuel(lacks_pair, 18);
    reveal_strlit("matecito");
    lemma_no_sub_by_pair(w, "matecito"@, 0);
    reveal_strlit("mate");
    lemma_no_sub_by_pair(w, "mate"@, 0);
    reveal_strlit("cacao");
    lemma_no_sub_by_pair(w, "cacao"@, 1);
    reveal_strlit("salvia");
    lemma_no_sub_by_pair(w, "salvia"@, 0);
    reveal_strlit("arcilla");
    lemma_no_sub_by_pair(w, "arcilla"@, 0);
    reveal_strlit("tinta");
    lemma_no_sub_by_pair(w, "tinta"@, 0);
    reveal_strlit("gruvbox");
    lemma_no_sub_by_pair(w, "gruvbox"@, 0);
    reveal_strlit("catppuccin");
    assert(w.subrange(0, 10) =~= "catppuccin"@);
    assert(occurs_at(w, "catppuccin"@, 0));
}

proof fn lemma_label_key_8()
    ensures
        spec_scheme_key("Nord"@) == "nord"@,
{
    reveal_strlit("Nord");
    let s = "Nord"@;
    assert(s.len() == 4);
    lemma_trim_start(s, 0);
    lemma_trim_end(s, s.len() as int);
    assert(s.subrange(0, s.len() as int) == s);
    assert(trimmed(s) == s);
    let v = ascii_lower(s);
    let w = seq!['n', 'o', 'r', 'd'];
    assert(v =~= w);
    reveal_with_fuel(lacks_pair, 6);
    reveal_strlit("matecito");
    lemma_no_sub_by_pair(w, "matecito"@, 0);
    reveal_strlit("mate");
    lemma_no_sub_by_pair(w, "mate"@, 0);
    reveal_strlit("cacao");
    lemma_no_sub_by_pair(w, "cacao"@, 0);
    reveal_strlit("salvia");
    lemma_no_sub_by_pair(w, "salvia"@, 0);
    reveal_strlit("arcilla");
    lemma_no_sub_by_pair(w, "arcilla"@, 0);
    reveal_strlit("tinta");
    lemma_no_sub_by_pair(w, "tinta"@, 0);
    reveal_strlit("gruvbox");
    lemma_no_sub_by_pair(w, "gruvbox"@, 0);
    reveal_strlit("catppuccin");
    lemma_no_sub_by_pair(w, "catppuccin"@, 0);
    reveal_strlit("nord");
    assert(w.subrange(0, 4) =~= "nord"@);
    assert(occurs_at(w, "nord"@, 0));
}

proof fn lemma_label_key_9()
    ensures
        spec_scheme_key("Tokyo Night"@) == "tokyo-night"@,
{
    reveal_strlit("Tokyo Night");
    let s = "Tokyo Night"@;
    assert(s.len() == 11);
    lemma_trim_start(s, 0);
    lemma_trim_end(s, s.len() as int);
    assert(s.subrange(0, s.len() as int) == s);
    assert(trimmed(s) == s);
    let v = ascii_lower(s);
    let w = seq!['t', 'o', 'k', 'y', 'o', ' ', 'n', 'i', 'g', 'h', 't'];
    assert(v =~= w);
    reveal_with_fuel(lacks_pair, 13);
    reveal_strlit("matecito");
    lemma_no_sub_by_pair(w, "matecito"@, 0);
    reveal_strlit("mate");
    lemma_no_sub_by_pair(w, "mate"@, 0);
    reveal_strlit("cacao");
    lemma_no_sub_by_pair(w, "cacao"@, 0);
    reveal_strlit("salvia");
    lemma_no_sub_by_pair(w, "salvia"@, 0);
    reveal_strlit("arcilla");
    lemma_no_sub_by_pair(w, "arcilla"@, 0);
    reveal_strlit("tinta");
    lemma_no_sub_by_pair(w, "tinta"@, 0);
    reveal_strlit("gruvbox");
    lemma_no_sub_by_pair(w, "gruvbox"@, 0);
    reveal_strlit("catppuccin");
    lemma_no_sub_by_pair(w, "catppuccin"@, 0);
    reveal_strlit("nord");
    lemma_no_sub_by_pair(w, "nord"@, 0);
    reveal_strlit("tokyo");
    assert(w.subrange(0, 5) =~= "tokyo"@);
    assert(occurs_at(w, "tokyo"@, 0));
}

proof fn lemma_label_key_10()
    ensures
        spec_scheme_key("Dracula"@) == "dracula"@,
{
    reveal_strlit("Dracula");
    let s = "Dracula"@;
    assert(s.len() == 7);
    lemma_trim_start(s, 0);
    lemma_trim_end(s, s.len() as int);
    assert(s.subrange(0, s.len() as int) == s);
    assert(trimmed(s) == s);
    let v = ascii_lower(s);
    let w = seq!['d', 'r', 'a', 'c', 'u', 'l', 'a'];
    assert(v =~= w);
    reveal_with_fuel(lacks_pair, 9);
    reveal_strlit("matecito");
    lemma_no_sub_by_pair(w, "matecito"@, 0);
    reveal_strlit("mate");
    lemma_no_sub_by_pair(w, "mate"@, 0);
    reveal_strlit("cacao");
    lemma_no_sub_by_pair(w, "cacao"@, 0);
    reveal_strlit("salvia");
    lemma_no_sub_by_pair(w, "salvia"@, 0);
    reveal_strlit("arcilla");
    lemma_no_sub_by_pair(w, "arcilla"@, 0);
    reveal_strlit("tinta");
    lemma_no_sub_by_pair(w, "tinta"@, 0);
    reveal_strlit("gruvbox");
    lemma_no_sub_by_pair(w, "gruvbox"@, 0);
    reveal_strlit("catppuccin");
    lemma_no_sub_by_pair(w, "catppuccin"@, 0);
    reveal_strlit("nord");
    lemma_no_sub_by_pair(w, "nord"@, 0);
    reveal_strlit("tokyo");
    lemma_no_sub_by_pair(w, "tokyo"@, 0);
    reveal_strlit("dracula");
    assert(w.subrange(0, 7) =~= "dracula"@);
    assert(occurs_at(w, "dracula"@, 0));
}

proof fn lemma_label_key_11()
    ensures
        spec_scheme_key("Everforest"@) == "everforest"@,
{
    reveal_strlit("Everforest");
    let s = "Everforest"@;
    assert(s.len() == 10);
    lemma_trim_start(s, 0);
    lemma_trim_end(s, s.len() as int);
    assert(s.subrange(0, s.len() as int) == s);
    assert(trimmed(s) == s);
    let v = ascii_lower(s);
    let w = seq!['e', 'v', 'e', 'r', 'f', 'o', 'r', 'e', 's', 't'];
    assert(v =~= w);
    reveal_with_fuel(lacks_pair, 12);
    reveal_strlit("matecito");
    lemma_no_sub_by_pair(w, "matecito"@, 0);
    reveal_strlit("mate");
    lemma_no_sub_by_pair(w, "mate"@, 0);
    reveal_strlit("cacao");
    lemma_no_sub_by_pair(w, "cacao"@, 0);
    reveal_strlit("salvia");
    lemma_no_sub_by_pair(w, "salvia"@, 0);
    reveal_strlit("arcilla");
    lemma_no_sub_by_pair(w, "arcilla"@, 0);
    reveal_strlit("tinta");
    lemma_no_sub_by_pair(w, "tinta"@, 0);
    reveal_strlit("gruvbox");
    lemma_no_sub_by_pair(w, "gruvbox"@, 0);
    reveal_strlit("catppuccin");
    lemma_no_sub_by_pair(w, "catppuccin"@, 0);
    reveal_strlit("nord");
    lemma_no_sub_by_pair(w, "nord"@, 0);
    reveal_strlit("tokyo");
    lemma_no_sub_by_pair(w, "tokyo"@, 0);
    reveal_strlit("dracula");
    lemma_no_sub_by_pair(w, "dracula"@, 0);
    reveal_strlit("everforest");
    assert(w.subrange(0, 10) =~= "everforest"@);
    assert(occurs_at(w, "everforest"@, 0));
}

proof fn lemma_label_key_12()
    ensures
        spec_scheme_key("Rosé Pine"@) == "rose-pine"@,
{
    reveal_strlit("Rosé Pine");
    let s = "Rosé Pine"@;
    assert(s.len() == 9);
    lemma_trim_start(s, 0);
    lemma_trim_end(s, s.len() as int);
    assert(s.subrange(0, s.len() as int) == s);
    assert(trimmed(s) == s);
    let v = ascii_lower(s);
    let w = seq!['r', 'o', 's', 'é', ' ', 'p', 'i', 'n', 'e'];
    assert(v =~= w);
    reveal_with_fuel(lacks_pair, 11);
    reveal_strlit("matecito");
    lemma_no_sub_by_pair(w, "matecito"@, 0);
    reveal_strlit("mate");
    lemma_no_sub_by_pair(w, "mate"@, 0);
    reveal_strlit("cacao");
    lemma_no_sub_by_pair(w, "cacao"@, 0);
    reveal_strlit("salvia");
    lemma_no_sub_by_pair(w, "salvia"@, 0);
    reveal_strlit("arcilla");
    lemma_no_sub_by_pair(w, "arcilla"@, 0);
    reveal_strlit("tinta");
    lemma_no_sub_by_pair(w, "tinta"@, 0);
    reveal_strlit("gruvbox");
    lemma_no_sub_by_pair(w, "gruvbox"@, 0);
    reveal_strlit("catppuccin");
    lemma_no_sub_by_pair(w, "catppuccin"@, 0);
    reveal_strlit("nord");
    lemma_no_sub_by_pair(w, "nord"@, 0);
    reveal_strlit("tokyo");
    lemma_no_sub_by_pair(w, "tokyo"@, 0);
    reveal_strlit("dracula");
    lemma_no_sub_by_pair(w, "dracula"@, 0);
    reveal_strlit("everforest");
    lemma_no_sub_by_pair(w, "everforest"@, 0);
    reveal_strlit("rose");
    lemma_no_sub_by_pair(w, "rose"@, 2);
    reveal_strlit("rosé");
    assert(w.subrange(0, 4) =~= "rosé"@);
    assert(occurs_at(w, "rosé"@, 0));
}

proof fn lemma_label_key_13()
    ensures
        spec_scheme_key("Monokai"@) == "monokai"@,
{
    reveal_strlit("Monokai");
    let s = "Monokai"@;
    assert(s.len() == 7);
    lemma_trim_start(s, 0);
    lemma_trim_end(s, s.len() as int);
    assert(s.subrange(0, s.len() as int) == s);
    assert(trimmed(s) == s);
    let v = ascii_lower(s);
    let w = seq!['m', 'o', 'n', 'o', 'k', 'a', 'i'];
    assert(v =~= w);
    reveal_with_fuel(lacks_pair, 9);
    reveal_strlit("matecito");
    lemma_no_sub_by_pair(w, "matecito"@, 0);
    reveal_strlit("mate");
    lemma_no_sub_by_pair(w, "mate"@, 0);
    reveal_strlit("cacao");
    lemma_no_sub_by_pair(w, "cacao"@, 0);
    reveal_strlit("salvia");
    lemma_no_sub_by_pair(w, "salvia"@, 0);
    reveal_strlit("arcilla");
    lemma_no_sub_by_pair(w, "arcilla"@, 0);
    reveal_strlit("tinta");
    lemma_no_sub_by_pair(w, "tinta"@, 0);
    reveal_strlit("gruvbox");
    lemma_no_sub_by_pair(w, "gruvbox"@, 0);
    reveal_strlit("catppuccin");
    lemma_no_sub_by_pair(w, "catppuccin"@, 0);
    reveal_strlit("nord");
    lemma_no_sub_by_pair(w, "nord"@, 1);
    reveal_strlit("tokyo");
    lemma_no_sub_by_pair(w, "tokyo"@, 0);
    reveal_strlit("dracula");
    lemma_no_sub_by_pair(w, "dracula"@, 0);
    reveal_strlit("everforest");
    lemma_no_sub_by_pair(w, "everforest"@, 0);
    reveal_strlit("rose");
    lemma_no_sub_by_pair(w, "rose"@, 0);
    reveal_strlit("rosé");
    lemma_no_sub_by_pair(w, "rosé"@, 0);
    reveal_strlit("monokai");
    assert(w.subrange(0, 7) =~= "monokai"@);
    assert(occurs_at(w, "monokai"@, 0));
}

proof fn lemma_label_key_14()
    ensures
        spec_scheme_key("Kanagawa"@) == "kanagawa"@,
{
    reveal_strlit("Kanagawa");
    let s = "Kanagawa"@;
    assert(s.len() == 8);
    lemma_trim_start(s, 0);
    lemma_trim_end(s, s.len() as int);
    assert(s.subrange(0, s.len() as int) == s);
    assert(trimmed(s) == s);
    let v = ascii_lower(s);
    let w = seq!['k', 'a', 'n', 'a', 'g', 'a', 'w', 'a'];
    assert(v =~= w);
    reveal_with_fuel(lacks_pair, 10);
    reveal_strlit("matecito");
    lemma_no_sub_by_pair(w, "matecito"@, 0);
    reveal_strlit("mate");
    lemma_no_sub_by_pair(w, "mate"@, 0);
    reveal_strlit("cacao");
    lemma_no_sub_by_pair(w, "cacao"@, 0);
    reveal_strlit("salvia");
    lemma_no_sub_by_pair(w, "salvia"@, 0);
    reveal_strlit("arcilla");
    lemma_no_sub_by_pair(w, "arcilla"@, 0);
    reveal_strlit("tinta");
    lemma_no_sub_by_pair(w, "tinta"@, 0);
    reveal_strlit("gruvbox");
    lemma_no_sub_by_pair(w, "gruvbox"@, 0);
    reveal_strlit("catppuccin");
    lemma_no_sub_by_pair(w, "catppuccin"@, 0);
    reveal_strlit("nord");
    lemma_no_sub_by_pair(w, "nord"@, 0);
    reveal_strlit("tokyo");
    lemma_no_sub_by_pair(w, "tokyo"@, 0);
    reveal_strlit("dracula");
    lemma_no_sub_by_pair(w, "dracula"@, 0);
    reveal_strlit("everforest");
    lemma_no_sub_by_pair(w, "everforest"@, 0);
    reveal_strlit("rose");
    lemma_no_sub_by_pair(w, "rose"@, 0);
    reveal_strlit("rosé");
    lemma_no_sub_by_pair(w, "rosé"@, 0);
    reveal_strlit("monokai");
    lemma_no_sub_by_pair(w, "monokai"@, 0);
    reveal_strlit("kanagawa");
    assert(w.subrange(0, 8) =~= "kanagawa"@);
    assert(occurs_at(w, "kanagawa"@, 0));
}

/// One of the fifteen scheme names that `color_schemes` lists.
pub open spec fn is_scheme_label(l: Seq<char>) -> bool {
    ||| l == "Matecito"@
    ||| l == "Cacao"@
    ||| l == "Salvia"@
    ||| l == "Arcilla"@
    ||| l == "Tinta"@
    ||| l == "Terracotta"@
    ||| l == "Gruvbox"@
    ||| l == "Catppuccin Mocha"@
    ||| l == "Nord"@
    ||| l == "Tokyo Night"@
    ||| l == "Dracula"@
    ||| l == "Everforest"@
    ||| l == "Rosé Pine"@
    ||| l == "Monokai"@
    ||| l == "Kanagawa"@
}

proof fn lemma_key_fixed_0()
    ensures
        spec_scheme_key("matecito"@) == "matecito"@,
{
    reveal_strlit("matecito");
    let s = "matecito"@;
    assert(s.len() == 8);
    lemma_trim_start(s, 0);
    lemma_trim_end(s, s.len() as int);
    assert(s.subrange(0, s.len() as int) == s);
    assert(trimmed(s) == s);
    let v = ascii_lower(s);
    let w = seq!['m', 'a', 't', 'e', 'c', 'i', 't', 'o'];
    assert(v =~= w);
    reveal_with_fuel(lacks_pair, 10);
    reveal_strlit("matecito");
    assert(w.subrange(0, 8) =~= "matecito"@);
    assert(occurs_at(w, "matecito"@, 0));
}

proof fn lemma_key_fixed_1()
    ensures
        spec_scheme_key("cacao"@) == "cacao"@,
{
    reveal_strlit("cacao");
    let s = "cacao"@;
    assert(s.len() == 5);
    lemma_trim_start(s, 0);
    lemma_trim_end(s, s.len() as int);
    assert(s.subrange(0, s.len() as int) == s);
    assert(trimmed(s) == s);
    let v = ascii_lower(s);
    let w = seq!['c', 'a', 'c', 'a', 'o'];
    assert(v =~= w);
    reveal_with_fuel(lacks_pair, 7);
    reveal_strlit("matecito");
    lemma_no_sub_by_pair(w, "matecito"@, 0);
    reveal_strlit("mate");
    lemma_no_sub_by_pair(w, "mate"@, 0);
    reveal_strlit("cacao");
    assert(w.subrange(0, 5) =~= "cacao"@);
    assert(occurs_at(w, "cacao"@, 0));
}

proof fn lemma_key_fixed_2()
    ensures
        spec_scheme_key("salvia"@) == "salvia"@,
{
    reveal_strlit("salvia");
    let s = "salvia"@;
    assert(s.len() == 6);
    lemma_trim_start(s, 0);
    lemma_trim_end(s, s.len() as int);
    assert(s.subrange(0, s.len() as int) == s);
    assert(trimmed(s) == s);
    let v = ascii_lower(s);
    let w = seq!['s', 'a', 'l', 'v', 'i', 'a'];
    assert(v =~= w);
    reveal_with_fuel(lacks_pair, 8);
    reveal_strlit("matecito");
    lemma_no_sub_by_pair(w, "matecito"@, 0);
    reveal_strlit("mate");
    lemma_no_sub_by_pair(w, "mate"@, 0);
    reveal_strlit("cacao");
    lemma_no_sub_by_pair(w, "cacao"@, 0);
    reveal_strlit("salvia");
    assert(w.subrange(0, 6) =~= "salvia"@);
    assert(occurs_at(w, "salvia"@, 0));
}

proof fn lemma_key_fixed_3()
    ensures
        spec_scheme_key("arcilla"@) == "arcilla"@,
{
    reveal_strlit("arcilla");
    let s = "arcilla"@;
    assert(s.len() == 7);
    lemma_trim_start(s, 0);
    lemma_trim_end(s, s.len() as int);
    assert(s.subrange(0, s.len() as int) == s);
    assert(trimmed(s) == s);
    let v = ascii_lower(s);
    let w = seq!['a', 'r', 'c', 'i', 'l', 'l', 'a'];
    assert(v =~= w);
    reveal_with_fuel(lacks_pair, 9);
    reveal_strlit("matecito");
    lemma_no_sub_by_pair(w, "matecito"@, 0);
    reveal_strlit("mate");
    lemma_no_sub_by_pair(w, "mate"@, 0);
    reveal_strlit("cacao");
    lemma_no_sub_by_pair(w, "cacao"@, 0);
    reveal_strlit("salvia");
    lemma_no_sub_by_pair(w, "salvia"@, 0);
    reveal_strlit("arcilla");
    assert(w.subrange(0, 7) =~= "arcilla"@);
    assert(occurs_at(w, "arcilla"@, 0));
}

proof fn lemma_key_fixed_4()
    ensures
        spec_scheme_key("tinta"@) == "tinta"@,
{
    reveal_strlit("tinta");
    let s = "tinta"@;
    assert(s.len() == 5);
    lemma_trim_start(s, 0);
    lemma_trim_end(s, s.len() as int);
    assert(s.subrange(0, s.len() as int) == s);
    assert(trimmed(s) == s);
    let v = ascii_lower(s);
    let w = seq!['t', 'i', 'n', 't', 'a'];
    assert(v =~= w);
    reveal_with_fuel(lacks_pair, 7);
    reveal_strlit("matecito");
    lemma_no_sub_by_pair(w, "matecito"@, 0);
    reveal_strlit("mate");
    lemma_no_sub_by_pair(w, "mate"@, 0);
    reveal_strlit("cacao");
    lemma_no_sub_by_pair(w, "cacao"@, 0);
    reveal_strlit("salvia");
    lemma_no_sub_by_pair(w, "salvia"@, 0);
    reveal_strlit("arcilla");
    lemma_no_sub_by_pair(w, "arcilla"@, 0);
    reveal_strlit("tinta");
    assert(w.subrange(0, 5) =~= "tinta"@);
    assert(occurs_at(w, "tinta"@, 0));
}

proof fn lemma_key_fixed_5()
    ensures
        spec_scheme_key("terracotta"@) == "terracotta"@,
{
    reveal_strlit("terracotta");
    let s = "terracotta"@;
    assert(s.len() == 10);
    lemma_trim_start(s, 0);
    lemma_trim_end(s, s.len() as int);
    assert(s.subrange(0, s.len() as int) == s);
    assert(trimmed(s) == s);
    let v = ascii_lower(s);
    let w = seq!['t', 'e', 'r', 'r', 'a', 'c', 'o', 't', 't', 'a'];
    assert(v =~= w);
    reveal_with_fuel(lacks_pair, 12);
    reveal_strlit("matecito");
    lemma_no_sub_by_pair(w, "matecito"@, 0);
    reveal_strlit("mate");
    lemma_no_sub_by_pair(w, "mate"@, 0);
    reveal_strlit("cacao");
    lemma_no_sub_by_pair(w, "cacao"@, 0);
    reveal_strlit("salvia");
    lemma_no_sub_by_pair(w, "salvia"@, 0);
    reveal_strlit("arcilla");
    lemma_no_sub_by_pair(w, "arcilla"@, 0);
    reveal_strlit("tinta");
    lemma_no_sub_by_pair(w, "tinta"@, 0);
    reveal_strlit("gruvbox");
    lemma_no_sub_by_pair(w, "gruvbox"@, 0);
    reveal_strlit("catppuccin");
    lemma_no_sub_by_pair(w, "catppuccin"@, 0);
    reveal_strlit("nord");
    lemma_no_sub_by_pair(w, "nord"@, 0);
    reveal_strlit("tokyo");
    lemma_no_sub_by_pair(w, "tokyo"@, 0);
    reveal_strlit("dracula");
    lemma_no_sub_by_pair(w, "dracula"@, 0);
    reveal_strlit("everforest");
    lemma_no_sub_by_pair(w, "everforest"@, 0);
    reveal_strlit("rose");
    lemma_no_sub_by_pair(w, "rose"@, 0);
    reveal_strlit("rosé");
    lemma_no_sub_by_pair(w, "rosé"@, 0);
    reveal_strlit("monokai");
    lemma_no_sub_by_pair(w, "monokai"@, 0);
    reveal_strlit("kanagawa");
    lemma_no_sub_by_pair(w, "kanagawa"@, 0);
}

proof fn lemma_key_fixed_6()
    ensures
        spec_scheme_key("gruvbox"@) == "gruvbox"@,
{
    reveal_strlit("gruvbox");
    let s = "gruvbox"@;
    assert(s.len() == 7);
    lemma_trim_start(s, 0);
    lemma_trim_end(s, s.len() as int);
    assert(s.subrange(0, s.len() as int) == s);
    assert(trimmed(s) == s);
    let v = ascii_lower(s);
    let w = seq!['g', 'r', 'u', 'v', 'b', 'o', 'x'];
    assert(v =~= w);
    reveal_with_fuel(lacks_pair, 9);
    reveal_strlit("matecito");
    lemma_no_sub_by_pair(w, "matecito"@, 0);
    reveal_strlit("mate");
    lemma_no_sub_by_pair(w, "mate"@, 0);
    reveal_strlit("cacao");
    lemma_no_sub_by_pair(w, "cacao"@, 0);
    reveal_strlit("salvia");
    lemma_no_sub_by_pair(w, "salvia"@, 0);
    reveal_strlit("arcilla");
    lemma_no_sub_by_pair(w, "arcilla"@, 0);
    reveal_strlit("tinta");
    lemma_no_sub_by_pair(w, "tinta"@, 0);
    reveal_strlit("gruvbox");
    assert(w.subrange(0, 7) =~= "gruvbox"@);
    assert(occurs_at(w, "gruvbox"@, 0));
}

proof fn lemma_key_fixed_7()
    ensures
        spec_scheme_key("catppuccin"@) == "catppuccin"@,
{
    reveal_strlit("catppuccin");
    let s = "catppuccin"@;
    assert(s.len() == 10);
    lemma_trim_start(s, 0);
    lemma_trim_end(s, s.len() as int);
    assert(s.subrange(0, s.len() as int) == s);
    assert(trimmed(s) == s);
    let v = ascii_lower(s);
    let w = seq!['c', 'a', 't', 'p', 'p', 'u', 'c', 'c', 'i', 'n'];
    assert(v =~= w);
    reveal_with_fuel(lacks_pair, 12);
    reveal_strlit("matecito");
    lemma_no_sub_by_pair(w, "matecito"@, 0);
    reveal_strlit("mate");
    lemma_no_sub_by_pair(w, "mate"@, 0);
    reveal_strlit("cacao");
    lemma_no_sub_by_pair(w, "cacao"@, 1);
    reveal_strlit("salvia");
    lemma_no_sub_by_pair(w, "salvia"@, 0);
    reveal_strlit("arcilla");
    lemma_no_sub_by_pair(w, "arcilla"@, 0);
    reveal_strlit("tinta");
    lemma_no_sub_by_pair(w, "tinta"@, 0);
    reveal_strlit("gruvbox");
    lemma_no_sub_by_pair(w, "gruvbox"@, 0);
    reveal_strlit("catppuccin");
    assert(w.subrange(0, 10) =~= "catppuccin"@);
    assert(occurs_at(w, "catppuccin"@, 0));
}

proof fn lemma_key_fixed_8()
    ensures
        spec_scheme_key("nord"@) == "nord"@,
{
    reveal_strlit("nord");
    let s = "nord"@;
    assert(s.len() == 4);
    lemma_trim_start(s, 0);
    lemma_trim_end(s, s.len() as int);
    assert(s.subrange(0, s.len() as int) == s);
    assert(trimmed(s) == s);
    let v = ascii_lower(s);
    let w = seq!['n', 'o', 'r', 'd'];
    assert(v =~= w);
    reveal_with_fuel(lacks_pair, 6);
    reveal_strlit("matecito");
    lemma_no_sub_by_pair(w, "matecito"@, 0);
    reveal_strlit("mate");
    lemma_no_sub_by_pair(w, "mate"@, 0);
    reveal_strlit("cacao");
    lemma_no_sub_by_pair(w, "cacao"@, 0);
    reveal_strlit("salvia");
    lemma_no_sub_by_pair(w, "salvia"@, 0);
    reveal_strlit("arcilla");
    lemma_no_sub_by_pair(w, "arcilla"@, 0);
    reveal_strlit("tinta");
    lemma_no_sub_by_pair(w, "tinta"@, 0);
    reveal_strlit("gruvbox");
    lemma_no_sub_by_pair(w, "gruvbox"@, 0);
    reveal_strlit("catppuccin");
    lemma_no_sub_by_pair(w, "catppuccin"@, 0);
    reveal_strlit("nord");
    assert(w.subrange(0, 4) =~= "nord"@);
    assert(occurs_at(w, "nord"@, 0));
}

proof fn lemma_key_fixed_9()
    ensures
        spec_scheme_key("tokyo-night"@) == "tokyo-night"@,
{
    reveal_strlit("tokyo-night");
    let s = "tokyo-night"@;
    assert(s.len() == 11);
    lemma_trim_start(s, 0);
    lemma_trim_end(s, s.len() as int);
    assert(s.subrange(0, s.len() as int) == s);
    assert(trimmed(s) == s);
    let v = ascii_lower(s);
    let w = seq!['t', 'o', 'k', 'y', 'o', '-', 'n', 'i', 'g', 'h', 't'];
    assert(v =~= w);
    reveal_with_fuel(lacks_pair, 13);
    reveal_strlit("matecito");
    lemma_no_sub_by_pair(w, "matecito"@, 0);
    reveal_strlit("mate");
    lemma_no_sub_by_pair(w, "mate"@, 0);
    reveal_strlit("cacao");
    lemma_no_sub_by_pair(w, "cacao"@, 0);
    reveal_strlit("salvia");
    lemma_no_sub_by_pair(w, "salvia"@, 0);
    reveal_strlit("arcilla");
    lemma_no_sub_by_pair(w, "arcilla"@, 0);
    reveal_strlit("tinta");
    lemma_no_sub_by_pair(w, "tinta"@, 0);
    reveal_strlit("gruvbox");
    lemma_no_sub_by_pair(w, "gruvbox"@, 0);
    reveal_strlit("catppuccin");
    lemma_no_sub_by_pair(w, "catppuccin"@, 0);
    reveal_strlit("nord");
    lemma_no_sub_by_pair(w, "nord"@, 0);
    reveal_strlit("tokyo");
    assert(w.subrange(0, 5) =~= "tokyo"@);
    assert(occurs_at(w, "tokyo"@, 0));
}

proof fn lemma_key_fixed_10()
    ensures
        spec_scheme_key("dracula"@) == "dracula"@,
{
    reveal_strlit("dracula");
    let s = "dracula"@;
    assert(s.len() == 7);
    lemma_trim_start(s, 0);
    lemma_trim_end(s, s.len() as int);
    assert(s.subrange(0, s.len() as int) == s);
    assert(trimmed(s) == s);
    let v = ascii_lower(s);
    let w = seq!['d', 'r', 'a', 'c', 'u', 'l', 'a'];
    assert(v =~= w);
    reveal_with_fuel(lacks_pair, 9);
    reveal_strlit("matecito");
    lemma_no_sub_by_pair(w, "matecito"@, 0);
    reveal_strlit("mate");
    lemma_no_sub_by_pair(w, "mate"@, 0);
    reveal_strlit("cacao");
    lemma_no_sub_by_pair(w, "cacao"@, 0);
    reveal_strlit("salvia");
    lemma_no_sub_by_pair(w, "salvia"@, 0);
    reveal_strlit("arcilla");
    lemma_no_sub_by_pair(w, "arcilla"@, 0);
    reveal_strlit("tinta");
    lemma_no_sub_by_pair(w, "tinta"@, 0);
    reveal_strlit("gruvbox");
    lemma_no_sub_by_pair(w, "gruvbox"@, 0);
    reveal_strlit("catppuccin");
    lemma_no_sub_by_pair(w, "catppuccin"@, 0);
    reveal_strlit("nord");
    lemma_no_sub_by_pair(w, "nord"@, 0);
    reveal_strlit("tokyo");
    lemma_no_sub_by_pair(w, "tokyo"@, 0);
    reveal_strlit("dracula");
    assert(w.subrange(0, 7) =~= "dracula"@);
    assert(occurs_at(w, "dracula"@, 0));
}

proof fn lemma_key_fixed_11()
    ensures
        spec_scheme_key("everforest"@) == "everforest"@,
{
    reveal_strlit("everforest");
    let s = "everforest"@;
    assert(s.len() == 10);
    lemma_trim_start(s, 0);
    lemma_trim_end(s, s.len() as int);
    assert(s.subrange(0, s.len() as int) == s);
    assert(trimmed(s) == s);
    let v = ascii_lower(s);
    let w = seq!['e', 'v', 'e', 'r', 'f', 'o', 'r', 'e', 's', 't'];
    assert(v =~= w);
    reveal_with_fuel(lacks_pair, 12);
    reveal_strlit("matecito");
    lemma_no_sub_by_pair(w, "matecito"@, 0);
    reveal_strlit("mate");
    lemma_no_sub_by_pair(w, "mate"@, 0);
    reveal_strlit("cacao");
    lemma_no_sub_by_pair(w, "cacao"@, 0);
    reveal_strlit("salvia");
    lemma_no_sub_by_pair(w, "salvia"@, 0);
    reveal_strlit("arcilla");
    lemma_no_sub_by_pair(w, "arcilla"@, 0);
    reveal_strlit("tinta");
    lemma_no_sub_by_pair(w, "tinta"@, 0);
    reveal_strlit("gruvbox");
    lemma_no_sub_by_pair(w, "gruvbox"@, 0);
    reveal_strlit("catppuccin");
    lemma_no_sub_by_pair(w, "catppuccin"@, 0);
    reveal_strlit("nord");
    lemma_no_sub_by_pair(w, "nord"@, 0);
    reveal_strlit("tokyo");
    lemma_no_sub_by_pair(w, "tokyo"@, 0);
    reveal_strlit("dracula");
    lemma_no_sub_by_pair(w, "dracula"@, 0);
    reveal_strlit("everforest");
    assert(w.subrange(0, 10) =~= "everforest"@);
    assert(occurs_at(w, "everforest"@, 0));
}

proof fn lemma_key_fixed_12()
    ensures
        spec_scheme_key("rose-pine"@) == "rose-pine"@,
{
    reveal_strlit("rose-pine");
    let s = "rose-pine"@;
    assert(s.len() == 9);
    lemma_trim_start(s, 0);
    lemma_trim_end(s, s.len() as int);
    assert(s.subrange(0, s.len() as int) == s);
    assert(trimmed(s) == s);
    let v = ascii_lower(s);
    let w = seq!['r', 'o', 's', 'e', '-', 'p', 'i', 'n', 'e'];
    assert(v =~= w);
    reveal_with_fuel(lacks_pair, 11);
    reveal_strlit("matecito");
    lemma_no_sub_by_pair(w, "matecito"@, 0);
    reveal_strlit("mate");
    lemma_no_sub_by_pair(w, "mate"@, 0);
    reveal_strlit("cacao");
    lemma_no_sub_by_pair(w, "cacao"@, 0);
    reveal_strlit("salvia");
    lemma_no_sub_by_pair(w, "salvia"@, 0);
    reveal_strlit("arcilla");
    lemma_no_sub_by_pair(w, "arcilla"@, 0);
    reveal_strlit("tinta");
    lemma_no_sub_by_pair(w, "tinta"@, 0);
    reveal_strlit("gruvbox");
    lemma_no_sub_by_pair(w, "gruvbox"@, 0);
    reveal_strlit("catppuccin");
    lemma_no_sub_by_pair(w, "catppuccin"@, 0);
    reveal_strlit("nord");
    lemma_no_sub_by_pair(w, "nord"@, 0);
    reveal_strlit("tokyo");
    lemma_no_sub_by_pair(w, "tokyo"@, 0);
    reveal_strlit("dracula");
    lemma_no_sub_by_pair(w, "dracula"@, 0);
    reveal_strlit("everforest");
    lemma_no_sub_by_pair(w, "everforest"@, 0);
    reveal_strlit("rose");
    assert(w.subrange(0, 4) =~= "rose"@);
    assert(occurs_at(w, "rose"@, 0));
}

proof fn lemma_key_fixed_13()
    ensures
        spec_scheme_key("monokai"@) == "monokai"@,
{
    reveal_strlit("monokai");
    let s = "monokai"@;
    assert(s.len() == 7);
    lemma_trim_start(s, 0);
    lemma_trim_end(s, s.len() as int);
    assert(s.subrange(0, s.len() as int) == s);
    assert(trimmed(s) == s);
    let v = ascii_lower(s);
    let w = seq!['m', 'o', 'n', 'o', 'k', 'a', 'i'];
    assert(v =~= w);
    reveal_with_fuel(lacks_pair, 9);
    reveal_strlit("matecito");
    lemma_no_sub_by_pair(w, "matecito"@, 0);
    reveal_strlit("mate");
    lemma_no_sub_by_pair(w, "mate"@, 0);
    reveal_strlit("cacao");
    lemma_no_sub_by_pair(w, "cacao"@, 0);
    reveal_strlit("salvia");
    lemma_no_sub_by_pair(w, "salvia"@, 0);
    reveal_strlit("arcilla");
    lemma_no_sub_by_pair(w, "arcilla"@, 0);
    reveal_strlit("tinta");
    lemma_no_sub_by_pair(w, "tinta"@, 0);
    reveal_strlit("gruvbox");
    lemma_no_sub_by_pair(w, "gruvbox"@, 0);
    reveal_strlit("catppuccin");
    lemma_no_sub_by_pair(w, "catppuccin"@, 0);
    reveal_strlit("nord");
    lemma_no_sub_by_pair(w, "nord"@, 1);
    reveal_strlit("tokyo");
    lemma_no_sub_by_pair(w, "tokyo"@, 0);
    reveal_strlit("dracula");
    lemma_no_sub_by_pair(w, "dracula"@, 0);
    reveal_strlit("everforest");
    lemma_no_sub_by_pair(w, "everforest"@, 0);
    reveal_strlit("rose");
    lemma_no_sub_by_pair(w, "rose"@, 0);
    reveal_strlit("rosé");
    lemma_no_sub_by_pair(w, "rosé"@, 0);
    reveal_strlit("monokai");
    assert(w.subrange(0, 7) =~= "monokai"@);
    assert(occurs_at(w, "monokai"@, 0));
}

proof fn lemma_key_fixed_14()
    ensures
        spec_scheme_key("kanagawa"@) == "kanagawa"@,
{
    reveal_strlit("kanagawa");
    let s = "kanagawa"@;
    assert(s.len() == 8);
    lemma_trim_start(s, 0);
    lemma_trim_end(s, s.len() as int);
    assert(s.subrange(0, s.len() as int) == s);
    assert(trimmed(s) == s);
    let v = ascii_lower(s);
    let w = seq!['k', 'a', 'n', 'a', 'g', 'a', 'w', 'a'];
    assert(v =~= w);
    reveal_with_fuel(lacks_pair, 10);
    reveal_strlit("matecito");
    lemma_no_sub_by_pair(w, "matecito"@, 0);
    reveal_strlit("mate");
    lemma_no_sub_by_pair(w, "mate"@, 0);
    reveal_strlit("cacao");
    lemma_no_sub_by_pair(w, "cacao"@, 0);
    reveal_strlit("salvia");
    lemma_no_sub_by_pair(w, "salvia"@, 0);
    reveal_strlit("arcilla");
    lemma_no_sub_by_pair(w, "arcilla"@, 0);
    reveal_strlit("tinta");
    lemma_no_sub_by_pair(w, "tinta"@, 0);
    reveal_strlit("gruvbox");
    lemma_no_sub_by_pair(w, "gruvbox"@, 0);
    reveal_strlit("catppuccin");
    lemma_no_sub_by_pair(w, "catppuccin"@, 0);
    reveal_strlit("nord");
    lemma_no_sub_by_pair(w, "nord"@, 0);
    reveal_strlit("tokyo");
    lemma_no_sub_by_pair(w, "tokyo"@, 0);
    reveal_strlit("dracula");
    lemma_no_sub_by_pair(w, "dracula"@, 0);
    reveal_strlit("everforest");
    lemma_no_sub_by_pair(w, "everforest"@, 0);
    reveal_strlit("rose");
    lemma_no_sub_by_pair(w, "rose"@, 0);
    reveal_strlit("rosé");
    lemma_no_sub_by_pair(w, "rosé"@, 0);
    reveal_strlit("monokai");
    lemma_no_sub_by_pair(w, "monokai"@, 0);
    reveal_strlit("kanagawa");
    assert(w.subrange(0, 8) =~= "kanagawa"@);
    assert(occurs_at(w, "kanagawa"@, 0));
}


/// Each of the fifteen scheme names is kept as it is: the label shown for it
/// is itself, and so is the label shown for the key stored for it.
pub proof fn scheme_labels_fixed(l: Seq<char>)
    requires
        is_scheme_label(l),
    ensures
        spec_label_of(spec_scheme_key(l)) == l,
        spec_label_of(spec_scheme_key(spec_scheme_key(l))) == l,
{
    reveal_strlit("matecito");
    reveal_strlit("cacao");
    reveal_strlit("salvia");
    reveal_strlit("arcilla");
    reveal_strlit("tinta");
    reveal_strlit("terracotta");
    reveal_strlit("gruvbox");
    reveal_strlit("catppuccin");
    reveal_strlit("nord");
    reveal_strlit("tokyo-night");
    reveal_strlit("dracula");
    reveal_strlit("everforest");
    reveal_strlit("rose-pine");
    reveal_strlit("monokai");
    reveal_strlit("kanagawa");
    if l == "Matecito"@ {
        lemma_label_key_0();
        lemma_key_fixed_0();
    } else if l == "Cacao"@ {
        lemma_label_key_1();
        lemma_key_fixed_1();
    } else if l == "Salvia"@ {
        lemma_label_key_2();
        lemma_key_fixed_2();
    } else if l == "Arcilla"@ {
        lemma_label_key_3();
        lemma_key_fixed_3();
    } else if l == "Tinta"@ {
        lemma_label_key_4();
        lemma_key_fixed_4();
    } else if l == "Terracotta"@ {
        lemma_label_key_5();
        lemma_key_fixed_5();
    } else if l == "Gruvbox"@ {
        lemma_label_key_6();
        lemma_key_fixed_6();
    } else if l == "Catppuccin Mocha"@ {
        lemma_label_key_7();
        lemma_key_fixed_7();
    } else if l == "Nord"@ {
        lemma_label_key_8();
        lemma_key_fixed_8();
    } else if l == "Tokyo Night"@ {
        lemma_label_key_9();
        lemma_key_fixed_9();
    } else if l == "Dracula"@ {
        lemma_label_key_10();
        lemma_key_fixed_10();
    } else if l == "Everforest"@ {
        lemma_label_key_11();
        lemma_key_fixed_11();
    } else if l == "Rosé Pine"@ {
        lemma_label_key_12();
        lemma_key_fixed_12();
    } else if l == "Monokai"@ {
        lemma_label_key_13();
        lemma_key_fixed_13();
    } else if l == "Kanagawa"@ {
        lemma_label_key_14();
        lemma_key_fixed_14();
    }
}

/// Whatever the value, the label shown is one of the fifteen scheme names.
pub proof fn scheme_label_is_listed(value: Seq<char>)
    ensures
        is_scheme_label(spec_label_of(spec_scheme_key(value))),
{
}

/// Showing a stored scheme and storing the shown label again keeps the
/// scheme: the key of a scheme's label is the scheme's key.
pub proof fn scheme_label_keeps_key(value: Seq<char>)
    ensures
        spec_scheme_key(spec_label_of(spec_scheme_key(value))) == spec_scheme_key(value),
{
    reveal_strlit("matecito");
    reveal_strlit("cacao");
    reveal_strlit("salvia");
    reveal_strlit("arcilla");
    reveal_strlit("tinta");
    reveal_strlit("terracotta");
    reveal_strlit("gruvbox");
    reveal_strlit("catppuccin");
    reveal_strlit("nord");
    reveal_strlit("tokyo-night");
    reveal_strlit("dracula");
    reveal_strlit("everforest");
    reveal_strlit("rose-pine");
    reveal_strlit("monokai");
    reveal_strlit("kanagawa");
    lemma_label_key_0();
    lemma_label_key_1();
    lemma_label_key_2();
    lemma_label_key_3();
    lemma_label_key_4();
    lemma_label_key_5();
    lemma_label_key_6();
    lemma_label_key_7();
    lemma_label_key_8();
    lemma_label_key_9();
    lemma_label_key_10();
    lemma_label_key_11();
    lemma_label_key_12();
    lemma_label_key_13();
    lemma_label_key_14();
}

} // verus!
