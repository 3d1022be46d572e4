//! The records that the daemon, the database and the screens exchange.
use vstd::prelude::*;
use crate::text::{append, owned, push_char};

verus! {

/// A manga as the screens handle it: where it comes from (`source`, `url`),
/// what is shown of it, and whether it is adult content.
#[derive(Debug, Clone)]
pub struct Manga {
    pub source: String,
    pub url: String,
    pub title: String,
    pub public_url: Option<String>,
    pub is_nsfw: bool,
    pub cover_url: Option<String>,
    pub large_cover_url: Option<String>,
    pub description: Option<String>,
    pub authors: Vec<String>,
    pub state: Option<String>,
}

/// A chapter as the screens file it (its number, a float, stays with the
/// application, which sorts and labels chapters by it).
#[derive(Debug, Clone)]
pub struct Chapter {
    pub source: String,
    pub url: String,
    pub title: String,
    pub volume: i32,
    pub language: Option<String>,
    pub scanlator: Option<String>,
    pub upload_date: i64,
    pub branch: Option<String>,
}

/// A page of a chapter, before its image is resolved.
#[derive(Debug, Clone)]
pub struct Page {
    pub source: String,
    pub url: String,
    pub preview: Option<String>,
}

/// A catalogue source of the daemon.
#[derive(Debug, Clone)]
pub struct Source {
    pub id: String,
    pub name: String,
    pub language: Option<String>,
}

/// What the daemon answers to `ping`.
#[derive(Debug, Clone)]
pub struct PingReply {
    pub version: String,
    pub java: String,
}

/// A category of the library.
#[derive(Debug, Clone)]
pub struct Category {
    pub id: Option<i64>,
    pub name: String,
    pub color: String,
    pub auto_download: bool,
    pub created_at: i64,
}

/// A light reference to a manga, enough to open its details.
#[derive(Debug, Clone)]
pub struct MangaRef {
    pub source: String,
    pub url: String,
    pub title: String,
    pub cover_url: Option<String>,
}

/// The text of an optional string; empty when there is none.
pub open spec fn opt_text(o: Option<String>) -> Seq<char> {
    match o {
        Some(s) => s@,
        None => Seq::empty(),
    }
}

/// The characters of an optional string.
pub open spec fn opt_view(o: Option<String>) -> Option<Seq<char>> {
    match o {
        Some(s) => Some(s@),
        None => None,
    }
}

/// `Option::as_deref` on an optional string.
pub fn opt_str(o: &Option<String>) -> (r: Option<&str>)
    ensures
        r is Some <==> o is Some,
        crate::language::locale_text(r) == opt_text(*o),
        crate::language::opt_chars(r) == opt_view(*o),
{
    match o {
        Some(s) => Some(s.as_str()),
        None => None,
    }
}

/// The key that identifies a manga across sources: `source|url`.
pub open spec fn manga_key(source: Seq<char>, url: Seq<char>) -> Seq<char> {
    source + seq!['|'] + url
}

impl Manga {
    /// The composite key `source|url`.
    pub fn key(&self) -> (r: String)
        ensures
            r@ == manga_key(self.source@, self.url@),
    {
        let mut r = owned(self.source.as_str());
        push_char(&mut r, '|');
        append(&mut r, self.url.as_str());
        r
    }
}

} // verus!
