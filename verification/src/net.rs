//! The on-disk image cache: where an image URL is stored, which extension it
//! gets, and which `Referer` a download sends. The downloads themselves are
//! made by the application.
//!
//! A file is named `<sha256 of the URL, in hex>.<ext>`. The extension is a
//! real image extension: the one of the URL when it names an image, else the
//! one that the first bytes of the downloaded file reveal, else `jpg`.
use vstd::prelude::*;
use crate::text::{eq_ignore_ascii_case, append, ascii_lower, chars_eq, contains, has_prefix, has_sub, lower_char, lower_chars, owned, push_char, starts_with, str_eq, to_chars, to_ascii_lowercase};
use crate::xdg::{join, path_join};

verus! {

/// The SHA-256 digest of some bytes (32 bytes).
pub uninterp spec fn sha256_of(data: Seq<u8>) -> Seq<u8>;

/// Calls `sha2::Sha256::digest` (through the `Digest` trait); its result is
/// named `sha256_of`, a function of the input alone, and is 32 bytes long.
#[verifier::external_body]
fn sha256(data: &[u8]) -> (r: Vec<u8>)
    ensures
        r@ == sha256_of(data@),
        r@.len() == 32,
{
    <sha2::Sha256 as sha2::Digest>::digest(data).to_vec()
}

/// The host of a URL, as `url::Url::parse(..).host_str()` gives it.
pub uninterp spec fn url_host(url: Seq<char>) -> Option<Seq<char>>;

/// Calls `reqwest::Url::parse` (the `url` crate's parser) and `host_str`; the
/// host is named `url_host`, a function of the URL alone. `None` when the URL
/// does not parse or has no host.
#[verifier::external_body]
fn parse_host(url: &str) -> (r: Option<String>)
    ensures
        match r {
            Some(h) => url_host(url@) == Some(h@),
            None => url_host(url@) is None,
        },
{
    match reqwest::Url::parse(url) {
        Ok(u) => match u.host_str() {
            Some(h) => Some(h.to_string()),
            None => None,
        },
        Err(_) => None,
    }
}

/// The lower-case hexadecimal digit of `d < 16`.
pub open spec fn hex_digit(d: u8) -> char {
    if d < 10 { ((d + 48) as u32) as char } else { ((d + 87) as u32) as char }
}

/// Lower-case hexadecimal text of some bytes, two digits per byte.
pub open spec fn hex_lower(b: Seq<u8>) -> Seq<char>
    decreases b.len(),
{
    if b.len() == 0 {
        Seq::empty()
    } else {
        hex_lower(b.drop_last()) + seq![hex_digit(b.last() / 16), hex_digit(b.last() % 16)]
    }
}

fn hex_digit_exec(d: u8) -> (c: char)
    requires
        d < 16,
    ensures
        c == hex_digit(d),
{
    if d < 10 { (d + 48) as char } else { (d + 87) as char }
}

/// The file stem of a URL in the cache: the hex SHA-256 of its UTF-8 bytes.
pub open spec fn spec_stem(url: Seq<char>) -> Seq<char> {
    hex_lower(sha256_of(vstd::utf8::encode_utf8(url)))
}

/// The hex SHA-256 of a URL (the cache file stem).
pub fn stem(url: &str) -> (r: String)
    ensures
        r@ == spec_stem(url@),
{
    let digest = sha256(url.as_bytes());
    let mut r = String::new();
    let mut i: usize = 0;
    while i < digest.len()
        invariant
            0 <= i <= digest.len(),
            r@ == hex_lower(digest@.take(i as int)),
        decreases digest.len() - i,
    {
        let b = digest[i];
        push_char(&mut r, hex_digit_exec(b / 16));
        push_char(&mut r, hex_digit_exec(b % 16));
        proof {
            let t = digest@.take(i + 1);
            assert(t.drop_last() == digest@.take(i as int));
            assert(t.last() == b);
        }
        i += 1;
    }
    assert(digest@.take(digest@.len() as int) == digest@);
    r
}

/// The path of a URL: the characters before the first `?` or `#`.
pub open spec fn path_part(s: Seq<char>) -> Seq<char>
    decreases s.len(),
{
    if s.len() == 0 || s[0] == '?' || s[0] == '#' {
        Seq::empty()
    } else {
        seq![s[0]] + path_part(s.drop_first())
    }
}

/// The characters after the last `.` (all of `p` when it has none).
pub open spec fn after_last_dot(p: Seq<char>) -> Seq<char>
    decreases p.len(),
{
    if p.len() == 0 || p.last() == '.' {
        Seq::empty()
    } else {
        after_last_dot(p.drop_last()).push(p.last())
    }
}

/// The image extension that the URL's path ends with, if any.
pub open spec fn spec_url_ext(url: Seq<char>) -> Option<Seq<char>> {
    let e = ascii_lower(after_last_dot(path_part(url)));
    if e == "jpg"@ || e == "jpeg"@ {
        Some("jpg"@)
    } else if e == "png"@ {
        Some("png"@)
    } else if e == "webp"@ {
        Some("webp"@)
    } else if e == "gif"@ {
        Some("gif"@)
    } else {
        None
    }
}

proof fn lemma_path_part(s: Seq<char>, k: int)
    requires
        0 <= k <= s.len(),
        forall|j: int| 0 <= j < k ==> #[trigger] s[j] != '?' && s[j] != '#',
        k == s.len() || s[k] == '?' || s[k] == '#',
    ensures
        path_part(s) == s.take(k),
    decreases k,
{
    if k == 0 {
        assert(s.take(0) == Seq::<char>::empty());
    } else {
        let t = s.drop_first();
        assert forall|j: int| 0 <= j < k - 1 implies #[trigger] t[j] != '?' && t[j] != '#' by {
            assert(t[j] == s[j + 1]);
        }
        if k < s.len() {
            assert(t[k - 1] == s[k]);
        }
        lemma_path_part(t, k - 1);
        assert(s.take(k) == seq![s[0]] + t.take(k - 1));
    }
}

proof fn lemma_after_last_dot(p: Seq<char>, k: int)
    requires
        0 <= k <= p.len(),
        forall|j: int| k <= j < p.len() ==> #[trigger] p[j] != '.',
        k == 0 || p[k - 1] == '.',
    ensures
        after_last_dot(p) == p.subrange(k, p.len() as int),
    decreases p.len() - k,
{
    if k == p.len() {
        assert(p.subrange(k, k) == Seq::<char>::empty());
    } else {
        let t = p.drop_last();
        assert forall|j: int| k <= j < t.len() implies #[trigger] t[j] != '.' by {
            assert(t[j] == p[j]);
        }
        if k > 0 {
            assert(t[k - 1] == p[k - 1]);
        }
        lemma_after_last_dot(t, k);
        assert(p.subrange(k, p.len() as int) == t.subrange(k, t.len() as int).push(p.last()));
    }
}

/// The image extension that a URL names, if it names one: the text after the
/// last `.` of its path (before `?` or `#`), compared without case; `jpeg`
/// counts as `jpg`.
pub fn url_ext(url: &str) -> (r: Option<&'static str>)
    ensures
        match r {
            Some(e) => spec_url_ext(url@) == Some(e@),
            None => spec_url_ext(url@) is None,
        },
{
    let v = to_chars(url);
    let mut k: usize = 0;
    while k < v.len() && v[k] != '?' && v[k] != '#'
        invariant
            0 <= k <= v.len(),
            forall|j: int| 0 <= j < k ==> #[trigger] v@[j] != '?' && v@[j] != '#',
        decreases v.len() - k,
    {
        k += 1;
    }
    proof {
        lemma_path_part(v@, k as int);
    }
    let mut d: usize = k;
    while d > 0 && v[d - 1] != '.'
        invariant
            0 <= d <= k <= v.len(),
            forall|j: int| d <= j < k ==> #[trigger] v@[j] != '.',
        decreases d,
    {
        d -= 1;
    }
    let ghost p = v@.take(k as int);
    proof {
        assert forall|j: int| d <= j < p.len() implies #[trigger] p[j] != '.' by {
            assert(p[j] == v@[j]);
        }
        if d > 0 {
            assert(p[d - 1] == v@[d - 1]);
        }
        lemma_after_last_dot(p, d as int);
        assert(p.subrange(d as int, p.len() as int) == v@.subrange(d as int, k as int));
    }
    let mut e: Vec<char> = Vec::new();
    let mut i: usize = d;
    while i < k
        invariant
            d <= i <= k <= v.len(),
            e@ == ascii_lower(v@.subrange(d as int, i as int)),
        decreases k - i,
    {
        e.push(crate::text::char_lower(v[i]));
        assert(ascii_lower(v@.subrange(d as int, i + 1)) == ascii_lower(v@.subrange(d as int, i as int)).push(lower_char(v@[i as int])));
        i += 1;
    }
    if chars_eq(&e, "jpg") || chars_eq(&e, "jpeg") {
        Some("jpg")
    } else if chars_eq(&e, "png") {
        Some("png")
    } else if chars_eq(&e, "webp") {
        Some("webp")
    } else if chars_eq(&e, "gif") {
        Some("gif")
    } else {
        None
    }
}

/// The image format that the first bytes of a file reveal.
pub open spec fn spec_sniff(b: Seq<u8>) -> Option<Seq<char>> {
    if b.len() >= 3 && b[0] == 0xFF && b[1] == 0xD8 && b[2] == 0xFF {
        Some("jpg"@)
    } else if b.len() >= 4 && b[0] == 0x89 && b[1] == 0x50 && b[2] == 0x4E && b[3] == 0x47 {
        Some("png"@)
    } else if b.len() > 12 && b[0] == 0x52 && b[1] == 0x49 && b[2] == 0x46 && b[3] == 0x46
        && b[8] == 0x57 && b[9] == 0x45 && b[10] == 0x42 && b[11] == 0x50 {
        Some("webp"@)
    } else if b.len() >= 4 && b[0] == 0x47 && b[1] == 0x49 && b[2] == 0x46 && b[3] == 0x38 {
        Some("gif"@)
    } else {
        None
    }
}

/// The extension that a file's magic bytes reveal: JPEG (`FF D8 FF`), PNG
/// (`89 'P' 'N' 'G'`), WebP (`RIFF....WEBP`, more than 12 bytes) or GIF
/// (`GIF8`).
pub fn sniff_ext(bytes: &[u8]) -> (r: Option<&'static str>)
    ensures
        match r {
            Some(e) => spec_sniff(bytes@) == Some(e@),
            None => spec_sniff(bytes@) is None,
        },
{
    let n = bytes.len();
    if n >= 3 && bytes[0] == 0xFF && bytes[1] == 0xD8 && bytes[2] == 0xFF {
        Some("jpg")
    } else if n >= 4 && bytes[0] == 0x89 && bytes[1] == 0x50 && bytes[2] == 0x4E && bytes[3] == 0x47 {
        Some("png")
    } else if n > 12 && bytes[0] == 0x52 && bytes[1] == 0x49 && bytes[2] == 0x46 && bytes[3] == 0x46
        && bytes[8] == 0x57 && bytes[9] == 0x45 && bytes[10] == 0x42 && bytes[11] == 0x50 {
        Some("webp")
    } else if n >= 4 && bytes[0] == 0x47 && bytes[1] == 0x49 && bytes[2] == 0x46 && bytes[3] == 0x38 {
        Some("gif")
    } else {
        None
    }
}

/// A protocol-relative URL (`//host/...`) is fetched over HTTPS.
pub open spec fn spec_normalized_url(url: Seq<char>) -> Seq<char> {
    if has_prefix(url, "//"@) { "https:"@ + url } else { url }
}

/// Completes a protocol-relative URL with `https:`.
pub fn normalize_url(url: &str) -> (r: String)
    ensures
        r@ == spec_normalized_url(url@),
{
    if starts_with(url, "//") {
        let mut r = owned("https:");
        append(&mut r, url);
        r
    } else {
        owned(url)
    }
}

/// Completing a URL twice is completing it once.
pub proof fn normalize_url_idempotent(url: Seq<char>)
    ensures
        spec_normalized_url(spec_normalized_url(url)) == spec_normalized_url(url),
{
    reveal_strlit("//");
    reveal_strlit("https:");
    if has_prefix(url, "//"@) {
        let n = "https:"@ + url;
        assert(n[0] == 'h');
        assert(!has_prefix(n, "//"@)) by {
            assert(n.subrange(0, 2)[0] == 'h');
        }
    }
}

/// The extensions under which an image may have been stored.
pub open spec fn known_exts() -> Seq<Seq<char>> {
    seq!["jpg"@, "png"@, "webp"@, "gif"@]
}

/// The file name `<stem>.<ext>`.
pub open spec fn file_name(stem: Seq<char>, ext: Seq<char>) -> Seq<char> {
    stem + seq!['.'] + ext
}

/// The extension under which a URL is looked up first: the URL's own, else `jpg`.
pub open spec fn lookup_ext(url: Seq<char>) -> Seq<char> {
    match spec_url_ext(url) {
        Some(e) => e,
        None => "jpg"@,
    }
}

/// The image cache rooted at a directory.
pub struct ImageCache {
    pub root: String,
}

/// The paths where the image of `url` may be: first under the URL's own
/// extension (or `jpg`), then under each other known extension in the order
/// jpg, png, webp, gif. The URL is completed with `https:` first.
pub open spec fn spec_candidates(root: Seq<char>, url: Seq<char>) -> Seq<Seq<char>> {
    let u = spec_normalized_url(url);
    let st = spec_stem(u);
    let ext = lookup_ext(u);
    seq![path_join(root, file_name(st, ext))] + without(known_exts(), ext).map_values(
        |k: Seq<char>| path_join(root, file_name(st, k)),
    )
}

/// `s` without the entries equal to `e`, in order.
pub open spec fn without(s: Seq<Seq<char>>, e: Seq<char>) -> Seq<Seq<char>>
    decreases s.len(),
{
    if s.len() == 0 {
        s
    } else if s.last() == e {
        without(s.drop_last(), e)
    } else {
        without(s.drop_last(), e).push(s.last())
    }
}

fn named(root: &str, stem: &str, ext: &str) -> (r: String)
    ensures
        r@ == path_join(root@, file_name(stem@, ext@)),
{
    let mut name = owned(stem);
    push_char(&mut name, '.');
    append(&mut name, ext);
    join(root, name.as_str())
}

impl ImageCache {
    /// A cache stored in `root` (the application's cache directory).
    pub fn new(root: String) -> (r: ImageCache)
        ensures
            r.root == root,
    {
        ImageCache { root }
    }

    /// The paths where the image of `url` may be stored, in the order they
    /// are looked up (see `spec_candidates`).
    pub fn candidates(&self, url: &str) -> (r: Vec<String>)
        ensures
            r@.map_values(|p: String| p@) == spec_candidates(self.root@, url@),
    {
        let clean = normalize_url(url);
        let st = stem(clean.as_str());
        let ext: &'static str = match url_ext(clean.as_str()) {
            Some(e) => e,
            None => "jpg",
        };
        let mut r: Vec<String> = Vec::new();
        r.push(named(self.root.as_str(), st.as_str(), ext));
        let known: [&'static str; 4] = ["jpg", "png", "webp", "gif"];
        let ghost u = clean@;
        proof {
            reveal_strlit("jpg");
            reveal_strlit("png");
            reveal_strlit("webp");
            reveal_strlit("gif");
            assert(ext@ == lookup_ext(u));
        }
        let mut i: usize = 0;
        while i < 4
            invariant
                0 <= i <= 4,
                known@.map_values(|k: &str| k@) == known_exts(),
                r@.len() >= 1,
                r@[0]@ == path_join(self.root@, file_name(st@, ext@)),
                r@.drop_first().map_values(|p: String| p@) == without(known_exts().take(i as int), ext@).map_values(
                    |k: Seq<char>| path_join(self.root@, file_name(st@, k))),
            decreases 4 - i,
        {
            let k = known[i];
            let ghost before = r@;
            if !str_eq(k, ext) {
                r.push(named(self.root.as_str(), st.as_str(), k));
            }
            proof {
                let ks = known_exts();
                assert(ks.take(i + 1) == ks.take(i as int).push(ks[i as int]));
                assert(known@.map_values(|k: &str| k@)[i as int] == k@);
                assert(ks.take(i + 1).drop_last() == ks.take(i as int));
                let t = ks.take(i + 1);
                assert(t.last() == ks[i as int]);
                assert(ks[i as int] == k@);
                if k@ != ext@ {
                    assert(without(t, ext@) == without(ks.take(i as int), ext@).push(k@));
                    assert(r@.drop_first() =~= before.drop_first().push(r@.last()));
                    assert(r@.drop_first().map_values(|p: String| p@) =~= before.drop_first().map_values(|p: String| p@).push(r@.last()@));
                    assert(without(t, ext@).map_values(|k: Seq<char>| path_join(self.root@, file_name(st@, k))) =~=
                        without(ks.take(i as int), ext@).map_values(|k: Seq<char>| path_join(self.root@, file_name(st@, k))).push(
                            path_join(self.root@, file_name(st@, k@))));
                } else {
                    assert(without(t, ext@) == without(ks.take(i as int), ext@));
                    assert(r@ == before);
                }
            }
            i += 1;
        }
        proof {
            assert(known_exts().take(4) == known_exts());
            assert(r@ == seq![r@[0]] + r@.drop_first());
            assert(r@.map_values(|p: String| p@) =~= seq![r@[0]@] + r@.drop_first().map_values(|p: String| p@));
        }
        r
    }

    /// The cached path of `url`: the first candidate that `present` marks as
    /// existing (`present[i]` for `candidates[i]`), else the first candidate.
    pub fn cached_path(candidates: Vec<String>, present: &Vec<bool>) -> (r: String)
        requires
            candidates@.len() >= 1,
        ensures
            exists|i: int| 0 <= i < candidates@.len() && r == candidates@[i]
                && (i == 0 || (i < present@.len() && present@[i]))
                && forall|j: int| 0 <= j < i && j < present@.len() ==> !present@[j],
            (exists|i: int| 0 <= i < candidates@.len() && i < present@.len() && present@[i])
                ==> exists|i: int| 0 <= i < candidates@.len() && i < present@.len() && present@[i] && r == candidates@[i]
                && forall|j: int| 0 <= j < i ==> !present@[j],
    {
        let mut i: usize = 0;
        while i < candidates.len() && i < present.len()
            invariant
                0 <= i <= candidates@.len(),
                forall|j: int| 0 <= j < i && j < present@.len() ==> !present@[j],
            decreases candidates@.len() - i,
        {
            if present[i] {
                let mut c = candidates;
                return c.swap_remove(i);
            }
            i += 1;
        }
        let mut c = candidates;
        c.swap_remove(0)
    }

    /// The temporary name under which `url` is downloaded before it gets its
    /// final extension.
    pub fn download_path(&self, url: &str) -> (r: String)
        ensures
            r@ == path_join(self.root@, spec_stem(url@) + ".downloading"@),
    {
        let mut name = stem(url);
        append(&mut name, ".downloading");
        join(self.root.as_str(), name.as_str())
    }

    /// The final path of a downloaded image: `<stem>.<ext>` with the URL's
    /// extension, else the one the first bytes reveal, else `jpg`.
    pub fn final_path(&self, url: &str, head: &[u8]) -> (r: String)
        ensures
            r@ == path_join(self.root@, file_name(spec_stem(url@), final_ext(url@, head@))),
            r@ == path_join(self.root@, file_name(spec_stem(url@), match spec_url_ext(url@) {
                Some(e) => e,
                None => match spec_sniff(head@) {
                    Some(e) => e,
                    None => "jpg"@,
                },
            })),
    {
        proof {
            stored_extension_law(url@, head@);
        }
        let ext: &'static str = match url_ext(url) {
            Some(e) => e,
            None => match sniff_ext(head) {
                Some(e) => e,
                None => "jpg",
            },
        };
        let st = stem(url);
        named(self.root.as_str(), st.as_str(), ext)
    }
}

/// The extension a downloaded image is stored under: the one its URL names,
/// else the one its first bytes reveal (PNG, JPEG, GIF and WebP signatures),
/// else `jpg`.
pub proof fn stored_extension_law(url: Seq<char>, head: Seq<u8>)
    ensures
        spec_url_ext(url) matches Some(e) ==> final_ext(url, head) == e,
        spec_url_ext(url) is None ==> (spec_sniff(head) matches Some(e) ==> final_ext(url, head) == e),
        spec_url_ext(url) is None && spec_sniff(head) is None ==> final_ext(url, head) == "jpg"@,
        spec_url_ext(url) is None && head.len() >= 4 && head[0] == 0x89 && head[1] == 0x50 && head[2] == 0x4E
            && head[3] == 0x47 ==> final_ext(url, head) == "png"@,
        spec_url_ext(url) is None && head.len() >= 3 && head[0] == 0xFF && head[1] == 0xD8 && head[2] == 0xFF
            ==> final_ext(url, head) == "jpg"@,
        spec_url_ext(url) is None && head.len() >= 4 && head[0] == 0x47 && head[1] == 0x49 && head[2] == 0x46
            && head[3] == 0x38 ==> final_ext(url, head) == "gif"@,
{
}

/// The extension a downloaded image is stored under.
pub open spec fn final_ext(url: Seq<char>, head: Seq<u8>) -> Seq<char> {
    match spec_url_ext(url) {
        Some(e) => e,
        None => match spec_sniff(head) {
            Some(e) => e,
            None => "jpg"@,
        },
    }
}

/// `str::eq_ignore_ascii_case`.
pub open spec fn eq_ignore_case(a: Seq<char>, b: Seq<char>) -> bool {
    ascii_lower(a) == ascii_lower(b)
}

/// The `Referer` a download adds when the source's headers have none: the
/// site of ComicK or MangaDex for their image hosts, else the URL's own host.
pub open spec fn spec_referer(url: Seq<char>, header_names: Seq<Seq<char>>) -> Option<Seq<char>> {
    if exists|i: int| 0 <= i < header_names.len() && eq_ignore_case(#[trigger] header_names[i], "referer"@) {
        None
    } else if has_sub(url, "comick"@) {
        Some("https://comick.live/"@)
    } else if has_sub(url, "mangadex"@) {
        Some("https://mangadex.org/"@)
    } else {
        match url_host(url) {
            Some(h) => Some("https://"@ + h + "/"@),
            None => None,
        }
    }
}

/// The `Referer` to add to an image request (see `spec_referer`); `None`
/// when the headers already hold one or no host is known.
pub fn referer_for(url: &str, header_names: &Vec<String>) -> (r: Option<String>)
    ensures
        match r {
            Some(s) => spec_referer(url@, header_names@.map_values(|h: String| h@)) == Some(s@),
            None => spec_referer(url@, header_names@.map_values(|h: String| h@)) is None,
        },
{
    let ghost names = header_names@.map_values(|h: String| h@);
    let mut i: usize = 0;
    while i < header_names.len()
        invariant
            0 <= i <= header_names.len(),
            names == header_names@.map_values(|h: String| h@),
            forall|j: int| 0 <= j < i ==> !eq_ignore_case(#[trigger] names[j], "referer"@),
        decreases header_names.len() - i,
    {
        if eq_ignore_ascii_case(header_names[i].as_str(), "referer") {
            assert(eq_ignore_case(names[i as int], "referer"@));
            return None;
        }
        i += 1;
    }
    if contains(url, "comick") {
        Some(owned("https://comick.live/"))
    } else if contains(url, "mangadex") {
        Some(owned("https://mangadex.org/"))
    } else {
        match parse_host(url) {
            Some(h) => {
                let mut r = owned("https://");
                append(&mut r, h.as_str());
                push_char(&mut r, '/');
                proof {
                    reveal_strlit("/");
                    assert("/"@ == seq!['/']);
                }
                Some(r)
            },
            None => None,
        }
    }
}

} // verus!
