//! The XDG base directories of the application and the paths inside them.
//!
//! The environment is read by the application into an `Xdg` value; every
//! path follows from that snapshot. Paths are strings joined the way
//! `PathBuf::join` joins a relative component.
use vstd::prelude::*;
use crate::num::{dec_int, i64_to_dec, parse_i64, parse_i64_chars};
use crate::text::{append, has_prefix, is_ws, lemma_trim_start, owned, push_char, to_chars, trim_start, char_is_ws};

verus! {

/// `PathBuf::join` with a relative component: a separator is inserted unless
/// the base is empty or already ends with one.
pub open spec fn path_join(base: Seq<char>, name: Seq<char>) -> Seq<char> {
    if base.len() == 0 {
        name
    } else if base.last() == '/' {
        base + name
    } else {
        base + seq!['/'] + name
    }
}

/// Joins a relative component to a path.
pub fn join(base: &str, name: &str) -> (r: String)
    ensures
        r@ == path_join(base@, name@),
{
    let b = to_chars(base);
    let mut r = owned(base);
    if b.len() > 0 && b[b.len() - 1] != '/' {
        push_char(&mut r, '/');
    }
    append(&mut r, name);
    r
}

/// The environment the directories are derived from: `$HOME`, the four
/// `$XDG_*` variables (`None` when unset) and the user id.
#[derive(Debug, Clone)]
pub struct Xdg {
    pub env_home: Option<String>,
    pub env_data_home: Option<String>,
    pub env_config_home: Option<String>,
    pub env_cache_home: Option<String>,
    pub env_runtime_dir: Option<String>,
    pub uid: i64,
}

/// An optional environment value, as characters.
pub open spec fn env_chars(v: Option<String>) -> Option<Seq<char>> {
    match v {
        Some(s) => Some(s@),
        None => None,
    }
}

/// A directory variable counts only when it is set and not empty.
pub open spec fn dir_or(v: Option<Seq<char>>, default: Seq<char>) -> Seq<char> {
    match v {
        Some(s) => if s.len() > 0 { s } else { default },
        None => default,
    }
}

pub open spec fn spec_home(x: Xdg) -> Seq<char> {
    match x.env_home {
        Some(h) => h@,
        None => "/tmp"@,
    }
}

pub open spec fn spec_data_home(x: Xdg) -> Seq<char> {
    dir_or(env_chars(x.env_data_home), spec_home(x) + "/.local/share"@)
}

pub open spec fn spec_config_home(x: Xdg) -> Seq<char> {
    dir_or(env_chars(x.env_config_home), spec_home(x) + "/.config"@)
}

pub open spec fn spec_cache_home(x: Xdg) -> Seq<char> {
    dir_or(env_chars(x.env_cache_home), spec_home(x) + "/.cache"@)
}

pub open spec fn spec_runtime_dir(x: Xdg) -> Seq<char> {
    dir_or(env_chars(x.env_runtime_dir), "/tmp/bakeneko-"@ + dec_int(x.uid as int))
}

pub open spec fn spec_data_root(x: Xdg) -> Seq<char> {
    path_join(spec_data_home(x), "bakeneko"@)
}

pub open spec fn spec_config_root(x: Xdg) -> Seq<char> {
    path_join(spec_config_home(x), "bakeneko"@)
}

pub open spec fn spec_cache_root(x: Xdg) -> Seq<char> {
    path_join(spec_cache_home(x), "bakeneko"@)
}

pub open spec fn spec_daemon_socket(x: Xdg) -> Seq<char> {
    path_join(path_join(spec_runtime_dir(x), "bakeneko"@), "daemon.sock"@)
}

pub open spec fn spec_downloads_root(x: Xdg) -> Seq<char> {
    path_join(spec_data_root(x), "downloads"@)
}

fn dir_or_default(v: &Option<String>, default: String) -> (r: String)
    ensures
        r@ == dir_or(env_chars(*v), default@),
{
    match v {
        Some(s) => {
            let c = to_chars(s.as_str());
            if c.len() > 0 { s.clone() } else { default }
        },
        None => default,
    }
}

fn with_suffix(base: String, suffix: &str) -> (r: String)
    ensures
        r@ == base@ + suffix@,
{
    let mut r = base;
    append(&mut r, suffix);
    r
}

impl Xdg {
    /// `$HOME`, or `/tmp` when it is unset.
    pub fn home(&self) -> (r: String)
        ensures
            r@ == spec_home(*self),
    {
        match &self.env_home {
            Some(h) => h.clone(),
            None => owned("/tmp"),
        }
    }

    /// `$XDG_DATA_HOME`, or `$HOME/.local/share`.
    pub fn data_home(&self) -> (r: String)
        ensures
            r@ == spec_data_home(*self),
    {
        dir_or_default(&self.env_data_home, with_suffix(self.home(), "/.local/share"))
    }

    /// `$XDG_CONFIG_HOME`, or `$HOME/.config`.
    pub fn config_home(&self) -> (r: String)
        ensures
            r@ == spec_config_home(*self),
    {
        dir_or_default(&self.env_config_home, with_suffix(self.home(), "/.config"))
    }

    /// `$XDG_CACHE_HOME`, or `$HOME/.cache`.
    pub fn cache_home(&self) -> (r: String)
        ensures
            r@ == spec_cache_home(*self),
    {
        dir_or_default(&self.env_cache_home, with_suffix(self.home(), "/.cache"))
    }

    /// `$XDG_RUNTIME_DIR`, or `/tmp/bakeneko-<uid>`.
    pub fn runtime_dir(&self) -> (r: String)
        ensures
            r@ == spec_runtime_dir(*self),
    {
        let d = i64_to_dec(self.uid);
        dir_or_default(&self.env_runtime_dir, with_suffix(owned("/tmp/bakeneko-"), d.as_str()))
    }

    /// The application's data directory.
    pub fn data_root(&self) -> (r: String)
        ensures
            r@ == spec_data_root(*self),
    {
        join(self.data_home().as_str(), "bakeneko")
    }

    /// The application's configuration directory.
    pub fn config_root(&self) -> (r: String)
        ensures
            r@ == spec_config_root(*self),
    {
        join(self.config_home().as_str(), "bakeneko")
    }

    /// The application's cache directory (downloaded images).
    pub fn cache_root(&self) -> (r: String)
        ensures
            r@ == spec_cache_root(*self),
    {
        join(self.cache_home().as_str(), "bakeneko")
    }

    /// The socket on which the daemon listens.
    pub fn daemon_socket(&self) -> (r: String)
        ensures
            r@ == spec_daemon_socket(*self),
    {
        let dir = join(self.runtime_dir().as_str(), "bakeneko");
        join(dir.as_str(), "daemon.sock")
    }

    /// Where downloaded chapters are kept.
    pub fn downloads_root(&self) -> (r: String)
        ensures
            r@ == spec_downloads_root(*self),
    {
        join(self.data_root().as_str(), "downloads")
    }

    /// The directories that must exist before the application starts, in the
    /// order they are created.
    pub fn required_dirs(&self) -> (r: Vec<String>)
        ensures
            r@.len() == 5,
            r@[0]@ == spec_data_root(*self),
            r@[1]@ == spec_config_root(*self),
            r@[2]@ == spec_cache_root(*self),
            r@[3]@ == spec_downloads_root(*self),
            r@[4]@ == path_join(spec_runtime_dir(*self), "bakeneko"@),
    {
        let mut r: Vec<String> = Vec::new();
        r.push(self.data_root());
        r.push(self.config_root());
        r.push(self.cache_root());
        r.push(self.downloads_root());
        r.push(join(self.runtime_dir().as_str(), "bakeneko"));
        r
    }

    /// Where the settings are stored.
    pub fn settings_path(&self) -> (r: String)
        ensures
            r@ == path_join(spec_config_root(*self), "settings.json"@),
    {
        join(self.config_root().as_str(), "settings.json")
    }
}

/// The index of the first line feed of `s`, or its length.
pub open spec fn first_nl(s: Seq<char>) -> nat
    decreases s.len(),
{
    if s.len() == 0 || s[0] == '\n' {
        0
    } else {
        1 + first_nl(s.drop_first())
    }
}

proof fn lemma_first_nl(s: Seq<char>, k: int)
    requires
        0 <= k <= s.len(),
        forall|j: int| 0 <= j < k ==> #[trigger] s[j] != '\n',
        k == s.len() || s[k] == '\n',
    ensures
        first_nl(s) == k,
    decreases k,
{
    if k > 0 {
        let t = s.drop_first();
        assert forall|j: int| 0 <= j < k - 1 implies #[trigger] t[j] != '\n' by {
            assert(t[j] == s[j + 1]);
        }
        if k < s.len() {
            assert(t[k - 1] == s[k]);
        }
        lemma_first_nl(t, k - 1);
    }
}

pub proof fn lemma_first_nl_bound(s: Seq<char>)
    ensures
        first_nl(s) <= s.len(),
    decreases s.len(),
{
    if s.len() > 0 && s[0] != '\n' {
        lemma_first_nl_bound(s.drop_first());
    }
}

/// The characters before the first whitespace.
pub open spec fn token_prefix(s: Seq<char>) -> Seq<char>
    decreases s.len(),
{
    if s.len() == 0 || is_ws(s[0]) {
        Seq::empty()
    } else {
        seq![s[0]] + token_prefix(s.drop_first())
    }
}

proof fn lemma_token_prefix(s: Seq<char>, k: int)
    requires
        0 <= k <= s.len(),
        forall|j: int| 0 <= j < k ==> !is_ws(#[trigger] s[j]),
        k == s.len() || is_ws(s[k]),
    ensures
        token_prefix(s) == s.take(k),
    decreases k,
{
    if k == 0 {
        assert(s.take(0) == Seq::<char>::empty());
    } else {
        let t = s.drop_first();
        assert forall|j: int| 0 <= j < k - 1 implies !is_ws(#[trigger] t[j]) by {
            assert(t[j] == s[j + 1]);
        }
        if k < s.len() {
            assert(t[k - 1] == s[k]);
        }
        lemma_token_prefix(t, k - 1);
        assert(s.take(k) == seq![s[0]] + t.take(k - 1));
    }
}

/// The first whitespace-separated token (`split_whitespace().next()`).
pub open spec fn first_token(s: Seq<char>) -> Option<Seq<char>> {
    let t = trim_start(s);
    if t.len() == 0 { None } else { Some(token_prefix(t)) }
}

/// The uid that a `Uid:` line of `/proc/self/status` gives: its first field,
/// or 1000 when that field is not a number. `None` for other lines and for a
/// `Uid:` line without fields.
pub open spec fn uid_of_line(line: Seq<char>) -> Option<i64> {
    if has_prefix(line, "Uid:"@) {
        match first_token(line.skip(4)) {
            Some(tok) => match parse_i64(tok) {
                Some(v) => Some(v),
                None => Some(1000),
            },
            None => None,
        }
    } else {
        None
    }
}

/// A line of `str::lines`: the text up to `e`, without the carriage return
/// that precedes the line feed.
pub open spec fn line_text(s: Seq<char>, e: int) -> Seq<char> {
    let raw = s.take(e);
    if e < s.len() && raw.len() > 0 && raw.last() == '\r' { raw.drop_last() } else { raw }
}

/// The uid found by scanning the lines of `s`; 1000 when no line gives one.
pub open spec fn uid_scan(s: Seq<char>) -> i64
    decreases s.len(),
{
    if s.len() == 0 {
        1000
    } else {
        let e = first_nl(s) as int;
        match uid_of_line(line_text(s, e)) {
            Some(v) => v,
            None => if e < s.len() {
                proof {
                    lemma_first_nl_bound(s);
                }
                uid_scan(s.skip(e + 1))
            } else {
                1000
            },
        }
    }
}

/// The first token of `v[from..to]`, as a `uid_of_line` field.
fn uid_of_line_exec(v: &Vec<char>, from: usize, to: usize) -> (r: Option<i64>)
    requires
        from <= to <= v.len(),
    ensures
        r == uid_of_line(v@.subrange(from as int, to as int)),
{
    let ghost line = v@.subrange(from as int, to as int);
    let tag = to_chars("Uid:");
    proof {
        reveal_strlit("Uid:");
        assert(tag@.len() == 4);
    }
    if to - from < 4 {
        assert(!has_prefix(line, "Uid:"@));
        return None;
    }
    let mut i: usize = 0;
    while i < 4
        invariant
            from + 4 <= to <= v.len(),
            tag@ == "Uid:"@,
            tag@.len() == 4,
            line == v@.subrange(from as int, to as int),
            0 <= i <= 4,
            forall|j: int| 0 <= j < i ==> v@[from + j] == #[trigger] tag@[j],
        decreases 4 - i,
    {
        if v[from + i] != tag[i] {
            assert(!has_prefix(line, "Uid:"@)) by {
                assert(line.subrange(0, 4)[i as int] == v@[from + i]);
            }
            return None;
        }
        i += 1;
    }
    assert(has_prefix(line, "Uid:"@)) by {
        assert(line.subrange(0, 4) =~= tag@);
    }
    // Skip the whitespace before the first field.
    let mut a: usize = from + 4;
    while a < to && char_is_ws(v[a])
        invariant
            from + 4 <= a <= to <= v.len(),
            forall|j: int| from + 4 <= j < a ==> is_ws(#[trigger] v@[j]),
        decreases to - a,
    {
        a += 1;
    }
    let ghost rest = line.skip(4);
    proof {
        assert(rest == v@.subrange(from + 4, to as int));
        assert forall|j: int| 0 <= j < a - from - 4 implies is_ws(#[trigger] rest[j]) by {
            assert(rest[j] == v@[from + 4 + j]);
        }
        if a < to {
            assert(rest[a - from - 4] == v@[a as int]);
        }
        lemma_trim_start(rest, a - from - 4);
    }
    if a == to {
        return None;
    }
    let mut b: usize = a;
    while b < to && !char_is_ws(v[b])
        invariant
            a <= b <= to <= v.len(),
            forall|j: int| a <= j < b ==> !is_ws(#[trigger] v@[j]),
        decreases to - b,
    {
        b += 1;
    }
    let ghost t = rest.subrange(a - from - 4, rest.len() as int);
    proof {
        assert(t == v@.subrange(a as int, to as int));
        assert forall|j: int| 0 <= j < b - a implies !is_ws(#[trigger] t[j]) by {
            assert(t[j] == v@[a + j]);
        }
        if b < to {
            assert(t[b - a] == v@[b as int]);
        }
        lemma_token_prefix(t, b - a);
        assert(t.take(b - a) == v@.subrange(a as int, b as int));
    }
    let mut tok: Vec<char> = Vec::new();
    let mut k: usize = a;
    while k < b
        invariant
            a <= k <= b <= v.len(),
            tok@ == v@.subrange(a as int, k as int),
        decreases b - k,
    {
        tok.push(v[k]);
        assert(v@.subrange(a as int, k + 1) == v@.subrange(a as int, k as int).push(v@[k as int]));
        k += 1;
    }
    match parse_i64_chars(&tok) {
        Some(x) => Some(x),
        None => Some(1000),
    }
}

/// The user id, read from the text of `/proc/self/status`: the first field
/// of the first `Uid:` line that has one; 1000 when the field is not a number
/// or no line gives one.
pub fn uid_from_status(contents: &str) -> (r: i64)
    ensures
        r == uid_scan(contents@),
{
    let v = to_chars(contents);
    let n = v.len();
    let mut pos: usize = 0;
    assert(v@.skip(0) == v@);
    while pos < n
        invariant
            n == v.len(),
            v@ == contents@,
            0 <= pos <= n,
            uid_scan(contents@) == uid_scan(v@.skip(pos as int)),
        decreases n - pos,
    {
        let ghost s = v@.skip(pos as int);
        let mut e: usize = pos;
        while e < n && v[e] != '\n'
            invariant
                n == v.len(),
                pos <= e <= n,
                forall|j: int| pos <= j < e ==> #[trigger] v@[j] != '\n',
            decreases n - e,
        {
            e += 1;
        }
        proof {
            assert forall|j: int| 0 <= j < e - pos implies #[trigger] s[j] != '\n' by {
                assert(s[j] == v@[pos + j]);
            }
            if e < n {
                assert(s[e - pos] == v@[e as int]);
            }
            lemma_first_nl(s, e - pos);
        }
        let end: usize = if e < n && e > pos && v[e - 1] == '\r' { e - 1 } else { e };
        proof {
            assert(line_text(s, e - pos) == v@.subrange(pos as int, end as int)) by {
                let raw = s.take(e - pos);
                assert(raw == v@.subrange(pos as int, e as int));
                if e < n && e > pos && v@[e - 1] == '\r' {
                    assert(raw.last() == v@[e - 1]);
                    assert(raw.drop_last() == v@.subrange(pos as int, e - 1));
                } else if e < n && raw.len() > 0 {
                    assert(raw.last() == v@[e - 1]);
                }
            }
        }
        match uid_of_line_exec(&v, pos, end) {
            Some(x) => {
                return x;
            },
            None => {},
        }
        if e == n {
            return 1000;
        }
        proof {
            assert(s.skip(e - pos + 1) == v@.skip(e + 1));
        }
        pos = e + 1;
    }
    assert(v@.skip(n as int).len() == 0);
    1000
}

} // verus!
