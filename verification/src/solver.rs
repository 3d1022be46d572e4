//! The solver: a hidden web view that fetches JSON from a site behind a
//! browser challenge for the daemon, answering over a local socket.
//!
//! These are its decisions: which path the page fetches, how the path and
//! the request id are embedded in the script, and which answer goes back.
use vstd::prelude::*;
use crate::rpc::{json_text, value_text};
use crate::text::{append, has_prefix, owned, push_char, starts_with_chars, string_of, to_chars};
use crate::xdg::{join, path_join};

verus! {

/// The site whose pages the solver opens.
pub const SOLVER_BASE_URL: &'static str = "https://mangadot.net";

/// Seconds without a request after which the solver exits.
pub const IDLE_TIMEOUT_SECS: u64 = 180;

/// Seconds a socket client waits for the page's answer.
pub const FETCH_TIMEOUT_SECS: u64 = 25;

/// The script that fetches a path from inside the solver's web view and
/// posts the outcome back, in four pieces around the escaped path and id.
pub const SCRIPT_HEAD: &'static str = "\n                    (async function() {\n                        try {\n                            let resp = await fetch('";
pub const SCRIPT_AFTER_PATH: &'static str = "');\n                            let jsonVal = null;\n                            try { jsonVal = await resp.json(); } catch(e) { }\n                            window.ipc.postMessage(JSON.stringify({\n                                id: '";
pub const SCRIPT_AFTER_ID: &'static str = "',\n                                status: resp.status,\n                                result: jsonVal,\n                                error: ''\n                            }));\n                        } catch (err) {\n                            window.ipc.postMessage(JSON.stringify({\n                                id: '";
pub const SCRIPT_TAIL: &'static str = "',\n                                status: 500,\n                                result: null,\n                                error: err.toString()\n                            }));\n                        }\n                    })();\n                    ";

/// The path that the page fetches for a requested url: the part after the
/// site's address (`/` when nothing is left), or the url itself when it is
/// on another site.
pub open spec fn spec_fetch_path(url: Seq<char>, base: Seq<char>) -> Seq<char> {
    if has_prefix(url, base) {
        let rest = url.subrange(base.len() as int, url.len() as int);
        if rest.len() == 0 { "/"@ } else { rest }
    } else {
        url
    }
}

/// The path that the page fetches for a requested url.
pub fn fetch_path(url: &str, base: &str) -> (r: String)
    ensures
        r@ == spec_fetch_path(url@, base@),
{
    let v = to_chars(url);
    let b = to_chars(base);
    if starts_with_chars(&v, base) {
        if v.len() == b.len() {
            return owned("/");
        }
        string_of(&v, b.len(), v.len())
    } else {
        owned(url)
    }
}

/// How one character is written inside a single-quoted script string.
pub open spec fn escaped_char(c: char) -> Seq<char> {
    if c == '\\' {
        seq!['\\', '\\']
    } else if c == '\'' {
        seq!['\\', '\'']
    } else {
        seq![c]
    }
}

/// A text written inside a single-quoted script string: backslashes doubled
/// and quotes escaped.
pub open spec fn js_escaped(s: Seq<char>) -> Seq<char>
    decreases s.len(),
{
    if s.len() == 0 {
        Seq::empty()
    } else {
        js_escaped(s.drop_last()) + escaped_char(s.last())
    }
}

/// Escapes a text for a single-quoted script string.
pub fn js_escape(s: &str) -> (r: String)
    ensures
        r@ == js_escaped(s@),
{
    let v = to_chars(s);
    let mut r = String::new();
    let mut i: usize = 0;
    while i < v.len()
        invariant
            0 <= i <= v.len(),
            r@ == js_escaped(v@.take(i as int)),
        decreases v.len() - i,
    {
        let ghost prev = r@;
        assert(v@.take(i + 1).drop_last() == v@.take(i as int));
        assert(v@.take(i + 1).last() == v@[i as int]);
        let c = v[i];
        if c == '\\' {
            push_char(&mut r, '\\');
            push_char(&mut r, '\\');
        } else if c == '\'' {
            push_char(&mut r, '\\');
            push_char(&mut r, '\'');
        } else {
            push_char(&mut r, c);
        }
        assert(r@ == prev + escaped_char(c));
        i += 1;
    }
    assert(v@.take(v.len() as int) == v@);
    r
}

/// The id under which a fetch is tracked: the request's, or `default`.
pub fn request_id(id: &str) -> (r: String)
    ensures
        id@.len() == 0 ==> r@ == "default"@,
        id@.len() > 0 ==> r@ == id@,
{
    if to_chars(id).len() == 0 {
        owned("default")
    } else {
        owned(id)
    }
}

/// The script evaluated in the page for a fetch.
pub open spec fn script_text(path: Seq<char>, id: Seq<char>) -> Seq<char> {
    SCRIPT_HEAD@ + js_escaped(path) + SCRIPT_AFTER_PATH@ + js_escaped(id) + SCRIPT_AFTER_ID@
        + js_escaped(id) + SCRIPT_TAIL@
}

/// Builds the script that fetches `path` and posts the outcome under `id`.
pub fn fetch_script(path: &str, id: &str) -> (r: String)
    ensures
        r@ == script_text(path@, id@),
{
    let p = js_escape(path);
    let i = js_escape(id);
    let mut r = owned(SCRIPT_HEAD);
    append(&mut r, p.as_str());
    append(&mut r, SCRIPT_AFTER_PATH);
    append(&mut r, i.as_str());
    append(&mut r, SCRIPT_AFTER_ID);
    append(&mut r, i.as_str());
    append(&mut r, SCRIPT_TAIL);
    r
}

/// An answer written back on the socket.
#[derive(Debug, Clone)]
pub struct SocketResponse {
    pub id: Option<String>,
    pub result: Option<String>,
    pub error: Option<String>,
    pub pong: Option<bool>,
}

/// The answer to a ping.
pub fn pong_response(id: String) -> (r: SocketResponse)
    ensures
        r == (SocketResponse { id: Some(id), result: None, error: None, pong: Some(true) }),
{
    SocketResponse { id: Some(id), result: None, error: None, pong: Some(true) }
}

/// The answer when the page did not answer in time.
pub fn timeout_response() -> (r: SocketResponse)
    ensures
        r.id is None && r.result is None && r.pong is None,
        r.error is Some && r.error->0@ == "TIMEOUT"@,
{
    SocketResponse { id: None, result: None, error: Some(owned("TIMEOUT")), pong: None }
}

/// The text of an optional JSON value.
pub open spec fn result_text(v: Option<serde_json::Value>) -> Option<Seq<char>> {
    match v {
        Some(x) => Some(json_text(x)),
        None => None,
    }
}

/// The answer for what the page posted: its JSON result unless the site
/// refused (403, 503) or sent none; else its error when there is one; else
/// whatever result it had.
pub fn ipc_response(id: String, status: u16, result: Option<serde_json::Value>, error: String) -> (r: SocketResponse)
    ensures
        r.id == Some(id),
        r.pong is None,
        ({
            let res = result_text(result);
            if status != 403 && status != 503 && res is Some {
                r.error is None && r.result is Some && r.result->0@ == res->0
            } else if error@.len() > 0 {
                r.result is None && r.error == Some(error)
            } else {
                r.error is None && (match r.result {
                    Some(t) => res == Some(t@),
                    None => res is None,
                })
            }
        }),
{
    let res = match &result {
        Some(v) => Some(value_text(v)),
        None => None,
    };
    let has_res = res.is_some();
    if status != 403 && status != 503 && has_res {
        SocketResponse { id: Some(id), result: res, error: None, pong: None }
    } else if to_chars(error.as_str()).len() > 0 {
        SocketResponse { id: Some(id), result: None, error: Some(error), pong: None }
    } else {
        SocketResponse { id: Some(id), result: res, error: None, pong: None }
    }
}

/// The solver's data directory: `$XDG_DATA_HOME/bakeneko`, else
/// `$HOME/.local/share/bakeneko` (with `.` for a missing home).
pub open spec fn spec_solver_data_dir(xdg_data_home: Option<Seq<char>>, home: Option<Seq<char>>) -> Seq<char> {
    let home_dir = match home {
        Some(h) => h,
        None => "."@,
    };
    let base = match xdg_data_home {
        Some(d) => d,
        None => home_dir + "/.local/share"@,
    };
    path_join(base, "bakeneko"@)
}

/// The solver's data directory from the environment's values.
pub fn solver_data_dir(xdg_data_home: Option<&str>, home: Option<&str>) -> (r: String)
    ensures
        r@ == spec_solver_data_dir(crate::language::opt_chars(xdg_data_home), crate::language::opt_chars(home)),
{
    let base = match xdg_data_home {
        Some(d) => owned(d),
        None => {
            let mut b = match home {
                Some(h) => owned(h),
                None => owned("."),
            };
            append(&mut b, "/.local/share");
            b
        },
    };
    join(base.as_str(), "bakeneko")
}

/// The solver's socket: `<runtime dir>/bakeneko/solver.sock`, the runtime
/// dir defaulting to `/tmp/bakeneko-<uid>`.
pub open spec fn spec_solver_socket(runtime_dir: Option<Seq<char>>, uid: u32) -> Seq<char> {
    let base = match runtime_dir {
        Some(d) => d,
        None => "/tmp/bakeneko-"@ + crate::num::dec(uid as nat),
    };
    path_join(path_join(base, "bakeneko"@), "solver.sock"@)
}

/// The solver's socket path.
pub fn solver_socket_path(runtime_dir: Option<&str>, uid: u32) -> (r: String)
    ensures
        r@ == spec_solver_socket(crate::language::opt_chars(runtime_dir), uid),
{
    let base = match runtime_dir {
        Some(d) => owned(d),
        None => {
            let mut b = owned("/tmp/bakeneko-");
            let n = crate::num::u64_to_dec(uid as u64);
            append(&mut b, n.as_str());
            b
        },
    };
    let dir = join(base.as_str(), "bakeneko");
    join(dir.as_str(), "solver.sock")
}

/// Whether the solver has been idle long enough to exit.
pub fn idle_expired(idle_secs: u64) -> (r: bool)
    ensures
        r == (idle_secs >= IDLE_TIMEOUT_SECS),
{
    idle_secs >= IDLE_TIMEOUT_SECS
}

} // verus!
