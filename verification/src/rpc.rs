//! JSON-RPC 2.0 framing of the requests sent to the daemon and of its
//! replies. Requests are single lines; the daemon answers one line per
//! request, matched by id.
use vstd::prelude::*;
use crate::num::{dec, dec_int, i64_to_dec, u64_to_dec};
use crate::text::{append, owned};

verus! {

/// `serde_json::Value`, carried through unread.
#[verifier::external_type_specification]
#[verifier::external_body]
pub struct ExJsonValue(serde_json::Value);

/// Standard JSON-RPC 2.0 error codes (the daemon's side builds them).
pub const PARSE_ERROR: i32 = -32700;
pub const INVALID_REQUEST: i32 = -32600;
pub const METHOD_NOT_FOUND: i32 = -32601;
pub const INVALID_PARAMS: i32 = -32602;
pub const INTERNAL_ERROR: i32 = -32603;
/// Code of the error with which pending calls fail when the socket closes.
pub const SOCKET_CLOSED: i32 = -32000;

/// A lower-case hexadecimal digit.
pub open spec fn hex_digit(d: u32) -> char {
    if d < 10 { (('0' as u32) + d) as char } else { (('a' as u32) + d - 10) as char }
}

/// How `serde_json` writes one character inside a string literal: `"` and
/// `\` behind a backslash, the five control characters that have a short
/// escape by it, the other control characters below U+0020 as `\u00XX`, and
/// every other character as it is.
pub open spec fn json_escape_char(c: char) -> Seq<char> {
    if c == '"' {
        seq!['\\', '"']
    } else if c == '\\' {
        seq!['\\', '\\']
    } else if c == '\u{8}' {
        seq!['\\', 'b']
    } else if c == '\u{c}' {
        seq!['\\', 'f']
    } else if c == '\n' {
        seq!['\\', 'n']
    } else if c == '\r' {
        seq!['\\', 'r']
    } else if c == '\t' {
        seq!['\\', 't']
    } else if (c as u32) < 0x20 {
        seq!['\\', 'u', '0', '0', hex_digit((c as u32) / 16), hex_digit((c as u32) % 16)]
    } else {
        seq![c]
    }
}

/// The characters of `s`, each written as `json_escape_char` does.
pub open spec fn json_escaped(s: Seq<char>) -> Seq<char>
    decreases s.len(),
{
    if s.len() == 0 {
        Seq::empty()
    } else {
        json_escaped(s.drop_last()) + json_escape_char(s.last())
    }
}

/// The JSON text of a string: its escaped characters between quotes.
pub open spec fn json_quoted(s: Seq<char>) -> Seq<char> {
    seq!['"'] + json_escaped(s) + seq!['"']
}

/// The compact JSON text of a value.
pub uninterp spec fn json_text(v: serde_json::Value) -> Seq<char>;

/// Calls `Display` of `serde_json::Value` (`to_string`); the text is named
/// `json_text`, a function of the value alone.
#[verifier::external_body]
pub(crate) fn value_text(v: &serde_json::Value) -> (r: String)
    ensures
        r@ == json_text(*v),
{
    v.to_string()
}

/// Calls `serde_json::Value::Null`'s construction. Nothing is stated of the
/// value: it is JSON `null`.
#[verifier::external_body]
fn json_null() -> (r: serde_json::Value) {
    serde_json::Value::Null
}

/// A request to the daemon.
pub struct RpcRequest {
    pub id: u64,
    pub method: String,
    pub params: Option<serde_json::Value>,
}

/// The request's line: a JSON object whose members come in key order (`id`,
/// `jsonrpc`, `method`, then `params` when there are parameters), as
/// `serde_json` writes a map.
pub open spec fn spec_encode(id: u64, method: Seq<char>, params: Option<serde_json::Value>) -> Seq<char> {
    "{\"id\":"@ + dec(id as nat) + ",\"jsonrpc\":\"2.0\",\"method\":"@ + json_quoted(method) + match params {
        Some(p) => ",\"params\":"@ + json_text(p),
        None => Seq::empty(),
    } + "}"@
}

/// Builds the request object of `serde_json` (a `Map` with `id`, `method`
/// and `jsonrpc`) and writes it with `Value`'s `Display`. The map keeps its
/// keys in order (the `preserve_order` feature is off), the writer is
/// compact, a `u64` is written in decimal and a string as `json_quoted`.
#[verifier::external_body]
fn request_line(id: u64, method: &str) -> (r: String)
    ensures
        r@ == spec_encode(id, method@, None),
{
    let mut obj = serde_json::Map::new();
    obj.insert("id".to_string(), serde_json::Value::from(id));
    obj.insert("method".to_string(), serde_json::Value::from(method));
    obj.insert("jsonrpc".to_string(), serde_json::Value::from("2.0"));
    serde_json::Value::Object(obj).to_string()
}

/// As `request_line`, with `params` under the key `params` (written as
/// `json_text` names it).
#[verifier::external_body]
fn request_line_with_params(id: u64, method: &str, params: &serde_json::Value) -> (r: String)
    ensures
        r@ == spec_encode(id, method@, Some(*params)),
{
    let mut obj = serde_json::Map::new();
    obj.insert("id".to_string(), serde_json::Value::from(id));
    obj.insert("method".to_string(), serde_json::Value::from(method));
    obj.insert("params".to_string(), params.clone());
    obj.insert("jsonrpc".to_string(), serde_json::Value::from("2.0"));
    serde_json::Value::Object(obj).to_string()
}

impl RpcRequest {
    /// The request as one line of JSON (without the line feed), written by
    /// `serde_json`.
    pub fn encode(&self) -> (r: String)
        ensures
            r@ == spec_encode(self.id, self.method@, self.params),
    {
        match &self.params {
            Some(p) => request_line_with_params(self.id, self.method.as_str(), p),
            None => request_line(self.id, self.method.as_str()),
        }
    }
}

/// The error member of a reply.
#[derive(Debug, Clone)]
pub struct RpcErr {
    pub code: i32,
    pub message: String,
}

/// A call that the daemon answered with an error.
#[derive(Debug, Clone)]
pub struct RpcException {
    pub code: i32,
    pub message: String,
}

/// `RpcException(<code>): <message>`, the text of an exception.
pub open spec fn exception_text(code: i32, message: Seq<char>) -> Seq<char> {
    "RpcException("@ + dec_int(code as int) + "): "@ + message
}

impl RpcException {
    /// The text shown for the exception.
    pub fn describe(&self) -> (r: String)
        ensures
            r@ == exception_text(self.code, self.message@),
    {
        let mut r = owned("RpcException(");
        let c = i64_to_dec(self.code as i64);
        append(&mut r, c.as_str());
        append(&mut r, "): ");
        append(&mut r, self.message.as_str());
        r
    }
}

/// A reply of the daemon. `id` is `None` when the reply's id is missing or
/// not an unsigned integer.
pub struct RpcResponse {
    pub id: Option<u64>,
    pub result: Option<serde_json::Value>,
    pub error: Option<RpcErr>,
}

impl RpcResponse {
    /// Whether the call succeeded (the reply has no error member).
    pub fn is_ok(&self) -> (r: bool)
        ensures
            r == self.error is None,
    {
        self.error.is_none()
    }

    /// The call's outcome: the daemon's error, or its result (JSON `null`
    /// when the reply has none).
    pub fn unwrap(self) -> (r: Result<serde_json::Value, RpcException>)
        ensures
            match self.error {
                Some(e) => r matches Err(x) && x.code == e.code && x.message == e.message,
                None => r is Ok && (self.result matches Some(v) ==> r == Ok::<serde_json::Value, RpcException>(v)),
            },
    {
        match self.error {
            Some(e) => Err(RpcException { code: e.code, message: e.message }),
            None => match self.result {
                Some(v) => Ok(v),
                None => Ok(json_null()),
            },
        }
    }
}

/// Errors of the daemon client.
#[derive(Debug, Clone)]
pub enum DaemonError {
    Generic(String),
    /// The daemon process could not be started.
    Spawn(String),
    /// The socket is not connected, closed, or timed out.
    Socket(String),
    /// The daemon answered with an error.
    Rpc(RpcException),
    /// An I/O error on the socket.
    Io(String),
    /// A reply that does not have the expected shape.
    Json(String),
}

/// The text of a daemon error.
pub open spec fn error_text(e: DaemonError) -> Seq<char> {
    match e {
        DaemonError::Generic(m) => m@,
        DaemonError::Spawn(m) => m@,
        DaemonError::Socket(m) => m@,
        DaemonError::Rpc(x) => exception_text(x.code, x.message@),
        DaemonError::Io(m) => m@,
        DaemonError::Json(m) => m@,
    }
}

impl DaemonError {
    /// The text shown for the error.
    pub fn message(&self) -> (r: String)
        ensures
            r@ == error_text(*self),
    {
        match self {
            DaemonError::Generic(m) => m.clone(),
            DaemonError::Spawn(m) => m.clone(),
            DaemonError::Socket(m) => m.clone(),
            DaemonError::Rpc(x) => x.describe(),
            DaemonError::Io(m) => m.clone(),
            DaemonError::Json(m) => m.clone(),
        }
    }
}

} // verus!
