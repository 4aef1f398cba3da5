//! The HTTP exchange with a pinned MCP endpoint: the request head the
//! gateway writes and how it reads the response back (framing, redirects,
//! the size ceiling, and the JSON-RPC reply).

use vstd::prelude::*;
use vstd::utf8::{decode_utf8, encode_utf8, valid_utf8};

use crate::json::{JsonValue, json_parse, parse_json};
use crate::mcp::error::{McpError, McpErrorKind, redirect_rejected, response_too_large, transport_failed};
use crate::mcp::pin::{HttpIdentity, parse_identity};
use crate::text::{
    ascii_lower_exec, ascii_lower_seq, chars_of, contains_seq, decimal, decimal_exec, find_exec,
    find_first, matches_at, push_all, slice_chars, starts_with, starts_with_exec, str_from_utf8,
    string_from_chars, trim, trim_exec, utf8_len,
};

verus! {

/// Index of the first `\n` at or after `i`, or the end of `s`.
pub open spec fn line_end(s: Seq<char>, i: int) -> int
    decreases s.len() - i,
{
    if i >= s.len() {
        s.len() as int
    } else if s[i] == '\n' {
        i
    } else {
        line_end(s, i + 1)
    }
}

/// `str::lines` yields a line of `s` that starts at `p`.
pub open spec fn line_start(s: Seq<char>, p: int) -> bool {
    0 <= p < s.len() && (p == 0 || s[p - 1] == '\n')
}

/// The line of `s` that starts at `p`, without its `\n`.
pub open spec fn line_at(s: Seq<char>, p: int) -> Seq<char> {
    s.subrange(p, line_end(s, p))
}

/// A header line that names a redirect target: `location:` in any ASCII
/// case.
pub open spec fn is_location_line(line: Seq<char>) -> bool {
    starts_with(ascii_lower_seq(line), "location:"@)
}

/// The target a location line names: the rest of the lowercased line,
/// trimmed.
pub open spec fn location_value(line: Seq<char>) -> Seq<char> {
    trim(ascii_lower_seq(line).skip(9))
}

/// The first line of a header that names a redirect target.
pub open spec fn first_location_line(h: Seq<char>, p: int) -> bool {
    &&& line_start(h, p)
    &&& is_location_line(line_at(h, p))
    &&& forall|q: int| 0 <= q < p && line_start(h, q) ==> !is_location_line(#[trigger] line_at(h, q))
}

/// A status line that announces a redirect.
pub open spec fn is_redirect_status(status: Seq<char>) -> bool {
    contains_seq(status, " 301 "@) || contains_seq(status, " 302 "@) || contains_seq(
        status,
        " 307 "@,
    ) || contains_seq(status, " 308 "@)
}

/// Where `\r\n\r\n` first ends the header of a response text.
pub open spec fn header_end(text: Seq<char>) -> Option<int> {
    find_first(text, "\r\n\r\n"@)
}

/// How a response is judged before its JSON is read: the failure it is
/// refused with, or the body's bytes. A response that is not UTF-8, has no
/// header terminator or no status line fails the transport; a redirect is
/// rejected unless it names the pinned endpoint, and even then yields no
/// tool result; a body over the ceiling is too large.
pub open spec fn http_verdict(
    raw: Seq<u8>,
    scheme: Seq<char>,
    host: Seq<char>,
    port: u16,
    max_bytes: nat,
) -> Result<Seq<u8>, McpErrorKind> {
    if !valid_utf8(raw) {
        Err(McpErrorKind::TransportFailed)
    } else {
        let text = decode_utf8(raw);
        match header_end(text) {
            None => Err(McpErrorKind::TransportFailed),
            Some(k) => {
                let header = text.take(k);
                let body = text.skip(k + 4);
                if header.len() == 0 {
                    Err(McpErrorKind::TransportFailed)
                } else if is_redirect_status(line_at(header, 0)) {
                    if exists|p: int| first_location_line(header, p) {
                        let p = choose|p: int| first_location_line(header, p);
                        match parse_identity(location_value(line_at(header, p))) {
                            Some(other) => if other.0 == scheme && other.1 == host && other.2
                                == port {
                                Err(McpErrorKind::TransportFailed)
                            } else {
                                Err(McpErrorKind::RedirectRejected)
                            },
                            None => Err(McpErrorKind::RedirectRejected),
                        }
                    } else {
                        Err(McpErrorKind::RedirectRejected)
                    }
                } else if encode_utf8(body).len() > max_bytes {
                    Err(McpErrorKind::ResponseTooLarge)
                } else {
                    Ok(encode_utf8(body))
                }
            },
        }
    }
}

/// What `line_end` finds: the first `\n` at or after `i`, or the end.
proof fn lemma_line_end(s: Seq<char>, i: int)
    requires
        0 <= i <= s.len(),
    ensures
        i <= line_end(s, i) <= s.len(),
        line_end(s, i) < s.len() ==> s[line_end(s, i)] == '\n',
        forall|j: int| i <= j < line_end(s, i) ==> s[j] != '\n',
    decreases s.len() - i,
{
    if i < s.len() && s[i] != '\n' {
        lemma_line_end(s, i + 1);
    }
}

/// Finds where the line that starts at `p` ends.
fn find_line_end(s: &Vec<char>, p: usize) -> (r: usize)
    requires
        p <= s@.len(),
    ensures
        r == line_end(s@, p as int),
{
    let n = s.len();
    let mut j = p;
    while j < n && s[j] != '\n'
        invariant
            p <= j <= n,
            n == s@.len(),
            line_end(s@, p as int) == line_end(s@, j as int),
        decreases n - j,
    {
        j += 1;
    }
    j
}

/// Reads the target of the first location line of a header, if any.
fn find_location(header: &Vec<char>) -> (r: Option<Vec<char>>)
    ensures
        match r {
            Some(v) => exists|p: int| first_location_line(header@, p) && v@ == location_value(
                line_at(header@, p),
            ),
            None => !exists|p: int| first_location_line(header@, p),
        },
{
    let h = header;
    let n = h.len();
    assert(h@ == header@);
    let prefix = chars_of("location:");
    let mut p: usize = 0;
    while p < n
        invariant
            h@ == header@,
            n == h@.len(),
            p <= n,
            prefix@ == "location:"@,
            p == 0 || p == n || h@[p - 1] == '\n',
            forall|q: int| 0 <= q < p && line_start(h@, q) ==> !is_location_line(#[trigger] line_at(h@, q)),
        decreases n - p,
    {
        let end = find_line_end(h, p);
        proof {
            lemma_line_end(h@, p as int);
        }
        let line = slice_chars(h, p, end);
        assert(line@ == line_at(h@, p as int));
        let lower = ascii_lower_exec(&line);
        if starts_with_exec(&lower, &prefix) {
            proof {
                reveal_strlit("location:");
                assert(prefix@.len() == 9);
            }
            let rest = slice_chars(&lower, 9, lower.len());
            assert(rest@ =~= ascii_lower_seq(line_at(h@, p as int)).skip(9));
            let value = trim_exec(&rest);
            proof {
                assert(line_start(h@, p as int));
                assert(is_location_line(line_at(h@, p as int)));
                assert(first_location_line(h@, p as int));
                assert(value@ == location_value(line_at(h@, p as int)));
                assert(first_location_line(h@, p as int) && value@ == location_value(
                    line_at(h@, p as int),
                ));
                assert(exists|p0: int|
                    first_location_line(header@, p0) && value@ == location_value(
                        line_at(header@, p0),
                    ));
            }
            return Some(value);
        }
        proof {
            assert forall|q: int| 0 <= q < end + 1 && q <= n && line_start(h@, q) implies !is_location_line(
                #[trigger] line_at(h@, q),
            ) by {
                if q > p {
                    assert(h@[q - 1] != '\n');
                }
            }
        }
        if end < n {
            p = end + 1;
        } else {
            p = n;
        }
    }
    proof {
        assert forall|p0: int| !first_location_line(h@, p0) by {}
    }
    None
}

/// The first location line is unique.
proof fn lemma_first_location_unique(h: Seq<char>, p: int, q: int)
    requires
        first_location_line(h, p),
        first_location_line(h, q),
    ensures
        p == q,
{
    if p < q {
        assert(!is_location_line(line_at(h, p)));
    } else if q < p {
        assert(!is_location_line(line_at(h, q)));
    }
}

/// Judges a raw response without reading its JSON: the body text, or the
/// failure the response is refused with.
pub fn http_response_verdict(raw: &[u8], identity: &HttpIdentity, max_bytes: usize) -> (r: Result<
    String,
    McpError,
>)
    ensures
        match http_verdict(raw@, identity.scheme@, identity.host@, identity.port, max_bytes as nat) {
            Ok(b) => r matches Ok(body) && encode_utf8(body@) == b,
            Err(kind) => r matches Err(e) && e.spec_kind() == kind,
        },
{
    let text_str = match str_from_utf8(raw) {
        Some(t) => t,
        None => return Err(transport_failed()),
    };
    let text = chars_of(text_str);
    let terminator = chars_of("\r\n\r\n");
    proof {
        reveal_strlit("\r\n\r\n");
        assert(terminator@.len() == 4);
    }
    let k = match find_exec(&text, &terminator) {
        Some(k) => k,
        None => return Err(transport_failed()),
    };
    assert(matches_at(text@, terminator@, k as int));
    let n = text.len();
    let header = slice_chars(&text, 0, k);
    let body = slice_chars(&text, k + 4, n);
    assert(header@ =~= text@.take(k as int));
    assert(body@ =~= text@.skip(k + 4));
    if header.len() == 0 {
        return Err(transport_failed());
    }
    let status_end = find_line_end(&header, 0);
    proof {
        lemma_line_end(header@, 0);
    }
    let status = slice_chars(&header, 0, status_end);
    let redirect = find_exec(&status, &chars_of(" 301 ")).is_some() || find_exec(
        &status,
        &chars_of(" 302 "),
    ).is_some() || find_exec(&status, &chars_of(" 307 ")).is_some() || find_exec(
        &status,
        &chars_of(" 308 "),
    ).is_some();
    if redirect {
        let location = match find_location(&header) {
            Some(v) => v,
            None => return Err(redirect_rejected()),
        };
        proof {
            let p = choose|p: int| first_location_line(header@, p) && location@ == location_value(
                line_at(header@, p),
            );
            let c = choose|p: int| first_location_line(header@, p);
            lemma_first_location_unique(header@, p, c);
        }
        let target = string_from_chars(&location);
        if !identity.matches_redirect(target.as_str()) {
            return Err(redirect_rejected());
        }
        return Err(transport_failed());
    }
    let body_text = string_from_chars(&body);
    if utf8_len(body_text.as_str()) > max_bytes {
        return Err(response_too_large());
    }
    Ok(body_text)
}

/// The tool result of a JSON-RPC reply: a transport failure for a reply
/// with an `error` member, else its `result` member, or the whole reply when
/// it has none.
pub open spec fn reply_result(reply: JsonValue) -> Option<JsonValue> {
    if reply.spec_member("error"@) is Some {
        None
    } else {
        match reply.spec_member("result"@) {
            Some(result) => Some(result),
            None => Some(reply),
        }
    }
}

/// Reads a pinned endpoint's HTTP response into the tool's result: the
/// `result` member of the JSON-RPC reply, or the whole reply when it has
/// none.
///
/// # Errors
///
/// As `http_response_verdict`; a body that is no JSON document, or a reply
/// with an `error` member, fails the transport.
pub fn parse_http_response(raw: &[u8], identity: &HttpIdentity, max_bytes: usize) -> (r: Result<
    JsonValue,
    McpError,
>)
    ensures
        match http_verdict(raw@, identity.scheme@, identity.host@, identity.port, max_bytes as nat) {
            Ok(b) => match json_parse(b) {
                Err(_) => r matches Err(e) && e.spec_kind() == McpErrorKind::TransportFailed,
                Ok(reply) => match reply_result(reply) {
                    Some(result) => r == Ok::<JsonValue, McpError>(result),
                    None => r matches Err(e) && e.spec_kind() == McpErrorKind::TransportFailed,
                },
            },
            Err(kind) => r matches Err(e) && e.spec_kind() == kind,
        },
{
    let body = http_response_verdict(raw, identity, max_bytes)?;
    let reply = match parse_json(body.as_str().as_bytes()) {
        Ok(reply) => reply,
        Err(_) => return Err(transport_failed()),
    };
    if reply.member("error").is_some() {
        return Err(transport_failed());
    }
    if reply.member("result").is_some() {
        match reply.into_member("result") {
            Some(result) => Ok(result),
            None => Err(transport_failed()),
        }
    } else {
        Ok(reply)
    }
}

/// The head of the JSON-RPC request the gateway posts to a pinned
/// endpoint.
pub open spec fn request_head(path: Seq<char>, host: Seq<char>, body_len: nat) -> Seq<char> {
    "POST "@ + path + " HTTP/1.1\r\nHost: "@ + host
        + "\r\nContent-Type: application/json\r\nContent-Length: "@ + decimal(body_len)
        + "\r\nConnection: close\r\n\r\n"@
}

/// Writes the head of the JSON-RPC request for a body of `body_len` bytes.
pub fn http_request_head(identity: &HttpIdentity, body_len: usize) -> (r: String)
    ensures
        r@ == request_head(identity.path@, identity.host@, body_len as nat),
{
    let mut out: Vec<char> = Vec::new();
    push_all(&mut out, &chars_of("POST "));
    push_all(&mut out, &chars_of(identity.path.as_str()));
    push_all(&mut out, &chars_of(" HTTP/1.1\r\nHost: "));
    push_all(&mut out, &chars_of(identity.host.as_str()));
    push_all(&mut out, &chars_of("\r\nContent-Type: application/json\r\nContent-Length: "));
    push_all(&mut out, &decimal_exec(body_len as u64));
    push_all(&mut out, &chars_of("\r\nConnection: close\r\n\r\n"));
    string_from_chars(&out)
}


/// Offline behaviour of the fake HTTP transport: a reply (with the length
/// of its encoding), a body of a given size, a redirect, a hang, or a
/// transport failure.
#[derive(Debug)]
pub enum FakeHttpMode {
    Success { body: JsonValue, encoded_len: usize },
    Oversized { bytes: usize },
    Redirect { location: String },
    Hang,
    TransportError,
}

/// Whether `v` is the reply `{"ok": true}`, followed by `"redirected": true`
/// after a redirect.
pub open spec fn is_ok_reply(v: JsonValue, redirected: bool) -> bool {
    v matches JsonValue::Object(members) && members@.len() == (if redirected {
        2int
    } else {
        1int
    }) && members@[0].0@ == "ok"@ && members@[0].1 == JsonValue::Bool(true) && (redirected
        ==> members@[1].0@ == "redirected"@ && members@[1].1 == JsonValue::Bool(true))
}

fn ok_reply(redirected: bool) -> (r: JsonValue)
    ensures
        is_ok_reply(r, redirected),
{
    let mut members: Vec<(String, JsonValue)> = Vec::new();
    members.push(("ok".to_owned(), JsonValue::Bool(true)));
    if redirected {
        members.push(("redirected".to_owned(), JsonValue::Bool(true)));
    }
    JsonValue::Object(members)
}

/// Answers one MCP call offline, as `mode` says: the reply unless its
/// encoding exceeds `max_bytes`, a size check, a redirect judged against
/// the pinned identity, a timeout, or a transport failure.
pub fn fake_http_invoke(mode: FakeHttpMode, identity: &HttpIdentity, max_bytes: usize) -> (r: Result<
    JsonValue,
    McpError,
>)
    ensures
        match mode {
            FakeHttpMode::Success { body, encoded_len } => if encoded_len > max_bytes {
                r matches Err(e) && e.spec_kind() == McpErrorKind::ResponseTooLarge
            } else {
                r == Ok::<JsonValue, McpError>(body)
            },
            FakeHttpMode::Oversized { bytes } => if bytes > max_bytes {
                r matches Err(e) && e.spec_kind() == McpErrorKind::ResponseTooLarge
            } else {
                r matches Ok(v) && is_ok_reply(v, false)
            },
            FakeHttpMode::Redirect { location } => if (match parse_identity(location@) {
                Some(other) => other.0 == identity.scheme@ && other.1 == identity.host@ && other.2
                    == identity.port,
                None => false,
            }) {
                r matches Ok(v) && is_ok_reply(v, true)
            } else {
                r matches Err(e) && e.spec_kind() == McpErrorKind::RedirectRejected
            },
            FakeHttpMode::Hang => r matches Err(e) && e.spec_kind() == McpErrorKind::Timeout
                && e.spec_message() == "MCP HTTP call timed out"@,
            FakeHttpMode::TransportError => r matches Err(e) && e.spec_kind()
                == McpErrorKind::TransportFailed,
        },
{
    match mode {
        FakeHttpMode::Success { body, encoded_len } => {
            if encoded_len > max_bytes {
                return Err(response_too_large());
            }
            Ok(body)
        },
        FakeHttpMode::Oversized { bytes } => {
            if bytes > max_bytes {
                Err(response_too_large())
            } else {
                Ok(ok_reply(false))
            }
        },
        FakeHttpMode::Redirect { location } => {
            if identity.matches_redirect(location.as_str()) {
                Ok(ok_reply(true))
            } else {
                Err(redirect_rejected())
            }
        },
        FakeHttpMode::Hang => Err(McpError::new(McpErrorKind::Timeout, "MCP HTTP call timed out")),
        FakeHttpMode::TransportError => Err(transport_failed()),
    }
}

} // verus!
