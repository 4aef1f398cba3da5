//! Endpoint parsing and HTTP framing for the live `OpenRouter` transport.

use vstd::prelude::*;

use crate::openrouter::error::{OpenRouterError, OpenRouterErrorKind};
use crate::openrouter::protocol::{UsageSummary, check_body_size};
use vstd::utf8::encode_utf8;
use crate::text::{
    chars_of, ends_with, ends_with_exec, find_exec, find_first, parse_u16_exec, parse_u16_spec,
    push_all, slice_chars, starts_with, starts_with_exec, string_from_chars,
};

verus! {

/// Maximum encoded response body size, excluding framing overhead.
pub const MAX_BODY_BYTES: usize = 8_388_608;

/// Locked protocol identity implemented by the adapter.
pub const OPENROUTER_CHAT_COMPLETIONS_PROTOCOL: &'static str = "openrouter-chat-completions/1";

/// Default public `OpenRouter` API base URL.
pub const DEFAULT_BASE_URL: &'static str = "https://openrouter.ai/api/v1";

/// Offline fake base URL accepted by configuration validation.
pub const FAKE_BASE_URL: &'static str = "fake://openrouter";

/// Server-sent-event frames carrying each event as one `data:` line.
pub open spec fn sse_frames(events: Seq<Seq<char>>) -> Seq<char>
    decreases events.len(),
{
    if events.len() == 0 {
        Seq::empty()
    } else {
        sse_frames(events.drop_last()) + "data: "@ + events.last() + "\n\n"@
    }
}

/// The body the offline transport streams: one frame per event, then the
/// `[DONE]` frame when the stream is terminated.
pub fn fake_stream_body(events: &[String], terminated: bool) -> (r: String)
    ensures
        r@ == sse_frames(events@.map_values(|e: String| e@)) + if terminated {
            "data: [DONE]\n\n"@
        } else {
            Seq::empty()
        },
{
    let ghost texts = events@.map_values(|e: String| e@);
    let mut body: Vec<char> = Vec::new();
    let n = events.len();
    let mut i: usize = 0;
    while i < n
        invariant
            n == events@.len(),
            i <= n,
            texts == events@.map_values(|e: String| e@),
            body@ == sse_frames(texts.take(i as int)),
        decreases n - i,
    {
        assert(texts.take(i + 1).drop_last() =~= texts.take(i as int));
        assert(texts.take(i + 1).last() == events@[i as int]@);
        push_all(&mut body, &chars_of("data: "));
        push_all(&mut body, &chars_of(events[i].as_str()));
        push_all(&mut body, &chars_of("\n\n"));
        i += 1;
    }
    assert(texts.take(n as int) =~= texts);
    if terminated {
        push_all(&mut body, &chars_of("data: [DONE]\n\n"));
    } else {
        assert(body@ + Seq::<char>::empty() =~= body@);
    }
    string_from_chars(&body)
}

/// Body and usage returned by one chat completion exchange.
#[derive(Debug, Clone)]
pub struct TransportResult {
    pub body: Vec<u8>,
    pub usage: UsageSummary,
}

/// Offline behaviour of the fake transport, with the usage a stream
/// reports already read into numbers.
#[derive(Clone, Debug)]
pub enum FakeHttpMode {
    Stream { events: Vec<String>, usage: UsageSummary },
    Oversized { bytes: usize },
    InvalidUtf8,
    TruncatedSse,
    InvalidJson,
    TransportError,
    MidStreamFailure { events: Vec<String> },
}

/// Usage of a reply that reports none.
pub open spec fn no_usage() -> UsageSummary {
    UsageSummary { prompt_tokens: 0, completion_tokens: 0, cost_usd_micros: 0 }
}

/// The body of a stream of `events`, as UTF-8 bytes.
pub open spec fn stream_bytes(events: Seq<String>, terminated: bool) -> Seq<u8> {
    encode_utf8(
        sse_frames(events.map_values(|e: String| e@)) + if terminated {
            "data: [DONE]\n\n"@
        } else {
            Seq::empty()
        },
    )
}

/// What the fake transport answers in each mode: the framed stream (refused
/// when over the body ceiling), a body of `x` bytes, bytes that are no
/// UTF-8, a cut frame, a frame that is no JSON, a transport failure, or a
/// stream that stops without its end marker.
pub open spec fn fake_answer(mode: FakeHttpMode, r: Result<TransportResult, OpenRouterError>) -> bool {
    let too_large = r matches Err(e) && e.spec_kind() == OpenRouterErrorKind::ResponseTooLarge
        && e.spec_message() == "OpenRouter response exceeds the encoded body ceiling"@;
    match mode {
        FakeHttpMode::Stream { events, usage } => if stream_bytes(events@, true).len()
            > MAX_BODY_BYTES {
            too_large
        } else {
            r matches Ok(t) && t.body@ == stream_bytes(events@, true) && t.usage == usage
        },
        FakeHttpMode::Oversized { bytes } => if bytes > MAX_BODY_BYTES {
            too_large
        } else {
            r matches Ok(t) && t.body@ == Seq::new(bytes as nat, |i: int| 0x78u8) && t.usage
                == UsageSummary { prompt_tokens: 0, completion_tokens: 0, cost_usd_micros: 1 }
        },
        FakeHttpMode::InvalidUtf8 => r matches Ok(t) && t.body@ == seq![0xffu8, 0xfeu8, 0xfdu8]
            && t.usage == no_usage(),
        FakeHttpMode::TruncatedSse => r matches Ok(t) && t.body@ == encode_utf8(
            "data: {\"choices\":[{\"delta\":{\"content\":\"partial\"\n"@,
        ) && t.usage == no_usage(),
        FakeHttpMode::InvalidJson => r matches Ok(t) && t.body@ == encode_utf8(
            "data: {not-json}\n\n"@,
        ) && t.usage == no_usage(),
        FakeHttpMode::TransportError => r matches Err(e) && e.spec_kind()
            == OpenRouterErrorKind::Transport && e.spec_message()
            == "OpenRouter transport failed"@,
        FakeHttpMode::MidStreamFailure { events } => r matches Ok(t) && t.body@ == stream_bytes(
            events@,
            false,
        ) && t.usage == no_usage(),
    }
}

fn string_bytes(s: &String) -> (r: Vec<u8>)
    ensures
        r@ == encode_utf8(s@),
{
    vstd::slice::slice_to_vec(s.as_str().as_bytes())
}

/// Answers one chat completion offline, as `mode` says.
pub fn fake_exchange(mode: &FakeHttpMode) -> (r: Result<TransportResult, OpenRouterError>)
    ensures
        fake_answer(*mode, r),
{
    let empty = UsageSummary { prompt_tokens: 0, completion_tokens: 0, cost_usd_micros: 0 };
    match mode {
        FakeHttpMode::Stream { events, usage } => {
            let body = string_bytes(&fake_stream_body(events.as_slice(), true));
            check_body_size(body.len())?;
            Ok(TransportResult { body, usage: *usage })
        },
        FakeHttpMode::Oversized { bytes } => {
            check_body_size(*bytes)?;
            let mut body: Vec<u8> = Vec::new();
            let mut i: usize = 0;
            while i < *bytes
                invariant
                    i <= *bytes,
                    body@ == Seq::new(i as nat, |k: int| 0x78u8),
                decreases *bytes - i,
            {
                body.push(0x78u8);
                i += 1;
                assert(body@ =~= Seq::new(i as nat, |k: int| 0x78u8));
            }
            Ok(
                TransportResult {
                    body,
                    usage: UsageSummary { prompt_tokens: 0, completion_tokens: 0, cost_usd_micros: 1 },
                },
            )
        },
        FakeHttpMode::InvalidUtf8 => {
            let mut body: Vec<u8> = Vec::new();
            body.push(0xffu8);
            body.push(0xfeu8);
            body.push(0xfdu8);
            assert(body@ =~= seq![0xffu8, 0xfeu8, 0xfdu8]);
            Ok(TransportResult { body, usage: empty })
        },
        FakeHttpMode::TruncatedSse => Ok(
            TransportResult {
                body: vstd::slice::slice_to_vec(
                    "data: {\"choices\":[{\"delta\":{\"content\":\"partial\"\n".as_bytes(),
                ),
                usage: empty,
            },
        ),
        FakeHttpMode::InvalidJson => Ok(
            TransportResult {
                body: vstd::slice::slice_to_vec("data: {not-json}\n\n".as_bytes()),
                usage: empty,
            },
        ),
        FakeHttpMode::TransportError => {
            proof {
                reveal_strlit("OpenRouter transport failed");
            }
            Err(OpenRouterError::fixed(OpenRouterErrorKind::Transport, "OpenRouter transport failed"))
        },
        FakeHttpMode::MidStreamFailure { events } => {
            let body = string_bytes(&fake_stream_body(events.as_slice(), false));
            Ok(TransportResult { body, usage: empty })
        },
    }
}

/// The answer to a stream of `events`: their frames and the end marker,
/// unless that body is over the ceiling.
pub open spec fn stream_answer(
    events: Seq<Seq<char>>,
    usage: UsageSummary,
    r: Result<TransportResult, OpenRouterError>,
) -> bool {
    let body = encode_utf8(sse_frames(events) + "data: [DONE]\n\n"@);
    if body.len() > MAX_BODY_BYTES {
        r matches Err(e) && e.spec_kind() == OpenRouterErrorKind::ResponseTooLarge
            && e.spec_message() == "OpenRouter response exceeds the encoded body ceiling"@
    } else {
        r matches Ok(t) && t.body@ == body && t.usage == usage
    }
}

/// The events of the stream the fake sends when no mode is installed.
pub open spec fn default_events() -> Seq<Seq<char>> {
    seq![
        "{\"choices\":[{\"delta\":{\"content\":\"offline \"}}]}"@,
        "{\"choices\":[{\"delta\":{\"content\":\"openrouter\"}}]}"@,
    ]
}

/// The usage of that stream: 8 prompt and 4 completion tokens, at the
/// reported cost of 0.0001 dollar (100 micro-dollars).
pub open spec fn default_usage() -> UsageSummary {
    UsageSummary { prompt_tokens: 8, completion_tokens: 4, cost_usd_micros: 100 }
}

/// The mode installed last for `route`, if any.
pub open spec fn mode_for(modes: Seq<(String, FakeHttpMode)>, route: Seq<char>) -> Option<
    FakeHttpMode,
>
    decreases modes.len(),
{
    if modes.len() == 0 {
        None
    } else if modes.last().0@ == route {
        Some(modes.last().1)
    } else {
        mode_for(modes.drop_last(), route)
    }
}

/// What the fake answers on the chat route: the installed mode, or the
/// default stream.
pub open spec fn chat_answer(
    modes: Seq<(String, FakeHttpMode)>,
    r: Result<TransportResult, OpenRouterError>,
) -> bool {
    match mode_for(modes, "chat"@) {
        Some(mode) => fake_answer(mode, r),
        None => stream_answer(default_events(), default_usage(), r),
    }
}

fn find_mode(modes: &Vec<(String, FakeHttpMode)>, route: &str) -> (r: Option<usize>)
    ensures
        match r {
            Some(i) => i < modes@.len() && mode_for(modes@, route@) == Some(modes@[i as int].1),
            None => mode_for(modes@, route@) is None,
        },
{
    let mut i: usize = modes.len();
    assert(modes@.take(i as int) =~= modes@);
    while i > 0
        invariant
            i <= modes@.len(),
            mode_for(modes@, route@) == mode_for(modes@.take(i as int), route@),
        decreases i,
    {
        let ghost t = modes@.take(i as int);
        assert(t.drop_last() =~= modes@.take(i - 1));
        assert(t.last() == modes@[i - 1]);
        i -= 1;
        if crate::text::str_eq(modes[i].0.as_str(), route) {
            return Some(i);
        }
    }
    assert(modes@.take(0) =~= Seq::<(String, FakeHttpMode)>::empty());
    None
}

/// In-process `OpenRouter` transport for offline use: the modes installed
/// by route, the number of calls, and the last authorization it was given.
pub struct FakeOpenRouterTransport {
    modes: Vec<(String, FakeHttpMode)>,
    calls: usize,
    last_authorization: Option<String>,
}

impl FakeOpenRouterTransport {
    /// The installed modes, oldest first.
    pub closed spec fn spec_modes(&self) -> Seq<(String, FakeHttpMode)> {
        self.modes@
    }

    /// The number of calls made, wrapping as a machine counter does.
    pub closed spec fn spec_calls(&self) -> usize {
        self.calls
    }

    /// The authorization of the last call.
    pub closed spec fn spec_last_authorization(&self) -> Option<Seq<char>> {
        match self.last_authorization {
            Some(a) => Some(a@),
            None => None,
        }
    }

    /// A transport with no mode installed and no call made.
    #[must_use]
    pub fn new() -> (r: Self)
        ensures
            r.spec_modes() == Seq::<(String, FakeHttpMode)>::empty(),
            r.spec_calls() == 0,
            r.spec_last_authorization() is None,
    {
        FakeOpenRouterTransport { modes: Vec::new(), calls: 0, last_authorization: None }
    }

    /// Installs a response mode for one route (usually `chat`).
    pub fn set_mode(&mut self, route: String, mode: FakeHttpMode)
        ensures
            final(self).spec_modes() == old(self).spec_modes().push((route, mode)),
            forall|r: Seq<char>|
                #[trigger] mode_for(final(self).spec_modes(), r) == if r == route@ {
                    Some(mode)
                } else {
                    mode_for(old(self).spec_modes(), r)
                },
            final(self).spec_calls() == old(self).spec_calls(),
            final(self).spec_last_authorization() == old(self).spec_last_authorization(),
    {
        let ghost before = self.modes@;
        self.modes.push((route, mode));
        assert(self.modes@.drop_last() =~= before);
    }

    /// The number of calls made.
    #[must_use]
    pub fn call_count(&self) -> (r: usize)
        ensures
            r == self.spec_calls(),
    {
        self.calls
    }

    /// The authorization of the last call.
    #[must_use]
    pub fn last_authorization(&self) -> (r: Option<String>)
        ensures
            match r {
                Some(a) => self.spec_last_authorization() == Some(a@),
                None => self.spec_last_authorization() is None,
            },
    {
        match &self.last_authorization {
            Some(a) => Some(a.clone()),
            None => None,
        }
    }

    /// Answers one chat completion: the call is counted and its
    /// authorization kept, then the chat route's mode (or the default
    /// stream) gives the answer. The model and prompt are not read.
    pub fn chat_completion(&mut self, authorization: &str, model: &str, prompt: &str) -> (r: Result<
        TransportResult,
        OpenRouterError,
    >)
        ensures
            final(self).spec_calls() == if old(self).spec_calls() < usize::MAX {
                (old(self).spec_calls() + 1) as usize
            } else {
                0usize
            },
            final(self).spec_last_authorization() == Some(authorization@),
            final(self).spec_modes() == old(self).spec_modes(),
            chat_answer(old(self).spec_modes(), r),
    {
        self.calls = if self.calls < usize::MAX {
            self.calls + 1
        } else {
            0
        };
        self.last_authorization = Some(authorization.to_owned());
        match find_mode(&self.modes, "chat") {
            Some(i) => fake_exchange(&self.modes[i].1),
            None => {
                let events = vec![
                    "{\"choices\":[{\"delta\":{\"content\":\"offline \"}}]}".to_owned(),
                    "{\"choices\":[{\"delta\":{\"content\":\"openrouter\"}}]}".to_owned(),
                ];
                proof {
                    assert(events@.map_values(|e: String| e@) =~= default_events());
                }
                let mode = FakeHttpMode::Stream {
                    events,
                    usage: UsageSummary { prompt_tokens: 8, completion_tokens: 4, cost_usd_micros: 100 },
                };
                fake_exchange(&mode)
            },
        }
    }
}

/// Host, port and request path of a live endpoint, or the message of the
/// configuration error that rejects the base URL.
pub open spec fn live_endpoint(base: Seq<char>) -> Result<(Seq<char>, u16, Seq<char>), Seq<char>> {
    if !starts_with(base, "https://"@) {
        Err("live OpenRouter base_url must use https://"@)
    } else {
        let stripped = base.skip("https://"@.len() as int);
        let host_port = match find_first(stripped, seq!['/']) {
            Some(i) => stripped.take(i),
            None => stripped,
        };
        let base_path = match find_first(stripped, seq!['/']) {
            Some(i) => stripped.skip(i),
            None => Seq::<char>::empty(),
        };
        let host = match find_first(host_port, seq![':']) {
            Some(j) => host_port.take(j),
            None => host_port,
        };
        let port: u16 = match find_first(host_port, seq![':']) {
            Some(j) => match parse_u16_spec(host_port.skip(j + 1)) {
                Some(p) => p,
                None => 443,
            },
            None => 443,
        };
        let path = if ends_with(base_path, "/chat/completions"@) {
            base_path
        } else if ends_with(base_path, "/"@) {
            base_path + "chat/completions"@
        } else if base_path.len() == 0 {
            "/api/v1/chat/completions"@
        } else {
            base_path + "/chat/completions"@
        };
        if host.len() == 0 {
            Err("OpenRouter base_url host is missing"@)
        } else {
            Ok((host, port, path))
        }
    }
}

/// Parses `https://host[:port][/path]` into host, port and the chat
/// completions request path.
///
/// # Errors
///
/// Returns an invalid-configuration error for a non-HTTPS URL or a missing host.
pub fn parse_live_endpoint(base_url: &str) -> (r: Result<(String, u16, String), OpenRouterError>)
    ensures
        match r {
            Ok((host, port, path)) => live_endpoint(base_url@) == Ok::<
                (Seq<char>, u16, Seq<char>),
                Seq<char>,
            >((host@, port, path@)),
            Err(e) => live_endpoint(base_url@) == Err::<(Seq<char>, u16, Seq<char>), Seq<char>>(
                e.spec_message(),
            ) && e.spec_kind() == OpenRouterErrorKind::InvalidConfig,
        },
{
    let base = chars_of(base_url);
    let n = base.len();
    let scheme = chars_of("https://");
    proof {
        reveal_strlit("https://");
        reveal_strlit("live OpenRouter base_url must use https://");
        reveal_strlit("OpenRouter base_url host is missing");
    }
    if !starts_with_exec(&base, &scheme) {
        return Err(
            OpenRouterError::fixed(
                OpenRouterErrorKind::InvalidConfig,
                "live OpenRouter base_url must use https://",
            ),
        );
    }
    let stripped = slice_chars(&base, 8, n);
    assert(stripped@ =~= base@.skip("https://"@.len() as int));
    let slash = chars_of("/");
    let colon = chars_of(":");
    proof {
        reveal_strlit("/");
        reveal_strlit(":");
        assert(slash@ =~= seq!['/']);
        assert(colon@ =~= seq![':']);
    }
    let (host_port, base_path) = match find_exec(&stripped, &slash) {
        Some(i) => {
            let hp = slice_chars(&stripped, 0, i);
            let bp = slice_chars(&stripped, i, stripped.len());
            assert(hp@ =~= stripped@.take(i as int));
            assert(bp@ =~= stripped@.skip(i as int));
            (hp, bp)
        },
        None => {
            let empty: Vec<char> = Vec::new();
            assert(empty@ =~= Seq::<char>::empty());
            (stripped.clone(), empty)
        },
    };
    let (host, port) = match find_exec(&host_port, &colon) {
        Some(j) => {
            let h = slice_chars(&host_port, 0, j);
            assert(h@ =~= host_port@.take(j as int));
            let digits = slice_chars(&host_port, j + 1, host_port.len());
            assert(digits@ =~= host_port@.skip(j + 1));
            let port: u16 = match parse_u16_exec(&digits) {
                Some(p) => p,
                None => 443,
            };
            (h, port)
        },
        None => (host_port.clone(), 443u16),
    };
    let suffix = chars_of("/chat/completions");
    let path = if ends_with_exec(&base_path, &suffix) {
        base_path
    } else if ends_with_exec(&base_path, &slash) {
        let mut p = base_path.clone();
        push_all(&mut p, &chars_of("chat/completions"));
        p
    } else if base_path.len() == 0 {
        chars_of("/api/v1/chat/completions")
    } else {
        let mut p = base_path.clone();
        push_all(&mut p, &suffix);
        p
    };
    if host.len() == 0 {
        return Err(
            OpenRouterError::fixed(
                OpenRouterErrorKind::InvalidConfig,
                "OpenRouter base_url host is missing",
            ),
        );
    }
    Ok((string_from_chars(&host), port, string_from_chars(&path)))
}

/// The header terminator `\r\n\r\n` occurs at index `i`.
pub open spec fn header_end_at(r: Seq<u8>, i: int) -> bool {
    0 <= i && i + 4 <= r.len() && r[i] == 13 && r[i + 1] == 10 && r[i + 2] == 13 && r[i + 3] == 10
}

/// Returns the body that follows the first `\r\n\r\n` of an HTTP response.
///
/// # Errors
///
/// Returns a transport error when the header terminator is missing.
pub fn split_http_body(response: &[u8]) -> (r: Result<&[u8], OpenRouterError>)
    ensures
        match r {
            Ok(body) => exists|i: int|
                header_end_at(response@, i) && (forall|j: int| 0 <= j < i ==> !header_end_at(
                    response@,
                    j,
                )) && body@ == response@.skip(i + 4),
            Err(e) => (forall|j: int| !header_end_at(response@, j)) && e.spec_kind()
                == OpenRouterErrorKind::Transport && e.spec_message()
                == "OpenRouter response missing header terminator"@,
        },
{
    let n = response.len();
    let mut i: usize = 0;
    while n >= 4 && i <= n - 4
        invariant
            n == response@.len(),
            forall|j: int| 0 <= j < i ==> !header_end_at(response@, j),
        decreases n - i,
    {
        if response[i] == 13 && response[i + 1] == 10 && response[i + 2] == 13 && response[i + 3]
            == 10 {
            let body = &response[i + 4..n];
            assert(body@ =~= response@.skip(i + 4));
            assert(header_end_at(response@, i as int));
            return Ok(body);
        }
        i += 1;
    }
    proof {
        reveal_strlit("OpenRouter response missing header terminator");
        assert forall|j: int| !header_end_at(response@, j) by {
            if 0 <= j < i {
            }
        }
    }
    Err(
        OpenRouterError::fixed(
            OpenRouterErrorKind::Transport,
            "OpenRouter response missing header terminator",
        ),
    )
}

} // verus!
