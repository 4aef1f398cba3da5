//! Usage summaries and server-sent-event framing of `OpenRouter` streams.

use vstd::prelude::*;
use vstd::utf8::{decode_utf8, encode_utf8, valid_utf8};

use crate::json::{JsonValue, json_parse, parse_json};
use crate::openrouter::error::{OpenRouterError, OpenRouterErrorKind, kept_bytes, truncatable};
use crate::openrouter::transport::MAX_BODY_BYTES;
use crate::text::{
    chars_of, slice_chars, starts_with, starts_with_exec, str_from_utf8, string_from_chars,
    trim, trim_exec, trim_start, trim_start_index, ws_prefix_from,
};

verus! {

/// Parsed usage and spend from a terminal completion payload.
#[derive(Debug, Clone, Copy, PartialEq, Eq, Default, Structural)]
pub struct UsageSummary {
    pub prompt_tokens: u64,
    pub completion_tokens: u64,
    pub cost_usd_micros: u64,
}

/// `a * b`, held at `u64::MAX` when it would overflow.
pub open spec fn saturating_product(a: u64, b: u64) -> u64 {
    if a * b > u64::MAX {
        u64::MAX
    } else {
        (a * b) as u64
    }
}

/// `a + b`, held at `u64::MAX` when it would overflow.
pub open spec fn saturating_total(a: u64, b: u64) -> u64 {
    if a + b > u64::MAX {
        u64::MAX
    } else {
        (a + b) as u64
    }
}

/// The spend estimated from token counts when no cost is reported: half a
/// micro-dollar per prompt token and one and a half per completion token,
/// rounded down, and never below one.
pub open spec fn estimated_cost_micros(prompt_tokens: u64, completion_tokens: u64) -> u64 {
    let input = saturating_product(prompt_tokens, 500_000) / 1_000_000;
    let output = saturating_product(completion_tokens, 1_500_000) / 1_000_000;
    let total = saturating_total(input, output);
    if total < 1 {
        1
    } else {
        total
    }
}

/// Usage from token counts and the reported cost in micro-dollars: a
/// reported cost of zero (or none) is replaced by the estimate.
pub fn usage_with_estimate(prompt_tokens: u64, completion_tokens: u64, reported_cost_micros: u64) -> (r:
    UsageSummary)
    ensures
        r.prompt_tokens == prompt_tokens,
        r.completion_tokens == completion_tokens,
        r.cost_usd_micros == if reported_cost_micros == 0 {
            estimated_cost_micros(prompt_tokens, completion_tokens)
        } else {
            reported_cost_micros
        },
{
    let mut summary = UsageSummary { prompt_tokens, completion_tokens, cost_usd_micros: reported_cost_micros };
    if summary.cost_usd_micros == 0 {
        let input = match prompt_tokens.checked_mul(500_000) {
            Some(v) => v,
            None => u64::MAX,
        } / 1_000_000;
        let output = match completion_tokens.checked_mul(1_500_000) {
            Some(v) => v,
            None => u64::MAX,
        } / 1_000_000;
        let total = match input.checked_add(output) {
            Some(v) => v,
            None => u64::MAX,
        };
        summary.cost_usd_micros = if total < 1 {
            1
        } else {
            total
        };
    }
    summary
}

/// Index of the first `\n` at or after `pos`, or the length when none follows.
pub open spec fn next_newline(t: Seq<char>, pos: int) -> int
    decreases t.len() - pos,
{
    if pos < 0 || pos >= t.len() {
        t.len() as int
    } else if t[pos] == '\n' {
        pos
    } else {
        next_newline(t, pos + 1)
    }
}

/// The newline search never moves backwards and stays within the text.
pub proof fn lemma_next_newline_bounds(t: Seq<char>, pos: int)
    requires
        0 <= pos <= t.len(),
    ensures
        pos <= next_newline(t, pos) <= t.len(),
        next_newline(t, pos) < t.len() ==> t[next_newline(t, pos)] == '\n',
    decreases t.len() - pos,
{
    if pos < t.len() && t[pos] != '\n' {
        lemma_next_newline_bounds(t, pos + 1);
    }
}

/// A line without its trailing carriage returns.
pub open spec fn strip_trailing_cr(l: Seq<char>) -> Seq<char>
    decreases l.len(),
{
    if l.len() > 0 && l.last() == '\r' {
        strip_trailing_cr(l.drop_last())
    } else {
        l
    }
}

/// The payload of one line: what follows `data:` without leading whitespace.
pub open spec fn line_payload(line: Seq<char>) -> Seq<Seq<char>> {
    let l = strip_trailing_cr(line);
    if starts_with(l, "data:"@) {
        seq![trim_start(l.skip("data:"@.len() as int))]
    } else {
        Seq::empty()
    }
}

/// Payloads of the lines that start at or after `pos`.
pub open spec fn sse_from(t: Seq<char>, pos: int) -> Seq<Seq<char>>
    decreases t.len() + 1 - pos,
{
    if pos < 0 || pos > t.len() {
        Seq::empty()
    } else {
        let e = next_newline(t, pos);
        proof {
            lemma_next_newline_bounds(t, pos);
        }
        line_payload(t.subrange(pos, e)) + if e < t.len() {
            sse_from(t, e + 1)
        } else {
            Seq::empty()
        }
    }
}

/// The data payloads of a server-sent-event body; a body without any
/// `data:` line is one JSON completion, taken whole once trimmed.
pub open spec fn sse_payloads(t: Seq<char>) -> Seq<Seq<char>> {
    let p = sse_from(t, 0);
    if p.len() == 0 && trim(t).len() > 0 {
        seq![trim(t)]
    } else {
        p
    }
}

/// The texts held by a vector of strings.
pub open spec fn string_views(v: Seq<String>) -> Seq<Seq<char>> {
    v.map_values(|s: String| s@)
}

/// Strips trailing carriage returns from a line.
fn strip_cr_exec(line: &Vec<char>) -> (r: Vec<char>)
    ensures
        r@ == strip_trailing_cr(line@),
{
    let mut end = line.len();
    assert(line@.take(end as int) =~= line@);
    while end > 0 && line[end - 1] == '\r'
        invariant
            end <= line@.len(),
            strip_trailing_cr(line@) == strip_trailing_cr(line@.take(end as int)),
        decreases end,
    {
        assert(line@.take(end as int).drop_last() =~= line@.take(end - 1));
        end -= 1;
    }
    assert(line@.take(line@.len() as int) =~= line@);
    slice_chars(line, 0, end)
}

/// Splits an SSE body into its data payloads.
///
/// # Errors
///
/// Returns a malformed-stream error when the body is not valid UTF-8.
pub fn split_sse_data(body: &[u8]) -> (r: Result<Vec<String>, OpenRouterError>)
    ensures
        match r {
            Ok(payloads) => valid_utf8(body@) && string_views(payloads@) == sse_payloads(
                decode_utf8(body@),
            ),
            Err(e) => !valid_utf8(body@) && e.spec_kind() == OpenRouterErrorKind::MalformedStream
                && e.spec_message() == "OpenRouter stream is not valid UTF-8"@,
        },
{
    let text = match str_from_utf8(body) {
        Some(text) => text,
        None => {
            proof {
                reveal_strlit("OpenRouter stream is not valid UTF-8");
            }
            return Err(
                OpenRouterError::fixed(
                    OpenRouterErrorKind::MalformedStream,
                    "OpenRouter stream is not valid UTF-8",
                ),
            );
        },
    };
    let t = chars_of(text);
    let n = t.len();
    let prefix = chars_of("data:");
    proof {
        reveal_strlit("data:");
    }
    let mut payloads: Vec<String> = Vec::new();
    let mut pos: usize = 0;
    loop
        invariant_except_break
            pos <= n,
            n == t@.len(),
            prefix@ == "data:"@,
            string_views(payloads@) + sse_from(t@, pos as int) == sse_from(t@, 0),
        ensures
            string_views(payloads@) == sse_from(t@, 0),
        decreases n - pos,
    {
        proof {
            lemma_next_newline_bounds(t@, pos as int);
            reveal_strlit("data:");
        }
        let mut e = pos;
        while e < n && t[e] != '\n'
            invariant
                pos <= e <= n,
                n == t@.len(),
                next_newline(t@, pos as int) == next_newline(t@, e as int),
            decreases n - e,
        {
            e += 1;
        }
        assert(e == next_newline(t@, pos as int));
        let line = strip_cr_exec(&slice_chars(&t, pos, e));
        let ghost before = payloads@;
        if starts_with_exec(&line, &prefix) {
            let rest = slice_chars(&line, 5, line.len());
            assert(rest@ =~= line@.skip("data:"@.len() as int));
            let lo = trim_start_index(&rest);
            let data = slice_chars(&rest, lo, rest.len());
            payloads.push(string_from_chars(&data));
            assert(string_views(payloads@) =~= string_views(before) + line_payload(
                t@.subrange(pos as int, e as int),
            ));
        } else {
            assert(string_views(payloads@) =~= string_views(before) + line_payload(
                t@.subrange(pos as int, e as int),
            ));
        }
        if e == n {
            assert(string_views(payloads@) =~= sse_from(t@, 0));
            break;
        }
        pos = e + 1;
    }
    let whole = trim_exec(&t);
    if payloads.len() == 0 && whole.len() > 0 {
        payloads.push(string_from_chars(&whole));
        assert(string_views(payloads@) =~= seq![trim(t@)]);
    }
    Ok(payloads)
}


/// One SSE data payload as the daemon reads it: the end marker, a JSON
/// document, or text that is no JSON.
#[derive(Debug, PartialEq)]
pub enum SseFrame {
    Done,
    Document(JsonValue),
    NotJson,
}

/// A payload that marks the end of the stream: `[DONE]` between whitespace.
pub open spec fn is_done_marker(payload: Seq<char>) -> bool {
    trim(payload) == "[DONE]"@
}

/// Whether a payload marks the end of the stream.
pub fn done_marker(payload: &str) -> (r: bool)
    ensures
        r == is_done_marker(payload@),
{
    let t = trim_exec(&chars_of(payload));
    crate::text::seq_eq(&t, &chars_of("[DONE]"))
}

/// The non-empty `content` text of a choice's `key` member.
pub open spec fn choice_content(choice: JsonValue, key: Seq<char>) -> Seq<Seq<char>> {
    match choice.spec_member(key) {
        Some(part) => match part.member_text("content"@) {
            Some(text) => if text.len() > 0 {
                seq![text]
            } else {
                Seq::empty()
            },
            None => Seq::empty(),
        },
        None => Seq::empty(),
    }
}

/// The assistant texts a list of choices carries: per choice, its delta's
/// content, then its message's content, when not empty.
pub open spec fn choice_outputs(choices: Seq<JsonValue>) -> Seq<Seq<char>>
    decreases choices.len(),
{
    if choices.len() == 0 {
        Seq::empty()
    } else {
        choice_outputs(choices.drop_last()) + choice_content(choices.last(), "delta"@)
            + choice_content(choices.last(), "message"@)
    }
}

/// An error report's message must survive the cut to 256 bytes.
pub open spec fn frame_cuttable(frame: JsonValue) -> bool {
    match frame.spec_member("error"@) {
        Some(e) => match e.member_text("message"@) {
            Some(m) => truncatable(m),
            None => true,
        },
        None => true,
    }
}

/// What one JSON frame of a stream yields: its error report as a failure,
/// or the texts of its choices; a frame without a list of choices is
/// malformed.
pub open spec fn frame_outputs(frame: JsonValue) -> Result<Seq<Seq<char>>, (OpenRouterErrorKind, Seq<char>)> {
    match frame.spec_member("error"@) {
        Some(e) => Err(
            (
                OpenRouterErrorKind::Unavailable,
                match e.member_text("message"@) {
                    Some(m) => m,
                    None => "OpenRouter returned an error"@,
                },
            ),
        ),
        None => match frame.spec_member("choices"@) {
            Some(JsonValue::Array(choices)) => Ok(choice_outputs(choices@)),
            _ => Err(
                (OpenRouterErrorKind::MalformedStream, "OpenRouter stream frame is missing choices"@),
            ),
        },
    }
}

/// The non-empty `content` of a choice's `key` member.
fn content_of(choice: &JsonValue, key: &str) -> (r: Option<String>)
    ensures
        match r {
            Some(t) => choice_content(*choice, key@) == seq![t@],
            None => choice_content(*choice, key@) == Seq::<Seq<char>>::empty(),
        },
{
    match choice.member(key) {
        Some(part) => match part.member("content") {
            Some(content) => match content.as_text() {
                Some(text) => if crate::text::utf8_len(text) > 0 {
                    proof {
                        assert(part.member_text("content"@) == Some(text@));
                        assert(choice_content(*choice, key@) =~= seq![text@]);
                    }
                    let owned = text.to_owned();
                    assert(owned@ == text@);
                    assert(choice_content(*choice, key@) == seq![owned@]);
                    Some(owned)
                } else {
                    proof {
                        assert(part.member_text("content"@) == Some(text@));
                        assert(choice_content(*choice, key@) =~= Seq::<Seq<char>>::empty());
                    }
                    None
                },
                None => {
                    assert(part.member_text("content"@) is None);
                    assert(choice_content(*choice, key@) =~= Seq::<Seq<char>>::empty());
                    None
                },
            },
            None => {
                assert(part.member_text("content"@) is None);
                assert(choice_content(*choice, key@) =~= Seq::<Seq<char>>::empty());
                None
            },
        },
        None => {
            assert(choice_content(*choice, key@) =~= Seq::<Seq<char>>::empty());
            None
        },
    }
}

/// Reads the assistant texts of one JSON frame of a stream.
///
/// # Errors
///
/// `Unavailable` with the frame's error message (or a fixed one) when it
/// reports an error; `MalformedStream` when it has no list of choices.
pub fn normalize_frame(frame: &JsonValue) -> (r: Result<Vec<String>, OpenRouterError>)
    requires
        frame_cuttable(*frame),
    ensures
        match frame_outputs(*frame) {
            Ok(texts) => r matches Ok(v) && string_views(v@) == texts,
            Err((kind, m)) => r matches Err(e) && e.spec_kind() == kind && encode_utf8(e.spec_message()) == kept_bytes(m) && (encode_utf8(m).len() <= 256 ==> e.spec_message() == m),
        },
{
    if let Some(error) = frame.member("error") {
        let message = match error.member("message") {
            Some(m) => match m.as_text() {
                Some(text) => text.to_owned(),
                None => {
                    proof {
                        reveal_strlit("OpenRouter returned an error");
                        crate::openrouter::error::lemma_short_message_truncatable(
                            "OpenRouter returned an error"@,
                        );
                    }
                    "OpenRouter returned an error".to_owned()
                },
            },
            None => {
                proof {
                    reveal_strlit("OpenRouter returned an error");
                    crate::openrouter::error::lemma_short_message_truncatable(
                        "OpenRouter returned an error"@,
                    );
                }
                "OpenRouter returned an error".to_owned()
            },
        };
        return Err(OpenRouterError::new(OpenRouterErrorKind::Unavailable, message));
    }
    let choices = match frame.member("choices") {
        Some(JsonValue::Array(choices)) => choices,
        _ => {
            proof {
                reveal_strlit("OpenRouter stream frame is missing choices");
                crate::openrouter::error::lemma_short_message_truncatable("OpenRouter stream frame is missing choices"@);
            }
            return Err(
                OpenRouterError::fixed(
                    OpenRouterErrorKind::MalformedStream,
                    "OpenRouter stream frame is missing choices",
                ),
            );
        },
    };
    let mut outputs: Vec<String> = Vec::new();
    let n = choices.len();
    let mut i: usize = 0;
    while i < n
        invariant
            n == choices@.len(),
            i <= n,
            string_views(outputs@) == choice_outputs(choices@.take(i as int)),
        decreases n - i,
    {
        let ghost before = outputs@;
        let choice = &choices[i];
        if let Some(text) = content_of(choice, "delta") {
            outputs.push(text);
        }
        if let Some(text) = content_of(choice, "message") {
            outputs.push(text);
        }
        proof {
            let t = choices@.take(i + 1);
            assert(t.drop_last() =~= choices@.take(i as int));
            assert(t.last() == choices@[i as int]);
            assert(string_views(outputs@) =~= string_views(before) + choice_content(
                choices@[i as int],
                "delta"@,
            ) + choice_content(choices@[i as int], "message"@));
        }
        i += 1;
    }
    assert(choices@.take(n as int) =~= choices@);
    Ok(outputs)
}


/// What a stream's frames yield: the texts of its JSON frames in order, and
/// whether the end marker came; the first frame that is no JSON, reports an
/// error or lacks choices fails the stream.
pub open spec fn frames_outputs(frames: Seq<SseFrame>) -> Result<
    (Seq<Seq<char>>, bool),
    (OpenRouterErrorKind, Seq<char>),
>
    decreases frames.len(),
{
    if frames.len() == 0 {
        Ok((Seq::empty(), false))
    } else {
        match frames_outputs(frames.drop_last()) {
            Err(e) => Err(e),
            Ok((texts, done)) => match frames.last() {
                SseFrame::Done => Ok((texts, true)),
                SseFrame::NotJson => Err(
                    (OpenRouterErrorKind::MalformedStream, "OpenRouter stream frame is not valid JSON"@),
                ),
                SseFrame::Document(v) => match frame_outputs(v) {
                    Ok(t) => Ok((texts + t, done)),
                    Err(e) => Err(e),
                },
            },
        }
    }
}

/// Every error report of the frames survives the cut to 256 bytes.
pub open spec fn frames_cuttable(frames: Seq<SseFrame>) -> bool {
    forall|i: int|
        0 <= i < frames.len() ==> match #[trigger] frames[i] {
            SseFrame::Document(v) => frame_cuttable(v),
            _ => true,
        }
}

/// Reads a stream's frames into its assistant texts and whether it ended.
///
/// # Errors
///
/// The failure of the first frame that is no JSON, reports an error or
/// lacks choices.
pub fn decode_frames(frames: &[SseFrame]) -> (r: Result<(Vec<String>, bool), OpenRouterError>)
    requires
        frames_cuttable(frames@),
    ensures
        match frames_outputs(frames@) {
            Ok((texts, done)) => r matches Ok((v, d)) && string_views(v@) == texts && d == done,
            Err((kind, m)) => r matches Err(e) && e.spec_kind() == kind && encode_utf8(e.spec_message()) == kept_bytes(m) && (encode_utf8(m).len() <= 256 ==> e.spec_message() == m),
        },
{
    let mut outputs: Vec<String> = Vec::new();
    let mut done = false;
    let n = frames.len();
    let mut i: usize = 0;
    assert(string_views(outputs@) =~= Seq::<Seq<char>>::empty());
    assert(frames@.take(0) =~= Seq::<SseFrame>::empty());
    while i < n
        invariant
            n == frames@.len(),
            i <= n,
            frames_cuttable(frames@),
            frames_outputs(frames@.take(i as int)) == Ok::<
                (Seq<Seq<char>>, bool),
                (OpenRouterErrorKind, Seq<char>),
            >((string_views(outputs@), done)),
        decreases n - i,
    {
        let ghost t = frames@.take(i + 1);
        assert(t.drop_last() =~= frames@.take(i as int));
        assert(t.last() == frames@[i as int]);
        match &frames[i] {
            SseFrame::Done => {
                done = true;
            },
            SseFrame::NotJson => {
                proof {
                    reveal_strlit("OpenRouter stream frame is not valid JSON");
                crate::openrouter::error::lemma_short_message_truncatable("OpenRouter stream frame is not valid JSON"@);
                    lemma_failure_persists(frames@, i + 1);
                }
                return Err(
                    OpenRouterError::fixed(
                        OpenRouterErrorKind::MalformedStream,
                        "OpenRouter stream frame is not valid JSON",
                    ),
                );
            },
            SseFrame::Document(v) => {
                assert(frame_cuttable(*v));
                match normalize_frame(v) {
                    Ok(texts) => {
                        let ghost before = outputs@;
                        let mut texts = texts;
                        outputs.append(&mut texts);
                        assert(string_views(outputs@) =~= string_views(before) + frame_outputs(
                            *v,
                        )->Ok_0);
                    },
                    Err(e) => {
                        proof {
                            lemma_failure_persists(frames@, i + 1);
                        }
                        return Err(e);
                    },
                }
            },
        }
        i += 1;
    }
    assert(frames@.take(n as int) =~= frames@);
    Ok((outputs, done))
}

/// A failed prefix fails the whole stream the same way.
proof fn lemma_failure_persists(frames: Seq<SseFrame>, k: int)
    requires
        0 <= k <= frames.len(),
        frames_outputs(frames.take(k)) is Err,
    ensures
        frames_outputs(frames) == frames_outputs(frames.take(k)),
    decreases frames.len() - k,
{
    if k < frames.len() {
        assert(frames.take(k + 1).drop_last() =~= frames.take(k));
        lemma_failure_persists(frames, k + 1);
    } else {
        assert(frames.take(k) =~= frames);
    }
}

/// Bodies above this many bytes are refused before they are read.
pub fn check_body_size(len: usize) -> (r: Result<(), OpenRouterError>)
    ensures
        len <= crate::openrouter::transport::MAX_BODY_BYTES ==> r is Ok,
        len > crate::openrouter::transport::MAX_BODY_BYTES ==> (r matches Err(e) && e.spec_kind()
            == OpenRouterErrorKind::ResponseTooLarge && e.spec_message()
            == "OpenRouter response exceeds the encoded body ceiling"@),
{
    if len > crate::openrouter::transport::MAX_BODY_BYTES {
        proof {
            reveal_strlit("OpenRouter response exceeds the encoded body ceiling");
        }
        return Err(
            OpenRouterError::fixed(
                OpenRouterErrorKind::ResponseTooLarge,
                "OpenRouter response exceeds the encoded body ceiling",
            ),
        );
    }
    Ok(())
}


/// The frame an SSE data payload is: the end marker, the JSON document it
/// parses to, or text that is no JSON.
pub open spec fn frame_of(payload: Seq<char>) -> SseFrame {
    if is_done_marker(payload) {
        SseFrame::Done
    } else {
        match json_parse(encode_utf8(payload)) {
            Ok(document) => SseFrame::Document(document),
            Err(_) => SseFrame::NotJson,
        }
    }
}

/// Reads one SSE data payload as a frame.
pub fn read_frame(payload: &str) -> (r: SseFrame)
    ensures
        r == frame_of(payload@),
{
    if done_marker(payload) {
        return SseFrame::Done;
    }
    match parse_json(payload.as_bytes()) {
        Ok(document) => SseFrame::Document(document),
        Err(_) => SseFrame::NotJson,
    }
}

/// A frame whose error report, if any, survives the cut to 256 bytes.
pub open spec fn frame_fits(frame: SseFrame) -> bool {
    match frame {
        SseFrame::Document(v) => frame_cuttable(v),
        _ => true,
    }
}

fn frame_fits_exec(frame: &SseFrame) -> (r: bool)
    ensures
        r == frame_fits(*frame),
{
    match frame {
        SseFrame::Document(v) => match v.member("error") {
            Some(e) => match e.member("message") {
                Some(m) => match m.as_text() {
                    Some(t) => {
                        proof {
                            assert(e.member_text("message"@) == Some(t@));
                            assert(v.spec_member("error"@) == Some(*e));
                        }
                        crate::text::utf8_len(t) <= 256 || t.is_char_boundary(256)
                    },
                    None => {
                        assert(e.member_text("message"@) is None);
                        true
                    },
                },
                None => true,
            },
            None => true,
        },
        _ => true,
    }
}

/// What a stream of SSE data payloads yields, read frame by frame.
pub open spec fn payloads_outputs(payloads: Seq<Seq<char>>) -> Result<
    (Seq<Seq<char>>, bool),
    (OpenRouterErrorKind, Seq<char>),
> {
    frames_outputs(payloads.map_values(|p: Seq<char>| frame_of(p)))
}

/// Every payload's error report survives the cut to 256 bytes.
pub open spec fn payloads_fit(payloads: Seq<Seq<char>>) -> bool {
    forall|i: int| 0 <= i < payloads.len() ==> frame_fits(frame_of(#[trigger] payloads[i]))
}

/// Normalizes one SSE data payload into the assistant contents it carries.
///
/// # Errors
///
/// When the JSON is malformed, reports an error, or lacks choices.
pub fn normalize_sse_data(data: &str) -> (r: Result<Vec<String>, OpenRouterError>)
    requires
        frame_fits(frame_of(data@)),
    ensures
        match payloads_outputs(seq![data@]) {
            Ok((texts, _)) => r matches Ok(v) && string_views(v@) == texts,
            Err((kind, m)) => r matches Err(e) && e.spec_kind() == kind && encode_utf8(e.spec_message()) == kept_bytes(m) && (encode_utf8(m).len() <= 256 ==> e.spec_message() == m),
        },
{
    let frame = read_frame(data);
    let frames = vec![frame];
    proof {
        assert(frames@ =~= seq![data@].map_values(|p: Seq<char>| frame_of(p)));
    }
    match decode_frames(frames.as_slice()) {
        Ok((outputs, _)) => Ok(outputs),
        Err(e) => Err(e),
    }
}

/// `normalize_sse_data` where the payload's error report survives the cut;
/// `None` where it would not.
pub fn try_normalize_sse_data(data: &str) -> (r: Option<Result<Vec<String>, OpenRouterError>>)
    ensures
        r is None <==> !frame_fits(frame_of(data@)),
        r matches Some(x) ==> match payloads_outputs(seq![data@]) {
            Ok((texts, _)) => x matches Ok(v) && string_views(v@) == texts,
            Err((kind, m)) => x matches Err(e) && e.spec_kind() == kind && encode_utf8(e.spec_message()) == kept_bytes(m) && (encode_utf8(m).len() <= 256 ==> e.spec_message() == m),
        },
{
    if frame_fits_exec(&read_frame(data)) {
        Some(normalize_sse_data(data))
    } else {
        None
    }
}

/// Decodes a transport body into contents and whether it completed.
///
/// # Errors
///
/// When the body is oversized, is no UTF-8, or a frame is malformed.
pub fn decode_body(body: &[u8]) -> (r: Result<(Vec<String>, bool), OpenRouterError>)
    requires
        body@.len() <= MAX_BODY_BYTES && valid_utf8(body@) ==> payloads_fit(
            sse_payloads(decode_utf8(body@)),
        ),
    ensures
        body@.len() > MAX_BODY_BYTES ==> (r matches Err(e) && e.spec_kind()
            == OpenRouterErrorKind::ResponseTooLarge),
        body@.len() <= MAX_BODY_BYTES && !valid_utf8(body@) ==> (r matches Err(e) && e.spec_kind()
            == OpenRouterErrorKind::MalformedStream && e.spec_message()
            == "OpenRouter stream is not valid UTF-8"@),
        body@.len() <= MAX_BODY_BYTES && valid_utf8(body@) ==> match payloads_outputs(
            sse_payloads(decode_utf8(body@)),
        ) {
            Ok((texts, done)) => r matches Ok((v, d)) && string_views(v@) == texts && d == done,
            Err((kind, m)) => r matches Err(e) && e.spec_kind() == kind && encode_utf8(e.spec_message()) == kept_bytes(m) && (encode_utf8(m).len() <= 256 ==> e.spec_message() == m),
        },
{
    check_body_size(body.len())?;
    let payloads = split_sse_data(body)?;
    let ghost texts = string_views(payloads@);
    let mut frames: Vec<SseFrame> = Vec::new();
    let n = payloads.len();
    let mut i: usize = 0;
    while i < n
        invariant
            n == payloads@.len(),
            i <= n,
            texts == string_views(payloads@),
            frames@ == texts.take(i as int).map_values(|p: Seq<char>| frame_of(p)),
        decreases n - i,
    {
        let frame = read_frame(payloads[i].as_str());
        frames.push(frame);
        proof {
            assert(texts.take(i + 1).map_values(|p: Seq<char>| frame_of(p)) =~= texts.take(
                i as int,
            ).map_values(|p: Seq<char>| frame_of(p)).push(frame_of(payloads@[i as int]@)));
        }
        i += 1;
    }
    proof {
        assert(texts.take(n as int) =~= texts);
        assert forall|k: int| 0 <= k < frames@.len() implies match #[trigger] frames@[k] {
            SseFrame::Document(v) => frame_cuttable(v),
            _ => true,
        } by {
            assert(frame_fits(frame_of(texts[k])));
        }
    }
    decode_frames(frames.as_slice())
}

/// Every payload frame of a body that is read fits the cut.
pub open spec fn body_fits(body: Seq<u8>) -> bool {
    body.len() <= MAX_BODY_BYTES && valid_utf8(body) ==> payloads_fit(sse_payloads(decode_utf8(body)))
}

/// `decode_body` where every error report of the body survives the cut;
/// `None` where one would not.
pub fn try_decode_body(body: &[u8]) -> (r: Option<Result<(Vec<String>, bool), OpenRouterError>>)
    ensures
        r is None <==> !body_fits(body@),
        r matches Some(x) ==> (body@.len() > MAX_BODY_BYTES ==> (x matches Err(e) && e.spec_kind()
            == OpenRouterErrorKind::ResponseTooLarge)),
        r matches Some(x) ==> (body@.len() <= MAX_BODY_BYTES && !valid_utf8(body@) ==> (x matches Err(
            e,
        ) && e.spec_kind() == OpenRouterErrorKind::MalformedStream)),
        r matches Some(x) ==> (body@.len() <= MAX_BODY_BYTES && valid_utf8(body@) ==> match payloads_outputs(
            sse_payloads(decode_utf8(body@)),
        ) {
            Ok((texts, done)) => x matches Ok((v, d)) && string_views(v@) == texts && d == done,
            Err((kind, m)) => x matches Err(e) && e.spec_kind() == kind && encode_utf8(e.spec_message()) == kept_bytes(m) && (encode_utf8(m).len() <= 256 ==> e.spec_message() == m),
        }),
{
    if body.len() <= MAX_BODY_BYTES {
        if let Ok(payloads) = split_sse_data(body) {
            let ghost texts = string_views(payloads@);
            let n = payloads.len();
            let mut i: usize = 0;
            while i < n
                invariant
                    n == payloads@.len(),
                    i <= n,
                    body@.len() <= MAX_BODY_BYTES,
                    valid_utf8(body@),
                    texts == string_views(payloads@),
                    texts == sse_payloads(decode_utf8(body@)),
                    forall|k: int| 0 <= k < i ==> frame_fits(frame_of(#[trigger] texts[k])),
                decreases n - i,
            {
                let frame = read_frame(payloads[i].as_str());
                assert(texts[i as int] == payloads@[i as int]@);
                if !frame_fits_exec(&frame) {
                    assert(!frame_fits(frame_of(texts[i as int])));
                    assert(!payloads_fit(texts));
                    return None;
                }
                i += 1;
            }
        }
    }
    Some(decode_body(body))
}


/// How one SSE data payload reads: the end marker yields nothing; text
/// that is no JSON is malformed; a document's error report is a failure
/// carrying its message (or a fixed one); a document without a list of
/// choices is malformed; otherwise the non-empty delta and message
/// contents of its choices, in order.
pub proof fn one_payload_reads_as_its_frame(data: Seq<char>)
    ensures
        is_done_marker(data) ==> payloads_outputs(seq![data]) == Ok::<
            (Seq<Seq<char>>, bool),
            (OpenRouterErrorKind, Seq<char>),
        >((Seq::empty(), true)),
        !is_done_marker(data) ==> match json_parse(encode_utf8(data)) {
            Err(_) => payloads_outputs(seq![data]) == Err::<
                (Seq<Seq<char>>, bool),
                (OpenRouterErrorKind, Seq<char>),
            >((OpenRouterErrorKind::MalformedStream, "OpenRouter stream frame is not valid JSON"@)),
            Ok(d) => match d.spec_member("error"@) {
                Some(e) => payloads_outputs(seq![data]) == Err::<
                    (Seq<Seq<char>>, bool),
                    (OpenRouterErrorKind, Seq<char>),
                >(
                    (
                        OpenRouterErrorKind::Unavailable,
                        match e.member_text("message"@) {
                            Some(m) => m,
                            None => "OpenRouter returned an error"@,
                        },
                    ),
                ),
                None => payloads_outputs(seq![data]) == match d.spec_member("choices"@) {
                    Some(JsonValue::Array(choices)) => Ok::<
                        (Seq<Seq<char>>, bool),
                        (OpenRouterErrorKind, Seq<char>),
                    >((choice_outputs(choices@), false)),
                    _ => Err(
                        (
                            OpenRouterErrorKind::MalformedStream,
                            "OpenRouter stream frame is missing choices"@,
                        ),
                    ),
                },
            },
        },
{
    let frames = seq![data].map_values(|p: Seq<char>| frame_of(p));
    assert(frames =~= seq![frame_of(data)]);
    assert(frames.drop_last() =~= Seq::<SseFrame>::empty());
    assert(frames.last() == frame_of(data));
    assert(payloads_outputs(seq![data]) == frames_outputs(frames));
    assert(frames_outputs(frames.drop_last()) == Ok::<
        (Seq<Seq<char>>, bool),
        (OpenRouterErrorKind, Seq<char>),
    >((Seq::empty(), false)));
    assert(Seq::<Seq<char>>::empty() + Seq::<Seq<char>>::empty() =~= Seq::<Seq<char>>::empty());
    if let Ok(d) = json_parse(encode_utf8(data)) {
        if let Ok(t) = frame_outputs(d) {
            assert(Seq::<Seq<char>>::empty() + t =~= t);
        }
    }
}

} // verus!
