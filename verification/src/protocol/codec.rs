//! Newline-delimited JSON framing of protocol messages.

use std::marker::PhantomData;

use bytes::{Buf, BufMut, BytesMut};
use vstd::prelude::*;

use crate::json::{JsonValue, json_parse, json_parse_failure, parse_json};
use crate::protocol::ids::PROTOCOL_V1;
use crate::text::str_eq;

verus! {

/// Largest frame, without its newline, in bytes.
pub const MAX_FRAME_BYTES: usize = 8_388_608;

/// Why a frame could not be read or written.
#[derive(Debug, Clone, PartialEq, Eq)]
pub enum ProtocolCodecError {
    FrameTooLarge,
    UnsupportedVersion,
    IncompleteFrame,
    InvalidJson(String),
    Io(String),
}

/// A growable byte buffer (`bytes::BytesMut`).
#[verifier::external_type_specification]
#[verifier::external_body]
pub struct ExBytesMut(BytesMut);

/// The bytes held by a buffer.
pub uninterp spec fn buffer_bytes(buffer: BytesMut) -> Seq<u8>;

/// The held bytes as a slice (`<BytesMut as Deref>::deref`).
#[verifier::external_body]
fn buffer_slice(buffer: &BytesMut) -> (r: &[u8])
    ensures
        r@ == buffer_bytes(*buffer),
{
    &buffer[..]
}

/// The number of bytes a buffer holds.
pub fn buffer_len(buffer: &BytesMut) -> (r: usize)
    ensures
        r == buffer_bytes(*buffer).len(),
{
    buffer_slice(buffer).len()
}

/// Drops every held byte (`BytesMut::clear`).
#[verifier::external_body]
fn buffer_clear(buffer: &mut BytesMut)
    ensures
        buffer_bytes(*final(buffer)) == Seq::<u8>::empty(),
{
    buffer.clear()
}

/// Drops the first `count` bytes (`<BytesMut as Buf>::advance`, which
/// panics past the end).
#[verifier::external_body]
fn buffer_advance(buffer: &mut BytesMut, count: usize)
    requires
        count <= buffer_bytes(*old(buffer)).len(),
    ensures
        buffer_bytes(*final(buffer)) == buffer_bytes(*old(buffer)).skip(count as int),
{
    buffer.advance(count)
}

/// Splits off the first `at` bytes (`BytesMut::split_to`, which panics past
/// the end).
#[verifier::external_body]
fn buffer_split_to(buffer: &mut BytesMut, at: usize) -> (r: BytesMut)
    requires
        at <= buffer_bytes(*old(buffer)).len(),
    ensures
        buffer_bytes(r) == buffer_bytes(*old(buffer)).take(at as int),
        buffer_bytes(*final(buffer)) == buffer_bytes(*old(buffer)).skip(at as int),
{
    buffer.split_to(at)
}

/// Appends bytes (`<BytesMut as BufMut>::put_slice`, which panics past
/// `isize::MAX` bytes).
#[verifier::external_body]
fn buffer_put_slice(buffer: &mut BytesMut, bytes: &[u8])
    requires
        buffer_bytes(*old(buffer)).len() + bytes@.len() <= isize::MAX,
    ensures
        buffer_bytes(*final(buffer)) == buffer_bytes(*old(buffer)) + bytes@,
{
    buffer.put_slice(bytes)
}

/// Appends one byte (`<BytesMut as BufMut>::put_u8`, which panics past
/// `isize::MAX` bytes).
#[verifier::external_body]
fn buffer_put_u8(buffer: &mut BytesMut, byte: u8)
    requires
        buffer_bytes(*old(buffer)).len() + 1 <= isize::MAX,
    ensures
        buffer_bytes(*final(buffer)) == buffer_bytes(*old(buffer)).push(byte),
{
    buffer.put_u8(byte)
}

/// Index of the first newline byte.
pub open spec fn first_newline(bytes: Seq<u8>) -> Option<int> {
    if exists|i: int| 0 <= i < bytes.len() && bytes[i] == 10u8 {
        Some(choose|i: int| 0 <= i < bytes.len() && bytes[i] == 10u8 && forall|j: int|
            0 <= j < i ==> bytes[j] != 10u8)
    } else {
        None
    }
}

/// The JSON error text, if any, that a frame is rejected with before its
/// protocol label is read.
pub open spec fn frame_fault(frame: Seq<u8>) -> Option<Seq<char>> {
    if frame.len() == 0 {
        Some("empty protocol frame"@)
    } else {
        json_parse_failure(frame)
    }
}

/// Rejects a frame whose `protocol` member names another protocol.
///
/// # Errors
///
/// `UnsupportedVersion` when the label is present and differs.
pub fn check_protocol_label(label: Option<&str>) -> (r: Result<(), ProtocolCodecError>)
    ensures
        match label {
            Some(p) if p@ != PROTOCOL_V1@ => r == Err::<(), ProtocolCodecError>(
                ProtocolCodecError::UnsupportedVersion,
            ),
            _ => r is Ok,
        },
{
    match label {
        Some(p) => if str_eq(p, PROTOCOL_V1) {
            Ok(())
        } else {
            Err(ProtocolCodecError::UnsupportedVersion)
        },
        None => Ok(()),
    }
}

/// What a frame that parses is answered with: its document, unless its
/// `protocol` member is a string that names another protocol.
pub open spec fn frame_reading(document: JsonValue) -> Result<JsonValue, ProtocolCodecError> {
    match document.member_text("protocol"@) {
        Some(p) if p != PROTOCOL_V1@ => Err(ProtocolCodecError::UnsupportedVersion),
        _ => Ok(document),
    }
}

/// Reads one frame into a JSON document and checks its protocol label.
///
/// # Errors
///
/// `InvalidJson` for an empty frame or malformed JSON; `UnsupportedVersion`
/// for another protocol.
pub fn decode_frame(frame: &[u8]) -> (r: Result<JsonValue, ProtocolCodecError>)
    ensures
        match frame_fault(frame@) {
            Some(m) => r matches Err(ProtocolCodecError::InvalidJson(e)) && e@ == m,
            None => r == frame_reading(json_parse(frame@)->Ok_0),
        },
{
    if frame.len() == 0 {
        return Err(ProtocolCodecError::InvalidJson("empty protocol frame".to_owned()));
    }
    let document = match parse_json(frame) {
        Ok(document) => document,
        Err(error) => return Err(ProtocolCodecError::InvalidJson(error)),
    };
    let label = match document.member("protocol") {
        Some(member) => member.as_text(),
        None => None,
    };
    match check_protocol_label(label) {
        Ok(()) => Ok(document),
        Err(error) => Err(error),
    }
}

/// Finds the first newline of a byte slice.
fn find_newline(bytes: &[u8]) -> (r: Option<usize>)
    ensures
        match r {
            Some(i) => i < bytes@.len() && first_newline(bytes@) == Some(i as int),
            None => first_newline(bytes@) is None,
        },
{
    let n = bytes.len();
    let mut i: usize = 0;
    while i < n
        invariant
            n == bytes@.len(),
            i <= n,
            forall|j: int| 0 <= j < i ==> bytes@[j] != 10u8,
        decreases n - i,
    {
        if bytes[i] == 10u8 {
            proof {
                let w = choose|k: int| 0 <= k < bytes@.len() && bytes@[k] == 10u8 && forall|j: int|
                    0 <= j < k ==> bytes@[j] != 10u8;
                assert(0 <= i < bytes@.len() && bytes@[i as int] == 10u8 && forall|j: int|
                    0 <= j < i ==> bytes@[j] != 10u8);
                if w < i {
                    assert(bytes@[w] != 10u8);
                } else if w > i {
                    assert(bytes@[i as int] != 10u8);
                }
            }
            return Some(i);
        }
        i += 1;
    }
    None
}

/// Framing round trip: a message without a newline, framed as `encode`
/// frames it and followed by any further bytes, is the next frame `decode`
/// splits off, and exactly the further bytes are left.
pub proof fn framing_round_trip(message: Seq<u8>, rest: Seq<u8>)
    requires
        forall|i: int| 0 <= i < message.len() ==> message[i] != 10u8,
    ensures
        first_newline(message.push(10u8) + rest) == Some(message.len() as int),
        (message.push(10u8) + rest).take(message.len() as int) == message,
        (message.push(10u8) + rest).skip(message.len() as int + 1) == rest,
{
    let framed = message.push(10u8) + rest;
    let n = message.len() as int;
    assert(framed[n] == 10u8);
    assert(forall|j: int| 0 <= j < n ==> framed[j] == message[j]);
    assert(exists|i: int| 0 <= i < framed.len() && framed[i] == 10u8);
    let w = choose|i: int| 0 <= i < framed.len() && framed[i] == 10u8 && forall|j: int|
        0 <= j < i ==> framed[j] != 10u8;
    assert(0 <= n < framed.len() && framed[n] == 10u8 && forall|j: int|
        0 <= j < n ==> framed[j] != 10u8);
    if w < n {
        assert(framed[w] == message[w]);
    } else if w > n {
        assert(framed[n] != 10u8);
    }
    assert(framed.take(n) =~= message);
    assert(framed.skip(n + 1) =~= rest);
}

/// Codec of newline-delimited JSON frames, for messages read as `Inbound`
/// and written as `Outbound`.
#[derive(Debug)]
pub struct NdjsonCodec<Inbound, Outbound> {
    _types: PhantomData<(Inbound, Outbound)>,
}

impl<Inbound, Outbound> NdjsonCodec<Inbound, Outbound> {
    /// The one codec value: it holds no state.
    pub closed spec fn stateless() -> Self {
        NdjsonCodec { _types: PhantomData }
    }

    /// Takes the next complete frame off `source` and reads it as JSON.
    /// Returns `Ok(None)` while no newline has arrived.
    ///
    /// # Errors
    ///
    /// `FrameTooLarge` for a frame over `MAX_FRAME_BYTES` (the bytes read so
    /// far are dropped, or the frame with its newline); the errors of
    /// `decode_frame` for a complete frame, which is consumed.
    pub fn decode(&mut self, source: &mut BytesMut) -> (r: Result<
        Option<JsonValue>,
        ProtocolCodecError,
    >)
        ensures
            match first_newline(buffer_bytes(*old(source))) {
                None => if buffer_bytes(*old(source)).len() > MAX_FRAME_BYTES {
                    &&& r == Err::<Option<JsonValue>, ProtocolCodecError>(
                        ProtocolCodecError::FrameTooLarge,
                    )
                    &&& buffer_bytes(*final(source)) == Seq::<u8>::empty()
                } else {
                    &&& r == Ok::<Option<JsonValue>, ProtocolCodecError>(None)
                    &&& buffer_bytes(*final(source)) == buffer_bytes(*old(source))
                },
                Some(newline) => {
                    &&& buffer_bytes(*final(source)) == buffer_bytes(*old(source)).skip(
                        newline + 1,
                    )
                    &&& newline > MAX_FRAME_BYTES ==> r == Err::<
                        Option<JsonValue>,
                        ProtocolCodecError,
                    >(ProtocolCodecError::FrameTooLarge)
                    &&& newline <= MAX_FRAME_BYTES ==> match frame_fault(
                        buffer_bytes(*old(source)).take(newline),
                    ) {
                        Some(m) => r matches Err(ProtocolCodecError::InvalidJson(e)) && e@ == m,
                        None => match frame_reading(
                            json_parse(buffer_bytes(*old(source)).take(newline))->Ok_0,
                        ) {
                            Ok(d) => r == Ok::<Option<JsonValue>, ProtocolCodecError>(Some(d)),
                            Err(e) => r == Err::<Option<JsonValue>, ProtocolCodecError>(e),
                        },
                    }
                },
            },
    {
        let held = buffer_slice(source);
        let len = held.len();
        let newline = find_newline(held);
        match newline {
            None => {
                if len > MAX_FRAME_BYTES {
                    buffer_clear(source);
                    return Err(ProtocolCodecError::FrameTooLarge);
                }
                Ok(None)
            },
            Some(newline) => {
                if newline > MAX_FRAME_BYTES {
                    buffer_advance(source, newline + 1);
                    return Err(ProtocolCodecError::FrameTooLarge);
                }
                let ghost before = buffer_bytes(*source);
                let frame = buffer_split_to(source, newline);
                buffer_advance(source, 1);
                assert(buffer_bytes(*source) =~= before.skip(newline + 1));
                match decode_frame(buffer_slice(&frame)) {
                    Ok(value) => Ok(Some(value)),
                    Err(error) => Err(error),
                }
            },
        }
    }

    /// Handles the bytes left when the stream ends; they are always dropped.
    ///
    /// # Errors
    ///
    /// `FrameTooLarge` for more than `MAX_FRAME_BYTES` bytes, otherwise
    /// `IncompleteFrame` for any byte left.
    pub fn decode_eof(&mut self, source: &mut BytesMut) -> (r: Result<
        Option<JsonValue>,
        ProtocolCodecError,
    >)
        ensures
            buffer_bytes(*final(source)) == Seq::<u8>::empty(),
            buffer_bytes(*old(source)).len() == 0 ==> r == Ok::<
                Option<JsonValue>,
                ProtocolCodecError,
            >(None),
            buffer_bytes(*old(source)).len() > MAX_FRAME_BYTES ==> r == Err::<
                Option<JsonValue>,
                ProtocolCodecError,
            >(ProtocolCodecError::FrameTooLarge),
            0 < buffer_bytes(*old(source)).len() <= MAX_FRAME_BYTES ==> r == Err::<
                Option<JsonValue>,
                ProtocolCodecError,
            >(ProtocolCodecError::IncompleteFrame),
    {
        let len = buffer_slice(source).len();
        if len == 0 {
            assert(buffer_bytes(*source) =~= Seq::<u8>::empty());
            Ok(None)
        } else if len > MAX_FRAME_BYTES {
            buffer_clear(source);
            Err(ProtocolCodecError::FrameTooLarge)
        } else {
            buffer_clear(source);
            Err(ProtocolCodecError::IncompleteFrame)
        }
    }

    /// Writes one encoded message as a frame: its bytes and a newline.
    /// `encoded` is the message's JSON, or the text of why it could not be
    /// encoded.
    ///
    /// # Errors
    ///
    /// `InvalidJson` when encoding failed; `FrameTooLarge` for more than
    /// `MAX_FRAME_BYTES` bytes. Nothing is written then.
    pub fn encode(&mut self, encoded: Result<Vec<u8>, String>, destination: &mut BytesMut) -> (r:
        Result<(), ProtocolCodecError>)
        requires
            encoded matches Ok(bytes) ==> buffer_bytes(*old(destination)).len() + bytes@.len() + 1
                <= isize::MAX,
        ensures
            match encoded {
                Err(m) => r matches Err(ProtocolCodecError::InvalidJson(e)) && e@ == m@
                    && buffer_bytes(*final(destination)) == buffer_bytes(*old(destination)),
                Ok(bytes) => if bytes@.len() > MAX_FRAME_BYTES {
                    &&& r == Err::<(), ProtocolCodecError>(ProtocolCodecError::FrameTooLarge)
                    &&& buffer_bytes(*final(destination)) == buffer_bytes(*old(destination))
                } else {
                    &&& r is Ok
                    &&& buffer_bytes(*final(destination)) == buffer_bytes(*old(destination))
                        + bytes@.push(10u8)
                },
            },
    {
        let bytes = match encoded {
            Ok(bytes) => bytes,
            Err(message) => return Err(ProtocolCodecError::InvalidJson(message)),
        };
        if bytes.len() > MAX_FRAME_BYTES {
            return Err(ProtocolCodecError::FrameTooLarge);
        }
        let ghost before = buffer_bytes(*destination);
        buffer_put_slice(destination, bytes.as_slice());
        buffer_put_u8(destination, 10u8);
        assert(buffer_bytes(*destination) =~= before + bytes@.push(10u8));
        Ok(())
    }
}

impl<Inbound, Outbound> Clone for NdjsonCodec<Inbound, Outbound> {
    /// Another codec; it holds no state.
    fn clone(&self) -> (r: Self)
        ensures
            r == *self,
    {
        Self { _types: PhantomData }
    }
}

impl<Inbound, Outbound> Default for NdjsonCodec<Inbound, Outbound> {
    /// A codec; it holds no state, so it is the same as any other.
    fn default() -> (r: Self)
        ensures
            r == Self::stateless(),
    {
        Self { _types: PhantomData }
    }
}

} // verus!
