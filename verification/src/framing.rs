//! Reading frames back from bytes.
//!
//! A reader that pulls from a stream needs exactly two reads for a frame:
//! the fixed header, whose size [`payload_size`] gives, and the text that
//! follows it, whose size [`body_size`] gives. [`parse_game_message`] then
//! turns the assembled frame into a message.

use crate::message::{
    be_value, body_len, decode, decode_text, header_size, parsed_view, u32_from_bytes,
    GameMessage, MessageView, ProtocolError, MESSAGE_KINDS,
};
use crate::message::{be_bytes, encode_text, text_fits};
use crate::text::{lemma_text_of_encode, string_from_bytes};
use vstd::prelude::*;
use vstd::slice::*;
use vstd::utf8::encode_utf8;

verus! {

/// The size of the fixed header that follows the tag byte `id`.
pub fn payload_size(id: u8) -> (r: Result<usize, ProtocolError>)
    ensures
        id < MESSAGE_KINDS ==> r == Ok::<usize, ProtocolError>(header_size(id) as usize),
        id >= MESSAGE_KINDS ==> r == Err::<usize, ProtocolError>(ProtocolError::UnknownTag(id)),
{
    match id {
        0 => Ok(8),
        1 => Ok(4),
        2 => Ok(4),
        3 => Ok(4),
        4 => Ok(5),
        5 => Ok(4),
        6 => Ok(0),
        7 => Ok(8),
        8 => Ok(16),
        9 => Ok(16),
        _ => Err(ProtocolError::UnknownTag(id)),
    }
}

/// Reads the big-endian integer at offset `at`.
fn read_u32(stream: &[u8], at: usize) -> (x: u32)
    requires
        at + 4 <= stream.len(),
    ensures
        x == be_value(stream@, at as int),
{
    u32_from_bytes(slice_subrange(stream, at, at + 4))
}

/// The number of text bytes that follow the header of a frame with tag `id`.
pub fn body_size(id: u8, header: &[u8]) -> (n: u32)
    requires
        id < MESSAGE_KINDS,
        header.len() == header_size(id),
    ensures
        n == body_len(id, header@),
{
    if id == 2 || id == 3 || id == 5 {
        read_u32(header, 0)
    } else if id == 4 && header[0] != 0 {
        read_u32(header, 1)
    } else {
        0
    }
}

/// Reads the text field whose length prefix starts at `at`, and returns it
/// with the offset just behind it.
fn read_string(stream: &[u8], at: usize) -> (r: Result<(String, usize), ProtocolError>)
    requires
        at + 4 <= stream.len(),
    ensures
        match decode_text(stream@, at as int) {
            Ok((text, end)) => r matches Ok((s, used)) && s@ == text && used == end,
            Err(e) => r == Err::<(String, usize), ProtocolError>(e),
        },
{
    let declared = read_u32(stream, at);
    let start = at + 4;
    let available = stream.len() - start;
    if (available as u64) < (declared as u64) {
        return Err(ProtocolError::MalformedLength);
    }
    let len = declared as usize;
    let bytes = slice_to_vec(slice_subrange(stream, start, start + len));
    match string_from_bytes(bytes) {
        Some(s) => Ok((s, start + len)),
        None => Err(ProtocolError::MalformedText),
    }
}

/// Reads the frame at the start of `stream`: the message, and how many bytes
/// the frame occupies. What lies behind the frame is left for the next read.
pub fn parse_game_message(stream: &[u8]) -> (r: Result<(GameMessage, usize), ProtocolError>)
    ensures
        parsed_view(r) == decode(stream@),
{
    if stream.len() == 0 {
        return Err(ProtocolError::MalformedLength);
    }
    let id = stream[0];
    let s = match payload_size(id) {
        Ok(s) => s,
        Err(e) => {
            return Err(e);
        },
    };
    if stream.len() - 1 < s {
        return Err(ProtocolError::MalformedLength);
    }
    match id {
        0 => Ok((GameMessage::Draw(read_u32(stream, 1), read_u32(stream, 5)), 9)),
        1 => Ok((GameMessage::SetTimeRemaining(read_u32(stream, 1)), 5)),
        2 => match read_string(stream, 1) {
            Ok((text, used)) => Ok((GameMessage::SetWordSkeleton(text), used)),
            Err(e) => Err(e),
        },
        3 => match read_string(stream, 1) {
            Ok((text, used)) => Ok((GameMessage::Guess(text), used)),
            Err(e) => Err(e),
        },
        4 => {
            if stream[1] != 0 {
                match read_string(stream, 2) {
                    Ok((text, used)) => Ok((GameMessage::GuessResult(Some(text)), used)),
                    Err(e) => Err(e),
                }
            } else {
                Ok((GameMessage::GuessResult(None), 6))
            }
        },
        5 => match read_string(stream, 1) {
            Ok((text, used)) => Ok((GameMessage::GameOver(text), used)),
            Err(e) => Err(e),
        },
        6 => Ok((GameMessage::SwapRoles, 1)),
        7 => Ok((GameMessage::Erase(read_u32(stream, 1), read_u32(stream, 5)), 9)),
        8 => Ok(
            (
                GameMessage::DrawLine(
                    read_u32(stream, 1),
                    read_u32(stream, 5),
                    read_u32(stream, 9),
                    read_u32(stream, 13),
                ),
                17,
            ),
        ),
        _ => Ok(
            (
                GameMessage::EraseLine(
                    read_u32(stream, 1),
                    read_u32(stream, 5),
                    read_u32(stream, 9),
                    read_u32(stream, 13),
                ),
                17,
            ),
        ),
    }
}

/// An integer is read back from wherever its big-endian bytes stand.
pub proof fn lemma_be_value_at(bytes: Seq<u8>, at: int, x: u32)
    requires
        0 <= at,
        at + 4 <= bytes.len(),
        bytes.subrange(at, at + 4) == be_bytes(x),
    ensures
        be_value(bytes, at) == x,
{
    let part = bytes.subrange(at, at + 4);
    assert(part[0] == bytes[at] && part[1] == bytes[at + 1] && part[2] == bytes[at + 2] && part[3]
        == bytes[at + 3]);
    assert(x == (x / 0x100_0000) * 0x100_0000 + (x / 0x1_0000 % 0x100) * 0x1_0000 + (x / 0x100
        % 0x100) * 0x100 + x % 0x100);
}

/// A text field that fits its length prefix is read back from wherever it stands.
pub proof fn lemma_decode_text_at(bytes: Seq<u8>, at: int, text: Seq<char>)
    requires
        0 <= at,
        text_fits(text),
        at + encode_text(text).len() <= bytes.len(),
        bytes.subrange(at, at + encode_text(text).len()) == encode_text(text),
    ensures
        decode_text(bytes, at) == Ok::<(Seq<char>, int), ProtocolError>(
            (text, at + encode_text(text).len()),
        ),
{
    let raw = encode_utf8(text);
    let field = encode_text(text);
    assert(field.len() == 4 + raw.len());
    assert(bytes.subrange(at, at + 4) =~= field.subrange(0, 4));
    assert(field.subrange(0, 4) =~= be_bytes(raw.len() as u32));
    lemma_be_value_at(bytes, at, raw.len() as u32);
    assert(bytes.subrange(at + 4, at + 4 + raw.len() as int) =~= field.subrange(4, 4 + raw.len() as int));
    assert(field.subrange(4, 4 + raw.len() as int) =~= raw);
    lemma_text_of_encode(text);
}

proof fn lemma_round_trip_numbers(m: MessageView, rest: Seq<u8>)
    requires
        m is Draw || m is Erase || m is SetTimeRemaining || m is DrawLine || m is EraseLine,
    ensures
        decode(m.encode() + rest) == Ok::<(MessageView, int), ProtocolError>(
            (m, m.encode().len() as int),
        ),
{
    let bytes = m.encode() + rest;
    assert(bytes[0] == m.tag());
    match m {
        MessageView::Draw(x, y) => {
            assert(bytes.subrange(1, 5) =~= be_bytes(x));
            assert(bytes.subrange(5, 9) =~= be_bytes(y));
            lemma_be_value_at(bytes, 1, x);
            lemma_be_value_at(bytes, 5, y);
        },
        MessageView::Erase(x, y) => {
            assert(bytes.subrange(1, 5) =~= be_bytes(x));
            assert(bytes.subrange(5, 9) =~= be_bytes(y));
            lemma_be_value_at(bytes, 1, x);
            lemma_be_value_at(bytes, 5, y);
        },
        MessageView::SetTimeRemaining(t) => {
            assert(bytes.subrange(1, 5) =~= be_bytes(t));
            lemma_be_value_at(bytes, 1, t);
        },
        MessageView::DrawLine(x1, y1, x2, y2) => {
            assert(bytes.subrange(1, 5) =~= be_bytes(x1));
            assert(bytes.subrange(5, 9) =~= be_bytes(y1));
            assert(bytes.subrange(9, 13) =~= be_bytes(x2));
            assert(bytes.subrange(13, 17) =~= be_bytes(y2));
            lemma_be_value_at(bytes, 1, x1);
            lemma_be_value_at(bytes, 5, y1);
            lemma_be_value_at(bytes, 9, x2);
            lemma_be_value_at(bytes, 13, y2);
        },
        MessageView::EraseLine(x1, y1, x2, y2) => {
            assert(bytes.subrange(1, 5) =~= be_bytes(x1));
            assert(bytes.subrange(5, 9) =~= be_bytes(y1));
            assert(bytes.subrange(9, 13) =~= be_bytes(x2));
            assert(bytes.subrange(13, 17) =~= be_bytes(y2));
            lemma_be_value_at(bytes, 1, x1);
            lemma_be_value_at(bytes, 5, y1);
            lemma_be_value_at(bytes, 9, x2);
            lemma_be_value_at(bytes, 13, y2);
        },
        _ => {},
    }
}

proof fn lemma_round_trip_text(m: MessageView, rest: Seq<u8>)
    requires
        m is SetWordSkeleton || m is Guess || m is GameOver || m is GuessResult,
        m.encodable(),
    ensures
        decode(m.encode() + rest) == Ok::<(MessageView, int), ProtocolError>(
            (m, m.encode().len() as int),
        ),
{
    let bytes = m.encode() + rest;
    assert(bytes[0] == m.tag());
    match m {
        MessageView::SetWordSkeleton(s) => {
            assert(bytes.subrange(1, 1 + encode_text(s).len() as int) =~= encode_text(s));
            lemma_decode_text_at(bytes, 1, s);
        },
        MessageView::Guess(s) => {
            assert(bytes.subrange(1, 1 + encode_text(s).len() as int) =~= encode_text(s));
            lemma_decode_text_at(bytes, 1, s);
        },
        MessageView::GameOver(s) => {
            assert(bytes.subrange(1, 1 + encode_text(s).len() as int) =~= encode_text(s));
            lemma_decode_text_at(bytes, 1, s);
        },
        MessageView::GuessResult(Some(s)) => {
            assert(bytes[1] == 1);
            assert(bytes.subrange(2, 2 + encode_text(s).len() as int) =~= encode_text(s));
            lemma_decode_text_at(bytes, 2, s);
        },
        MessageView::GuessResult(None) => {
            assert(bytes[1] == 0);
        },
        _ => {},
    }
}

/// Every message whose texts fit their length prefixes is read back from its
/// own frame, whatever follows the frame; the read consumes the frame exactly.
pub proof fn lemma_decode_encode(m: MessageView, rest: Seq<u8>)
    requires
        m.encodable(),
    ensures
        decode(m.encode() + rest) == Ok::<(MessageView, int), ProtocolError>(
            (m, m.encode().len() as int),
        ),
{
    if m is SwapRoles {
        assert((m.encode() + rest)[0] == 6);
    } else if m is SetWordSkeleton || m is Guess || m is GameOver || m is GuessResult {
        lemma_round_trip_text(m, rest);
    } else {
        lemma_round_trip_numbers(m, rest);
    }
}

/// The size of the frame that begins with the given tag and header.
pub open spec fn frame_size(bytes: Seq<u8>) -> int {
    1 + header_size(bytes[0]) + body_len(bytes[0], bytes.subrange(1, 1 + header_size(bytes[0])))
}

/// Two reads bring in a whole frame: once tag and fixed header are there,
/// they tell the size of the frame; a read of the frame fails for want of
/// bytes exactly when fewer than that are there, and a read that succeeds
/// consumes exactly that many.
pub proof fn lemma_two_reads(bytes: Seq<u8>)
    requires
        bytes.len() > 0,
        bytes[0] < MESSAGE_KINDS,
        bytes.len() >= 1 + header_size(bytes[0]),
    ensures
        match decode(bytes) {
            Ok((_, used)) => used == frame_size(bytes) && frame_size(bytes) <= bytes.len(),
            Err(e) => if bytes.len() < frame_size(bytes) {
                e == ProtocolError::MalformedLength
            } else {
                e == ProtocolError::MalformedText
            },
        },
{
    let tag = bytes[0];
    let header = bytes.subrange(1, 1 + header_size(tag));
    if tag == 2 || tag == 3 || tag == 5 {
        assert(header[0] == bytes[1] && header[1] == bytes[2] && header[2] == bytes[3] && header[3]
            == bytes[4]);
    } else if tag == 4 {
        assert(header[0] == bytes[1] && header[1] == bytes[2] && header[2] == bytes[3] && header[3]
            == bytes[4] && header[4] == bytes[5]);
    }
}

} // verus!
