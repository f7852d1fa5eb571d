//! The wire vocabulary of the game and its binary framing.
//!
//! A frame is one tag byte, a fixed-size header whose size depends on the tag
//! alone, and, for messages that carry text, the UTF-8 bytes of that text.
//! Integers are 32-bit, unsigned and big-endian.

use crate::text::text_of;
use vstd::prelude::*;
use vstd::string::*;
use vstd::utf8::encode_utf8;

verus! {

/// A message exchanged between the two peers.
#[derive(Debug, Clone, PartialEq, Eq)]
pub enum GameMessage {
    Draw(u32, u32),
    SetTimeRemaining(u32),
    SetWordSkeleton(String),
    Guess(String),
    GuessResult(Option<String>),
    GameOver(String),
    SwapRoles,
    Erase(u32, u32),
    DrawLine(u32, u32, u32, u32),
    EraseLine(u32, u32, u32, u32),
}

/// The mathematical content of a [`GameMessage`]: texts are character sequences.
pub enum MessageView {
    Draw(u32, u32),
    SetTimeRemaining(u32),
    SetWordSkeleton(Seq<char>),
    Guess(Seq<char>),
    GuessResult(Option<Seq<char>>),
    GameOver(Seq<char>),
    SwapRoles,
    Erase(u32, u32),
    DrawLine(u32, u32, u32, u32),
    EraseLine(u32, u32, u32, u32),
}

impl View for GameMessage {
    type V = MessageView;

    open spec fn view(&self) -> MessageView {
        match *self {
            GameMessage::Draw(x, y) => MessageView::Draw(x, y),
            GameMessage::SetTimeRemaining(t) => MessageView::SetTimeRemaining(t),
            GameMessage::SetWordSkeleton(s) => MessageView::SetWordSkeleton(s@),
            GameMessage::Guess(s) => MessageView::Guess(s@),
            GameMessage::GuessResult(r) => MessageView::GuessResult(
                match r {
                    Some(s) => Some(s@),
                    None => None,
                },
            ),
            GameMessage::GameOver(s) => MessageView::GameOver(s@),
            GameMessage::SwapRoles => MessageView::SwapRoles,
            GameMessage::Erase(x, y) => MessageView::Erase(x, y),
            GameMessage::DrawLine(x1, y1, x2, y2) => MessageView::DrawLine(x1, y1, x2, y2),
            GameMessage::EraseLine(x1, y1, x2, y2) => MessageView::EraseLine(x1, y1, x2, y2),
        }
    }
}

/// Why a frame could not be read.
#[derive(Debug, Clone, Copy, PartialEq, Eq, Structural)]
pub enum ProtocolError {
    /// The tag byte names no message.
    UnknownTag(u8),
    /// The data ends before the frame that its tag and length prefix announce.
    MalformedLength,
    /// The bytes of a text field are not well-formed UTF-8.
    MalformedText,
}

/// The number of message kinds; tags are `0 .. MESSAGE_KINDS`.
pub const MESSAGE_KINDS: u8 = 10;

/// The four big-endian bytes of `x`, most significant first.
pub open spec fn be_bytes(x: u32) -> Seq<u8> {
    seq![
        (x / 0x100_0000) as u8,
        (x / 0x1_0000 % 0x100) as u8,
        (x / 0x100 % 0x100) as u8,
        (x % 0x100) as u8,
    ]
}

/// The integer whose big-endian bytes are the four bytes of `bytes` that start at `at`.
pub open spec fn be_value(bytes: Seq<u8>, at: int) -> u32 {
    (bytes[at] * 0x100_0000 + bytes[at + 1] * 0x1_0000 + bytes[at + 2] * 0x100 + bytes[at
        + 3]) as u32
}

/// Reading back the big-endian bytes of an integer gives the integer.
pub proof fn lemma_be_round_trip(x: u32, before: Seq<u8>, after: Seq<u8>)
    ensures
        be_value(before + be_bytes(x) + after, before.len() as int) == x,
{
    let all = before + be_bytes(x) + after;
    let at = before.len() as int;
    assert(all[at] == be_bytes(x)[0]);
    assert(all[at + 1] == be_bytes(x)[1]);
    assert(all[at + 2] == be_bytes(x)[2]);
    assert(all[at + 3] == be_bytes(x)[3]);
    let b0 = (x / 0x100_0000) as u8;
    let b1 = (x / 0x1_0000 % 0x100) as u8;
    let b2 = (x / 0x100 % 0x100) as u8;
    let b3 = (x % 0x100) as u8;
    assert(b0 == x / 0x100_0000 && b1 == x / 0x1_0000 % 0x100 && b2 == x / 0x100 % 0x100 && b3
        == x % 0x100);
    assert(x == (x / 0x100_0000) * 0x100_0000 + (x / 0x1_0000 % 0x100) * 0x1_0000 + (x / 0x100
        % 0x100) * 0x100 + x % 0x100);
}

/// Splits an integer into its four big-endian bytes.
pub fn u32_to_bytes(x: u32) -> (bytes: [u8; 4])
    ensures
        bytes@ == be_bytes(x),
{
    let b0: u32 = (x >> 24) & 0xff;
    let b1: u32 = (x >> 16) & 0xff;
    let b2: u32 = (x >> 8) & 0xff;
    let b3: u32 = x & 0xff;
    assert(b0 == x / 0x100_0000 && b0 < 0x100) by (bit_vector)
        requires
            b0 == (x >> 24) & 0xff,
    ;
    assert(b1 == x / 0x1_0000 % 0x100 && b1 < 0x100) by (bit_vector)
        requires
            b1 == (x >> 16) & 0xff,
    ;
    assert(b2 == x / 0x100 % 0x100 && b2 < 0x100) by (bit_vector)
        requires
            b2 == (x >> 8) & 0xff,
    ;
    assert(b3 == x % 0x100 && b3 < 0x100) by (bit_vector)
        requires
            b3 == x & 0xff,
    ;
    let bytes = [b0 as u8, b1 as u8, b2 as u8, b3 as u8];
    assert(bytes@ =~= be_bytes(x));
    bytes
}

/// Assembles an integer from the first four bytes of `bytes`, big-endian.
pub fn u32_from_bytes(bytes: &[u8]) -> (x: u32)
    requires
        bytes@.len() >= 4,
    ensures
        x == be_value(bytes@, 0),
{
    let b0: u32 = bytes[0] as u32;
    let b1: u32 = bytes[1] as u32;
    let b2: u32 = bytes[2] as u32;
    let b3: u32 = bytes[3] as u32;
    let x: u32 = (b0 << 24) | (b1 << 16) | (b2 << 8) | b3;
    assert(x == b0 * 0x100_0000 + b1 * 0x1_0000 + b2 * 0x100 + b3) by (bit_vector)
        requires
            x == (b0 << 24) | (b1 << 16) | (b2 << 8) | b3,
            b0 < 0x100,
            b1 < 0x100,
            b2 < 0x100,
            b3 < 0x100,
    ;
    x
}

/// A text field on the wire: the byte length of its UTF-8 form as a 32-bit
/// prefix (reduced modulo 2^32), then the UTF-8 bytes themselves.
pub open spec fn encode_text(text: Seq<char>) -> Seq<u8> {
    be_bytes(encode_utf8(text).len() as u32) + encode_utf8(text)
}

/// Whether the UTF-8 form of `text` is short enough for its length prefix.
pub open spec fn text_fits(text: Seq<char>) -> bool {
    encode_utf8(text).len() <= u32::MAX
}

impl MessageView {
    /// The tag byte that opens the frame of this message.
    pub open spec fn tag(self) -> u8 {
        match self {
            MessageView::Draw(..) => 0,
            MessageView::SetTimeRemaining(..) => 1,
            MessageView::SetWordSkeleton(..) => 2,
            MessageView::Guess(..) => 3,
            MessageView::GuessResult(..) => 4,
            MessageView::GameOver(..) => 5,
            MessageView::SwapRoles => 6,
            MessageView::Erase(..) => 7,
            MessageView::DrawLine(..) => 8,
            MessageView::EraseLine(..) => 9,
        }
    }

    /// Everything of the frame that follows the tag byte.
    pub open spec fn payload(self) -> Seq<u8> {
        match self {
            MessageView::Draw(x, y) => be_bytes(x) + be_bytes(y),
            MessageView::SetTimeRemaining(t) => be_bytes(t),
            MessageView::SetWordSkeleton(s) => encode_text(s),
            MessageView::Guess(s) => encode_text(s),
            MessageView::GuessResult(Some(s)) => seq![1u8] + encode_text(s),
            MessageView::GuessResult(None) => seq![0u8] + be_bytes(0),
            MessageView::GameOver(s) => encode_text(s),
            MessageView::SwapRoles => Seq::empty(),
            MessageView::Erase(x, y) => be_bytes(x) + be_bytes(y),
            MessageView::DrawLine(x1, y1, x2, y2) => be_bytes(x1) + be_bytes(y1) + be_bytes(x2)
                + be_bytes(y2),
            MessageView::EraseLine(x1, y1, x2, y2) => be_bytes(x1) + be_bytes(y1) + be_bytes(x2)
                + be_bytes(y2),
        }
    }

    /// The frame of this message.
    pub open spec fn encode(self) -> Seq<u8> {
        seq![self.tag()] + self.payload()
    }

    /// Whether every text of the message fits its length prefix, so that
    /// the frame can be read back.
    pub open spec fn encodable(self) -> bool {
        match self {
            MessageView::SetWordSkeleton(s) => text_fits(s),
            MessageView::Guess(s) => text_fits(s),
            MessageView::GuessResult(Some(s)) => text_fits(s),
            MessageView::GameOver(s) => text_fits(s),
            _ => true,
        }
    }
}

/// The size of the fixed header that follows a tag byte.
pub open spec fn header_size(tag: u8) -> int {
    if tag == 0 || tag == 7 {
        8
    } else if tag == 4 {
        5
    } else if tag == 6 {
        0
    } else if tag == 8 || tag == 9 {
        16
    } else {
        4
    }
}

/// Reads a text field whose length prefix starts at `at`: the text and the
/// offset just behind it.
pub open spec fn decode_text(bytes: Seq<u8>, at: int) -> Result<(Seq<char>, int), ProtocolError> {
    let len = be_value(bytes, at) as int;
    let start = at + 4;
    if bytes.len() - start < len {
        Err(ProtocolError::MalformedLength)
    } else {
        match text_of(bytes.subrange(start, start + len)) {
            Some(text) => Ok((text, start + len)),
            None => Err(ProtocolError::MalformedText),
        }
    }
}

/// Reads the frame at the start of `bytes`: the message and the number of
/// bytes that the frame occupies. Bytes behind the frame are not looked at.
pub open spec fn decode(bytes: Seq<u8>) -> Result<(MessageView, int), ProtocolError> {
    if bytes.len() == 0 {
        Err(ProtocolError::MalformedLength)
    } else if bytes[0] >= MESSAGE_KINDS {
        Err(ProtocolError::UnknownTag(bytes[0]))
    } else if bytes.len() - 1 < header_size(bytes[0]) {
        Err(ProtocolError::MalformedLength)
    } else if bytes[0] == 0 {
        Ok((MessageView::Draw(be_value(bytes, 1), be_value(bytes, 5)), 9))
    } else if bytes[0] == 1 {
        Ok((MessageView::SetTimeRemaining(be_value(bytes, 1)), 5))
    } else if bytes[0] == 2 {
        match decode_text(bytes, 1) {
            Ok((text, end)) => Ok((MessageView::SetWordSkeleton(text), end)),
            Err(e) => Err(e),
        }
    } else if bytes[0] == 3 {
        match decode_text(bytes, 1) {
            Ok((text, end)) => Ok((MessageView::Guess(text), end)),
            Err(e) => Err(e),
        }
    } else if bytes[0] == 4 {
        if bytes[1] == 0 {
            Ok((MessageView::GuessResult(None), 6))
        } else {
            match decode_text(bytes, 2) {
                Ok((text, end)) => Ok((MessageView::GuessResult(Some(text)), end)),
                Err(e) => Err(e),
            }
        }
    } else if bytes[0] == 5 {
        match decode_text(bytes, 1) {
            Ok((text, end)) => Ok((MessageView::GameOver(text), end)),
            Err(e) => Err(e),
        }
    } else if bytes[0] == 6 {
        Ok((MessageView::SwapRoles, 1))
    } else if bytes[0] == 7 {
        Ok((MessageView::Erase(be_value(bytes, 1), be_value(bytes, 5)), 9))
    } else if bytes[0] == 8 {
        Ok(
            (
                MessageView::DrawLine(
                    be_value(bytes, 1),
                    be_value(bytes, 5),
                    be_value(bytes, 9),
                    be_value(bytes, 13),
                ),
                17,
            ),
        )
    } else {
        Ok(
            (
                MessageView::EraseLine(
                    be_value(bytes, 1),
                    be_value(bytes, 5),
                    be_value(bytes, 9),
                    be_value(bytes, 13),
                ),
                17,
            ),
        )
    }
}

/// The number of bytes of text that follow the fixed header of a frame.
pub open spec fn body_len(tag: u8, header: Seq<u8>) -> int {
    if tag == 2 || tag == 3 || tag == 5 {
        be_value(header, 0) as int
    } else if tag == 4 && header[0] != 0 {
        be_value(header, 1) as int
    } else {
        0
    }
}

/// What a successful read returns, in the terms of [`decode`].
pub open spec fn parsed_view(r: Result<(GameMessage, usize), ProtocolError>) -> Result<
    (MessageView, int),
    ProtocolError,
> {
    match r {
        Ok((message, used)) => Ok((message@, used as int)),
        Err(e) => Err(e),
    }
}

/// Appends the big-endian bytes of `x`.
fn push_u32(bytes: &mut Vec<u8>, x: u32)
    ensures
        final(bytes)@ == old(bytes)@ + be_bytes(x),
{
    let b = u32_to_bytes(x);
    bytes.push(b[0]);
    bytes.push(b[1]);
    bytes.push(b[2]);
    bytes.push(b[3]);
    assert(bytes@ =~= old(bytes)@ + be_bytes(x));
}

/// Appends a text field: length prefix, then the UTF-8 bytes.
fn push_string(bytes: &mut Vec<u8>, s: &String)
    ensures
        final(bytes)@ == old(bytes)@ + encode_text(s@),
{
    let str_bytes = s.as_str().as_bytes();
    let len = str_bytes.len();
    push_u32(bytes, #[verifier::truncate] (len as u32));
    let ghost mid = bytes@;
    let mut i: usize = 0;
    while i < len
        invariant
            len == str_bytes@.len(),
            i <= len,
            bytes@ == mid + str_bytes@.subrange(0, i as int),
        decreases len - i,
    {
        bytes.push(str_bytes[i]);
        i += 1;
        assert(bytes@ =~= mid + str_bytes@.subrange(0, i as int));
    }
    assert(str_bytes@.subrange(0, len as int) =~= str_bytes@);
    assert(bytes@ =~= old(bytes)@ + encode_text(s@));
}

impl GameMessage {
    /// The tag byte of this message.
    pub fn id(&self) -> (tag: u8)
        ensures
            tag == self@.tag(),
            tag < MESSAGE_KINDS,
    {
        match self {
            GameMessage::Draw(_, _) => 0,
            GameMessage::SetTimeRemaining(_) => 1,
            GameMessage::SetWordSkeleton(_) => 2,
            GameMessage::Guess(_) => 3,
            GameMessage::GuessResult(_) => 4,
            GameMessage::GameOver(_) => 5,
            GameMessage::SwapRoles => 6,
            GameMessage::Erase(_, _) => 7,
            GameMessage::DrawLine(_, _, _, _) => 8,
            GameMessage::EraseLine(_, _, _, _) => 9,
        }
    }

    /// Writes the frame of this message at the end of the outgoing bytes.
    pub fn send(&self, stream: &mut Vec<u8>)
        ensures
            final(stream)@ == old(stream)@ + self@.encode(),
    {
        stream.push(self.id());
        let ghost start = stream@;
        match self {
            GameMessage::Draw(x, y) => {
                push_u32(stream, *x);
                push_u32(stream, *y);
            },
            GameMessage::SetTimeRemaining(t) => {
                push_u32(stream, *t);
            },
            GameMessage::SetWordSkeleton(s) => {
                push_string(stream, s);
            },
            GameMessage::Guess(s) => {
                push_string(stream, s);
            },
            GameMessage::GuessResult(res) => {
                if let Some(word) = res {
                    stream.push(1);
                    push_string(stream, word);
                } else {
                    stream.push(0);
                    push_u32(stream, 0);
                }
            },
            GameMessage::GameOver(s) => {
                push_string(stream, s);
            },
            GameMessage::SwapRoles => {},
            GameMessage::Erase(x, y) => {
                push_u32(stream, *x);
                push_u32(stream, *y);
            },
            GameMessage::DrawLine(x1, y1, x2, y2) => {
                push_u32(stream, *x1);
                push_u32(stream, *y1);
                push_u32(stream, *x2);
                push_u32(stream, *y2);
            },
            GameMessage::EraseLine(x1, y1, x2, y2) => {
                push_u32(stream, *x1);
                push_u32(stream, *y1);
                push_u32(stream, *x2);
                push_u32(stream, *y2);
            },
        }
        assert(stream@ =~= start + self@.payload());
        assert(stream@ =~= old(stream)@ + self@.encode());
    }

    /// The frame of this message as bytes of its own.
    pub fn to_bytes(&self) -> (bytes: Vec<u8>)
        ensures
            bytes@ == self@.encode(),
    {
        let mut bytes: Vec<u8> = Vec::new();
        self.send(&mut bytes);
        assert(bytes@ =~= self@.encode());
        bytes
    }
}

} // verus!
