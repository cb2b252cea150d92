//! The wire form of the four protocol messages: a little-endian `u32`
//! variant tag, then the variant's fields in fixed-width little-endian
//! encoding; text goes as a `u64` byte length and its UTF-8 bytes. Bytes
//! after a complete message are ignored.
use crate::solution::{solution_bytes, Challenge, Solution};
use vstd::bytes::{
    lemma_auto_spec_u32_to_from_le_bytes, lemma_auto_spec_u64_to_from_le_bytes,
    spec_u32_from_le_bytes, spec_u32_to_le_bytes, spec_u64_from_le_bytes, spec_u64_to_le_bytes,
    u32_from_le_bytes, u32_to_le_bytes, u64_from_le_bytes, u64_to_le_bytes,
};
use vstd::prelude::*;
use vstd::slice::slice_subrange;
use vstd::utf8::{decode_utf8, encode_utf8, encode_utf8_decode_utf8, encode_utf8_valid_utf8, valid_utf8};

verus! {

pub const TAG_HELLO: u32 = 0;

pub const TAG_CHALLENGE: u32 = 1;

pub const TAG_SOLUTION: u32 = 2;

pub const TAG_WISDOM: u32 = 3;

#[derive(Debug, Clone, PartialEq, Eq)]
pub enum Message {
    Hello,
    Challenge(Challenge),
    Solution(Solution),
    Wisdom(String),
}

/// A message with its text seen as characters.
pub enum MessageView {
    Hello,
    Challenge(Challenge),
    Solution(Solution),
    Wisdom(Seq<char>),
}

impl View for Message {
    type V = MessageView;

    open spec fn view(&self) -> MessageView {
        match self {
            Message::Hello => MessageView::Hello,
            Message::Challenge(c) => MessageView::Challenge(*c),
            Message::Solution(s) => MessageView::Solution(*s),
            Message::Wisdom(t) => MessageView::Wisdom(t@),
        }
    }
}

/// A frame that holds no message: too short, an unknown tag, or text that
/// is not UTF-8.
#[derive(Debug, Clone, Copy, PartialEq, Eq, Structural)]
pub struct DecodeError;

/// The bytes a message is sent as.
pub open spec fn encoding(m: MessageView) -> Seq<u8> {
    match m {
        MessageView::Hello => spec_u32_to_le_bytes(TAG_HELLO),
        MessageView::Challenge(c) => spec_u32_to_le_bytes(TAG_CHALLENGE) + spec_u64_to_le_bytes(
            c.value,
        ) + seq![c.n_leading_zeros],
        MessageView::Solution(s) => spec_u32_to_le_bytes(TAG_SOLUTION) + solution_bytes(s),
        MessageView::Wisdom(t) => spec_u32_to_le_bytes(TAG_WISDOM) + spec_u64_to_le_bytes(
            encode_utf8(t).len() as u64,
        ) + encode_utf8(t),
    }
}

/// A message whose text length fits the length field.
pub open spec fn is_encodable(m: MessageView) -> bool {
    match m {
        MessageView::Wisdom(t) => encode_utf8(t).len() <= u64::MAX,
        _ => true,
    }
}

/// The message at the start of `b`, if there is one.
pub open spec fn parse(b: Seq<u8>) -> Option<MessageView> {
    if b.len() < 4 {
        None
    } else {
        let tag = spec_u32_from_le_bytes(b.subrange(0, 4));
        let rest = b.subrange(4, b.len() as int);
        if tag == TAG_HELLO {
            Some(MessageView::Hello)
        } else if tag == TAG_CHALLENGE {
            if rest.len() < 9 {
                None
            } else {
                Some(
                    MessageView::Challenge(
                        Challenge {
                            value: spec_u64_from_le_bytes(rest.subrange(0, 8)),
                            n_leading_zeros: rest[8],
                        },
                    ),
                )
            }
        } else if tag == TAG_SOLUTION {
            if rest.len() < 16 {
                None
            } else {
                Some(
                    MessageView::Solution(
                        Solution {
                            challenge: spec_u64_from_le_bytes(rest.subrange(0, 8)),
                            nonce: spec_u64_from_le_bytes(rest.subrange(8, 16)),
                        },
                    ),
                )
            }
        } else if tag == TAG_WISDOM {
            if rest.len() < 8 {
                None
            } else {
                let n = spec_u64_from_le_bytes(rest.subrange(0, 8));
                if rest.len() - 8 < n {
                    None
                } else {
                    let text = rest.subrange(8, 8 + n);
                    if valid_utf8(text) {
                        Some(MessageView::Wisdom(decode_utf8(text)))
                    } else {
                        None
                    }
                }
            }
        } else {
            None
        }
    }
}

/// Relies on `String::from_utf8`: it succeeds exactly on valid UTF-8, and the
/// string then holds the characters that the bytes encode.
#[verifier::external_body]
fn string_from_utf8(bytes: &[u8]) -> (r: Option<String>)
    ensures
        r is Some <==> valid_utf8(bytes@),
        r is Some ==> r->0@ == decode_utf8(bytes@),
{
    String::from_utf8(bytes.to_vec()).ok()
}

impl Message {
    /// The frame that carries this message.
    pub fn encode(&self) -> (r: Vec<u8>)
        ensures
            r@ == encoding(self@),
            is_encodable(self@),
    {
        match self {
            Message::Hello => u32_to_le_bytes(TAG_HELLO),
            Message::Challenge(c) => {
                let mut b = u32_to_le_bytes(TAG_CHALLENGE);
                let value = u64_to_le_bytes(c.value);
                b.extend_from_slice(value.as_slice());
                b.push(c.n_leading_zeros);
                b
            },
            Message::Solution(s) => {
                let mut b = u32_to_le_bytes(TAG_SOLUTION);
                let fields = s.to_bytes();
                b.extend_from_slice(fields.as_slice());
                b
            },
            Message::Wisdom(t) => {
                let text = t.as_str().as_bytes();
                let n = text.len();
                let mut b = u32_to_le_bytes(TAG_WISDOM);
                let len = u64_to_le_bytes(n as u64);
                b.extend_from_slice(len.as_slice());
                b.extend_from_slice(text);
                b
            },
        }
    }

    /// The message at the start of a frame.
    pub fn decode(bytes: &[u8]) -> (r: Result<Message, DecodeError>)
        ensures
            match parse(bytes@) {
                Some(m) => r is Ok && r->Ok_0@ == m,
                None => r is Err,
            },
    {
        let n = bytes.len();
        if n < 4 {
            return Err(DecodeError);
        }
        let tag = u32_from_le_bytes(slice_subrange(bytes, 0, 4));
        let rest = slice_subrange(bytes, 4, n);
        let m = rest.len();
        if tag == TAG_HELLO {
            Ok(Message::Hello)
        } else if tag == TAG_CHALLENGE {
            if m < 9 {
                return Err(DecodeError);
            }
            let value = u64_from_le_bytes(slice_subrange(rest, 0, 8));
            Ok(Message::Challenge(Challenge { value, n_leading_zeros: rest[8] }))
        } else if tag == TAG_SOLUTION {
            if m < 16 {
                return Err(DecodeError);
            }
            let challenge = u64_from_le_bytes(slice_subrange(rest, 0, 8));
            let nonce = u64_from_le_bytes(slice_subrange(rest, 8, 16));
            Ok(Message::Solution(Solution { challenge, nonce }))
        } else if tag == TAG_WISDOM {
            if m < 8 {
                return Err(DecodeError);
            }
            let len = u64_from_le_bytes(slice_subrange(rest, 0, 8));
            if ((m - 8) as u64) < len {
                return Err(DecodeError);
            }
            let text = slice_subrange(rest, 8, 8 + len as usize);
            match string_from_utf8(text) {
                Some(s) => Ok(Message::Wisdom(s)),
                None => Err(DecodeError),
            }
        } else {
            Err(DecodeError)
        }
    }
}

/// Decoding the encoding of a message gives the message back.
pub proof fn lemma_decode_encode(m: MessageView)
    requires
        is_encodable(m),
    ensures
        parse(encoding(m)) == Some(m),
{
    lemma_auto_spec_u32_to_from_le_bytes();
    lemma_auto_spec_u64_to_from_le_bytes();
    let b = encoding(m);
    match m {
        MessageView::Hello => {
            assert(b.subrange(0, 4) =~= spec_u32_to_le_bytes(TAG_HELLO));
        },
        MessageView::Challenge(c) => {
            assert(b.subrange(0, 4) =~= spec_u32_to_le_bytes(TAG_CHALLENGE));
            let rest = b.subrange(4, b.len() as int);
            assert(rest.subrange(0, 8) =~= spec_u64_to_le_bytes(c.value));
            assert(rest[8] == c.n_leading_zeros);
        },
        MessageView::Solution(s) => {
            assert(b.subrange(0, 4) =~= spec_u32_to_le_bytes(TAG_SOLUTION));
            let rest = b.subrange(4, b.len() as int);
            assert(rest.subrange(0, 8) =~= spec_u64_to_le_bytes(s.challenge));
            assert(rest.subrange(8, 16) =~= spec_u64_to_le_bytes(s.nonce));
        },
        MessageView::Wisdom(t) => {
            assert(b.subrange(0, 4) =~= spec_u32_to_le_bytes(TAG_WISDOM));
            let bytes = encode_utf8(t);
            let rest = b.subrange(4, b.len() as int);
            assert(rest.subrange(0, 8) =~= spec_u64_to_le_bytes(bytes.len() as u64));
            assert(rest.subrange(8, 8 + bytes.len() as int) =~= bytes);
            encode_utf8_valid_utf8(t);
            encode_utf8_decode_utf8(t);
        },
    }
}

} // verus!
