//! The binary wire protocol: a tag byte followed by fixed-width fields.
//!
//! Every field is 4 bytes, little-endian: coordinates are IEEE-754
//! single-precision bit patterns, identifiers are unsigned integers.  Once
//! the tag is known the remaining byte count is fixed, so no length prefix
//! is needed.  Bytes beyond a message's fixed width are ignored by `decode`:
//! a transport frame carries exactly one message.

use vstd::prelude::*;
use vstd::bytes::*;
use vstd::slice::slice_subrange;

verus! {

/// Wire tag of `SpawnFood`.
pub const TAG_SPAWN_FOOD: u8 = 0;

/// Wire tag of `NewPlayer`.
pub const TAG_NEW_PLAYER: u8 = 1;

/// Wire tag of `MovePlayer`.
pub const TAG_MOVE_PLAYER: u8 = 2;

/// Wire tag of `Start`.
pub const TAG_START: u8 = 3;

/// A protocol message.  Coordinate fields hold IEEE-754 single-precision
/// bit patterns; `uid` fields hold plain unsigned integers.
#[derive(Clone, Copy, PartialEq, Eq, Structural, Debug)]
pub enum Message {
    /// A food pellet at (x, y).  Server-authored, carries no identity.
    SpawnFood(u32, u32),
    /// Announces the player `uid` at (x, y) to peers.
    NewPlayer(u32, u32, u32),
    /// A directional force vector (dx, dy) from player `uid`.
    MovePlayer(u32, u32, u32),
    /// Sent privately to a newly connected client, carrying its own uid.
    Start(u32, u32, u32),
}

impl Message {
    /// The author's uid, for every variant but `SpawnFood`.
    pub open spec fn spec_uid(self) -> Option<u32> {
        match self {
            Message::SpawnFood(_, _) => None,
            Message::NewPlayer(_, _, uid) => Some(uid),
            Message::MovePlayer(_, _, uid) => Some(uid),
            Message::Start(_, _, uid) => Some(uid),
        }
    }

    /// The author's uid, for every variant but `SpawnFood`.
    pub fn uid(&self) -> (r: Option<u32>)
        ensures
            r == self.spec_uid(),
    {
        match self {
            Message::NewPlayer(_, _, uid) => Some(*uid),
            Message::MovePlayer(_, _, uid) => Some(*uid),
            Message::Start(_, _, uid) => Some(*uid),
            Message::SpawnFood(_, _) => None,
        }
    }

    /// The message's wire tag.
    pub open spec fn spec_tag(self) -> u8 {
        match self {
            Message::SpawnFood(_, _) => TAG_SPAWN_FOOD,
            Message::NewPlayer(_, _, _) => TAG_NEW_PLAYER,
            Message::MovePlayer(_, _, _) => TAG_MOVE_PLAYER,
            Message::Start(_, _, _) => TAG_START,
        }
    }
}

/// Why a buffer failed to decode.
#[derive(Clone, Copy, PartialEq, Eq, Structural, Debug)]
pub enum DecodeError {
    /// The buffer is shorter than the tag's required field width (or empty).
    Truncated,
    /// The tag byte names no known message variant.
    UnknownTag,
}

/// Whether a tag byte names a message variant.
pub open spec fn spec_tag_known(tag: u8) -> bool {
    tag == TAG_SPAWN_FOOD || tag == TAG_NEW_PLAYER || tag == TAG_MOVE_PLAYER || tag == TAG_START
}

/// The full wire width of a message with the given (known) tag:
/// the tag byte plus its fixed-width fields.
pub open spec fn spec_wire_len(tag: u8) -> int {
    if tag == TAG_SPAWN_FOOD {
        9
    } else {
        13
    }
}

/// The encoding of a message: its tag byte, then each field in
/// little-endian order.
pub open spec fn spec_encode(m: Message) -> Seq<u8> {
    match m {
        Message::SpawnFood(x, y) => seq![TAG_SPAWN_FOOD] + spec_u32_to_le_bytes(x)
            + spec_u32_to_le_bytes(y),
        Message::NewPlayer(x, y, uid) => seq![TAG_NEW_PLAYER] + spec_u32_to_le_bytes(x)
            + spec_u32_to_le_bytes(y) + spec_u32_to_le_bytes(uid),
        Message::MovePlayer(dx, dy, uid) => seq![TAG_MOVE_PLAYER] + spec_u32_to_le_bytes(dx)
            + spec_u32_to_le_bytes(dy) + spec_u32_to_le_bytes(uid),
        Message::Start(x, y, uid) => seq![TAG_START] + spec_u32_to_le_bytes(x)
            + spec_u32_to_le_bytes(y) + spec_u32_to_le_bytes(uid),
    }
}

/// What `decode` returns on a byte sequence: the message whose tag and
/// fields the sequence carries; `Truncated` on a buffer shorter than the
/// tag's width; `UnknownTag` on an unrecognized tag byte.
pub open spec fn spec_decode(s: Seq<u8>) -> Result<Message, DecodeError> {
    if s.len() < 1 {
        Err(DecodeError::Truncated)
    } else if !spec_tag_known(s[0]) {
        Err(DecodeError::UnknownTag)
    } else if s.len() < spec_wire_len(s[0]) {
        Err(DecodeError::Truncated)
    } else {
        let a = spec_u32_from_le_bytes(s.subrange(1, 5));
        let b = spec_u32_from_le_bytes(s.subrange(5, 9));
        if s[0] == TAG_SPAWN_FOOD {
            Ok(Message::SpawnFood(a, b))
        } else {
            let c = spec_u32_from_le_bytes(s.subrange(9, 13));
            if s[0] == TAG_NEW_PLAYER {
                Ok(Message::NewPlayer(a, b, c))
            } else if s[0] == TAG_MOVE_PLAYER {
                Ok(Message::MovePlayer(a, b, c))
            } else {
                Ok(Message::Start(a, b, c))
            }
        }
    }
}

/// Encode a message for the wire.
pub fn encode(m: &Message) -> (r: Vec<u8>)
    ensures
        r@ == spec_encode(*m),
{
    let mut out: Vec<u8> = Vec::new();
    match m {
        Message::SpawnFood(x, y) => {
            out.push(TAG_SPAWN_FOOD);
            let mut bx = u32_to_le_bytes(*x);
            out.append(&mut bx);
            let mut by = u32_to_le_bytes(*y);
            out.append(&mut by);
        },
        Message::NewPlayer(x, y, uid) => {
            out.push(TAG_NEW_PLAYER);
            let mut bx = u32_to_le_bytes(*x);
            out.append(&mut bx);
            let mut by = u32_to_le_bytes(*y);
            out.append(&mut by);
            let mut bu = u32_to_le_bytes(*uid);
            out.append(&mut bu);
        },
        Message::MovePlayer(dx, dy, uid) => {
            out.push(TAG_MOVE_PLAYER);
            let mut bx = u32_to_le_bytes(*dx);
            out.append(&mut bx);
            let mut by = u32_to_le_bytes(*dy);
            out.append(&mut by);
            let mut bu = u32_to_le_bytes(*uid);
            out.append(&mut bu);
        },
        Message::Start(x, y, uid) => {
            out.push(TAG_START);
            let mut bx = u32_to_le_bytes(*x);
            out.append(&mut bx);
            let mut by = u32_to_le_bytes(*y);
            out.append(&mut by);
            let mut bu = u32_to_le_bytes(*uid);
            out.append(&mut bu);
        },
    }
    assert(out@ =~= spec_encode(*m));
    out
}

/// Decode one message from a buffer.  Fails exactly when the buffer is
/// shorter than the tag's required width or the tag is unrecognized; it
/// reads the buffer and touches nothing else.
pub fn decode(buf: &[u8]) -> (r: Result<Message, DecodeError>)
    ensures
        r == spec_decode(buf@),
{
    if buf.len() < 1 {
        return Err(DecodeError::Truncated);
    }
    let tag = buf[0];
    if tag == TAG_SPAWN_FOOD {
        if buf.len() < 9 {
            return Err(DecodeError::Truncated);
        }
        let x = u32_from_le_bytes(slice_subrange(buf, 1, 5));
        let y = u32_from_le_bytes(slice_subrange(buf, 5, 9));
        Ok(Message::SpawnFood(x, y))
    } else if tag == TAG_NEW_PLAYER || tag == TAG_MOVE_PLAYER || tag == TAG_START {
        if buf.len() < 13 {
            return Err(DecodeError::Truncated);
        }
        let a = u32_from_le_bytes(slice_subrange(buf, 1, 5));
        let b = u32_from_le_bytes(slice_subrange(buf, 5, 9));
        let c = u32_from_le_bytes(slice_subrange(buf, 9, 13));
        if tag == TAG_NEW_PLAYER {
            Ok(Message::NewPlayer(a, b, c))
        } else if tag == TAG_MOVE_PLAYER {
            Ok(Message::MovePlayer(a, b, c))
        } else {
            Ok(Message::Start(a, b, c))
        }
    } else {
        Err(DecodeError::UnknownTag)
    }
}

/// Round-trip law: decoding an encoded message gives the message back,
/// for every constructible message.
pub proof fn lemma_round_trip(m: Message)
    ensures
        spec_decode(spec_encode(m)) == Ok::<Message, DecodeError>(m),
{
    lemma_auto_spec_u32_to_from_le_bytes();
    let s = spec_encode(m);
    match m {
        Message::SpawnFood(x, y) => {
            assert(s.subrange(1, 5) =~= spec_u32_to_le_bytes(x));
            assert(s.subrange(5, 9) =~= spec_u32_to_le_bytes(y));
        },
        Message::NewPlayer(x, y, uid) => {
            assert(s.subrange(1, 5) =~= spec_u32_to_le_bytes(x));
            assert(s.subrange(5, 9) =~= spec_u32_to_le_bytes(y));
            assert(s.subrange(9, 13) =~= spec_u32_to_le_bytes(uid));
        },
        Message::MovePlayer(dx, dy, uid) => {
            assert(s.subrange(1, 5) =~= spec_u32_to_le_bytes(dx));
            assert(s.subrange(5, 9) =~= spec_u32_to_le_bytes(dy));
            assert(s.subrange(9, 13) =~= spec_u32_to_le_bytes(uid));
        },
        Message::Start(x, y, uid) => {
            assert(s.subrange(1, 5) =~= spec_u32_to_le_bytes(x));
            assert(s.subrange(5, 9) =~= spec_u32_to_le_bytes(y));
            assert(s.subrange(9, 13) =~= spec_u32_to_le_bytes(uid));
        },
    }
}

/// Error law: decoding fails exactly on a buffer shorter than its tag's
/// width or on an unrecognized tag, and the two failures are told apart.
pub proof fn lemma_decode_errors(s: Seq<u8>)
    ensures
        spec_decode(s) is Ok <==> (s.len() >= 1 && spec_tag_known(s[0]) && s.len()
            >= spec_wire_len(s[0])),
        spec_decode(s) == Err::<Message, DecodeError>(DecodeError::UnknownTag) <==> (s.len() >= 1
            && !spec_tag_known(s[0])),
        spec_decode(s) == Err::<Message, DecodeError>(DecodeError::Truncated) <==> (s.len() < 1 || (
        spec_tag_known(s[0]) && s.len() < spec_wire_len(s[0]))),
{
}

} // verus!
