//! Writing values to bytes and reading them back.

use crate::message::{Message, MessageView};
use crate::wire::{bincode_decoding, bincode_encode, decode_limit, decode_payload};
use crate::wire::{decode_charge, parts, wire_encoding};
use vstd::prelude::*;

verus! {

/// A value that can be written as bytes.
pub trait Encode: Sized {
    type Error;

    /// The bytes the value is written as.
    spec fn encoding(&self) -> Seq<u8>;

    /// Appends the value's bytes to `writer`, if the value can be written.
    fn encode(&self, writer: &mut Vec<u8>) -> (r: Result<(), Self::Error>)
        ensures
            r is Ok <==> self.encodable(),
            r is Ok ==> final(writer)@ == old(writer)@ + self.encoding(),
    ;

    /// The value's bytes in a vector of their own, if it can be written.
    fn encode_to_vec(&self) -> (r: Result<Vec<u8>, Self::Error>)
        ensures
            r is Ok <==> self.encodable(),
            r matches Ok(bytes) ==> bytes@ == self.encoding(),
    {
        let mut buff = Vec::new();
        match self.encode(&mut buff) {
            Ok(()) => Ok(buff),
            Err(e) => Err(e),
        }
    }

    /// Whether the value can be written as bytes.
    spec fn encodable(&self) -> bool;
}

/// A value that can be read from bytes.
pub trait Decode: Sized {
    type Error;

    /// Whether a value can be read from the front of `bytes`.
    spec fn decodable(bytes: Seq<u8>) -> bool;

    /// Whether `value` is what reading the front of `bytes` gives.
    spec fn decodes_to(bytes: Seq<u8>, value: Self) -> bool;

    /// Reads a value from the front of `reader`.
    fn decode(reader: &[u8]) -> (r: Result<Self, Self::Error>)
        ensures
            r is Ok <==> Self::decodable(reader@),
            r matches Ok(value) ==> Self::decodes_to(reader@, value),
    ;
}

impl Encode for Message {
    type Error = bincode::error::EncodeError;

    fn encode(&self, writer: &mut Vec<u8>) -> (r: Result<(), Self::Error>) {
        match bincode_encode(self, writer) {
            Ok(_) => Ok(()),
            Err(e) => Err(e),
        }
    }

    /// Every message can be written.
    open spec fn encodable(&self) -> bool {
        true
    }

    /// A message is written as its wire form.
    open spec fn encoding(&self) -> Seq<u8> {
        wire_encoding(self@)
    }
}

impl Decode for Message {
    type Error = bincode::error::DecodeError;

    open spec fn decodable(bytes: Seq<u8>) -> bool {
        bincode_decoding(decode_limit(bytes.len()), bytes) is Some
    }

    open spec fn decodes_to(bytes: Seq<u8>, value: Message) -> bool {
        bincode_decoding(decode_limit(bytes.len()), bytes) == Some(parts(value@))
    }

    /// Reads a message from the front of `reader`. Bytes that start with the
    /// wire form of a message give that message back. This holds of every
    /// message that fits a machine: one whose lengths, with what is charged
    /// for its framing, add up to `isize::MAX` at most.
    fn decode(reader: &[u8]) -> (r: Result<Message, Self::Error>)
        ensures
            forall|m: MessageView| #[trigger]
                wire_encoding(m).is_prefix_of(reader@) && decode_charge(m) <= isize::MAX ==> (
                r matches Ok(message) && message@ == m),
    {
        let r = decode_payload(reader);
        proof {
            assert forall|m: MessageView| #[trigger]
                wire_encoding(m).is_prefix_of(reader@) && decode_charge(m)
                    <= isize::MAX implies (r matches Ok(message) && message@ == m) by {
                lemma_parts_injective(r->Ok_0@, m);
            }
        }
        r
    }
}

/// Decoding inverts encoding: whatever bytes encoding a message gives, and
/// whatever follows them, decoding gives the message back. This holds of
/// every message that fits a machine, of whatever size.
pub proof fn lemma_decode_inverts_encode(
    message: Message,
    encoded: Vec<u8>,
    received: &[u8],
    decoded: Result<Message, bincode::error::DecodeError>,
)
    requires
        decode_charge(message@) <= isize::MAX,
        call_ensures(Message::encode_to_vec, (&message,), Ok(encoded)),
        encoded@.is_prefix_of(received@),
        call_ensures(Message::decode, (received,), decoded),
    ensures
        decoded matches Ok(read) && read@ == message@,
{
    assert(wire_encoding(message@).is_prefix_of(received@));
}

/// A message is determined by its two parts.
pub proof fn lemma_parts_injective(a: MessageView, b: MessageView)
    requires
        parts(a) == parts(b),
    ensures
        a == b,
{
    assert(a.data == b.data);
    match (a.file, b.file) {
        (Some(x), Some(y)) => {
            assert(parts(a).1 == Some((x.name, x.data)));
            assert(parts(b).1 == Some((y.name, y.data)));
            assert(x == y);
        },
        (None, None) => {},
        (Some(x), None) => {
            assert(parts(a).1 is Some);
        },
        (None, Some(y)) => {
            assert(parts(b).1 is Some);
        },
    }
}

} // verus!
