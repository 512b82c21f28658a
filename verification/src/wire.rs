//! The wire format of a message, and the calls into bincode that produce and
//! read it.
//!
//! A message travels as two optional parts, text first, attachment second.
//! Each part starts with a presence byte, `0` or `1`. A text is the length of
//! its UTF-8 form as a variable-length integer, then the UTF-8 bytes. An
//! attachment is its name, written like a text, then the length of its
//! contents and the contents.

use crate::file::File;
use crate::message::{Message, MessageView};
use vstd::bytes::*;
use vstd::prelude::*;
use vstd::utf8::*;

verus! {

#[verifier::external_type_specification]
#[verifier::external_body]
pub struct ExEncodeError(bincode::error::EncodeError);

#[verifier::external_type_specification]
#[verifier::external_body]
pub struct ExDecodeError(bincode::error::DecodeError);

/// A length as a variable-length integer: one byte below 251, else a marker
/// byte followed by the length in 2, 4 or 8 little-endian bytes, whichever is
/// the shortest that holds it.
pub open spec fn varint(n: nat) -> Seq<u8>
    recommends
        n <= u64::MAX,
{
    if n < 251 {
        seq![n as u8]
    } else if n <= u16::MAX {
        seq![251u8] + spec_u16_to_le_bytes(n as u16)
    } else if n <= u32::MAX {
        seq![252u8] + spec_u32_to_le_bytes(n as u32)
    } else {
        seq![253u8] + spec_u64_to_le_bytes(n as u64)
    }
}

/// Bytes behind their length.
pub open spec fn length_prefixed(bytes: Seq<u8>) -> Seq<u8> {
    varint(bytes.len()) + bytes
}

/// An optional text: the presence byte, then the UTF-8 form behind its length.
pub open spec fn text_part(text: Option<Seq<char>>) -> Seq<u8> {
    match text {
        None => seq![0u8],
        Some(text) => seq![1u8] + length_prefixed(encode_utf8(text)),
    }
}

/// An optional attachment: the presence byte, then name and contents, each
/// behind its length.
pub open spec fn file_part(file: Option<crate::file::FileView>) -> Seq<u8> {
    match file {
        None => seq![0u8],
        Some(file) => seq![1u8] + length_prefixed(encode_utf8(file.name)) + length_prefixed(
            file.data,
        ),
    }
}

/// The bytes a message travels as.
pub open spec fn wire_encoding(message: MessageView) -> Seq<u8> {
    text_part(message.data) + file_part(message.file)
}

/// What the decoder charges against its limit for a message: one for each
/// presence byte, eight for each length, and the bytes of each string and of
/// the contents.
pub open spec fn decode_charge(message: MessageView) -> nat {
    let text = match message.data {
        Some(text) => 8 + encode_utf8(text).len(),
        None => 0,
    };
    let file = match message.file {
        Some(file) => 16 + encode_utf8(file.name).len() + file.data.len(),
        None => 0,
    };
    2 + text + file
}

/// How far the charge for a message can lie above the length of its wire
/// form: a length is charged as eight bytes and may travel as one.
pub const CHARGE_MARGIN: usize = 21;

/// Whether each length in the message can be written as a length, that is,
/// in 64 bits. The strings and contents of a message in memory always can.
pub open spec fn lengths_fit(message: MessageView) -> bool {
    &&& message.data matches Some(text) ==> encode_utf8(text).len() <= u64::MAX
    &&& message.file matches Some(file) ==> encode_utf8(file.name).len() <= u64::MAX
        && file.data.len() <= u64::MAX
}

/// The largest limit: the largest size that a string or a vector can have.
pub const TOP_LIMIT: usize = usize::MAX / 2;

/// The limit under which a payload of the given length is decoded: the
/// first of a fixed row of limits that leaves room for the payload and the
/// margin, and the largest limit for a payload that is longer than those. A
/// length read from the wire is charged against the limit before anything is
/// allocated for it, so no payload, however malformed, makes the decoder
/// reserve more than this; and below the largest limit it refuses no
/// message, since a wire form that the payload starts with is charged at
/// most the payload's length and the margin. The largest limit refuses only
/// a message too large for a machine, one charged more than `isize::MAX`.
pub open spec fn decode_limit(len: nat) -> nat {
    if len + CHARGE_MARGIN <= 0x100 {
        0x100
    } else if len + CHARGE_MARGIN <= 0x1000 {
        0x1000
    } else if len + CHARGE_MARGIN <= 0x1_0000 {
        0x1_0000
    } else if len + CHARGE_MARGIN <= 0x10_0000 {
        0x10_0000
    } else if len + CHARGE_MARGIN <= 0x100_0000 {
        0x100_0000
    } else if len + CHARGE_MARGIN <= 0x1000_0000 {
        0x1000_0000
    } else if len + CHARGE_MARGIN <= 0x7fff_ffff {
        0x7fff_ffff
    } else {
        TOP_LIMIT as nat
    }
}

/// What bincode reads from the front of `bytes` as a pair of an optional
/// string and an optional pair of a string and bytes, under the standard
/// configuration with the given limit; `None` where it reports an error.
pub uninterp spec fn bincode_decoding(limit: nat, bytes: Seq<u8>) -> Option<
    (Option<Seq<char>>, Option<(Seq<char>, Seq<u8>)>),
>;

/// The two parts of a message as plain values.
pub open spec fn parts(message: MessageView) -> (Option<Seq<char>>, Option<(Seq<char>, Seq<u8>)>) {
    (
        message.data,
        match message.file {
            Some(file) => Some((file.name, file.data)),
            None => None,
        },
    )
}

/// The message of the given parts.
pub open spec fn message_of(
    parts: (Option<Seq<char>>, Option<(Seq<char>, Seq<u8>)>),
) -> MessageView {
    MessageView {
        data: parts.0,
        file: match parts.1 {
            Some((name, data)) => Some(crate::file::FileView { name, data }),
            None => None,
        },
    }
}

/// The message that decoding `bytes` gives, `None` where decoding fails.
pub open spec fn decoded_message(bytes: Seq<u8>) -> Option<MessageView> {
    match bincode_decoding(decode_limit(bytes.len()), bytes) {
        Some(parts) => Some(message_of(parts)),
        None => None,
    }
}

/// The parts of the message that decoding gave, `None` where it failed.
pub open spec fn decoded_parts(r: Result<Message, bincode::error::DecodeError>) -> Option<
    (Option<Seq<char>>, Option<(Seq<char>, Seq<u8>)>),
> {
    match r {
        Ok(message) => Some(parts(message@)),
        Err(_) => None,
    }
}

/// `bincode::serde::encode_into_std_write` on the message's two parts, with
/// `bincode::config::standard()`: it appends the message's wire form to `dst`
/// and returns the number of bytes appended. bincode writes a struct as its
/// fields in order, an `Option` as a presence byte before the value, a string
/// as its UTF-8 bytes behind their length and a byte vector as its bytes
/// behind their length, with lengths as variable-length integers in
/// little-endian order. It succeeds on every message: for values of these
/// types the only error bincode reports is one of the writer, and a vector
/// takes what is written to it by appending and reports none.
#[verifier::external_body]
pub(crate) fn bincode_encode(message: &Message, dst: &mut Vec<u8>) -> (r: Result<
    usize,
    bincode::error::EncodeError,
>)
    ensures
        r is Ok,
        r matches Ok(written) ==> final(dst)@ == old(dst)@ + wire_encoding(message@) && written
            == wire_encoding(message@).len(),
{
    let file = message.file.as_ref().map(|file| (&file.name, &file.data));
    bincode::serde::encode_into_std_write((&message.data, file), dst, bincode::config::standard())
}

/// `bincode::serde::decode_from_std_read` from the front of `bytes`, with
/// `bincode::config::standard()` limited to `LIMIT`. The result is a function
/// of the limit and the bytes alone, named `bincode_decoding`. The decoder
/// reads back what the encoder wrote: where `bytes` starts with the wire form
/// of a message whose charge is within the limit, that message is returned.
/// Against the limit bincode counts one byte for each presence byte and each
/// byte of contents, eight for each length whatever its width, and the length
/// of a string before it allocates the string; it fails once the count
/// passes the limit. The limit may not be larger than a string can be, else
/// the allocation for a length within the limit could be refused outright.
#[verifier::external_body]
pub(crate) fn bincode_decode<const LIMIT: usize>(bytes: &[u8]) -> (r: Result<
    Message,
    bincode::error::DecodeError,
>)
    requires
        LIMIT <= isize::MAX,
    ensures
        decoded_parts(r) == bincode_decoding(LIMIT as nat, bytes@),
        (forall|m: MessageView|
            #[trigger] wire_encoding(m).is_prefix_of(bytes@) && decode_charge(m) <= LIMIT
                ==> decoded_parts(r) == Some(parts(m))),
{
    let mut src = bytes;
    let config = bincode::config::standard().with_limit::<LIMIT>();
    let (data, file): (Option<String>, Option<(String, Vec<u8>)>) =
        bincode::serde::decode_from_std_read(&mut src, config)?;
    Ok(Message { data, file: file.map(|(name, data)| File { name, data }) })
}

/// `bincode::serde::decode_from_std_read` as in `bincode_decode`, limited to
/// `TOP_LIMIT`, which differs from machine to machine and is therefore no
/// limit to choose by a number.
#[verifier::external_body]
pub(crate) fn bincode_decode_top(bytes: &[u8]) -> (r: Result<Message, bincode::error::DecodeError>)
    ensures
        decoded_parts(r) == bincode_decoding(TOP_LIMIT as nat, bytes@),
        (forall|m: MessageView|
            #[trigger] wire_encoding(m).is_prefix_of(bytes@) && decode_charge(m) <= TOP_LIMIT
                ==> decoded_parts(r) == Some(parts(m))),
{
    let mut src = bytes;
    let config = bincode::config::standard().with_limit::<TOP_LIMIT>();
    let (data, file): (Option<String>, Option<(String, Vec<u8>)>) =
        bincode::serde::decode_from_std_read(&mut src, config)?;
    Ok(Message { data, file: file.map(|(name, data)| File { name, data }) })
}

/// The charge for a message is at most the length of its wire form and the
/// margin.
pub proof fn lemma_charge_within_margin(message: MessageView)
    ensures
        decode_charge(message) <= wire_encoding(message).len() + CHARGE_MARGIN,
{
    lemma_auto_spec_u16_to_from_le_bytes();
    lemma_auto_spec_u32_to_from_le_bytes();
    lemma_auto_spec_u64_to_from_le_bytes();
    match message.data {
        Some(text) => {
            assert(varint(encode_utf8(text).len()).len() >= 1);
        },
        None => {},
    }
    match message.file {
        Some(file) => {
            assert(varint(encode_utf8(file.name).len()).len() >= 1);
            assert(varint(file.data.len()).len() >= 1);
        },
        None => {},
    }
}

/// The limit for a payload is none that would refuse a message: it leaves
/// room for the payload and the margin, or is the largest there is. And it
/// is of the payload's order: below the largest limit, a payload that fills
/// a sixteenth of its limit would have been given the limit before.
pub proof fn lemma_decode_limit_has_room(len: nat)
    ensures
        len + CHARGE_MARGIN <= decode_limit(len) || decode_limit(len) == TOP_LIMIT,
        decode_limit(len) <= TOP_LIMIT,
        decode_limit(len) < 0x7fff_ffff ==> decode_limit(len) <= 0x100 || decode_limit(len) < 16
            * (len + CHARGE_MARGIN),
{
}

/// Decodes a payload under the limit for its length. Whatever the payload
/// holds, the bytes reserved stay within that limit; and a payload that
/// starts with the wire form of a message gives that message, provided the
/// message is one that fits a machine, with a charge within `isize::MAX`.
pub fn decode_payload(bytes: &[u8]) -> (r: Result<Message, bincode::error::DecodeError>)
    ensures
        decoded_parts(r) == bincode_decoding(decode_limit(bytes@.len()), bytes@),
        forall|m: MessageView| #[trigger]
            wire_encoding(m).is_prefix_of(bytes@) && decode_charge(m) <= isize::MAX
                ==> decoded_parts(r) == Some(parts(m)),
{
    let len = bytes.len();
    let r = if len <= 0x100 - CHARGE_MARGIN {
        bincode_decode::<0x100>(bytes)
    } else if len <= 0x1000 - CHARGE_MARGIN {
        bincode_decode::<0x1000>(bytes)
    } else if len <= 0x1_0000 - CHARGE_MARGIN {
        bincode_decode::<0x1_0000>(bytes)
    } else if len <= 0x10_0000 - CHARGE_MARGIN {
        bincode_decode::<0x10_0000>(bytes)
    } else if len <= 0x100_0000 - CHARGE_MARGIN {
        bincode_decode::<0x100_0000>(bytes)
    } else if len <= 0x1000_0000 - CHARGE_MARGIN {
        bincode_decode::<0x1000_0000>(bytes)
    } else if len <= 0x7fff_ffff - CHARGE_MARGIN {
        bincode_decode::<0x7fff_ffff>(bytes)
    } else {
        bincode_decode_top(bytes)
    };
    assert forall|m: MessageView| #[trigger]
        wire_encoding(m).is_prefix_of(bytes@) && decode_charge(m) <= isize::MAX implies decoded_parts(
        r,
    ) == Some(parts(m)) by {
        lemma_charge_within_margin(m);
    }
    r
}

/// Two sequences that agree and start with parts of one length: the parts
/// agree, and so does what follows them.
proof fn lemma_same_start(a: Seq<u8>, x: Seq<u8>, b: Seq<u8>, y: Seq<u8>)
    requires
        a + x == b + y,
        a.len() == b.len(),
    ensures
        a == b,
        x == y,
{
    let s = a + x;
    assert(a =~= s.subrange(0, a.len() as int));
    assert(b =~= (b + y).subrange(0, b.len() as int));
    assert(x =~= s.subrange(a.len() as int, s.len() as int));
    assert(y =~= (b + y).subrange(b.len() as int, (b + y).len() as int));
}

/// A length can be read off the front of what starts with its
/// variable-length form.
proof fn lemma_varint_unique(n1: nat, x: Seq<u8>, n2: nat, y: Seq<u8>)
    requires
        n1 <= u64::MAX,
        n2 <= u64::MAX,
        varint(n1) + x == varint(n2) + y,
    ensures
        n1 == n2,
        x == y,
{
    lemma_auto_spec_u16_to_from_le_bytes();
    lemma_auto_spec_u32_to_from_le_bytes();
    lemma_auto_spec_u64_to_from_le_bytes();
    let s = varint(n1) + x;
    assert(s[0] == varint(n1)[0]);
    assert(s[0] == (varint(n2) + y)[0]);
    assert(s[0] == varint(n2)[0]);
    if n1 < 251 {
        assert(n2 < 251);
    } else if n1 <= u16::MAX {
        assert(251 <= n2 <= u16::MAX);
        let a = spec_u16_to_le_bytes(n1 as u16);
        let b = spec_u16_to_le_bytes(n2 as u16);
        assert(a =~= s.subrange(1, 3));
        assert(b =~= (varint(n2) + y).subrange(1, 3));
        assert(spec_u16_from_le_bytes(a) == n1 as u16);
        assert(spec_u16_from_le_bytes(b) == n2 as u16);
    } else if n1 <= u32::MAX {
        assert(u16::MAX < n2 <= u32::MAX);
        let a = spec_u32_to_le_bytes(n1 as u32);
        let b = spec_u32_to_le_bytes(n2 as u32);
        assert(a =~= s.subrange(1, 5));
        assert(b =~= (varint(n2) + y).subrange(1, 5));
        assert(spec_u32_from_le_bytes(a) == n1 as u32);
        assert(spec_u32_from_le_bytes(b) == n2 as u32);
    } else {
        assert(u32::MAX < n2);
        let a = spec_u64_to_le_bytes(n1 as u64);
        let b = spec_u64_to_le_bytes(n2 as u64);
        assert(a =~= s.subrange(1, 9));
        assert(b =~= (varint(n2) + y).subrange(1, 9));
        assert(spec_u64_from_le_bytes(a) == n1 as u64);
        assert(spec_u64_from_le_bytes(b) == n2 as u64);
    }
    lemma_same_start(varint(n1), x, varint(n2), y);
}

/// Bytes behind their length can be read off the front of what starts with
/// them.
proof fn lemma_length_prefixed_unique(a: Seq<u8>, x: Seq<u8>, b: Seq<u8>, y: Seq<u8>)
    requires
        a.len() <= u64::MAX,
        b.len() <= u64::MAX,
        length_prefixed(a) + x == length_prefixed(b) + y,
    ensures
        a == b,
        x == y,
{
    assert(length_prefixed(a) + x =~= varint(a.len()) + (a + x));
    assert(length_prefixed(b) + y =~= varint(b.len()) + (b + y));
    lemma_varint_unique(a.len(), a + x, b.len(), b + y);
    lemma_same_start(a, x, b, y);
}

/// An optional text can be read off the front of what starts with its wire
/// form.
proof fn lemma_text_part_unique(
    a: Option<Seq<char>>,
    x: Seq<u8>,
    b: Option<Seq<char>>,
    y: Seq<u8>,
)
    requires
        a matches Some(text) ==> encode_utf8(text).len() <= u64::MAX,
        b matches Some(text) ==> encode_utf8(text).len() <= u64::MAX,
        text_part(a) + x == text_part(b) + y,
    ensures
        a == b,
        x == y,
{
    let s = text_part(a) + x;
    assert(s[0] == text_part(a)[0]);
    assert(s[0] == (text_part(b) + y)[0]);
    assert(s[0] == text_part(b)[0]);
    match (a, b) {
        (Some(ta), Some(tb)) => {
            let ea = encode_utf8(ta);
            let eb = encode_utf8(tb);
            assert(text_part(a) + x =~= seq![1u8] + (length_prefixed(ea) + x));
            assert(text_part(b) + y =~= seq![1u8] + (length_prefixed(eb) + y));
            lemma_same_start(seq![1u8], length_prefixed(ea) + x, seq![1u8], length_prefixed(eb) + y);
            lemma_length_prefixed_unique(ea, x, eb, y);
            encode_utf8_decode_utf8(ta);
            encode_utf8_decode_utf8(tb);
        },
        (None, None) => {
            lemma_same_start(seq![0u8], x, seq![0u8], y);
        },
        _ => {},
    }
}

/// An optional attachment can be read off the front of what starts with its
/// wire form.
proof fn lemma_file_part_unique(
    a: Option<crate::file::FileView>,
    x: Seq<u8>,
    b: Option<crate::file::FileView>,
    y: Seq<u8>,
)
    requires
        a matches Some(file) ==> encode_utf8(file.name).len() <= u64::MAX && file.data.len()
            <= u64::MAX,
        b matches Some(file) ==> encode_utf8(file.name).len() <= u64::MAX && file.data.len()
            <= u64::MAX,
        file_part(a) + x == file_part(b) + y,
    ensures
        a == b,
        x == y,
{
    let s = file_part(a) + x;
    assert(s[0] == file_part(a)[0]);
    assert(s[0] == (file_part(b) + y)[0]);
    assert(s[0] == file_part(b)[0]);
    match (a, b) {
        (Some(fa), Some(fb)) => {
            let na = encode_utf8(fa.name);
            let nb = encode_utf8(fb.name);
            let rest_a = length_prefixed(fa.data) + x;
            let rest_b = length_prefixed(fb.data) + y;
            assert(file_part(a) + x =~= seq![1u8] + (length_prefixed(na) + rest_a));
            assert(file_part(b) + y =~= seq![1u8] + (length_prefixed(nb) + rest_b));
            lemma_same_start(
                seq![1u8],
                length_prefixed(na) + rest_a,
                seq![1u8],
                length_prefixed(nb) + rest_b,
            );
            lemma_length_prefixed_unique(na, rest_a, nb, rest_b);
            lemma_length_prefixed_unique(fa.data, x, fb.data, y);
            encode_utf8_decode_utf8(fa.name);
            encode_utf8_decode_utf8(fb.name);
        },
        (None, None) => {
            lemma_same_start(seq![0u8], x, seq![0u8], y);
        },
        _ => {},
    }
}

/// The wire form can be read in one way only: bytes that start with the wire
/// form of one message and with that of another start with the wire form of
/// one message. So no two messages share a wire form, and none has a wire
/// form that another's starts with.
pub proof fn lemma_wire_encoding_unique(a: MessageView, b: MessageView, bytes: Seq<u8>)
    requires
        lengths_fit(a),
        lengths_fit(b),
        wire_encoding(a).is_prefix_of(bytes),
        wire_encoding(b).is_prefix_of(bytes),
    ensures
        a == b,
{
    let wa = wire_encoding(a);
    let wb = wire_encoding(b);
    let x = bytes.subrange(wa.len() as int, bytes.len() as int);
    let y = bytes.subrange(wb.len() as int, bytes.len() as int);
    assert(bytes =~= wa + x);
    assert(bytes =~= wb + y);
    assert(wa + x =~= text_part(a.data) + (file_part(a.file) + x));
    assert(wb + y =~= text_part(b.data) + (file_part(b.file) + y));
    lemma_text_part_unique(a.data, file_part(a.file) + x, b.data, file_part(b.file) + y);
    lemma_file_part_unique(a.file, x, b.file, y);
}

} // verus!
