//! The wire format of a presence event.
//!
//! One datagram carries one event:
//!
//! | bytes        | content                                              |
//! |--------------|------------------------------------------------------|
//! | 0..4         | the kind's tag, little-endian: 0, 1 or 2             |
//! | 4..12        | the byte length `n` of the identifier, little-endian |
//! | 12..12 + `n` | the identifier in UTF-8                              |
//!
//! Whatever follows the identifier is ignored. The format has one version and
//! no room for another.
//!
//! [`encoding`] and [`decoding`] say what the format is; [`encode`] and
//! [`decode`] are proved to compute them. The lemmas of this module state what
//! follows: that reading undoes writing, that nothing but written events is
//! read as an event, and how cut and foreign datagrams are refused.

use crate::event::{EventKind, EventModel, PresenceEvent};
use crate::wire::{
    capacity, le_bytes, le_value, lemma_capacity_of_words, lemma_le_bytes_len,
    lemma_le_bytes_of_value, lemma_le_value_of_bytes, push_le, read_le,
};
use vstd::prelude::*;
use vstd::utf8::{decode_utf8, encode_utf8, valid_utf8};

verus! {

/// The number of bytes that hold the tag.
pub const TAG_WIDTH: usize = 4;

/// The number of bytes that hold the identifier's length.
pub const LENGTH_WIDTH: usize = 8;

/// The number of bytes before the identifier: the tag and the length. No event
/// is shorter than this on the wire.
pub const HEADER_WIDTH: usize = 12;

/// Why a datagram is no presence event.
#[derive(Clone, Copy, Debug, PartialEq, Eq, Structural)]
pub enum DecodeError {
    /// The datagram ends before the tag, the length or the identifier does.
    Truncated,
    /// The tag names none of the three kinds.
    UnknownTag,
    /// The identifier's bytes are not UTF-8.
    InvalidText,
}

/// The tag that stands for a kind.
pub open spec fn tag_of(kind: EventKind) -> nat {
    match kind {
        EventKind::KeepAlive => 0,
        EventKind::Join => 1,
        EventKind::Leave => 2,
    }
}

/// The kind that a tag stands for, if any.
pub open spec fn kind_of_tag(tag: nat) -> Option<EventKind> {
    if tag == 0 {
        Some(EventKind::KeepAlive)
    } else if tag == 1 {
        Some(EventKind::Join)
    } else if tag == 2 {
        Some(EventKind::Leave)
    } else {
        None
    }
}

/// The event's identifier is short enough for its length to be written in
/// eight bytes. Every identifier that fits in memory is.
pub open spec fn representable(event: EventModel) -> bool {
    encode_utf8(event.peer_id).len() < capacity(LENGTH_WIDTH as nat)
}

/// The bytes that stand for an event.
pub open spec fn encoding(event: EventModel) -> Seq<u8> {
    le_bytes(tag_of(event.kind), TAG_WIDTH as nat) + le_bytes(
        encode_utf8(event.peer_id).len(),
        LENGTH_WIDTH as nat,
    ) + encode_utf8(event.peer_id)
}

/// The number in a datagram's tag field. The datagram has to hold the field.
pub open spec fn tag_field(bytes: Seq<u8>) -> nat
    recommends
        bytes.len() >= TAG_WIDTH,
{
    le_value(bytes.subrange(0, TAG_WIDTH as int))
}

/// The number in a datagram's length field. The datagram has to hold the field.
pub open spec fn length_field(bytes: Seq<u8>) -> nat
    recommends
        bytes.len() >= HEADER_WIDTH,
{
    le_value(bytes.subrange(TAG_WIDTH as int, HEADER_WIDTH as int))
}

/// The bytes of a datagram's identifier, as many as its length field
/// announces. The datagram has to hold them.
pub open spec fn text_field(bytes: Seq<u8>) -> Seq<u8>
    recommends
        bytes.len() >= HEADER_WIDTH + length_field(bytes),
{
    bytes.subrange(HEADER_WIDTH as int, HEADER_WIDTH + length_field(bytes))
}

/// What a datagram says: the event it starts with, or the first reason why it
/// starts with none. The tag is judged before the length is looked at, and the
/// text only once all of it is there.
pub open spec fn decoding(bytes: Seq<u8>) -> Result<EventModel, DecodeError> {
    if bytes.len() < TAG_WIDTH {
        Err(DecodeError::Truncated)
    } else if kind_of_tag(tag_field(bytes)) is None {
        Err(DecodeError::UnknownTag)
    } else if bytes.len() < HEADER_WIDTH || bytes.len() - HEADER_WIDTH < length_field(bytes) {
        Err(DecodeError::Truncated)
    } else if !valid_utf8(text_field(bytes)) {
        Err(DecodeError::InvalidText)
    } else {
        Ok(
            EventModel {
                kind: kind_of_tag(tag_field(bytes))->0,
                peer_id: decode_utf8(text_field(bytes)),
            },
        )
    }
}

/// The model of what `decode` returns.
pub open spec fn decoded_model(result: Result<PresenceEvent, DecodeError>) -> Result<
    EventModel,
    DecodeError,
> {
    match result {
        Ok(event) => Ok(event@),
        Err(error) => Err(error),
    }
}

/// An event takes its header and its identifier's UTF-8 bytes, so never less
/// than the header.
pub proof fn lemma_encoding_len(event: EventModel)
    ensures
        encoding(event).len() == HEADER_WIDTH + encode_utf8(event.peer_id).len(),
        encoding(event).len() >= HEADER_WIDTH,
{
    lemma_le_bytes_len(tag_of(event.kind), 4);
    lemma_le_bytes_len(encode_utf8(event.peer_id).len(), 8);
}

/// Reading what was written gives the event back, whatever its kind and
/// whatever its identifier, the empty one included, and whatever bytes follow
/// it in the datagram.
pub proof fn lemma_decode_after_encode(event: EventModel, trailing: Seq<u8>)
    requires
        representable(event),
    ensures
        decoding(encoding(event) + trailing) == Ok::<EventModel, DecodeError>(event),
{
    let text = encode_utf8(event.peer_id);
    let tag = le_bytes(tag_of(event.kind), 4);
    let length = le_bytes(text.len(), 8);
    let bytes = encoding(event) + trailing;
    lemma_le_bytes_len(tag_of(event.kind), 4);
    lemma_le_bytes_len(text.len(), 8);
    lemma_capacity_of_words();
    lemma_le_value_of_bytes(tag_of(event.kind), 4);
    lemma_le_value_of_bytes(text.len(), 8);
    assert(bytes.subrange(0, 4) =~= tag);
    assert(bytes.subrange(4, 12) =~= length);
    assert(bytes.subrange(12, 12 + text.len() as int) =~= text);
    vstd::utf8::encode_utf8_valid_utf8(event.peer_id);
    vstd::utf8::encode_utf8_decode_utf8(event.peer_id);
}

/// Round trip: reading the bytes of an event gives that event.
pub proof fn lemma_round_trip(event: EventModel)
    requires
        representable(event),
    ensures
        decoding(encoding(event)) == Ok::<EventModel, DecodeError>(event),
{
    lemma_decode_after_encode(event, Seq::empty());
    assert(encoding(event) + Seq::<u8>::empty() =~= encoding(event));
}

/// Two events with the same bytes are the same event.
pub proof fn lemma_encoding_injective(first: EventModel, second: EventModel)
    requires
        representable(first),
        representable(second),
        encoding(first) == encoding(second),
    ensures
        first == second,
{
    lemma_round_trip(first);
    lemma_round_trip(second);
}

/// A datagram that decodes starts with the bytes of the event it decodes to:
/// nothing is read as an event but what `encode` writes.
pub proof fn lemma_decoded_is_encoded(bytes: Seq<u8>, event: EventModel)
    requires
        decoding(bytes) == Ok::<EventModel, DecodeError>(event),
    ensures
        representable(event),
        encoding(event).len() <= bytes.len(),
        encoding(event) == bytes.subrange(0, encoding(event).len() as int),
{
    vstd::utf8::decode_utf8_encode_utf8(text_field(bytes));
    lemma_le_bytes_of_value(bytes.subrange(0, 4));
    lemma_le_bytes_of_value(bytes.subrange(4, 12));
    lemma_encoding_len(event);
    assert(tag_field(bytes) == tag_of(event.kind));
    assert(encoding(event) =~= bytes.subrange(0, 12 + length_field(bytes) as int));
}

/// Truncation: a datagram shorter than the header is never an event. It is
/// refused as truncated, or, where the four bytes of a tag are there and name
/// no kind, for its tag.
pub proof fn lemma_short_datagram_rejected(bytes: Seq<u8>)
    requires
        bytes.len() < HEADER_WIDTH,
    ensures
        decoding(bytes) is Err,
        bytes.len() < TAG_WIDTH ==> decoding(bytes) == Err::<EventModel, DecodeError>(
            DecodeError::Truncated,
        ),
        decoding(bytes) != Err::<EventModel, DecodeError>(DecodeError::InvalidText),
{
}

/// Truncation: an event's bytes cut short anywhere are refused as truncated.
pub proof fn lemma_cut_encoding_rejected(event: EventModel, kept: int)
    requires
        representable(event),
        0 <= kept < encoding(event).len(),
    ensures
        decoding(encoding(event).subrange(0, kept)) == Err::<EventModel, DecodeError>(
            DecodeError::Truncated,
        ),
{
    let text = encode_utf8(event.peer_id);
    let whole = encoding(event);
    let cut = whole.subrange(0, kept);
    lemma_encoding_len(event);
    lemma_le_bytes_len(tag_of(event.kind), 4);
    lemma_le_bytes_len(text.len(), 8);
    lemma_capacity_of_words();
    lemma_le_value_of_bytes(tag_of(event.kind), 4);
    lemma_le_value_of_bytes(text.len(), 8);
    if kept >= 4 {
        assert(cut.subrange(0, 4) =~= le_bytes(tag_of(event.kind), 4));
    }
    if kept >= 12 {
        assert(cut.subrange(4, 12) =~= le_bytes(text.len(), 8));
    }
}

/// Tag robustness: a datagram whose tag names no kind is refused for its tag,
/// however long it is and whatever else it holds.
pub proof fn lemma_unknown_tag_rejected(bytes: Seq<u8>)
    requires
        bytes.len() >= TAG_WIDTH,
        tag_field(bytes) > 2,
    ensures
        decoding(bytes) == Err::<EventModel, DecodeError>(DecodeError::UnknownTag),
{
}

/// Reading keeps to what an event is: a decoded event names its peer exactly
/// when the datagram announces an identifier of at least one byte.
pub proof fn lemma_decoded_well_formed(bytes: Seq<u8>, event: EventModel)
    requires
        decoding(bytes) == Ok::<EventModel, DecodeError>(event),
    ensures
        event.well_formed() <==> length_field(bytes) > 0,
{
    vstd::utf8::decode_utf8_encode_utf8(text_field(bytes));
    if event.peer_id.len() > 0 {
        vstd::utf8::encode_utf8_first_scalar(event.peer_id);
    }
}

/// `core::str::Utf8Error` of the standard library: why bytes are not UTF-8.
/// Nothing here looks inside it.
#[verifier::external_type_specification]
#[verifier::external_body]
pub struct ExUtf8Error(core::str::Utf8Error);

/// `core::str::from_utf8` of the standard library, taken on trust: it accepts
/// a byte slice exactly when the bytes are well-formed UTF-8, and the string
/// slice it then returns is made of those same bytes.
pub assume_specification[ core::str::from_utf8 ](v: &[u8]) -> (result: Result<
    &str,
    core::str::Utf8Error,
>)
    ensures
        result is Ok <==> valid_utf8(v@),
        result matches Ok(text) ==> encode_utf8(text@) == v@,
;

/// The tag of a kind, as a number to write.
fn tag_number(kind: EventKind) -> (tag: u64)
    ensures
        tag as nat == tag_of(kind),
{
    match kind {
        EventKind::KeepAlive => 0,
        EventKind::Join => 1,
        EventKind::Leave => 2,
    }
}

/// Writes an event down for the wire. Reading the bytes gives the event back.
pub fn encode(event: &PresenceEvent) -> (bytes: Vec<u8>)
    ensures
        bytes@ == encoding(event@),
        representable(event@),
        decoding(bytes@) == Ok::<EventModel, DecodeError>(event@),
{
    let text: &[u8] = event.peer_id().as_bytes();
    let length: usize = text.len();
    let mut bytes: Vec<u8> = Vec::new();
    push_le(&mut bytes, tag_number(event.kind()), TAG_WIDTH);
    push_le(&mut bytes, length as u64, LENGTH_WIDTH);
    let ghost header = bytes@;
    bytes.extend_from_slice(text);
    proof {
        lemma_capacity_of_words();
        assert(bytes@ =~= header + text@);
        lemma_round_trip(event@);
    }
    bytes
}

/// Reads the event that a datagram starts with.
pub fn decode(bytes: &[u8]) -> (result: Result<PresenceEvent, DecodeError>)
    ensures
        decoded_model(result) == decoding(bytes@),
{
    let total: usize = bytes.len();
    if total < TAG_WIDTH {
        return Err(DecodeError::Truncated);
    }
    let tag: u64 = read_le(bytes, 0, TAG_WIDTH);
    let kind: EventKind = if tag == 0 {
        EventKind::KeepAlive
    } else if tag == 1 {
        EventKind::Join
    } else if tag == 2 {
        EventKind::Leave
    } else {
        return Err(DecodeError::UnknownTag);
    };
    if total < HEADER_WIDTH {
        return Err(DecodeError::Truncated);
    }
    let announced: u64 = read_le(bytes, TAG_WIDTH, LENGTH_WIDTH);
    if ((total - HEADER_WIDTH) as u64) < announced {
        return Err(DecodeError::Truncated);
    }
    let text: &[u8] = &bytes[HEADER_WIDTH..HEADER_WIDTH + announced as usize];
    match core::str::from_utf8(text) {
        Ok(peer_id) => {
            proof {
                vstd::utf8::encode_utf8_decode_utf8(peer_id@);
            }
            Ok(PresenceEvent::new(kind, peer_id.to_owned()))
        },
        Err(_) => Err(DecodeError::InvalidText),
    }
}

} // verus!
