use presence::{decode, encode, EventKind, PresenceEvent};
use serde::de::{EnumAccess, Error, Unexpected, VariantAccess, Visitor};
use serde::{Deserialize, Deserializer, Serialize, Serializer};

/// The message as a peer built on serde and bincode declares it, with the
/// impls that the derives would write.
#[derive(Debug, PartialEq)]
enum Message {
    KeepAlive(String),
    Join(String),
    Leave(String),
}

impl Serialize for Message {
    fn serialize<S: Serializer>(&self, serializer: S) -> Result<S::Ok, S::Error> {
        match self {
            Message::KeepAlive(id) => {
                serializer.serialize_newtype_variant("Message", 0, "KeepAlive", id)
            }
            Message::Join(id) => serializer.serialize_newtype_variant("Message", 1, "Join", id),
            Message::Leave(id) => serializer.serialize_newtype_variant("Message", 2, "Leave", id),
        }
    }
}

struct MessageVisitor;

impl<'de> Visitor<'de> for MessageVisitor {
    type Value = Message;

    fn expecting(&self, formatter: &mut std::fmt::Formatter) -> std::fmt::Result {
        formatter.write_str("enum Message")
    }

    fn visit_enum<A: EnumAccess<'de>>(self, data: A) -> Result<Message, A::Error> {
        let (index, variant): (u32, A::Variant) = data.variant()?;
        match index {
            0 => Ok(Message::KeepAlive(variant.newtype_variant()?)),
            1 => Ok(Message::Join(variant.newtype_variant()?)),
            2 => Ok(Message::Leave(variant.newtype_variant()?)),
            other => Err(A::Error::invalid_value(
                Unexpected::Unsigned(u64::from(other)),
                &"variant index 0 <= i < 3",
            )),
        }
    }
}

impl<'de> Deserialize<'de> for Message {
    fn deserialize<D: Deserializer<'de>>(deserializer: D) -> Result<Message, D::Error> {
        deserializer.deserialize_enum("Message", &["KeepAlive", "Join", "Leave"], MessageVisitor)
    }
}

fn message(kind: EventKind, id: &str) -> Message {
    match kind {
        EventKind::KeepAlive => Message::KeepAlive(id.to_string()),
        EventKind::Join => Message::Join(id.to_string()),
        EventKind::Leave => Message::Leave(id.to_string()),
    }
}

fn as_message(event: PresenceEvent) -> Message {
    match event {
        PresenceEvent::KeepAlive(id) => Message::KeepAlive(id),
        PresenceEvent::Join(id) => Message::Join(id),
        PresenceEvent::Leave(id) => Message::Leave(id),
    }
}

const IDS: [&str; 6] = ["", "a", "alice", "zoë", "\u{1f980} crab", "line\nbreak\0nul"];

const KINDS: [EventKind; 3] = [EventKind::KeepAlive, EventKind::Join, EventKind::Leave];

#[test]
fn encode_writes_what_bincode_writes() {
    for kind in KINDS {
        for id in IDS {
            let ours = encode(&PresenceEvent::new(kind, id.to_string()));
            let theirs = bincode::serialize(&message(kind, id)).unwrap();
            assert_eq!(ours, theirs, "{:?} {:?}", kind, id);
        }
    }
}

#[test]
fn encode_of_a_long_identifier_is_what_bincode_writes() {
    let id = "0123456789".repeat(7_000);
    let ours = encode(&PresenceEvent::new(EventKind::Join, id.clone()));
    assert_eq!(ours, bincode::serialize(&Message::Join(id)).unwrap());
}

#[test]
fn decode_reads_what_bincode_writes() {
    for kind in KINDS {
        for id in IDS {
            let theirs = bincode::serialize(&message(kind, id)).unwrap();
            assert_eq!(decode(&theirs).map(as_message), Ok(message(kind, id)));
        }
    }
}

#[test]
fn bincode_reads_what_encode_writes() {
    for kind in KINDS {
        for id in IDS {
            let ours = encode(&PresenceEvent::new(kind, id.to_string()));
            let back: Message = bincode::deserialize(&ours).unwrap();
            assert_eq!(back, message(kind, id));
        }
    }
}

#[test]
fn decode_accepts_exactly_what_bincode_accepts() {
    let mut samples: Vec<Vec<u8>> = Vec::new();
    let good = encode(&PresenceEvent::new(EventKind::Leave, "zoë".to_string()));
    for kept in 0..=good.len() {
        samples.push(good[..kept].to_vec());
    }
    for position in 0..good.len() {
        for flip in [0x01u8, 0x80, 0xff] {
            let mut bytes = good.clone();
            bytes[position] ^= flip;
            samples.push(bytes);
        }
    }
    let mut with_trailing = good.clone();
    with_trailing.extend_from_slice(&[1, 2, 3]);
    samples.push(with_trailing);
    samples.push(vec![3, 0, 0, 0]);
    samples.push(vec![0, 0, 0, 0, 2, 0, 0, 0, 0, 0, 0, 0, 0xc3, 0x28]);
    samples.push(vec![0, 0, 0, 0, 3, 0, 0, 0, 0, 0, 0, 0, 0xed, 0xa0, 0x80]);
    for bytes in samples {
        let ours = decode(&bytes).map(as_message).ok();
        let theirs = bincode::deserialize::<Message>(&bytes).ok();
        assert_eq!(ours, theirs, "{:?}", bytes);
    }
}
