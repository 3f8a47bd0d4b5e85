//! Decoder scenarios: literal byte streams and the events they yield.

use lurk_server::client::{ClientEventKind, ClientFactory};
use lurk_server::host::lossy_string_to_lurk_name;
use lurk_server::read::{drain_events, LurkPollEvent, LurkPollState, LurkRead};
use lurk_server::read_buffer::ReadBuffer;
use lurk_server::write::LurkWrite;
use lurk_server::write::WriteBuffer;

fn buffer_with(bytes: &[u8]) -> ReadBuffer {
    let mut b = ReadBuffer::new();
    b.append(bytes);
    b
}

fn message_stream() -> Vec<u8> {
    let mut bytes = vec![0x01u8, 0x05, 0x00];
    let mut recipient = b"alice".to_vec();
    recipient.resize(32, 0x00);
    let mut sender = b"bob".to_vec();
    sender.resize(32, 0x00);
    bytes.extend_from_slice(&recipient);
    bytes.extend_from_slice(&sender);
    bytes.extend_from_slice(b"hello");
    bytes
}

#[test]
fn fight_single_byte() {
    let mut b = buffer_with(&[0x03]);
    match b.poll_lurk() {
        LurkPollEvent::Fight => {}
        _ => panic!("expected Fight"),
    }
    assert_eq!(b.len(), 0);
}

#[test]
fn change_room_frame() {
    let mut b = buffer_with(&[0x02, 0x07, 0x00]);
    match b.poll_lurk() {
        LurkPollEvent::ChangeRoom(c) => assert_eq!(c.room_number, 7),
        _ => panic!("expected ChangeRoom"),
    }
    assert_eq!(b.len(), 0);
}

#[test]
fn message_frame() {
    let bytes = message_stream();
    assert_eq!(bytes.len(), 72);
    let mut b = buffer_with(&bytes);
    let msg = match b.poll_lurk() {
        LurkPollEvent::Message(m) => m,
        _ => panic!("expected Message"),
    };
    assert_eq!(msg.recipient, lossy_string_to_lurk_name("alice"));
    assert_eq!(msg.sender, lossy_string_to_lurk_name("bob"));
    assert_eq!(msg.message, b"hello".to_vec());
    assert_eq!(b.len(), 0);

    // Round-tripping through the encoder reproduces the 72-byte stream.
    let mut w = WriteBuffer::new();
    w.write_message(&msg);
    assert_eq!(w.drain(), bytes);
}

#[test]
fn split_message() {
    let bytes = message_stream();
    let mut b = buffer_with(&bytes[..40]);
    match b.poll_lurk() {
        LurkPollEvent::Pending => {}
        _ => panic!("expected Pending on a half-fed frame"),
    }
    b.append(&bytes[40..]);
    assert!(matches!(b.poll_message(), LurkPollState::Complete));
    let msg = match b.poll_lurk() {
        LurkPollEvent::Message(m) => m,
        _ => panic!("expected Message after the second half"),
    };
    assert_eq!(msg.recipient, lossy_string_to_lurk_name("alice"));
    assert_eq!(msg.sender, lossy_string_to_lurk_name("bob"));
    assert_eq!(msg.message, b"hello".to_vec());
}

#[test]
fn version_with_two_extensions() {
    let mut bytes = vec![0x0Eu8, 0x01, 0x02, 0x02, 0x00, 0x03, 0x00];
    bytes.extend_from_slice(b"foo");
    bytes.extend_from_slice(&[0x03, 0x00]);
    bytes.extend_from_slice(b"bar");
    let mut b = buffer_with(&bytes);
    let v = match b.poll_lurk() {
        LurkPollEvent::Version(v) => v,
        _ => panic!("expected Version"),
    };
    assert_eq!(v.major, 1);
    assert_eq!(v.minor, 2);
    assert_eq!(v.extensions, vec![b"foo".to_vec(), b"bar".to_vec()]);
    assert_eq!(b.len(), 0);
}

#[test]
fn unknown_type_byte_poisons() {
    let mut factory = ClientFactory::default();
    let mut client = factory.create();
    client.read.append(&[0xFF]);
    assert!(client.poll_event().is_none());
    assert!(client.poisoned());
    assert!(client.poll_event().is_none());
    let left = client.left();
    assert!(matches!(left.event, ClientEventKind::Left));
    assert_eq!(left.client_id, client.id());
}

#[test]
fn partial_frames_stay_pending() {
    // The decoder reports Pending on truncated frames of every kind and
    // consumes nothing while doing so.
    let streams: Vec<Vec<u8>> = vec![
        vec![0x02, 0x07],
        vec![0x04, 0x01, 0x02],
        vec![0x05],
        vec![0x0A, 0x00],
        vec![0x0E, 0x01, 0x02, 0x01, 0x00, 0x05, 0x00, 0x61],
        message_stream()[..66].to_vec(),
    ];
    for bytes in streams {
        let mut b = buffer_with(&bytes);
        match b.poll_lurk() {
            LurkPollEvent::Pending => {}
            _ => panic!("expected Pending on truncated frame {:?}", bytes),
        }
        assert_eq!(b.len(), bytes.len());
    }
}

#[test]
fn back_to_back_frames_share_a_stream() {
    let mut bytes = vec![0x03u8];
    bytes.extend_from_slice(&[0x02, 0x2A, 0x00]);
    bytes.push(0x06);
    let mut b = buffer_with(&bytes);
    assert!(matches!(b.poll_lurk(), LurkPollEvent::Fight));
    match b.poll_lurk() {
        LurkPollEvent::ChangeRoom(c) => assert_eq!(c.room_number, 42),
        _ => panic!("expected ChangeRoom"),
    }
    assert!(matches!(b.poll_lurk(), LurkPollEvent::Start));
    assert!(matches!(b.poll_lurk(), LurkPollEvent::Pending));
}

#[test]
fn character_frame_round_trip() {
    let mut w = WriteBuffer::new();
    let ch = lurk_server::protocol::Character {
        name: lossy_string_to_lurk_name("grendel"),
        flags: lurk_server::protocol::CharacterFlags { bits: 0xA0 },
        attack: 300,
        defense: 20,
        regen: 5,
        health: -12,
        gold: 1000,
        current_room_number: 7,
        description: b"lurks".to_vec(),
    };
    w.write_character(&ch);
    let bytes = w.drain();
    assert_eq!(bytes.len(), 48 + 5);
    let mut b = buffer_with(&bytes);
    let back = match b.poll_lurk() {
        LurkPollEvent::Character(c) => c,
        _ => panic!("expected Character"),
    };
    assert_eq!(back, ch);
}

#[test]
fn pvp_fight_and_loot_frames() {
    let name = lossy_string_to_lurk_name("victim");
    let mut bytes = vec![0x04u8];
    bytes.extend_from_slice(&name.bytes);
    bytes.push(0x05);
    bytes.extend_from_slice(&name.bytes);
    bytes.push(0x0C);
    let mut b = buffer_with(&bytes);
    match b.poll_lurk() {
        LurkPollEvent::PVPFight(p) => assert_eq!(p.target, name),
        _ => panic!("expected PVPFight"),
    }
    match b.poll_lurk() {
        LurkPollEvent::Loot(l) => assert_eq!(l.target, name),
        _ => panic!("expected Loot"),
    }
    assert!(matches!(b.poll_lurk(), LurkPollEvent::Leave));
}

#[test]
fn version_with_no_extensions() {
    let mut b = buffer_with(&[0x0E, 0x02, 0x03, 0x00, 0x00]);
    let v = match b.poll_lurk() {
        LurkPollEvent::Version(v) => v,
        _ => panic!("expected Version"),
    };
    assert_eq!((v.major, v.minor), (2, 3));
    assert!(v.extensions.is_empty());
}

#[test]
fn chunked_feeding_yields_the_same_events() {
    // One stream holding five frames and a trailing partial frame, fed
    // whole and then again in every two-way split: the ordered event
    // sequence and the leftover bytes agree each time.
    let mut stream = vec![0x03u8];
    stream.extend_from_slice(&[0x02, 0x07, 0x00]);
    stream.extend_from_slice(&message_stream());
    stream.push(0x06);
    stream.extend_from_slice(&[0x0E, 0x01, 0x02, 0x01, 0x00, 0x02, 0x00, b'h', b'i']);
    stream.extend_from_slice(&[0x02, 0x09]);

    let mut whole = buffer_with(&stream);
    let expected = drain_events(&mut whole);
    assert_eq!(expected.len(), 5);
    assert_eq!(whole.len(), 2);

    for cut in 0..=stream.len() {
        let mut b = buffer_with(&stream[..cut]);
        let mut events = drain_events(&mut b);
        b.append(&stream[cut..]);
        events.extend(drain_events(&mut b));
        assert_eq!(events, expected, "split at {cut}");
        assert_eq!(b.len(), 2, "split at {cut}");
    }
}

#[test]
fn empty_buffer_is_pending() {
    let mut b = ReadBuffer::new();
    assert!(matches!(b.poll_lurk(), LurkPollEvent::Pending));
}
