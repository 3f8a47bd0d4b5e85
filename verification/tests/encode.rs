//! Encoder scenarios: exact wire bytes, length determinism, and the
//! well-formedness gate on outbound messages.

use lurk_server::host::lossy_string_to_lurk_name;
use lurk_server::protocol::{Accept, Connection, Error, Game, Room, Version};
use lurk_server::write::{check_write_wf, LurkWrite, LurkWriteMessage, WriteBuffer};

#[test]
fn error_frame_bytes() {
    let mut w = WriteBuffer::new();
    let e = Error { code: 5, message: b"no".to_vec() };
    w.write_error(&e);
    assert_eq!(w.drain(), vec![0x07, 0x05, 0x02, 0x00, b'n', b'o']);
}

#[test]
fn accept_frame_bytes() {
    let mut w = WriteBuffer::new();
    w.write_accept(&Accept { code: 2 });
    assert_eq!(w.drain(), vec![0x08, 0x02]);
}

#[test]
fn room_frame_bytes() {
    let mut w = WriteBuffer::new();
    let room = Room {
        number: 258,
        name: lossy_string_to_lurk_name("cave"),
        description: b"dark".to_vec(),
    };
    w.write_room(&room);
    let bytes = w.drain();
    assert_eq!(bytes.len(), 37 + 4);
    assert_eq!(&bytes[..3], &[0x09, 0x02, 0x01]);
    assert_eq!(&bytes[3..7], b"cave");
    assert_eq!(&bytes[35..37], &[0x04, 0x00]);
    assert_eq!(&bytes[37..], b"dark");
}

#[test]
fn game_frame_bytes() {
    let mut w = WriteBuffer::new();
    let game = Game { initial_points: 100, stat_limit: 65535, description: b"go".to_vec() };
    w.write_game(&game);
    assert_eq!(w.drain(), vec![0x0B, 0x64, 0x00, 0xFF, 0xFF, 0x02, 0x00, b'g', b'o']);
}

#[test]
fn connection_frame_bytes() {
    let mut w = WriteBuffer::new();
    let conn = Connection {
        room_number: 3,
        room_name: lossy_string_to_lurk_name("hall"),
        description: b"east".to_vec(),
    };
    w.write_connection(&conn);
    let bytes = w.drain();
    assert_eq!(bytes.len(), 37 + 4);
    assert_eq!(&bytes[..3], &[0x0D, 0x03, 0x00]);
    assert_eq!(&bytes[35..37], &[0x04, 0x00]);
}

#[test]
fn version_frame_bytes() {
    let mut w = WriteBuffer::new();
    let v = Version { major: 1, minor: 2, extensions: vec![b"foo".to_vec(), b"bar".to_vec()] };
    w.write_version(&v);
    let mut expected = vec![0x0Eu8, 0x01, 0x02, 0x02, 0x00, 0x03, 0x00];
    expected.extend_from_slice(b"foo");
    expected.extend_from_slice(&[0x03, 0x00]);
    expected.extend_from_slice(b"bar");
    assert_eq!(w.drain(), expected);
}

#[test]
fn name_padding_and_truncation() {
    let short = lossy_string_to_lurk_name("bob");
    assert_eq!(&short.bytes[..3], b"bob");
    assert!(short.bytes[3..].iter().all(|&b| b == 0));

    let long = lossy_string_to_lurk_name("abcdefghijklmnopqrstuvwxyz0123456789");
    assert_eq!(&long.bytes[..], b"abcdefghijklmnopqrstuvwxyz012345");
}

#[test]
fn length_determinism_concrete() {
    // len(encode(v)) == static_block_size + tail_len(v) on sample values.
    let mut w = WriteBuffer::new();
    let msg = lurk_server::protocol::Message {
        recipient: lossy_string_to_lurk_name("a"),
        sender: lossy_string_to_lurk_name("b"),
        message: vec![7u8; 11],
    };
    w.write_message(&msg);
    assert_eq!(w.len(), 67 + 11);
    w.write_error(&Error { code: 0, message: vec![] });
    assert_eq!(w.len(), 67 + 11 + 4);
    w.write_accept(&Accept { code: 9 });
    assert_eq!(w.len(), 67 + 11 + 4 + 2);
}

#[test]
fn oversized_tail_is_refused() {
    let huge = Error { code: 1, message: vec![0u8; 0x10000] };
    let msg = LurkWriteMessage::Error(huge);
    assert!(!check_write_wf(&msg));
    let mut w = WriteBuffer::new();
    assert!(!w.try_write_lurk(&msg));
    assert_eq!(w.len(), 0);

    let bad_version = Version { major: 1, minor: 0, extensions: vec![vec![0u8; 0x10000]] };
    assert!(!check_write_wf(&LurkWriteMessage::Version(bad_version)));
}

#[test]
fn well_formed_write_goes_through() {
    let mut w = WriteBuffer::new();
    let msg = LurkWriteMessage::Accept(Accept { code: 8 });
    assert!(w.try_write_lurk(&msg));
    assert_eq!(w.drain(), vec![0x08, 0x08]);
}

#[test]
fn negative_health_two_byte_pattern() {
    let mut w = WriteBuffer::new();
    let ch = lurk_server::protocol::Character {
        name: lossy_string_to_lurk_name("x"),
        flags: lurk_server::protocol::CharacterFlags { bits: 0 },
        attack: 0,
        defense: 0,
        regen: 0,
        health: -1,
        gold: 0,
        current_room_number: 0,
        description: vec![],
    };
    w.write_character(&ch);
    let bytes = w.drain();
    // health sits at offsets 40 and 41; -1 is 0xFFFF on the wire.
    assert_eq!(&bytes[40..42], &[0xFF, 0xFF]);
}
