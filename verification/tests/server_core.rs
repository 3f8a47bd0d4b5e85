//! Client lifecycle, queues, flags and the script-facing records.

use lurk_server::client::{ClientEventKind, ClientFactory};
use lurk_server::host::{
    event_record, lossy_string_to_lurk_name, ClientEventBuffer, ClientWriteBuffer, RecordBody,
};
use lurk_server::protocol::{
    Accept, ChangeRoom, CharacterFlags, ALIVE, JOIN_BATTLE, MONSTER, READY, STARTED,
};
use lurk_server::read::LurkReadEvent;
use lurk_server::write::LurkWriteMessage;

#[test]
fn client_ids_strictly_increase() {
    let mut factory = ClientFactory::default();
    let a = factory.create();
    let b = factory.create();
    let c = factory.create();
    assert_eq!(a.id(), 1);
    assert_eq!(b.id(), 2);
    assert_eq!(c.id(), 3);
    assert!(a.id() < b.id() && b.id() < c.id());
}

#[test]
fn buffer_cap_poisons_client() {
    let mut factory = ClientFactory::default();
    let mut client = factory.create();
    let chunk = vec![0u8; 64 * 1024];
    for _ in 0..17 {
        client.read.append(&chunk);
    }
    assert!(client.read.len() > 1024 * 1024);
    assert!(client.poll_event().is_none());
    assert!(client.poisoned());
}

#[test]
fn active_client_yields_read_events() {
    let mut factory = ClientFactory::default();
    let mut client = factory.create();
    client.read.append(&[0x02, 0x07, 0x00, 0x03]);
    let first = client.poll_event().expect("first frame");
    assert_eq!(first.client_id(), client.id());
    match first.event() {
        ClientEventKind::Read(LurkReadEvent::ChangeRoom(c)) => assert_eq!(c.room_number, 7),
        _ => panic!("expected a ChangeRoom read event"),
    }
    let second = client.poll_event().expect("second frame");
    assert!(matches!(second.event(), ClientEventKind::Read(LurkReadEvent::Fight)));
    assert!(client.poll_event().is_none());
    assert!(!client.poisoned());
}

#[test]
fn join_and_left_events_carry_id() {
    let mut factory = ClientFactory::default();
    let client = factory.create();
    let join = client.join();
    assert!(matches!(join.event(), ClientEventKind::Join));
    assert_eq!(join.client_id(), client.id());
    let left = client.left();
    assert!(matches!(left.event(), ClientEventKind::Left));
    assert_eq!(left.client_id(), client.id());
}

#[test]
fn event_queue_is_fifo() {
    let mut factory = ClientFactory::default();
    let a = factory.create();
    let b = factory.create();
    let mut q = ClientEventBuffer::default();
    assert!(q.pop().is_none());
    q.add(a.join());
    q.add(b.join());
    q.add(a.left());
    assert_eq!(q.pop().unwrap().client_id(), a.id());
    assert_eq!(q.pop().unwrap().client_id(), b.id());
    let third = q.pop().unwrap();
    assert_eq!(third.client_id(), a.id());
    assert!(matches!(third.event(), ClientEventKind::Left));
    assert!(q.pop().is_none());
}

#[test]
fn event_queue_clear_empties() {
    let mut factory = ClientFactory::default();
    let a = factory.create();
    let mut q = ClientEventBuffer::default();
    q.add(a.join());
    q.clear();
    assert!(q.pop().is_none());
}

#[test]
fn write_queue_is_fifo() {
    let mut q = ClientWriteBuffer::default();
    assert!(q.pop().is_none());
    q.add_accept(Accept { code: 1 });
    q.add_accept(Accept { code: 2 });
    match q.pop().unwrap() {
        LurkWriteMessage::Accept(a) => assert_eq!(a.code, 1),
        _ => panic!("expected the first Accept"),
    }
    match q.pop().unwrap() {
        LurkWriteMessage::Accept(a) => assert_eq!(a.code, 2),
        _ => panic!("expected the second Accept"),
    }
    assert!(q.pop().is_none());
}

#[test]
fn character_flags_set_and_clear() {
    let mut flags = CharacterFlags::from(0u8);
    flags.set_alive(true);
    flags.set_monster(true);
    assert_eq!(flags.to_u8(), 0xA0);
    flags.set_alive(false);
    assert_eq!(flags.to_u8(), 0x20);
    flags.set_join_battle(true);
    flags.set_started(true);
    flags.set_ready(true);
    assert_eq!(flags.to_u8(), 0x20 | 0x40 | 0x10 | 0x08);
    assert!(flags.intersects(MONSTER));
    assert!(flags.intersects(JOIN_BATTLE));
    assert!(flags.intersects(STARTED));
    assert!(flags.intersects(READY));
    assert!(!flags.intersects(ALIVE));
}

#[test]
fn record_of_change_room_event() {
    let mut factory = ClientFactory::default();
    let mut client = factory.create();
    client.read.append(&[0x02, 0x2A, 0x00]);
    let ev = client.poll_event().expect("a frame");
    let record = event_record(ev);
    assert_eq!(record.id, client.id());
    match record.body {
        RecordBody::ChangeRoom { room_number } => assert_eq!(room_number, 42),
        _ => panic!("expected a change_room record"),
    }
}

#[test]
fn record_of_character_event_spells_flags() {
    let mut factory = ClientFactory::default();
    let mut client = factory.create();
    let mut bytes = vec![0x0Au8];
    bytes.extend_from_slice(&lossy_string_to_lurk_name("hero").bytes);
    bytes.push(ALIVE | READY);
    let words: [u16; 7] = [10, 20, 30, 0xFFFE, 50, 60, 0];
    for w in words {
        bytes.extend_from_slice(&[(w % 256) as u8, (w / 256) as u8]);
    }
    let ev = {
        client.read.append(&bytes);
        client.poll_event().expect("a character frame")
    };
    let record = event_record(ev);
    match record.body {
        RecordBody::Character {
            name,
            alive,
            join_battle,
            monster,
            started,
            ready,
            attack,
            defense,
            regen,
            health,
            gold,
            room_number,
            description,
        } => {
            assert_eq!(name, lossy_string_to_lurk_name("hero"));
            assert!(alive && ready);
            assert!(!join_battle && !monster && !started);
            assert_eq!((attack, defense, regen), (10, 20, 30));
            assert_eq!(health, -2);
            assert_eq!((gold, room_number), (50, 60));
            assert!(description.is_empty());
        }
        _ => panic!("expected a character record"),
    }
}

#[test]
fn record_of_loot_keeps_type_and_target() {
    let mut factory = ClientFactory::default();
    let mut client = factory.create();
    let target = lossy_string_to_lurk_name("chest");
    let mut bytes = vec![0x05u8];
    bytes.extend_from_slice(&target.bytes);
    client.read.append(&bytes);
    let ev = client.poll_event().expect("a loot frame");
    let record = event_record(ev);
    match record.body {
        RecordBody::Loot { target: t } => assert_eq!(t, target),
        _ => panic!("expected a loot record"),
    }
}

#[test]
fn record_of_lifecycle_events() {
    let mut factory = ClientFactory::default();
    let client = factory.create();
    assert!(matches!(event_record(client.join()).body, RecordBody::Join));
    assert!(matches!(event_record(client.left()).body, RecordBody::Left));
}

#[test]
fn poisoned_client_stays_silent_on_good_input() {
    let mut factory = ClientFactory::default();
    let mut client = factory.create();
    client.poison();
    client.read.append(&[0x03]);
    assert!(client.poll_event().is_none());
    assert!(client.poisoned());
}

#[test]
fn change_room_equality_is_by_fields() {
    assert_eq!(ChangeRoom { room_number: 7 }, ChangeRoom { room_number: 7 });
    assert_ne!(ChangeRoom { room_number: 7 }, ChangeRoom { room_number: 8 });
}
