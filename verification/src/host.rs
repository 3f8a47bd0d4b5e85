//! The script host's side of the core: the two shared FIFO queues, and
//! the translation of client events into flat records made of plain
//! values. An embedding wraps the queues for its interpreter and turns
//! records into whatever structure the script language wants.

use vstd::prelude::*;

use std::collections::VecDeque;

use crate::client::{ClientEvent, ClientEventKind};
use crate::protocol::{
    flag_set, Accept, Character, Connection, Error, Game, LurkName, Message, Room, Version,
    ALIVE, JOIN_BATTLE, MONSTER, READY, STARTED,
};
use crate::read::LurkReadEvent;
use crate::write::LurkWriteMessage;
use vstd::string::StringSliceAdditionalSpecFns;

verus! {

/// The inbound event queue: the server loop enqueues, the script drains.
/// Strict FIFO.
pub struct ClientEventBuffer {
    events: VecDeque<ClientEvent>,
}

impl View for ClientEventBuffer {
    type V = Seq<ClientEvent>;

    closed spec fn view(&self) -> Seq<ClientEvent> {
        self.events@
    }
}

impl Default for ClientEventBuffer {
    /// An empty queue.
    fn default() -> (r: ClientEventBuffer)
        ensures
            r@ == Seq::<ClientEvent>::empty(),
    {
        ClientEventBuffer { events: VecDeque::new() }
    }
}

impl ClientEventBuffer {
    /// Enqueue one event at the tail. Nothing is ever dropped.
    pub fn add(&mut self, event: ClientEvent)
        ensures
            final(self)@ == old(self)@.push(event),
    {
        self.events.push_back(event);
    }

    /// Discard every queued event.
    pub fn clear(&mut self)
        ensures
            final(self)@ == Seq::<ClientEvent>::empty(),
    {
        self.events.clear();
    }

    /// Dequeue the oldest event, if any.
    pub fn pop(&mut self) -> (r: Option<ClientEvent>)
        ensures
            old(self)@.len() == 0 ==> r is None && final(self)@ == old(self)@,
            old(self)@.len() > 0 ==> final(self)@ == old(self)@.drop_first() && match r {
                Option::Some(e) => e == old(self)@[0],
                Option::None => false,
            },
    {
        self.events.pop_front()
    }
}

/// The outbound write queue: the script enqueues, the server loop drains
/// to the encoder. Strict FIFO.
pub struct ClientWriteBuffer {
    messages: VecDeque<LurkWriteMessage>,
}

impl View for ClientWriteBuffer {
    type V = Seq<LurkWriteMessage>;

    closed spec fn view(&self) -> Seq<LurkWriteMessage> {
        self.messages@
    }
}

impl Default for ClientWriteBuffer {
    /// An empty queue.
    fn default() -> (r: ClientWriteBuffer)
        ensures
            r@ == Seq::<LurkWriteMessage>::empty(),
    {
        ClientWriteBuffer { messages: VecDeque::new() }
    }
}

impl ClientWriteBuffer {
    /// Enqueue one outbound message at the tail.
    fn add(&mut self, lurkmsg: LurkWriteMessage)
        ensures
            final(self)@ == old(self)@.push(lurkmsg),
    {
        self.messages.push_back(lurkmsg);
    }

    /// Enqueue a chat message.
    pub fn add_message(&mut self, message: Message)
        ensures
            final(self)@ == old(self)@.push(LurkWriteMessage::Message(message)),
    {
        self.add(LurkWriteMessage::Message(message));
    }

    /// Enqueue an error report.
    pub fn add_error(&mut self, error: Error)
        ensures
            final(self)@ == old(self)@.push(LurkWriteMessage::Error(error)),
    {
        self.add(LurkWriteMessage::Error(error));
    }

    /// Enqueue an acceptance.
    pub fn add_accept(&mut self, accept: Accept)
        ensures
            final(self)@ == old(self)@.push(LurkWriteMessage::Accept(accept)),
    {
        self.add(LurkWriteMessage::Accept(accept));
    }

    /// Enqueue a room description.
    pub fn add_room(&mut self, room: Room)
        ensures
            final(self)@ == old(self)@.push(LurkWriteMessage::Room(room)),
    {
        self.add(LurkWriteMessage::Room(room));
    }

    /// Enqueue a character sheet.
    pub fn add_character(&mut self, character: Character)
        ensures
            final(self)@ == old(self)@.push(LurkWriteMessage::Character(character)),
    {
        self.add(LurkWriteMessage::Character(character));
    }

    /// Enqueue the game description.
    pub fn add_game(&mut self, game: Game)
        ensures
            final(self)@ == old(self)@.push(LurkWriteMessage::Game(game)),
    {
        self.add(LurkWriteMessage::Game(game));
    }

    /// Enqueue a connection description.
    pub fn add_connection(&mut self, connection: Connection)
        ensures
            final(self)@ == old(self)@.push(LurkWriteMessage::Connection(connection)),
    {
        self.add(LurkWriteMessage::Connection(connection));
    }

    /// Enqueue a version handshake.
    pub fn add_version(&mut self, version: Version)
        ensures
            final(self)@ == old(self)@.push(LurkWriteMessage::Version(version)),
    {
        self.add(LurkWriteMessage::Version(version));
    }

    /// Dequeue the oldest outbound message, if any.
    pub fn pop(&mut self) -> (r: Option<LurkWriteMessage>)
        ensures
            old(self)@.len() == 0 ==> r is None && final(self)@ == old(self)@,
            old(self)@.len() > 0 ==> final(self)@ == old(self)@.drop_first() && match r {
                Option::Some(m) => m == old(self)@[0],
                Option::None => false,
            },
    {
        self.messages.pop_front()
    }
}

// ---------------------------------------------------------------------------
// Event records: client events flattened to plain values for the script.
// ---------------------------------------------------------------------------

/// The type-specific fields of one event record, as the script sees them.
/// Names and texts stay bytes here; the embedding renders them as lossy
/// UTF-8 strings.
pub enum RecordBody {
    Message { recipient: LurkName, sender: LurkName, message: Vec<u8> },
    ChangeRoom { room_number: u16 },
    Fight,
    PvpFight { target: LurkName },
    Loot { target: LurkName },
    Start,
    Character {
        name: LurkName,
        alive: bool,
        join_battle: bool,
        monster: bool,
        started: bool,
        ready: bool,
        attack: u16,
        defense: u16,
        regen: u16,
        health: i16,
        gold: u16,
        room_number: u16,
        description: Vec<u8>,
    },
    Leave,
    Version { major: u8, minor: u8 },
    Join,
    Left,
}

/// One event record: which client, and what happened.
pub struct EventRecord {
    pub id: u128,
    pub body: RecordBody,
}

/// Whether `b` renders the event kind `k` faithfully: every field carried
/// over unchanged, and each character flag read from its named bit.
pub open spec fn record_matches(k: ClientEventKind, b: RecordBody) -> bool {
    match (k, b) {
        (ClientEventKind::Join, RecordBody::Join) => true,
        (ClientEventKind::Left, RecordBody::Left) => true,
        (
            ClientEventKind::Read(LurkReadEvent::Message(m)),
            RecordBody::Message { recipient, sender, message },
        ) => recipient@ == m.recipient@ && sender@ == m.sender@ && message@ == m.message@,
        (
            ClientEventKind::Read(LurkReadEvent::ChangeRoom(c)),
            RecordBody::ChangeRoom { room_number },
        ) => room_number == c.room_number,
        (ClientEventKind::Read(LurkReadEvent::Fight), RecordBody::Fight) => true,
        (
            ClientEventKind::Read(LurkReadEvent::PVPFight(p)),
            RecordBody::PvpFight { target },
        ) => target@ == p.target@,
        (ClientEventKind::Read(LurkReadEvent::Loot(l)), RecordBody::Loot { target }) => target@
            == l.target@,
        (ClientEventKind::Read(LurkReadEvent::Start), RecordBody::Start) => true,
        (
            ClientEventKind::Read(LurkReadEvent::Character(c)),
            RecordBody::Character {
                name,
                alive,
                join_battle,
                monster,
                started,
                ready,
                attack,
                defense,
                regen,
                health,
                gold,
                room_number,
                description,
            },
        ) => {
            &&& name@ == c.name@
            &&& alive == flag_set(c.flags.bits, ALIVE)
            &&& join_battle == flag_set(c.flags.bits, JOIN_BATTLE)
            &&& monster == flag_set(c.flags.bits, MONSTER)
            &&& started == flag_set(c.flags.bits, STARTED)
            &&& ready == flag_set(c.flags.bits, READY)
            &&& attack == c.attack
            &&& defense == c.defense
            &&& regen == c.regen
            &&& health == c.health
            &&& gold == c.gold
            &&& room_number == c.current_room_number
            &&& description@ == c.description@
        },
        (ClientEventKind::Read(LurkReadEvent::Leave), RecordBody::Leave) => true,
        (
            ClientEventKind::Read(LurkReadEvent::Version(v)),
            RecordBody::Version { major, minor },
        ) => major == v.major && minor == v.minor,
        _ => false,
    }
}

/// Flatten one client event into the record the script receives: the
/// client's id, the event's tag, and its fields, with the character
/// flags spelled out as booleans.
pub fn event_record(event: ClientEvent) -> (r: EventRecord)
    ensures
        r.id == event.client_id,
        record_matches(event.event, r.body),
{
    let body = match event.event {
        ClientEventKind::Join => RecordBody::Join,
        ClientEventKind::Left => RecordBody::Left,
        ClientEventKind::Read(read_event) => match read_event {
            LurkReadEvent::Message(m) => RecordBody::Message {
                recipient: m.recipient,
                sender: m.sender,
                message: m.message,
            },
            LurkReadEvent::ChangeRoom(c) => RecordBody::ChangeRoom {
                room_number: c.room_number,
            },
            LurkReadEvent::Fight => RecordBody::Fight,
            LurkReadEvent::PVPFight(p) => RecordBody::PvpFight { target: p.target },
            LurkReadEvent::Loot(l) => RecordBody::Loot { target: l.target },
            LurkReadEvent::Start => RecordBody::Start,
            LurkReadEvent::Character(c) => RecordBody::Character {
                name: c.name,
                alive: c.flags.intersects(ALIVE),
                join_battle: c.flags.intersects(JOIN_BATTLE),
                monster: c.flags.intersects(MONSTER),
                started: c.flags.intersects(STARTED),
                ready: c.flags.intersects(READY),
                attack: c.attack,
                defense: c.defense,
                regen: c.regen,
                health: c.health,
                gold: c.gold,
                room_number: c.current_room_number,
                description: c.description,
            },
            LurkReadEvent::Leave => RecordBody::Leave,
            LurkReadEvent::Version(v) => RecordBody::Version { major: v.major, minor: v.minor },
        },
    };
    EventRecord { id: event.client_id, body }
}

/// The 32-byte name a string stands for: its bytes truncated to 32, or
/// padded at the tail with zero bytes.
pub open spec fn name_of_bytes(b: Seq<u8>) -> Seq<u8> {
    if b.len() >= 32 {
        b.take(32)
    } else {
        b + Seq::new((32 - b.len()) as nat, |i: int| 0u8)
    }
}

/// Pad or truncate a string's bytes to the fixed 32-byte name form.
pub fn lossy_string_to_lurk_name(string: &str) -> (r: LurkName)
    ensures
        r@ == name_of_bytes(string.spec_bytes()),
{
    let bytes = string.as_bytes();
    let n = if bytes.len() < 32 {
        bytes.len()
    } else {
        32
    };
    let mut buf = [0u8; 32];
    let mut i: usize = 0;
    while i < n
        invariant
            i <= n,
            n <= 32,
            n <= bytes@.len(),
            bytes@ == string.spec_bytes(),
            forall|j: int| 0 <= j < i ==> buf@[j] == bytes@[j],
            forall|j: int| i <= j < 32 ==> buf@[j] == 0u8,
        decreases n - i,
    {
        buf[i] = bytes[i];
        i = i + 1;
    }
    proof {
        assert(buf@ =~= name_of_bytes(string.spec_bytes()));
    }
    LurkName { bytes: buf }
}

} // verus!
