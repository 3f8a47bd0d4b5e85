//! The wire format, stated mathematically: for every message kind an
//! encoding function over byte sequences, a completeness test that mirrors
//! the decoder's poll, and a decoding function. The executable encoder and
//! decoder are verified against these, and the protocol laws (round-trip,
//! length determinism, prefix partiality, incremental equivalence) are
//! proved of them.

use vstd::prelude::*;

use crate::protocol::{
    Accept, ChangeRoom, Character, CharacterFlags, Connection, Error, Game, LurkName, Message,
    PVPFight, Loot, Room, Version,
};
use crate::read::LurkPollState;

verus! {

/// The little-endian 16-bit value stored as `lo` then `hi` on the wire.
pub open spec fn le16(lo: u8, hi: u8) -> u16 {
    (lo + 256 * hi) as u16
}

/// Low byte of `x` in little-endian order.
pub open spec fn lo_byte(x: u16) -> u8 {
    (x % 256) as u8
}

/// High byte of `x` in little-endian order.
pub open spec fn hi_byte(x: u16) -> u8 {
    (x / 256) as u8
}

/// The two wire bytes of `x`, little-endian.
pub open spec fn le16_bytes(x: u16) -> Seq<u8> {
    seq![lo_byte(x), hi_byte(x)]
}

/// The unsigned 16-bit pattern that stands for `x` on the wire
/// (two's complement).
pub open spec fn u16_of_i16(x: i16) -> u16 {
    if x >= 0 {
        x as u16
    } else {
        (x + 0x10000) as u16
    }
}

/// The signed value read back from the wire pattern `x`.
pub open spec fn i16_of_u16(x: u16) -> i16 {
    if x < 0x8000 {
        x as i16
    } else {
        (x - 0x10000) as i16
    }
}

// ---------------------------------------------------------------------------
// Views: the mathematical value of each kind that carries a name or a
// variable tail. Kinds made of plain scalars stand for themselves.
// ---------------------------------------------------------------------------

/// Mathematical value of a `Message` frame.
#[verifier::ext_equal]
pub ghost struct MessageView {
    pub recipient: Seq<u8>,
    pub sender: Seq<u8>,
    pub message: Seq<u8>,
}

/// Mathematical value of a `PVPFight` frame.
#[verifier::ext_equal]
pub ghost struct PVPFightView {
    pub target: Seq<u8>,
}

/// Mathematical value of a `Loot` frame.
#[verifier::ext_equal]
pub ghost struct LootView {
    pub target: Seq<u8>,
}

/// Mathematical value of an `Error` frame.
#[verifier::ext_equal]
pub ghost struct ErrorView {
    pub code: u8,
    pub message: Seq<u8>,
}

/// Mathematical value of a `Room` frame.
#[verifier::ext_equal]
pub ghost struct RoomView {
    pub number: u16,
    pub name: Seq<u8>,
    pub description: Seq<u8>,
}

/// Mathematical value of a `Character` frame.
#[verifier::ext_equal]
pub ghost struct CharacterView {
    pub name: Seq<u8>,
    pub flags: u8,
    pub attack: u16,
    pub defense: u16,
    pub regen: u16,
    pub health: i16,
    pub gold: u16,
    pub current_room_number: u16,
    pub description: Seq<u8>,
}

/// Mathematical value of a `Game` frame.
#[verifier::ext_equal]
pub ghost struct GameView {
    pub initial_points: u16,
    pub stat_limit: u16,
    pub description: Seq<u8>,
}

/// Mathematical value of a `Connection` frame.
#[verifier::ext_equal]
pub ghost struct ConnectionView {
    pub room_number: u16,
    pub room_name: Seq<u8>,
    pub description: Seq<u8>,
}

/// Mathematical value of a `Version` frame.
#[verifier::ext_equal]
pub ghost struct VersionView {
    pub major: u8,
    pub minor: u8,
    pub extensions: Seq<Seq<u8>>,
}

impl View for LurkName {
    type V = Seq<u8>;

    open spec fn view(&self) -> Seq<u8> {
        self.bytes@
    }
}

impl View for Message {
    type V = MessageView;

    open spec fn view(&self) -> MessageView {
        MessageView {
            recipient: self.recipient@,
            sender: self.sender@,
            message: self.message@,
        }
    }
}

impl View for PVPFight {
    type V = PVPFightView;

    open spec fn view(&self) -> PVPFightView {
        PVPFightView { target: self.target@ }
    }
}

impl View for Loot {
    type V = LootView;

    open spec fn view(&self) -> LootView {
        LootView { target: self.target@ }
    }
}

impl View for Error {
    type V = ErrorView;

    open spec fn view(&self) -> ErrorView {
        ErrorView { code: self.code, message: self.message@ }
    }
}

impl View for Room {
    type V = RoomView;

    open spec fn view(&self) -> RoomView {
        RoomView { number: self.number, name: self.name@, description: self.description@ }
    }
}

impl View for Character {
    type V = CharacterView;

    open spec fn view(&self) -> CharacterView {
        CharacterView {
            name: self.name@,
            flags: self.flags.bits,
            attack: self.attack,
            defense: self.defense,
            regen: self.regen,
            health: self.health,
            gold: self.gold,
            current_room_number: self.current_room_number,
            description: self.description@,
        }
    }
}

impl View for Game {
    type V = GameView;

    open spec fn view(&self) -> GameView {
        GameView {
            initial_points: self.initial_points,
            stat_limit: self.stat_limit,
            description: self.description@,
        }
    }
}

impl View for Connection {
    type V = ConnectionView;

    open spec fn view(&self) -> ConnectionView {
        ConnectionView {
            room_number: self.room_number,
            room_name: self.room_name@,
            description: self.description@,
        }
    }
}

/// The byte sequences held by a list of byte vectors, in order.
pub open spec fn vecs_view(v: Seq<Vec<u8>>) -> Seq<Seq<u8>> {
    Seq::new(v.len(), |i: int| v[i]@)
}

impl View for Version {
    type V = VersionView;

    open spec fn view(&self) -> VersionView {
        VersionView {
            major: self.major,
            minor: self.minor,
            extensions: vecs_view(self.extensions@),
        }
    }
}

// ---------------------------------------------------------------------------
// Well-formedness: what it takes for a value to have a wire form at all.
// ---------------------------------------------------------------------------

/// A `Message` value with names of exactly 32 bytes and a tail whose
/// length fits the `u16` length field.
pub open spec fn message_wf(m: MessageView) -> bool {
    &&& m.recipient.len() == 32
    &&& m.sender.len() == 32
    &&& m.message.len() <= 0xffff
}

/// An `Error` value whose text length fits the `u16` length field.
pub open spec fn error_wf(e: ErrorView) -> bool {
    e.message.len() <= 0xffff
}

/// A `Room` value with a 32-byte name and a description that fits.
pub open spec fn room_wf(r: RoomView) -> bool {
    &&& r.name.len() == 32
    &&& r.description.len() <= 0xffff
}

/// A `Character` value with a 32-byte name and a description that fits.
pub open spec fn character_wf(c: CharacterView) -> bool {
    &&& c.name.len() == 32
    &&& c.description.len() <= 0xffff
}

/// A `Game` value whose description fits the `u16` length field.
pub open spec fn game_wf(g: GameView) -> bool {
    g.description.len() <= 0xffff
}

/// A `Connection` value with a 32-byte room name and a description that
/// fits.
pub open spec fn connection_wf(c: ConnectionView) -> bool {
    &&& c.room_name.len() == 32
    &&& c.description.len() <= 0xffff
}

/// A `PVPFight` value with a 32-byte target name.
pub open spec fn pvp_fight_wf(p: PVPFightView) -> bool {
    p.target.len() == 32
}

/// A `Loot` value with a 32-byte target name.
pub open spec fn loot_wf(l: LootView) -> bool {
    l.target.len() == 32
}

/// A `Version` value whose extension count and every extension length fit
/// their `u16` fields.
pub open spec fn version_wf(v: VersionView) -> bool {
    &&& v.extensions.len() <= 0xffff
    &&& forall|i: int| 0 <= i < v.extensions.len() ==> #[trigger] v.extensions[i].len() <= 0xffff
}

// ---------------------------------------------------------------------------
// Encoding: the exact wire form of each kind.
// ---------------------------------------------------------------------------

/// Wire form of a `Message`: code, tail length, the two names, the tail.
pub open spec fn encode_message(m: MessageView) -> Seq<u8> {
    seq![1u8] + le16_bytes(m.message.len() as u16) + m.recipient + m.sender + m.message
}

/// Wire form of a `ChangeRoom`: code, room number.
pub open spec fn encode_change_room(c: ChangeRoom) -> Seq<u8> {
    seq![2u8] + le16_bytes(c.room_number)
}

/// Wire form of a `Fight`: the code alone.
pub open spec fn encode_fight() -> Seq<u8> {
    seq![3u8]
}

/// Wire form of a `PVPFight`: code, target name.
pub open spec fn encode_pvp_fight(p: PVPFightView) -> Seq<u8> {
    seq![4u8] + p.target
}

/// Wire form of a `Loot`: code, target name.
pub open spec fn encode_loot(l: LootView) -> Seq<u8> {
    seq![5u8] + l.target
}

/// Wire form of a `Start`: the code alone.
pub open spec fn encode_start() -> Seq<u8> {
    seq![6u8]
}

/// Wire form of an `Error`: code, error code, text length, text.
pub open spec fn encode_error(e: ErrorView) -> Seq<u8> {
    seq![7u8, e.code] + le16_bytes(e.message.len() as u16) + e.message
}

/// Wire form of an `Accept`: code, accepted action code.
pub open spec fn encode_accept(a: Accept) -> Seq<u8> {
    seq![8u8, a.code]
}

/// Wire form of a `Room`: code, number, name, description length,
/// description.
pub open spec fn encode_room(r: RoomView) -> Seq<u8> {
    seq![9u8] + le16_bytes(r.number) + r.name + le16_bytes(r.description.len() as u16)
        + r.description
}

/// Wire form of a `Character`: code, name, flag byte, the five stats,
/// the room number, description length, description.
pub open spec fn encode_character(c: CharacterView) -> Seq<u8> {
    seq![10u8] + c.name + seq![c.flags] + le16_bytes(c.attack) + le16_bytes(c.defense)
        + le16_bytes(c.regen) + le16_bytes(u16_of_i16(c.health)) + le16_bytes(c.gold)
        + le16_bytes(c.current_room_number) + le16_bytes(c.description.len() as u16)
        + c.description
}

/// Wire form of a `Game`: code, initial points, stat limit, description
/// length, description.
pub open spec fn encode_game(g: GameView) -> Seq<u8> {
    seq![11u8] + le16_bytes(g.initial_points) + le16_bytes(g.stat_limit)
        + le16_bytes(g.description.len() as u16) + g.description
}

/// Wire form of a `Leave`: the code alone.
pub open spec fn encode_leave() -> Seq<u8> {
    seq![12u8]
}

/// Wire form of a `Connection`: code, room number, room name, description
/// length, description.
pub open spec fn encode_connection(c: ConnectionView) -> Seq<u8> {
    seq![13u8] + le16_bytes(c.room_number) + c.room_name
        + le16_bytes(c.description.len() as u16) + c.description
}

/// Wire form of one `Version` extension: its length, then its bytes.
pub open spec fn encode_ext(e: Seq<u8>) -> Seq<u8> {
    le16_bytes(e.len() as u16) + e
}

/// Wire form of a list of `Version` extensions, in order.
pub open spec fn encode_exts(exts: Seq<Seq<u8>>) -> Seq<u8>
    decreases exts.len(),
{
    if exts.len() == 0 {
        Seq::empty()
    } else {
        encode_ext(exts[0]) + encode_exts(exts.drop_first())
    }
}

/// Wire form of a `Version`: code, major, minor, extension count, then
/// each extension with its own length field.
pub open spec fn encode_version(v: VersionView) -> Seq<u8> {
    seq![14u8, v.major, v.minor] + le16_bytes(v.extensions.len() as u16)
        + encode_exts(v.extensions)
}

// ---------------------------------------------------------------------------
// Completeness and frame length: what the poll phase decides.
// ---------------------------------------------------------------------------

/// The generic completeness check over a static block of `s` bytes and,
/// when `var` holds, a tail whose length stands in the final two bytes of
/// the static block.
pub open spec fn generic_poll(b: Seq<u8>, code: u8, s: int, var: bool) -> LurkPollState {
    if b.len() == 0 {
        LurkPollState::Partial
    } else if b[0] != code {
        LurkPollState::NoMatch
    } else if b.len() < s {
        LurkPollState::Partial
    } else if !var {
        LurkPollState::Complete
    } else if b.len() >= s + le16(b[s - 2], b[s - 1]) {
        LurkPollState::Complete
    } else {
        LurkPollState::Partial
    }
}

/// Total length of the frame at the head of `b` for a kind with static
/// block `s` and a variable tail.
pub open spec fn var_frame_len(b: Seq<u8>, s: int) -> int {
    s + le16(b[s - 2], b[s - 1])
}

/// Total length of the `Message` frame at the head of `b`: its length
/// field stands at offsets 1 and 2, before the two names.
pub open spec fn message_frame_len(b: Seq<u8>) -> int {
    67 + le16(b[1], b[2])
}

/// The `Message` poll: like the generic check, but with the tail length
/// read from offsets 1 and 2.
pub open spec fn poll_message_at(b: Seq<u8>) -> LurkPollState {
    if b.len() == 0 {
        LurkPollState::Partial
    } else if b[0] != 1 {
        LurkPollState::NoMatch
    } else if b.len() < 67 {
        LurkPollState::Partial
    } else if b.len() >= message_frame_len(b) {
        LurkPollState::Complete
    } else {
        LurkPollState::Partial
    }
}

/// Walks the `Version` extensions from `cursor` while `remaining` are
/// still owed, and yields the cursor one past the last one, or -1 when
/// the walk runs past the end of `b`.
pub open spec fn exts_end(b: Seq<u8>, cursor: int, remaining: int) -> int
    decreases remaining,
{
    if remaining <= 0 {
        cursor
    } else if cursor + 2 > b.len() {
        -1
    } else if cursor + 2 + le16(b[cursor], b[cursor + 1]) > b.len() {
        -1
    } else {
        exts_end(b, cursor + 2 + le16(b[cursor], b[cursor + 1]), remaining - 1)
    }
}

/// Total length of the `Version` frame at the head of `b`.
pub open spec fn version_frame_len(b: Seq<u8>) -> int {
    exts_end(b, 5, le16(b[3], b[4]) as int)
}

/// Walking `k + m` extensions is walking `k`, then `m` more from where
/// the first walk ended.
pub proof fn lemma_exts_end_split(b: Seq<u8>, cursor: int, k: int, m: int)
    requires
        0 <= cursor,
        0 <= k,
        0 <= m,
    ensures
        exts_end(b, cursor, k + m) == ({
            let mid = exts_end(b, cursor, k);
            if mid < 0 {
                -1
            } else {
                exts_end(b, mid, m)
            }
        }),
    decreases k,
{
    if k == 0 {
        assert(exts_end(b, cursor, 0) == cursor);
    } else if cursor + 2 > b.len() {
        assert(exts_end(b, cursor, k) == -1);
        assert(exts_end(b, cursor, k + m) == -1);
    } else if cursor + 2 + le16(b[cursor], b[cursor + 1]) > b.len() {
        assert(exts_end(b, cursor, k) == -1);
        assert(exts_end(b, cursor, k + m) == -1);
    } else {
        let next = cursor + 2 + le16(b[cursor], b[cursor + 1]);
        lemma_exts_end_split(b, next, k - 1, m);
        assert(exts_end(b, cursor, k) == exts_end(b, next, k - 1));
        assert(exts_end(b, cursor, k + m) == exts_end(b, next, k - 1 + m));
    }
}

/// One more step of the extension walk, written from the end: where the
/// walk of `j` extensions stands in terms of the walk of `j - 1`.
pub proof fn lemma_exts_end_step(b: Seq<u8>, start: int, j: int)
    requires
        0 <= start,
    ensures
        1 <= j ==> exts_end(b, start, j) == ({
            let prev = exts_end(b, start, j - 1);
            if prev < 0 {
                -1
            } else if prev + 2 > b.len() {
                -1
            } else if prev + 2 + le16(b[prev], b[prev + 1]) > b.len() {
                -1
            } else {
                prev + 2 + le16(b[prev], b[prev + 1])
            }
        }),
{
    if 1 <= j {
        lemma_exts_end_split(b, start, j - 1, 1);
        let prev = exts_end(b, start, j - 1);
        if prev >= 0 && prev + 2 <= b.len() && prev + 2 + le16(b[prev], b[prev + 1]) <= b.len() {
            let next = prev + 2 + le16(b[prev], b[prev + 1]);
            assert(exts_end(b, next, 0) == next);
            assert(exts_end(b, prev, 1) == next);
        }
    }
}

/// Decoding `k + m` extensions is decoding `k`, then `m` more from where
/// the walk of the first `k` ended.
pub proof fn lemma_decode_exts_split(b: Seq<u8>, cursor: int, k: int, m: int)
    requires
        0 <= cursor,
        0 <= k,
        0 <= m,
        exts_end(b, cursor, k) >= 0,
    ensures
        decode_exts(b, cursor, k + m) == decode_exts(b, cursor, k) + decode_exts(
            b,
            exts_end(b, cursor, k),
            m,
        ),
    decreases k,
{
    if k == 0 {
        assert(decode_exts(b, cursor, 0) == Seq::<Seq<u8>>::empty());
        assert(decode_exts(b, cursor, m) =~= decode_exts(b, cursor, 0) + decode_exts(b, cursor, m));
    } else {
        let next = cursor + 2 + le16(b[cursor], b[cursor + 1]);
        assert(cursor + 2 <= b.len() && next <= b.len());
        lemma_decode_exts_split(b, next, k - 1, m);
        let head = seq![b.subrange(cursor + 2, next)];
        assert(decode_exts(b, cursor, k + m) == head + decode_exts(b, next, k - 1 + m));
        assert(decode_exts(b, cursor, k) == head + decode_exts(b, next, k - 1));
        assert(head + (decode_exts(b, next, k - 1) + decode_exts(b, exts_end(b, cursor, k), m))
            =~= (head + decode_exts(b, next, k - 1)) + decode_exts(b, exts_end(b, cursor, k), m));
    }
}

/// One more decoded extension, written from the end: the first `j`
/// extensions are the first `j - 1` followed by the one at the walk's end.
pub proof fn lemma_decode_exts_step(b: Seq<u8>, start: int, j: int)
    requires
        0 <= start,
        1 <= j,
        exts_end(b, start, j - 1) >= 0,
    ensures
        ({
            let prev = exts_end(b, start, j - 1);
            (prev + 2 <= b.len() && prev + 2 + le16(b[prev], b[prev + 1]) <= b.len())
                ==> decode_exts(b, start, j) == decode_exts(b, start, j - 1) + seq![
                b.subrange(prev + 2, prev + 2 + le16(b[prev], b[prev + 1])),
            ]
        }),
{
    let prev = exts_end(b, start, j - 1);
    if prev + 2 <= b.len() && prev + 2 + le16(b[prev], b[prev + 1]) <= b.len() {
        lemma_decode_exts_split(b, start, j - 1, 1);
        let next = prev + 2 + le16(b[prev], b[prev + 1]);
        assert(decode_exts(b, next, 0) == Seq::<Seq<u8>>::empty());
        assert(decode_exts(b, prev, 1) =~= seq![b.subrange(prev + 2, next)]);
    }
}

/// The `Version` poll: after the 5-byte static header, all `n_ext`
/// extensions must lie within the buffer.
pub open spec fn poll_version_at(b: Seq<u8>) -> LurkPollState {
    if b.len() == 0 {
        LurkPollState::Partial
    } else if b[0] != 14 {
        LurkPollState::NoMatch
    } else if b.len() < 5 {
        LurkPollState::Partial
    } else if version_frame_len(b) >= 0 {
        LurkPollState::Complete
    } else {
        LurkPollState::Partial
    }
}

// ---------------------------------------------------------------------------
// Decoding: the value of a complete frame at the head of the buffer.
// ---------------------------------------------------------------------------

/// Value of the complete `Message` frame at the head of `b`.
pub open spec fn decode_message(b: Seq<u8>) -> MessageView {
    MessageView {
        recipient: b.subrange(3, 35),
        sender: b.subrange(35, 67),
        message: b.subrange(67, message_frame_len(b)),
    }
}

/// Value of the complete `ChangeRoom` frame at the head of `b`.
pub open spec fn decode_change_room(b: Seq<u8>) -> ChangeRoom {
    ChangeRoom { room_number: le16(b[1], b[2]) }
}

/// Value of the complete `PVPFight` frame at the head of `b`.
pub open spec fn decode_pvp_fight(b: Seq<u8>) -> PVPFightView {
    PVPFightView { target: b.subrange(1, 33) }
}

/// Value of the complete `Loot` frame at the head of `b`.
pub open spec fn decode_loot(b: Seq<u8>) -> LootView {
    LootView { target: b.subrange(1, 33) }
}

/// Value of the complete `Character` frame at the head of `b`.
pub open spec fn decode_character(b: Seq<u8>) -> CharacterView {
    CharacterView {
        name: b.subrange(1, 33),
        flags: b[33],
        attack: le16(b[34], b[35]),
        defense: le16(b[36], b[37]),
        regen: le16(b[38], b[39]),
        health: i16_of_u16(le16(b[40], b[41])),
        gold: le16(b[42], b[43]),
        current_room_number: le16(b[44], b[45]),
        description: b.subrange(48, var_frame_len(b, 48)),
    }
}

/// The extensions of the complete `Version` frame, walked from `cursor`.
pub open spec fn decode_exts(b: Seq<u8>, cursor: int, remaining: int) -> Seq<Seq<u8>>
    decreases remaining,
{
    if remaining <= 0 {
        Seq::empty()
    } else if cursor + 2 > b.len() {
        Seq::empty()
    } else if cursor + 2 + le16(b[cursor], b[cursor + 1]) > b.len() {
        Seq::empty()
    } else {
        seq![b.subrange(cursor + 2, cursor + 2 + le16(b[cursor], b[cursor + 1]))]
            + decode_exts(b, cursor + 2 + le16(b[cursor], b[cursor + 1]), remaining - 1)
    }
}

/// Value of the complete `Version` frame at the head of `b`.
pub open spec fn decode_version(b: Seq<u8>) -> VersionView {
    VersionView {
        major: b[1],
        minor: b[2],
        extensions: decode_exts(b, 5, le16(b[3], b[4]) as int),
    }
}

// ---------------------------------------------------------------------------
// The whole decoder, one step and then the stream.
// ---------------------------------------------------------------------------

/// Value of any one inbound frame.
#[verifier::ext_equal]
pub ghost enum EventView {
    Message(MessageView),
    ChangeRoom(ChangeRoom),
    Fight,
    PVPFight(PVPFightView),
    Loot(LootView),
    Start,
    Character(CharacterView),
    Leave,
    Version(VersionView),
}

/// One step of the decoder: either a decoded frame together with the
/// number of bytes it occupies, or `Pending` (come back with more bytes),
/// or `Bad` (the leading byte opens no inbound kind).
#[verifier::ext_equal]
pub ghost enum StepView {
    Event(EventView, int),
    Pending,
    Bad,
}

/// What one call of the decoder decides on the bytes `b`. The dispatch is
/// keyed on the leading byte; the codes of the inbound kinds are distinct,
/// so trying the kinds in the decoder's fixed order decides the same.
pub open spec fn poll_next(b: Seq<u8>) -> StepView {
    if b.len() == 0 {
        StepView::Pending
    } else if b[0] == 1 {
        if poll_message_at(b) is Complete {
            StepView::Event(EventView::Message(decode_message(b)), message_frame_len(b))
        } else {
            StepView::Pending
        }
    } else if b[0] == 3 {
        StepView::Event(EventView::Fight, 1)
    } else if b[0] == 2 {
        if b.len() >= 3 {
            StepView::Event(EventView::ChangeRoom(decode_change_room(b)), 3)
        } else {
            StepView::Pending
        }
    } else if b[0] == 4 {
        if b.len() >= 33 {
            StepView::Event(EventView::PVPFight(decode_pvp_fight(b)), 33)
        } else {
            StepView::Pending
        }
    } else if b[0] == 5 {
        if b.len() >= 33 {
            StepView::Event(EventView::Loot(decode_loot(b)), 33)
        } else {
            StepView::Pending
        }
    } else if b[0] == 6 {
        StepView::Event(EventView::Start, 1)
    } else if b[0] == 10 {
        if generic_poll(b, 10, 48, true) is Complete {
            StepView::Event(EventView::Character(decode_character(b)), var_frame_len(b, 48))
        } else {
            StepView::Pending
        }
    } else if b[0] == 12 {
        StepView::Event(EventView::Leave, 1)
    } else if b[0] == 14 {
        if poll_version_at(b) is Complete {
            StepView::Event(EventView::Version(decode_version(b)), version_frame_len(b))
        } else {
            StepView::Pending
        }
    } else {
        StepView::Bad
    }
}

/// The ordered sequence of events the decoder yields when fed `b` and
/// drained until it reports `Pending` or `Bad`.
pub open spec fn event_seq(b: Seq<u8>) -> Seq<EventView>
    decreases b.len(),
{
    match poll_next(b) {
        StepView::Event(e, l) => if 0 < l <= b.len() {
            seq![e] + event_seq(b.skip(l))
        } else {
            seq![e]
        },
        _ => Seq::empty(),
    }
}

/// The bytes left in the buffer after draining `b`: what a partial or
/// unrecognised frame leaves behind.
pub open spec fn residual(b: Seq<u8>) -> Seq<u8>
    decreases b.len(),
{
    match poll_next(b) {
        StepView::Event(e, l) => if 0 < l <= b.len() {
            residual(b.skip(l))
        } else {
            Seq::empty()
        },
        _ => b,
    }
}

} // verus!
