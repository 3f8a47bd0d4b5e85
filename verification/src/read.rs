//! The decoder: per-kind poll and read operations over a `ReadBuffer`,
//! and `poll_lurk`, which tries every inbound kind in a fixed order.
//!
//! Poll inspects the buffer without consuming and reports `NoMatch`,
//! `Partial` or `Complete`; read consumes exactly one complete frame.
//! Every operation is verified against the wire specification, so the
//! decoder never reads past the bytes it has and never consumes a frame
//! that is not whole.

use vstd::prelude::*;

use crate::protocol::{
    ChangeRoom, Character, CharacterFlags, Fight, Leave, Loot, LurkName, LurkReadable, Message,
    PVPFight, Start, TypeCode, Version,
};
use crate::read_buffer::ReadBuffer;
use crate::wire::{
    decode_change_room, decode_character, decode_exts, decode_loot, decode_message,
    decode_pvp_fight, decode_version, exts_end, generic_poll, i16_of_u16, le16,
    message_frame_len, poll_message_at, poll_next, poll_version_at, var_frame_len,
    version_frame_len, EventView, StepView,
};

verus! {

/// Outcome of polling one message kind against the buffer.
#[derive(PartialEq, Eq, Structural, Clone, Copy, Debug)]
pub enum LurkPollState {
    /// The kind matches but the frame is not whole yet.
    Partial,
    /// A whole frame of this kind is present.
    Complete,
    /// The leading byte is not this kind's type code.
    NoMatch,
}

/// Outcome of polling a kind whose frame is the type code alone.
#[derive(PartialEq, Eq, Structural, Clone, Copy, Debug)]
pub enum LurkPollTypeState {
    Match,
    NoMatch,
}

impl LurkPollTypeState {
    /// Whether the leading byte matched.
    pub fn is_match(&self) -> (r: bool)
        ensures
            r == (*self is Match),
    {
        match self {
            LurkPollTypeState::Match => true,
            LurkPollTypeState::NoMatch => false,
        }
    }
}

impl LurkPollState {
    /// Whether the leading byte matched this kind at all.
    pub fn good(&self) -> (r: bool)
        ensures
            r == !(*self is NoMatch),
    {
        match self {
            LurkPollState::Partial => true,
            LurkPollState::Complete => true,
            LurkPollState::NoMatch => false,
        }
    }
}

/// One outcome of `poll_lurk`: a decoded frame, or `Pending` when more
/// bytes must arrive first, or `Bad` when the leading byte opens no
/// inbound kind.
#[derive(Clone, Debug, PartialEq)]
pub enum LurkPollEvent {
    Message(Message),
    ChangeRoom(ChangeRoom),
    Fight,
    PVPFight(PVPFight),
    Loot(Loot),
    Start,
    Character(Character),
    Leave,
    Version(Version),
    Pending,
    Bad,
}

/// A decoded inbound frame.
#[derive(Clone, Debug, PartialEq)]
pub enum LurkReadEvent {
    Message(Message),
    ChangeRoom(ChangeRoom),
    Fight,
    PVPFight(PVPFight),
    Loot(Loot),
    Start,
    Character(Character),
    Leave,
    Version(Version),
}

impl View for LurkReadEvent {
    type V = EventView;

    open spec fn view(&self) -> EventView {
        match self {
            LurkReadEvent::Message(m) => EventView::Message(m@),
            LurkReadEvent::ChangeRoom(c) => EventView::ChangeRoom(*c),
            LurkReadEvent::Fight => EventView::Fight,
            LurkReadEvent::PVPFight(p) => EventView::PVPFight(p@),
            LurkReadEvent::Loot(l) => EventView::Loot(l@),
            LurkReadEvent::Start => EventView::Start,
            LurkReadEvent::Character(c) => EventView::Character(c@),
            LurkReadEvent::Leave => EventView::Leave,
            LurkReadEvent::Version(v) => EventView::Version(v@),
        }
    }
}

/// The frame values of a sequence of decoded events, in order.
pub open spec fn events_view(s: Seq<LurkReadEvent>) -> Seq<EventView> {
    Seq::new(s.len(), |i: int| s[i]@)
}

/// Whether the poll outcome `r` carries exactly the frame value `e`.
pub open spec fn poll_event_matches(r: LurkPollEvent, e: EventView) -> bool {
    match (r, e) {
        (LurkPollEvent::Message(m), EventView::Message(mv)) => m@ == mv,
        (LurkPollEvent::ChangeRoom(c), EventView::ChangeRoom(cv)) => c == cv,
        (LurkPollEvent::Fight, EventView::Fight) => true,
        (LurkPollEvent::PVPFight(p), EventView::PVPFight(pv)) => p@ == pv,
        (LurkPollEvent::Loot(l), EventView::Loot(lv)) => l@ == lv,
        (LurkPollEvent::Start, EventView::Start) => true,
        (LurkPollEvent::Character(c), EventView::Character(cv)) => c@ == cv,
        (LurkPollEvent::Leave, EventView::Leave) => true,
        (LurkPollEvent::Version(v), EventView::Version(vv)) => v@ == vv,
        _ => false,
    }
}

// ---------------------------------------------------------------------------
// Byte-level helpers, verified against the wire specification.
// ---------------------------------------------------------------------------

/// The byte at `off`.
fn get_u8(b: &[u8], off: usize) -> (r: u8)
    requires
        off < b@.len(),
    ensures
        r == b@[off as int],
{
    b[off]
}

/// The little-endian 16-bit value at `off`.
fn get_le16(b: &[u8], off: usize) -> (r: u16)
    requires
        off + 2 <= b@.len(),
    ensures
        r == le16(b@[off as int], b@[off as int + 1]),
{
    let lo = b[off];
    let hi = b[off + 1];
    (lo as u16) + 256 * (hi as u16)
}

/// The 32 bytes at `off`, as a name.
fn take_name(b: &[u8], off: usize) -> (r: LurkName)
    requires
        off + 32 <= b@.len(),
    ensures
        r@ == b@.subrange(off as int, off as int + 32),
{
    let blen = b.len();
    let mut bytes = [0u8; 32];
    let mut i: usize = 0;
    while i < 32
        invariant
            i <= 32,
            off + 32 <= blen,
            blen == b@.len(),
            forall|j: int| 0 <= j < i ==> bytes@[j] == b@[off + j],
        decreases 32 - i,
    {
        bytes[i] = b[off + i];
        i = i + 1;
    }
    proof {
        assert(bytes@ =~= b@.subrange(off as int, off as int + 32));
    }
    LurkName { bytes }
}

/// The `n` bytes at `off`, copied out.
fn take_vec(b: &[u8], off: usize, n: usize) -> (r: Vec<u8>)
    requires
        off + n <= b@.len(),
    ensures
        r@ == b@.subrange(off as int, off as int + n),
{
    let blen = b.len();
    let mut taken: Vec<u8> = Vec::new();
    let mut i: usize = 0;
    while i < n
        invariant
            i <= n,
            off + n <= blen,
            blen == b@.len(),
            taken@ == b@.subrange(off as int, off as int + i),
        decreases n - i,
    {
        let byte: u8 = b[off + i];
        taken.push(byte);
        proof {
            assert(taken@ =~= b@.subrange(off as int, off as int + i + 1));
        }
        i = i + 1;
    }
    taken
}

/// The signed value whose two's-complement wire pattern is `x`.
fn i16_from_u16(x: u16) -> (r: i16)
    ensures
        r == i16_of_u16(x),
{
    if x < 0x8000 {
        x as i16
    } else {
        ((x as i32) - 0x10000) as i16
    }
}

/// Whether the leading byte of `buffer` is `T`'s type code.
pub fn start_match<T: TypeCode>(buffer: &[u8]) -> (r: bool)
    requires
        buffer@.len() > 0,
    ensures
        r == (buffer@[0] == T::spec_type_code()),
{
    buffer[0] == T::type_code()
}

/// The generic completeness check for a kind whose tail length, if any,
/// stands in the final two bytes of its static block.
pub fn poll<T: TypeCode + LurkReadable>(buffer: &[u8]) -> (r: LurkPollState)
    requires
        T::spec_static_block_size() >= 1,
        T::spec_has_var_block() ==> T::spec_static_block_size() >= 3,
    ensures
        r == generic_poll(
            buffer@,
            T::spec_type_code(),
            T::spec_static_block_size() as int,
            T::spec_has_var_block(),
        ),
{
    if buffer.len() == 0 {
        return LurkPollState::Partial;
    }
    if start_match::<T>(buffer) {
        let s = T::static_block_size();
        if buffer.len() >= s {
            if T::has_var_block() {
                let len = get_le16(buffer, s - 2);
                if buffer.len() - s >= len as usize {
                    LurkPollState::Complete
                } else {
                    LurkPollState::Partial
                }
            } else {
                LurkPollState::Complete
            }
        } else {
            LurkPollState::Partial
        }
    } else {
        LurkPollState::NoMatch
    }
}

// ---------------------------------------------------------------------------
// The decoder proper.
// ---------------------------------------------------------------------------

/// Per-kind poll and read operations of the decoder. Poll never changes
/// the buffer; read consumes exactly the one complete frame at its head.
pub trait LurkRead {
    /// The unparsed bytes the decoder sees.
    spec fn bytes(&self) -> Seq<u8>;

    /// Poll for a `Message` frame; its length field stands at offsets 1
    /// and 2, before the two names.
    fn poll_message(&self) -> (r: LurkPollState)
        ensures
            r == poll_message_at(self.bytes()),
    ;

    /// Consume one complete `Message` frame.
    fn read_message(&mut self) -> (r: Message)
        requires
            poll_message_at(old(self).bytes()) is Complete,
        ensures
            r@ == decode_message(old(self).bytes()),
            final(self).bytes() == old(self).bytes().skip(message_frame_len(old(self).bytes())),
    ;

    /// Poll for a `Fight` frame, whose type code is the whole frame.
    fn poll_fight(&self) -> (r: LurkPollTypeState)
        requires
            self.bytes().len() > 0,
        ensures
            r is Match <==> self.bytes()[0] == 3,
    ;

    /// Poll for a `ChangeRoom` frame.
    fn poll_changeroom(&self) -> (r: LurkPollState)
        ensures
            r == generic_poll(self.bytes(), 2, 3, false),
    ;

    /// Consume one complete `ChangeRoom` frame.
    fn read_changeroom(&mut self) -> (r: ChangeRoom)
        requires
            generic_poll(old(self).bytes(), 2, 3, false) is Complete,
        ensures
            r == decode_change_room(old(self).bytes()),
            final(self).bytes() == old(self).bytes().skip(3),
    ;

    /// Poll for a `PVPFight` frame.
    fn poll_pvpfight(&self) -> (r: LurkPollState)
        ensures
            r == generic_poll(self.bytes(), 4, 33, false),
    ;

    /// Consume one complete `PVPFight` frame.
    fn read_pvpfight(&mut self) -> (r: PVPFight)
        requires
            generic_poll(old(self).bytes(), 4, 33, false) is Complete,
        ensures
            r@ == decode_pvp_fight(old(self).bytes()),
            final(self).bytes() == old(self).bytes().skip(33),
    ;

    /// Poll for a `Start` frame, whose type code is the whole frame.
    fn poll_start(&self) -> (r: LurkPollTypeState)
        requires
            self.bytes().len() > 0,
        ensures
            r is Match <==> self.bytes()[0] == 6,
    ;

    /// Poll for a `Loot` frame.
    fn poll_loot(&self) -> (r: LurkPollState)
        ensures
            r == generic_poll(self.bytes(), 5, 33, false),
    ;

    /// Consume one complete `Loot` frame.
    fn read_loot(&mut self) -> (r: Loot)
        requires
            generic_poll(old(self).bytes(), 5, 33, false) is Complete,
        ensures
            r@ == decode_loot(old(self).bytes()),
            final(self).bytes() == old(self).bytes().skip(33),
    ;

    /// Poll for a `Character` frame.
    fn poll_character(&self) -> (r: LurkPollState)
        ensures
            r == generic_poll(self.bytes(), 10, 48, true),
    ;

    /// Consume one complete `Character` frame.
    fn read_character(&mut self) -> (r: Character)
        requires
            generic_poll(old(self).bytes(), 10, 48, true) is Complete,
        ensures
            r@ == decode_character(old(self).bytes()),
            final(self).bytes() == old(self).bytes().skip(var_frame_len(old(self).bytes(), 48)),
    ;

    /// Poll for a `Leave` frame, whose type code is the whole frame.
    fn poll_leave(&self) -> (r: LurkPollTypeState)
        requires
            self.bytes().len() > 0,
        ensures
            r is Match <==> self.bytes()[0] == 12,
    ;

    /// Poll for a `Version` frame by walking its extension lengths. The
    /// cursor is bounds-checked before each length is read.
    fn poll_version(&self) -> (r: LurkPollState)
        ensures
            r == poll_version_at(self.bytes()),
    ;

    /// Consume one complete `Version` frame.
    fn read_version(&mut self) -> (r: Version)
        requires
            poll_version_at(old(self).bytes()) is Complete,
        ensures
            r@ == decode_version(old(self).bytes()),
            final(self).bytes() == old(self).bytes().skip(version_frame_len(old(self).bytes())),
    ;

    /// Try every inbound kind, in the fixed order Message, Fight,
    /// ChangeRoom, PVPFight, Loot, Start, Character, Leave, Version.
    /// Yields the decoded frame and consumes exactly its bytes, or
    /// `Pending` or `Bad` and consumes nothing.
    fn poll_lurk(&mut self) -> (r: LurkPollEvent)
        ensures
            ({
                match poll_next(old(self).bytes()) {
                    StepView::Pending => r is Pending && final(self).bytes() == old(self).bytes(),
                    StepView::Bad => r is Bad && final(self).bytes() == old(self).bytes(),
                    StepView::Event(e, l) => final(self).bytes() == old(self).bytes().skip(l)
                        && poll_event_matches(r, e),
                }
            }),
    ;
}

impl LurkRead for ReadBuffer {
    open spec fn bytes(&self) -> Seq<u8> {
        self@
    }

    fn poll_message(&self) -> (r: LurkPollState) {
        let buffer = self.buffer();
        if buffer.len() == 0 {
            return LurkPollState::Partial;
        }
        if start_match::<Message>(buffer) {
            if buffer.len() >= 67 {
                let msg_len = get_le16(buffer, 1);
                if buffer.len() - 67 >= msg_len as usize {
                    LurkPollState::Complete
                } else {
                    LurkPollState::Partial
                }
            } else {
                LurkPollState::Partial
            }
        } else {
            LurkPollState::NoMatch
        }
    }

    fn read_message(&mut self) -> (r: Message) {
        let msg_len = get_le16(self.buffer(), 1) as usize;
        let recipient = take_name(self.buffer(), 3);
        let sender = take_name(self.buffer(), 35);
        let message = take_vec(self.buffer(), 67, msg_len);
        self.consume(67 + msg_len);
        Message { recipient, sender, message }
    }

    fn poll_fight(&self) -> (r: LurkPollTypeState) {
        if start_match::<Fight>(self.buffer()) {
            LurkPollTypeState::Match
        } else {
            LurkPollTypeState::NoMatch
        }
    }

    fn poll_changeroom(&self) -> (r: LurkPollState) {
        poll::<ChangeRoom>(self.buffer())
    }

    fn read_changeroom(&mut self) -> (r: ChangeRoom) {
        let room_number = get_le16(self.buffer(), 1);
        self.consume(3);
        ChangeRoom { room_number }
    }

    fn poll_pvpfight(&self) -> (r: LurkPollState) {
        poll::<PVPFight>(self.buffer())
    }

    fn read_pvpfight(&mut self) -> (r: PVPFight) {
        let target = take_name(self.buffer(), 1);
        self.consume(33);
        PVPFight { target }
    }

    fn poll_start(&self) -> (r: LurkPollTypeState) {
        if start_match::<Start>(self.buffer()) {
            LurkPollTypeState::Match
        } else {
            LurkPollTypeState::NoMatch
        }
    }

    fn poll_loot(&self) -> (r: LurkPollState) {
        poll::<Loot>(self.buffer())
    }

    fn read_loot(&mut self) -> (r: Loot) {
        let target = take_name(self.buffer(), 1);
        self.consume(33);
        Loot { target }
    }

    fn poll_character(&self) -> (r: LurkPollState) {
        poll::<Character>(self.buffer())
    }

    fn read_character(&mut self) -> (r: Character) {
        let name = take_name(self.buffer(), 1);
        let flags_bits = get_u8(self.buffer(), 33);
        let attack = get_le16(self.buffer(), 34);
        let defense = get_le16(self.buffer(), 36);
        let regen = get_le16(self.buffer(), 38);
        let health = i16_from_u16(get_le16(self.buffer(), 40));
        let gold = get_le16(self.buffer(), 42);
        let current_room_number = get_le16(self.buffer(), 44);
        let desc_len = get_le16(self.buffer(), 46) as usize;
        let description = take_vec(self.buffer(), 48, desc_len);
        self.consume(48 + desc_len);
        Character {
            name,
            flags: CharacterFlags { bits: flags_bits },
            attack,
            defense,
            regen,
            health,
            gold,
            current_room_number,
            description,
        }
    }

    fn poll_leave(&self) -> (r: LurkPollTypeState) {
        if start_match::<Leave>(self.buffer()) {
            LurkPollTypeState::Match
        } else {
            LurkPollTypeState::NoMatch
        }
    }

    fn poll_version(&self) -> (r: LurkPollState) {
        let buffer = self.buffer();
        if buffer.len() == 0 {
            return LurkPollState::Partial;
        }
        if !start_match::<Version>(buffer) {
            return LurkPollState::NoMatch;
        }
        if buffer.len() < 5 {
            return LurkPollState::Partial;
        }
        let num_extensions = get_le16(buffer, 3);
        let blen = buffer.len();
        let mut cursor: usize = 5;
        let mut num_complete: u16 = 0;
        while num_complete < num_extensions
            invariant
                num_complete <= num_extensions,
                buffer@ == self.bytes(),
                blen == buffer@.len(),
                buffer@.len() >= 5,
                buffer@[0] == 14,
                num_extensions == le16(buffer@[3], buffer@[4]),
                cursor <= blen,
                cursor == exts_end(buffer@, 5, num_complete as int),
                exts_end(buffer@, 5, num_extensions as int) == exts_end(
                    buffer@,
                    cursor as int,
                    num_extensions - num_complete,
                ),
            decreases num_extensions - num_complete,
        {
            proof {
                crate::wire::lemma_exts_end_split(
                    buffer@,
                    cursor as int,
                    1,
                    num_extensions - num_complete - 1,
                );
            }
            if buffer.len() - cursor < 2 {
                return LurkPollState::Partial;
            }
            let ext_len = get_le16(buffer, cursor) as usize;
            if buffer.len() - (cursor + 2) < ext_len {
                return LurkPollState::Partial;
            }
            cursor = cursor + 2 + ext_len;
            num_complete = num_complete + 1;
            proof {
                crate::wire::lemma_exts_end_step(buffer@, 5, num_complete as int);
            }
        }
        LurkPollState::Complete
    }

    fn read_version(&mut self) -> (r: Version) {
        let ghost b = self.bytes();
        let major = get_u8(self.buffer(), 1);
        let minor = get_u8(self.buffer(), 2);
        let num_extensions = get_le16(self.buffer(), 3);
        let total = self.len();
        let mut extensions: Vec<Vec<u8>> = Vec::new();
        let mut cursor: usize = 5;
        let mut k: u16 = 0;
        while k < num_extensions
            invariant
                k <= num_extensions,
                self.bytes() == b,
                total == b.len(),
                b.len() >= 5,
                num_extensions == le16(b[3], b[4]),
                exts_end(b, 5, num_extensions as int) >= 0,
                cursor <= total,
                cursor == exts_end(b, 5, k as int),
                crate::wire::vecs_view(extensions@) == decode_exts(b, 5, k as int),
            decreases num_extensions - k,
        {
            proof {
                crate::wire::lemma_exts_end_split(b, 5, k as int, num_extensions - k);
                assert(exts_end(b, cursor as int, num_extensions - k) >= 0);
                assert(cursor + 2 <= b.len() && cursor + 2 + le16(b[cursor as int], b[
                    cursor as int + 1]) <= b.len());
                crate::wire::lemma_decode_exts_step(b, 5, k as int + 1);
            }
            let ext_len = get_le16(self.buffer(), cursor) as usize;
            let ext = take_vec(self.buffer(), cursor + 2, ext_len);
            extensions.push(ext);
            cursor = cursor + 2 + ext_len;
            k = k + 1;
            proof {
                crate::wire::lemma_exts_end_step(b, 5, k as int);
                assert(crate::wire::vecs_view(extensions@) =~= decode_exts(b, 5, k as int));
            }
        }
        self.consume(cursor);
        Version { major, minor, extensions }
    }

    fn poll_lurk(&mut self) -> (r: LurkPollEvent) {
        if self.len() == 0 {
            return LurkPollEvent::Pending;
        }
        match self.poll_message() {
            LurkPollState::Complete => {
                let msg = self.read_message();
                return LurkPollEvent::Message(msg);
            },
            LurkPollState::Partial => {
                return LurkPollEvent::Pending;
            },
            _ => {},
        }
        if self.poll_fight().is_match() {
            self.consume(1);
            return LurkPollEvent::Fight;
        }
        match self.poll_changeroom() {
            LurkPollState::Complete => {
                let chgrm = self.read_changeroom();
                return LurkPollEvent::ChangeRoom(chgrm);
            },
            LurkPollState::Partial => {
                return LurkPollEvent::Pending;
            },
            _ => {},
        }
        match self.poll_pvpfight() {
            LurkPollState::Complete => {
                let pvpfight = self.read_pvpfight();
                return LurkPollEvent::PVPFight(pvpfight);
            },
            LurkPollState::Partial => {
                return LurkPollEvent::Pending;
            },
            _ => {},
        }
        match self.poll_loot() {
            LurkPollState::Complete => {
                let loot = self.read_loot();
                return LurkPollEvent::Loot(loot);
            },
            LurkPollState::Partial => {
                return LurkPollEvent::Pending;
            },
            _ => {},
        }
        if self.poll_start().is_match() {
            self.consume(1);
            return LurkPollEvent::Start;
        }
        match self.poll_character() {
            LurkPollState::Complete => {
                let character = self.read_character();
                return LurkPollEvent::Character(character);
            },
            LurkPollState::Partial => {
                return LurkPollEvent::Pending;
            },
            _ => {},
        }
        if self.poll_leave().is_match() {
            self.consume(1);
            return LurkPollEvent::Leave;
        }
        match self.poll_version() {
            LurkPollState::Complete => {
                let version = self.read_version();
                return LurkPollEvent::Version(version);
            },
            LurkPollState::Partial => {
                return LurkPollEvent::Pending;
            },
            _ => {},
        }
        LurkPollEvent::Bad
    }
}

/// Drain every complete frame at the head of the buffer, in order: the
/// executable counterpart of `event_seq`. What remains in the buffer is
/// exactly `residual`: a partial frame, an unrecognised stream, or
/// nothing.
pub fn drain_events(buffer: &mut ReadBuffer) -> (r: Vec<LurkReadEvent>)
    ensures
        events_view(r@) == crate::wire::event_seq(old(buffer)@),
        final(buffer)@ == crate::wire::residual(old(buffer)@),
{
    let ghost b0 = buffer@;
    let mut out: Vec<LurkReadEvent> = Vec::new();
    let mut done = false;
    while !done
        invariant
            crate::wire::event_seq(b0) == events_view(out@) + crate::wire::event_seq(buffer@),
            crate::wire::residual(b0) == crate::wire::residual(buffer@),
            done ==> crate::wire::event_seq(buffer@) == Seq::<EventView>::empty()
                && crate::wire::residual(buffer@) == buffer@,
        decreases buffer@.len() + (if done { 0int } else { 1 }),
    {
        proof {
            crate::laws::lemma_poll_next_event_len(buffer@);
        }
        let ghost cur = buffer@;
        let ghost out_prev = out@;
        let ev = buffer.poll_lurk();
        match ev {
            LurkPollEvent::Pending => {
                done = true;
            },
            LurkPollEvent::Bad => {
                done = true;
            },
            LurkPollEvent::Message(m) => {
                out.push(LurkReadEvent::Message(m));
            },
            LurkPollEvent::ChangeRoom(c) => {
                out.push(LurkReadEvent::ChangeRoom(c));
            },
            LurkPollEvent::Fight => {
                out.push(LurkReadEvent::Fight);
            },
            LurkPollEvent::PVPFight(p) => {
                out.push(LurkReadEvent::PVPFight(p));
            },
            LurkPollEvent::Loot(l) => {
                out.push(LurkReadEvent::Loot(l));
            },
            LurkPollEvent::Start => {
                out.push(LurkReadEvent::Start);
            },
            LurkPollEvent::Character(c) => {
                out.push(LurkReadEvent::Character(c));
            },
            LurkPollEvent::Leave => {
                out.push(LurkReadEvent::Leave);
            },
            LurkPollEvent::Version(v) => {
                out.push(LurkReadEvent::Version(v));
            },
        }
        proof {
            if !done {
                match poll_next(cur) {
                    StepView::Event(e, l) => {
                        assert(events_view(out@) =~= events_view(out_prev).push(e));
                        assert(events_view(out_prev) + (seq![e] + crate::wire::event_seq(
                            buffer@,
                        )) =~= events_view(out@) + crate::wire::event_seq(buffer@));
                    },
                    _ => {
                        assert(false);
                    },
                }
            }
        }
    }
    proof {
        assert(events_view(out@) =~= events_view(out@) + Seq::<EventView>::empty());
    }
    out
}

} // verus!
