//! The message catalog: every kind the wire protocol knows, with its type
//! code, the size of its static block and whether a variable tail follows.
//! All multi-byte integers on the wire are little-endian.

use vstd::prelude::*;

verus! {

/// A fixed 32-byte identifier for players and rooms, compared by byte
/// equality. Shorter names are padded with zero bytes.
#[derive(Eq, Clone, Copy, Debug)]
pub struct LurkName {
    pub bytes: [u8; 32],
}

impl PartialEq for LurkName {
    fn eq(&self, other: &LurkName) -> (r: bool) {
        let mut i: usize = 0;
        while i < 32
            invariant
                i <= 32,
                forall|j: int| 0 <= j < i ==> self.bytes@[j] == other.bytes@[j],
            decreases 32 - i,
        {
            if self.bytes[i] != other.bytes[i] {
                return false;
            }
            i = i + 1;
        }
        proof {
            assert(self.bytes@ =~= other.bytes@);
        }
        true
    }
}

impl vstd::std_specs::cmp::PartialEqSpecImpl for LurkName {
    open spec fn obeys_eq_spec() -> bool {
        true
    }

    open spec fn eq_spec(&self, other: &LurkName) -> bool {
        self.bytes@ == other.bytes@
    }
}

impl From<[u8; 32]> for LurkName {
    fn from(bytes: [u8; 32]) -> (r: LurkName) {
        LurkName { bytes }
    }
}

impl vstd::std_specs::convert::FromSpecImpl<[u8; 32]> for LurkName {
    open spec fn obeys_from_spec() -> bool {
        true
    }

    open spec fn from_spec(bytes: [u8; 32]) -> LurkName {
        LurkName { bytes }
    }
}

/// Every message kind carries a one-byte type code as its first wire byte.
pub trait TypeCode {
    /// The kind's type code, as a specification-level constant.
    spec fn spec_type_code() -> u8;

    /// The kind's type code.
    fn type_code() -> (r: u8)
        ensures
            r == Self::spec_type_code(),
    ;
}

/// Facts that drive the generic completeness check of the decoder: the
/// number of bytes from (and including) the type code to the end of the
/// static header, and whether a variable tail follows whose length stands
/// in the final two bytes of the static header.
pub trait LurkReadable {
    /// Static block size, as a specification-level constant.
    spec fn spec_static_block_size() -> usize;

    /// Whether a variable tail follows the static block.
    spec fn spec_has_var_block() -> bool;

    /// Number of bytes from the type code to the end of the static header.
    fn static_block_size() -> (r: usize)
        ensures
            r == Self::spec_static_block_size(),
    ;

    /// Whether a variable tail follows the static block.
    fn has_var_block() -> (r: bool)
        ensures
            r == Self::spec_has_var_block(),
    ;
}

/// Chat between two named parties. Wire layout: code, `msg_len: u16`,
/// recipient name, sender name, then `msg_len` message bytes.
#[derive(Clone, Debug, PartialEq, Eq)]
pub struct Message {
    pub recipient: LurkName,
    pub sender: LurkName,
    pub message: Vec<u8>,
}

impl TypeCode for Message {
    open spec fn spec_type_code() -> u8 {
        1
    }

    fn type_code() -> u8 {
        1
    }
}

impl LurkReadable for Message {
    open spec fn spec_static_block_size() -> usize {
        67
    }

    open spec fn spec_has_var_block() -> bool {
        true
    }

    fn static_block_size() -> usize {
        67
    }

    fn has_var_block() -> bool {
        true
    }
}

/// Request to move to another room.
#[derive(PartialEq, Eq, Structural, Clone, Copy, Debug)]
pub struct ChangeRoom {
    pub room_number: u16,
}

impl TypeCode for ChangeRoom {
    open spec fn spec_type_code() -> u8 {
        2
    }

    fn type_code() -> u8 {
        2
    }
}

impl LurkReadable for ChangeRoom {
    open spec fn spec_static_block_size() -> usize {
        3
    }

    open spec fn spec_has_var_block() -> bool {
        false
    }

    fn static_block_size() -> usize {
        3
    }

    fn has_var_block() -> bool {
        false
    }
}

/// Start a fight in the current room. The type code is the whole frame.
#[derive(PartialEq, Eq, Structural, Clone, Copy, Debug)]
pub struct Fight;

impl TypeCode for Fight {
    open spec fn spec_type_code() -> u8 {
        3
    }

    fn type_code() -> u8 {
        3
    }
}

/// Challenge a named player.
#[derive(PartialEq, Eq, Clone, Copy, Debug)]
pub struct PVPFight {
    pub target: LurkName,
}

impl TypeCode for PVPFight {
    open spec fn spec_type_code() -> u8 {
        4
    }

    fn type_code() -> u8 {
        4
    }
}

impl LurkReadable for PVPFight {
    open spec fn spec_static_block_size() -> usize {
        33
    }

    open spec fn spec_has_var_block() -> bool {
        false
    }

    fn static_block_size() -> usize {
        33
    }

    fn has_var_block() -> bool {
        false
    }
}

/// Loot a named target.
#[derive(PartialEq, Eq, Clone, Copy, Debug)]
pub struct Loot {
    pub target: LurkName,
}

impl TypeCode for Loot {
    open spec fn spec_type_code() -> u8 {
        5
    }

    fn type_code() -> u8 {
        5
    }
}

impl LurkReadable for Loot {
    open spec fn spec_static_block_size() -> usize {
        33
    }

    open spec fn spec_has_var_block() -> bool {
        false
    }

    fn static_block_size() -> usize {
        33
    }

    fn has_var_block() -> bool {
        false
    }
}

/// Begin play. The type code is the whole frame.
#[derive(PartialEq, Eq, Structural, Clone, Copy, Debug)]
pub struct Start;

impl TypeCode for Start {
    open spec fn spec_type_code() -> u8 {
        6
    }

    fn type_code() -> u8 {
        6
    }
}

/// Server-reported error. Wire layout: code, `code: u8`, `text_len: u16`,
/// then `text_len` text bytes.
#[derive(Clone, Debug, PartialEq, Eq)]
pub struct Error {
    pub code: u8,
    pub message: Vec<u8>,
}

impl TypeCode for Error {
    open spec fn spec_type_code() -> u8 {
        7
    }

    fn type_code() -> u8 {
        7
    }
}

/// Acknowledgement of an accepted action.
#[derive(PartialEq, Eq, Structural, Clone, Copy, Debug)]
pub struct Accept {
    pub code: u8,
}

impl TypeCode for Accept {
    open spec fn spec_type_code() -> u8 {
        8
    }

    fn type_code() -> u8 {
        8
    }
}

/// Description of a room.
#[derive(Clone, Debug, PartialEq, Eq)]
pub struct Room {
    pub number: u16,
    pub name: LurkName,
    pub description: Vec<u8>,
}

impl TypeCode for Room {
    open spec fn spec_type_code() -> u8 {
        9
    }

    fn type_code() -> u8 {
        9
    }
}

/// Bit assigned to the `alive` flag.
pub const ALIVE: u8 = 0x80;

/// Bit assigned to the `join_battle` flag.
pub const JOIN_BATTLE: u8 = 0x40;

/// Bit assigned to the `monster` flag.
pub const MONSTER: u8 = 0x20;

/// Bit assigned to the `started` flag.
pub const STARTED: u8 = 0x10;

/// Bit assigned to the `ready` flag.
pub const READY: u8 = 0x08;

/// Whether the flag bits selected by `mask` are set in `bits`.
pub open spec fn flag_set(bits: u8, mask: u8) -> bool {
    bits & mask == mask
}

/// One byte of character flags. The named bits are `ALIVE`, `JOIN_BATTLE`,
/// `MONSTER`, `STARTED` and `READY`; the remaining bits are reserved zero.
#[derive(PartialEq, Eq, Structural, Clone, Copy, Debug)]
pub struct CharacterFlags {
    pub bits: u8,
}

impl CharacterFlags {
    /// The raw flag byte as written to the wire.
    pub fn to_u8(&self) -> (r: u8)
        ensures
            r == self.bits,
    {
        self.bits
    }

    /// Sets the bits of `mask` when `status` holds and clears them
    /// otherwise.
    fn set_flag(&mut self, mask: u8, status: bool)
        ensures
            final(self).bits == if status {
                old(self).bits | mask
            } else {
                old(self).bits & !mask
            },
    {
        if status {
            self.bits = self.bits | mask;
        } else {
            self.bits = self.bits & !mask;
        }
    }

    /// Sets or clears the `alive` bit.
    pub fn set_alive(&mut self, status: bool)
        ensures
            final(self).bits == if status {
                old(self).bits | ALIVE
            } else {
                old(self).bits & !ALIVE
            },
    {
        self.set_flag(ALIVE, status);
    }

    /// Sets or clears the `join_battle` bit.
    pub fn set_join_battle(&mut self, status: bool)
        ensures
            final(self).bits == if status {
                old(self).bits | JOIN_BATTLE
            } else {
                old(self).bits & !JOIN_BATTLE
            },
    {
        self.set_flag(JOIN_BATTLE, status);
    }

    /// Sets or clears the `monster` bit.
    pub fn set_monster(&mut self, status: bool)
        ensures
            final(self).bits == if status {
                old(self).bits | MONSTER
            } else {
                old(self).bits & !MONSTER
            },
    {
        self.set_flag(MONSTER, status);
    }

    /// Sets or clears the `started` bit.
    pub fn set_started(&mut self, status: bool)
        ensures
            final(self).bits == if status {
                old(self).bits | STARTED
            } else {
                old(self).bits & !STARTED
            },
    {
        self.set_flag(STARTED, status);
    }

    /// Sets or clears the `ready` bit.
    pub fn set_ready(&mut self, status: bool)
        ensures
            final(self).bits == if status {
                old(self).bits | READY
            } else {
                old(self).bits & !READY
            },
    {
        self.set_flag(READY, status);
    }

    /// Whether all bits of `mask` are set.
    pub fn intersects(&self, mask: u8) -> (r: bool)
        ensures
            r == flag_set(self.bits, mask),
    {
        self.bits & mask == mask
    }
}

impl From<u8> for CharacterFlags {
    fn from(bits: u8) -> (r: CharacterFlags) {
        CharacterFlags { bits }
    }
}

impl vstd::std_specs::convert::FromSpecImpl<u8> for CharacterFlags {
    open spec fn obeys_from_spec() -> bool {
        true
    }

    open spec fn from_spec(bits: u8) -> CharacterFlags {
        CharacterFlags { bits }
    }
}

/// A player or monster sheet. Wire layout: code, name, flag byte, five
/// `u16` stats with `health` signed, the room number, `desc_len: u16`,
/// then `desc_len` description bytes.
#[derive(Clone, Debug, PartialEq, Eq)]
pub struct Character {
    pub name: LurkName,
    pub flags: CharacterFlags,
    pub attack: u16,
    pub defense: u16,
    pub regen: u16,
    pub health: i16,
    pub gold: u16,
    pub current_room_number: u16,
    pub description: Vec<u8>,
}

impl TypeCode for Character {
    open spec fn spec_type_code() -> u8 {
        10
    }

    fn type_code() -> u8 {
        10
    }
}

impl LurkReadable for Character {
    open spec fn spec_static_block_size() -> usize {
        48
    }

    open spec fn spec_has_var_block() -> bool {
        true
    }

    fn static_block_size() -> usize {
        48
    }

    fn has_var_block() -> bool {
        true
    }
}

/// The game's opening description and stat budget.
#[derive(Clone, Debug, PartialEq, Eq)]
pub struct Game {
    pub initial_points: u16,
    pub stat_limit: u16,
    pub description: Vec<u8>,
}

impl TypeCode for Game {
    open spec fn spec_type_code() -> u8 {
        11
    }

    fn type_code() -> u8 {
        11
    }
}

/// Leave the game. The type code is the whole frame.
#[derive(PartialEq, Eq, Structural, Clone, Copy, Debug)]
pub struct Leave;

impl TypeCode for Leave {
    open spec fn spec_type_code() -> u8 {
        12
    }

    fn type_code() -> u8 {
        12
    }
}

/// A doorway out of the current room.
#[derive(Clone, Debug, PartialEq, Eq)]
pub struct Connection {
    pub room_number: u16,
    pub room_name: LurkName,
    pub description: Vec<u8>,
}

impl TypeCode for Connection {
    open spec fn spec_type_code() -> u8 {
        13
    }

    fn type_code() -> u8 {
        13
    }
}

/// Protocol version handshake. Wire layout: code, `major: u8`,
/// `minor: u8`, `n_ext: u16`, then `n_ext` extensions, each written as
/// `{ext_len: u16, bytes}`.
#[derive(Clone, Debug, PartialEq, Eq)]
pub struct Version {
    pub major: u8,
    pub minor: u8,
    pub extensions: Vec<Vec<u8>>,
}

impl TypeCode for Version {
    open spec fn spec_type_code() -> u8 {
        14
    }

    fn type_code() -> u8 {
        14
    }
}

impl LurkReadable for Version {
    open spec fn spec_static_block_size() -> usize {
        5
    }

    open spec fn spec_has_var_block() -> bool {
        true
    }

    fn static_block_size() -> usize {
        5
    }

    fn has_var_block() -> bool {
        true
    }
}

} // verus!
