//! The encoder: writes each outbound kind to a byte sink in exactly the
//! wire form the specification gives. No delimiter, no checksum; frames
//! stand back to back in the stream.

use vstd::prelude::*;

use crate::protocol::{
    Accept, Character, Connection, Error, Game, LurkName, Message, Room, Version,
};
use crate::wire::{
    character_wf, connection_wf, encode_accept, encode_character, encode_connection, encode_error,
    encode_ext, encode_exts, encode_game, encode_message, encode_room, encode_version, error_wf,
    game_wf, hi_byte, le16_bytes, lo_byte, message_wf, room_wf, u16_of_i16, version_wf,
};

verus! {

/// One outbound message, tagged by kind, as the script hands them over.
#[derive(Clone, Debug, PartialEq)]
pub enum LurkWriteMessage {
    Message(Message),
    Error(Error),
    Accept(Accept),
    Room(Room),
    Character(Character),
    Game(Game),
    Connection(Connection),
    Version(Version),
}

/// Whether an outbound message is well formed: every variable tail and
/// every extension fits its 16-bit length field.
pub open spec fn write_message_wf(m: LurkWriteMessage) -> bool {
    match m {
        LurkWriteMessage::Message(x) => message_wf(x@),
        LurkWriteMessage::Error(x) => error_wf(x@),
        LurkWriteMessage::Accept(_) => true,
        LurkWriteMessage::Room(x) => room_wf(x@),
        LurkWriteMessage::Character(x) => character_wf(x@),
        LurkWriteMessage::Game(x) => game_wf(x@),
        LurkWriteMessage::Connection(x) => connection_wf(x@),
        LurkWriteMessage::Version(x) => version_wf(x@),
    }
}

/// The wire form of an outbound message, whatever its kind.
pub open spec fn encode_write(m: LurkWriteMessage) -> Seq<u8> {
    match m {
        LurkWriteMessage::Message(x) => encode_message(x@),
        LurkWriteMessage::Error(x) => encode_error(x@),
        LurkWriteMessage::Accept(x) => encode_accept(x),
        LurkWriteMessage::Room(x) => encode_room(x@),
        LurkWriteMessage::Character(x) => encode_character(x@),
        LurkWriteMessage::Game(x) => encode_game(x@),
        LurkWriteMessage::Connection(x) => encode_connection(x@),
        LurkWriteMessage::Version(x) => encode_version(x@),
    }
}

/// Appending one more extension to the wire form of a list of them.
pub proof fn lemma_encode_exts_snoc(a: Seq<Seq<u8>>, x: Seq<u8>)
    ensures
        encode_exts(a.push(x)) == encode_exts(a) + encode_ext(x),
    decreases a.len(),
{
    if a.len() == 0 {
        assert(a.push(x).drop_first() =~= Seq::<Seq<u8>>::empty());
        assert(a.push(x)[0] == x);
        assert(encode_exts(Seq::<Seq<u8>>::empty()) == Seq::<u8>::empty());
        assert(encode_exts(a.push(x)) == encode_ext(x) + Seq::<u8>::empty());
        assert(encode_exts(a) == Seq::<u8>::empty());
        assert(encode_ext(x) + Seq::<u8>::empty() =~= Seq::<u8>::empty() + encode_ext(x));
    } else {
        assert(a.push(x).drop_first() =~= a.drop_first().push(x));
        lemma_encode_exts_snoc(a.drop_first(), x);
        assert(encode_exts(a.push(x)) == encode_ext(a[0]) + encode_exts(a.drop_first().push(x)));
        assert(encode_ext(a[0]) + (encode_exts(a.drop_first()) + encode_ext(x)) =~= (encode_ext(
            a[0],
        ) + encode_exts(a.drop_first())) + encode_ext(x));
    }
}

/// A growing byte sink for one connection's outbound traffic. The server
/// loop drains it to the socket.
pub struct WriteBuffer {
    out: Vec<u8>,
}

impl View for WriteBuffer {
    type V = Seq<u8>;

    closed spec fn view(&self) -> Seq<u8> {
        self.out@
    }
}

impl WriteBuffer {
    /// An empty sink.
    pub fn new() -> (r: WriteBuffer)
        ensures
            r@ == Seq::<u8>::empty(),
    {
        WriteBuffer { out: Vec::new() }
    }

    /// Number of buffered outbound bytes.
    pub fn len(&self) -> (r: usize)
        ensures
            r == self@.len(),
    {
        self.out.len()
    }

    /// Hand the buffered bytes over for sending and leave the sink empty.
    pub fn drain(&mut self) -> (r: Vec<u8>)
        ensures
            r@ == old(self)@,
            final(self)@ == Seq::<u8>::empty(),
    {
        let mut taken: Vec<u8> = Vec::new();
        core::mem::swap(&mut taken, &mut self.out);
        taken
    }

    /// Append one byte.
    fn push_u8(&mut self, x: u8)
        ensures
            final(self)@ == old(self)@ + seq![x],
    {
        self.out.push(x);
        proof {
            assert(self@ =~= old(self)@ + seq![x]);
        }
    }

    /// Append a 16-bit value, little-endian.
    fn push_le16(&mut self, x: u16)
        ensures
            final(self)@ == old(self)@ + le16_bytes(x),
    {
        self.out.push((x % 256) as u8);
        self.out.push((x / 256) as u8);
        proof {
            assert(lo_byte(x) == (x % 256) as u8);
            assert(hi_byte(x) == (x / 256) as u8);
            assert(self@ =~= old(self)@ + le16_bytes(x));
        }
    }

    /// Append a run of bytes.
    fn push_bytes(&mut self, b: &[u8])
        ensures
            final(self)@ == old(self)@ + b@,
    {
        self.out.extend_from_slice(b);
    }

    /// The two's-complement wire pattern of `x`.
    fn u16_from_i16(x: i16) -> (r: u16)
        ensures
            r == u16_of_i16(x),
    {
        if x >= 0 {
            x as u16
        } else {
            ((x as i32) + 0x10000) as u16
        }
    }
}

impl Default for WriteBuffer {
    /// An empty sink.
    fn default() -> (r: WriteBuffer)
        ensures
            r@ == Seq::<u8>::empty(),
    {
        WriteBuffer::new()
    }
}

/// Per-kind encoding into a byte sink. Every method appends exactly the
/// wire form of its message, as the wire specification gives it.
pub trait LurkWrite {
    /// The bytes buffered for sending.
    spec fn sink(&self) -> Seq<u8>;

    /// Append the 32 raw bytes of a name.
    fn write_lurk_name(&mut self, name: &LurkName)
        ensures
            final(self).sink() == old(self).sink() + name@,
    ;

    /// Append one `Message` frame.
    fn write_message(&mut self, msg: &Message)
        requires
            message_wf(msg@),
        ensures
            final(self).sink() == old(self).sink() + encode_message(msg@),
    ;

    /// Append one `Error` frame.
    fn write_error(&mut self, err: &Error)
        requires
            error_wf(err@),
        ensures
            final(self).sink() == old(self).sink() + encode_error(err@),
    ;

    /// Append one `Accept` frame.
    fn write_accept(&mut self, accept: &Accept)
        ensures
            final(self).sink() == old(self).sink() + encode_accept(*accept),
    ;

    /// Append one `Room` frame.
    fn write_room(&mut self, room: &Room)
        requires
            room_wf(room@),
        ensures
            final(self).sink() == old(self).sink() + encode_room(room@),
    ;

    /// Append one `Character` frame.
    fn write_character(&mut self, ch: &Character)
        requires
            character_wf(ch@),
        ensures
            final(self).sink() == old(self).sink() + encode_character(ch@),
    ;

    /// Append one `Game` frame.
    fn write_game(&mut self, game: &Game)
        requires
            game_wf(game@),
        ensures
            final(self).sink() == old(self).sink() + encode_game(game@),
    ;

    /// Append one `Connection` frame.
    fn write_connection(&mut self, conn: &Connection)
        requires
            connection_wf(conn@),
        ensures
            final(self).sink() == old(self).sink() + encode_connection(conn@),
    ;

    /// Append one `Version` frame.
    fn write_version(&mut self, version: &Version)
        requires
            version_wf(version@),
        ensures
            final(self).sink() == old(self).sink() + encode_version(version@),
    ;
}

impl LurkWrite for WriteBuffer {
    open spec fn sink(&self) -> Seq<u8> {
        self@
    }

    fn write_lurk_name(&mut self, name: &LurkName) {
        self.push_bytes(name.bytes.as_slice());
    }

    fn write_message(&mut self, msg: &Message) {
        self.push_u8(1);
        self.push_le16(msg.message.len() as u16);
        self.write_lurk_name(&msg.recipient);
        self.write_lurk_name(&msg.sender);
        self.push_bytes(msg.message.as_slice());
        proof {
            assert(self.sink() =~= old(self).sink() + encode_message(msg@));
        }
    }

    fn write_error(&mut self, err: &Error) {
        self.push_u8(7);
        self.push_u8(err.code);
        self.push_le16(err.message.len() as u16);
        self.push_bytes(err.message.as_slice());
        proof {
            assert(self.sink() =~= old(self).sink() + encode_error(err@));
        }
    }

    fn write_accept(&mut self, accept: &Accept) {
        self.push_u8(8);
        self.push_u8(accept.code);
        proof {
            assert(self.sink() =~= old(self).sink() + encode_accept(*accept));
        }
    }

    fn write_room(&mut self, room: &Room) {
        self.push_u8(9);
        self.push_le16(room.number);
        self.write_lurk_name(&room.name);
        self.push_le16(room.description.len() as u16);
        self.push_bytes(room.description.as_slice());
        proof {
            assert(self.sink() =~= old(self).sink() + encode_room(room@));
        }
    }

    fn write_character(&mut self, ch: &Character) {
        self.push_u8(10);
        self.write_lurk_name(&ch.name);
        self.push_u8(ch.flags.to_u8());
        self.push_le16(ch.attack);
        self.push_le16(ch.defense);
        self.push_le16(ch.regen);
        self.push_le16(WriteBuffer::u16_from_i16(ch.health));
        self.push_le16(ch.gold);
        self.push_le16(ch.current_room_number);
        self.push_le16(ch.description.len() as u16);
        self.push_bytes(ch.description.as_slice());
        proof {
            assert(self.sink() =~= old(self).sink() + encode_character(ch@));
        }
    }

    fn write_game(&mut self, game: &Game) {
        self.push_u8(11);
        self.push_le16(game.initial_points);
        self.push_le16(game.stat_limit);
        self.push_le16(game.description.len() as u16);
        self.push_bytes(game.description.as_slice());
        proof {
            assert(self.sink() =~= old(self).sink() + encode_game(game@));
        }
    }

    fn write_connection(&mut self, conn: &Connection) {
        self.push_u8(13);
        self.push_le16(conn.room_number);
        self.write_lurk_name(&conn.room_name);
        self.push_le16(conn.description.len() as u16);
        self.push_bytes(conn.description.as_slice());
        proof {
            assert(self.sink() =~= old(self).sink() + encode_connection(conn@));
        }
    }

    fn write_version(&mut self, version: &Version) {
        self.push_u8(14);
        self.push_u8(version.major);
        self.push_u8(version.minor);
        self.push_le16(version.extensions.len() as u16);
        proof {
            assert(version@.extensions.take(0) =~= Seq::<Seq<u8>>::empty());
            assert(self.sink() =~= old(self).sink() + seq![14u8, version.major, version.minor]
                + le16_bytes(version@.extensions.len() as u16) + encode_exts(
                version@.extensions.take(0),
            ));
        }
        let n = version.extensions.len();
        let mut i: usize = 0;
        while i < n
            invariant
                i <= n,
                n == version.extensions@.len(),
                version_wf(version@),
                self.sink() == old(self).sink() + seq![14u8, version.major, version.minor]
                    + le16_bytes(version@.extensions.len() as u16) + encode_exts(
                    version@.extensions.take(i as int),
                ),
            decreases n - i,
        {
            let ext = &version.extensions[i];
            proof {
                assert(version@.extensions[i as int] == ext@);
            }
            self.push_le16(ext.len() as u16);
            self.push_bytes(ext.as_slice());
            proof {
                assert(version@.extensions.take(i + 1) =~= version@.extensions.take(
                    i as int,
                ).push(ext@));
                lemma_encode_exts_snoc(version@.extensions.take(i as int), ext@);
                assert(self.sink() =~= old(self).sink() + seq![
                    14u8,
                    version.major,
                    version.minor,
                ] + le16_bytes(version@.extensions.len() as u16) + encode_exts(
                    version@.extensions.take(i + 1),
                ));
            }
            i = i + 1;
        }
        proof {
            assert(version@.extensions.take(n as int) =~= version@.extensions);
            assert(self.sink() =~= old(self).sink() + encode_version(version@));
        }
    }
}

impl WriteBuffer {
    /// Append one outbound message of any kind.
    pub fn write_lurk(&mut self, msg: &LurkWriteMessage)
        requires
            write_message_wf(*msg),
        ensures
            final(self)@ == old(self)@ + encode_write(*msg),
    {
        match msg {
            LurkWriteMessage::Message(x) => self.write_message(x),
            LurkWriteMessage::Error(x) => self.write_error(x),
            LurkWriteMessage::Accept(x) => self.write_accept(x),
            LurkWriteMessage::Room(x) => self.write_room(x),
            LurkWriteMessage::Character(x) => self.write_character(x),
            LurkWriteMessage::Game(x) => self.write_game(x),
            LurkWriteMessage::Connection(x) => self.write_connection(x),
            LurkWriteMessage::Version(x) => self.write_version(x),
        }
    }

    /// Append one outbound message after checking that it is well formed;
    /// an ill-formed message leaves the sink unchanged and reports false.
    pub fn try_write_lurk(&mut self, msg: &LurkWriteMessage) -> (r: bool)
        ensures
            r == write_message_wf(*msg),
            r ==> final(self)@ == old(self)@ + encode_write(*msg),
            !r ==> final(self)@ == old(self)@,
    {
        if check_write_wf(msg) {
            self.write_lurk(msg);
            true
        } else {
            false
        }
    }
}

/// Whether every variable tail and extension of `msg` fits its 16-bit
/// length field.
pub fn check_write_wf(msg: &LurkWriteMessage) -> (r: bool)
    ensures
        r == write_message_wf(*msg),
{
    match msg {
        LurkWriteMessage::Message(x) => x.message.len() <= 0xffff,
        LurkWriteMessage::Error(x) => x.message.len() <= 0xffff,
        LurkWriteMessage::Accept(_) => true,
        LurkWriteMessage::Room(x) => x.description.len() <= 0xffff,
        LurkWriteMessage::Character(x) => x.description.len() <= 0xffff,
        LurkWriteMessage::Game(x) => x.description.len() <= 0xffff,
        LurkWriteMessage::Connection(x) => x.description.len() <= 0xffff,
        LurkWriteMessage::Version(x) => {
            if x.extensions.len() > 0xffff {
                return false;
            }
            let n = x.extensions.len();
            let mut i: usize = 0;
            while i < n
                invariant
                    i <= n,
                    n == x.extensions@.len(),
                    n <= 0xffff,
                    *msg == LurkWriteMessage::Version(*x),
                    forall|j: int| 0 <= j < i ==> #[trigger] x.extensions@[j]@.len() <= 0xffff,
                decreases n - i,
            {
                if x.extensions[i].len() > 0xffff {
                    proof {
                        assert(x@.extensions[i as int] == x.extensions@[i as int]@);
                        assert(x@.extensions[i as int].len() > 0xffff);
                    }
                    return false;
                }
                i = i + 1;
            }
            proof {
                assert forall|j: int|
                    0 <= j < x@.extensions.len() implies #[trigger] x@.extensions[j].len()
                    <= 0xffff by {
                    assert(x@.extensions[j] == x.extensions@[j]@);
                }
            }
            true
        },
    }
}

} // verus!
