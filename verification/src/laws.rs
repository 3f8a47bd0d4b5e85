//! The protocol laws, proved of the wire specification: length
//! determinism of the encoder, round-trip of decode after encode, prefix
//! partiality, and equivalence of incremental and one-shot decoding.

use vstd::prelude::*;

use crate::protocol::Accept;
use crate::protocol::ChangeRoom;
use crate::wire::{
    decode_exts, encode_accept, encode_change_room, encode_character, encode_connection,
    encode_error, encode_ext, encode_exts, encode_fight, encode_game, encode_leave, encode_loot,
    encode_message, encode_pvp_fight, encode_room, encode_start, encode_version, error_wf,
    exts_end, game_wf, hi_byte, i16_of_u16, le16, lo_byte, message_wf, poll_next,
    room_wf, u16_of_i16, version_wf, CharacterView, ConnectionView, ErrorView, EventView,
    GameView, LootView, MessageView, PVPFightView, RoomView, StepView, VersionView, character_wf,
    connection_wf, loot_wf, pvp_fight_wf, residual, event_seq,
};

verus! {

// ---------------------------------------------------------------------------
// Integer round-trips.
// ---------------------------------------------------------------------------

/// The two little-endian bytes of a 16-bit value read back as that value.
pub proof fn lemma_le16_round_trip(x: u16)
    ensures
        le16(lo_byte(x), hi_byte(x)) == x,
{
}

/// The two's-complement wire pattern of a signed value reads back as
/// that value.
pub proof fn lemma_i16_round_trip(x: i16)
    ensures
        i16_of_u16(u16_of_i16(x)) == x,
{
}

// ---------------------------------------------------------------------------
// Length determinism: the wire form of a value is exactly its kind's
// static block followed by its tail.
// ---------------------------------------------------------------------------

/// Bytes a list of extensions occupies on the wire: two length bytes and
/// the payload for each.
pub open spec fn exts_wire_len(exts: Seq<Seq<u8>>) -> int
    decreases exts.len(),
{
    if exts.len() == 0 {
        0
    } else {
        2 + exts[0].len() + exts_wire_len(exts.drop_first())
    }
}

/// The encoded extensions occupy exactly their wire length.
pub proof fn lemma_encode_exts_len(exts: Seq<Seq<u8>>)
    ensures
        encode_exts(exts).len() == exts_wire_len(exts),
    decreases exts.len(),
{
    if exts.len() > 0 {
        lemma_encode_exts_len(exts.drop_first());
    }
}

/// A `Message` encodes to its 67-byte static block plus its tail.
pub proof fn lemma_message_encoded_len(m: MessageView)
    requires
        message_wf(m),
    ensures
        encode_message(m).len() == 67 + m.message.len(),
{
}

/// The fixed-size kinds encode to exactly their static blocks: 3 bytes
/// for `ChangeRoom`, 33 for `PVPFight` and `Loot`, 2 for `Accept`, and a
/// single type code for `Fight`, `Start` and `Leave`.
pub proof fn lemma_fixed_encoded_len(c: ChangeRoom, p: PVPFightView, l: LootView, a: Accept)
    requires
        pvp_fight_wf(p),
        loot_wf(l),
    ensures
        encode_change_room(c).len() == 3,
        encode_pvp_fight(p).len() == 33,
        encode_loot(l).len() == 33,
        encode_accept(a).len() == 2,
        encode_fight().len() == 1,
        encode_start().len() == 1,
        encode_leave().len() == 1,
{
}

/// An `Error` encodes to its 4-byte static block plus its text.
pub proof fn lemma_error_encoded_len(e: ErrorView)
    requires
        error_wf(e),
    ensures
        encode_error(e).len() == 4 + e.message.len(),
{
}

/// A `Room` encodes to its 37-byte static block plus its description.
pub proof fn lemma_room_encoded_len(r: RoomView)
    requires
        room_wf(r),
    ensures
        encode_room(r).len() == 37 + r.description.len(),
{
}

/// A `Character` encodes to its 48-byte static block plus its
/// description.
pub proof fn lemma_character_encoded_len(c: CharacterView)
    requires
        character_wf(c),
    ensures
        encode_character(c).len() == 48 + c.description.len(),
{
}

/// A `Game` encodes to its 7-byte static block plus its description.
pub proof fn lemma_game_encoded_len(g: GameView)
    requires
        game_wf(g),
    ensures
        encode_game(g).len() == 7 + g.description.len(),
{
}

/// A `Connection` encodes to its 37-byte static block plus its
/// description.
pub proof fn lemma_connection_encoded_len(c: ConnectionView)
    requires
        connection_wf(c),
    ensures
        encode_connection(c).len() == 37 + c.description.len(),
{
}

/// A `Version` encodes to its 5-byte static block plus the wire length
/// of its extensions.
pub proof fn lemma_version_encoded_len(v: VersionView)
    requires
        version_wf(v),
    ensures
        encode_version(v).len() == 5 + exts_wire_len(v.extensions),
{
    lemma_encode_exts_len(v.extensions);
}

// ---------------------------------------------------------------------------
// Round-trip: a well-formed value, encoded and laid at the head of any
// stream, polls Complete and decodes to exactly itself, consuming
// exactly its own bytes.
// ---------------------------------------------------------------------------

/// Round-trip for `Message`.
pub proof fn lemma_message_round_trip(m: MessageView, rest: Seq<u8>)
    requires
        message_wf(m),
    ensures
        poll_next(encode_message(m) + rest) == StepView::Event(
            EventView::Message(m),
            encode_message(m).len() as int,
        ),
{
    let e = encode_message(m);
    let b = e + rest;
    lemma_le16_round_trip(m.message.len() as u16);
    assert(b[0] == 1);
    assert(b[1] == lo_byte(m.message.len() as u16) && b[2] == hi_byte(m.message.len() as u16));
    assert(le16(b[1], b[2]) == m.message.len());
    assert(crate::wire::message_frame_len(b) == 67 + m.message.len());
    assert(crate::wire::decode_message(b).recipient =~= m.recipient);
    assert(crate::wire::decode_message(b).sender =~= m.sender);
    assert(crate::wire::decode_message(b).message =~= m.message);
}

/// Round-trip for `ChangeRoom`.
pub proof fn lemma_change_room_round_trip(c: ChangeRoom, rest: Seq<u8>)
    ensures
        poll_next(encode_change_room(c) + rest) == StepView::Event(EventView::ChangeRoom(c), 3),
{
    let b = encode_change_room(c) + rest;
    lemma_le16_round_trip(c.room_number);
    assert(b[0] == 2 && b[1] == lo_byte(c.room_number) && b[2] == hi_byte(c.room_number));
}

/// Round-trip for `Fight`.
pub proof fn lemma_fight_round_trip(rest: Seq<u8>)
    ensures
        poll_next(encode_fight() + rest) == StepView::Event(EventView::Fight, 1),
{
    let b = encode_fight() + rest;
    assert(b[0] == 3);
}

/// Round-trip for `PVPFight`.
pub proof fn lemma_pvp_fight_round_trip(p: PVPFightView, rest: Seq<u8>)
    requires
        pvp_fight_wf(p),
    ensures
        poll_next(encode_pvp_fight(p) + rest) == StepView::Event(EventView::PVPFight(p), 33),
{
    let b = encode_pvp_fight(p) + rest;
    assert(b[0] == 4);
    assert(crate::wire::decode_pvp_fight(b).target =~= p.target);
}

/// Round-trip for `Loot`.
pub proof fn lemma_loot_round_trip(l: LootView, rest: Seq<u8>)
    requires
        loot_wf(l),
    ensures
        poll_next(encode_loot(l) + rest) == StepView::Event(EventView::Loot(l), 33),
{
    let b = encode_loot(l) + rest;
    assert(b[0] == 5);
    assert(crate::wire::decode_loot(b).target =~= l.target);
}

/// Round-trip for `Start`.
pub proof fn lemma_start_round_trip(rest: Seq<u8>)
    ensures
        poll_next(encode_start() + rest) == StepView::Event(EventView::Start, 1),
{
    let b = encode_start() + rest;
    assert(b[0] == 6);
}

/// Round-trip for `Character`.
pub proof fn lemma_character_round_trip(c: CharacterView, rest: Seq<u8>)
    requires
        character_wf(c),
    ensures
        poll_next(encode_character(c) + rest) == StepView::Event(
            EventView::Character(c),
            encode_character(c).len() as int,
        ),
{
    let e = encode_character(c);
    let b = e + rest;
    lemma_le16_round_trip(c.attack);
    lemma_le16_round_trip(c.defense);
    lemma_le16_round_trip(c.regen);
    lemma_le16_round_trip(u16_of_i16(c.health));
    lemma_i16_round_trip(c.health);
    lemma_le16_round_trip(c.gold);
    lemma_le16_round_trip(c.current_room_number);
    lemma_le16_round_trip(c.description.len() as u16);
    assert(b[0] == 10);
    assert(b[33] == c.flags);
    assert(le16(b[46], b[47]) == c.description.len());
    assert(crate::wire::var_frame_len(b, 48) == 48 + c.description.len());
    assert(crate::wire::decode_character(b).name =~= c.name);
    assert(crate::wire::decode_character(b).description =~= c.description);
    assert(crate::wire::decode_character(b).health == c.health);
}

/// Round-trip for `Leave`.
pub proof fn lemma_leave_round_trip(rest: Seq<u8>)
    ensures
        poll_next(encode_leave() + rest) == StepView::Event(EventView::Leave, 1),
{
    let b = encode_leave() + rest;
    assert(b[0] == 12);
}

/// The extension walk over an exact encoding: it ends right after the
/// encoded bytes and decodes to the very extensions encoded.
pub proof fn lemma_exts_round_trip(exts: Seq<Seq<u8>>, b: Seq<u8>, cursor: int)
    requires
        forall|i: int| 0 <= i < exts.len() ==> #[trigger] exts[i].len() <= 0xffff,
        0 <= cursor,
        cursor + encode_exts(exts).len() <= b.len(),
        b.subrange(cursor, cursor + encode_exts(exts).len()) == encode_exts(exts),
    ensures
        exts_end(b, cursor, exts.len() as int) == cursor + encode_exts(exts).len(),
        decode_exts(b, cursor, exts.len() as int) == exts,
    decreases exts.len(),
{
    if exts.len() == 0 {
        assert(decode_exts(b, cursor, 0) =~= exts);
    } else {
        let head = exts[0];
        let l0 = head.len() as int;
        let enc = encode_exts(exts);
        let enc_rest = encode_exts(exts.drop_first());
        assert(enc == encode_ext(head) + enc_rest);
        assert(enc.len() == 2 + l0 + enc_rest.len());
        lemma_le16_round_trip(head.len() as u16);
        assert forall|j: int| 0 <= j < enc.len() implies b[cursor + j] == enc[j] by {
            assert(b.subrange(cursor, cursor + enc.len() as int)[j] == enc[j]);
        }
        assert(b[cursor] == enc[0] && b[cursor + 1] == enc[1]);
        assert forall|j: int| 0 <= j < l0 implies #[trigger] head[j] == b[cursor + 2 + j] by {
            assert(b.subrange(cursor, cursor + enc.len() as int)[2 + j] == enc[2 + j]);
            assert(enc[2 + j] == head[j]);
        }
        assert forall|j: int| 0 <= j < enc_rest.len() implies #[trigger] enc_rest[j] == b[cursor
            + 2 + l0 + j] by {
            assert(b.subrange(cursor, cursor + enc.len() as int)[2 + l0 + j] == enc[2 + l0 + j]);
            assert(enc[2 + l0 + j] == enc_rest[j]);
        }
        assert(le16(b[cursor], b[cursor + 1]) == l0);
        let next = cursor + 2 + l0;
        assert(b.subrange(cursor + 2, next) =~= head);
        assert(b.subrange(next, next + enc_rest.len()) =~= enc_rest);
        lemma_exts_round_trip(exts.drop_first(), b, next);
        assert(exts_end(b, cursor, exts.len() as int) == exts_end(
            b,
            next,
            exts.len() as int - 1,
        ));
        assert(decode_exts(b, cursor, exts.len() as int) == seq![b.subrange(cursor + 2, next)]
            + decode_exts(b, next, exts.len() as int - 1));
        assert(seq![head] + exts.drop_first() =~= exts);
    }
}

/// Round-trip for `Version`.
pub proof fn lemma_version_round_trip(v: VersionView, rest: Seq<u8>)
    requires
        version_wf(v),
    ensures
        poll_next(encode_version(v) + rest) == StepView::Event(
            EventView::Version(v),
            encode_version(v).len() as int,
        ),
{
    let e = encode_version(v);
    let b = e + rest;
    lemma_le16_round_trip(v.extensions.len() as u16);
    assert(b[0] == 14 && b[1] == v.major && b[2] == v.minor);
    assert(le16(b[3], b[4]) == v.extensions.len());
    assert(b.subrange(5, 5 + encode_exts(v.extensions).len() as int) =~= encode_exts(v.extensions));
    lemma_exts_round_trip(v.extensions, b, 5);
    assert(crate::wire::version_frame_len(b) == e.len());
    assert(crate::wire::decode_version(b) =~= v);
}

// ---------------------------------------------------------------------------
// Prefix partiality: any strict prefix of a valid encoding leaves the
// decoder pending; it never reports a complete frame and never rejects
// the stream.
// ---------------------------------------------------------------------------

/// Prefix partiality for `Message`.
pub proof fn lemma_message_prefix_partial(m: MessageView, i: int)
    requires
        message_wf(m),
        0 <= i < encode_message(m).len(),
    ensures
        poll_next(encode_message(m).take(i)) is Pending,
{
    let e = encode_message(m);
    let p = e.take(i);
    if i > 0 {
        assert(p[0] == e[0]);
        assert(e[0] == 1);
        if i >= 3 {
            lemma_le16_round_trip(m.message.len() as u16);
            assert(p[1] == e[1] && p[2] == e[2]);
            assert(le16(p[1], p[2]) == m.message.len());
        }
    }
}

/// Prefix partiality for `ChangeRoom`.
pub proof fn lemma_change_room_prefix_partial(c: ChangeRoom, i: int)
    requires
        0 <= i < 3,
    ensures
        poll_next(encode_change_room(c).take(i)) is Pending,
{
    let e = encode_change_room(c);
    let p = e.take(i);
    if i > 0 {
        assert(p[0] == e[0]);
        assert(e[0] == 2);
    }
}

/// Prefix partiality for `PVPFight`.
pub proof fn lemma_pvp_fight_prefix_partial(v: PVPFightView, i: int)
    requires
        pvp_fight_wf(v),
        0 <= i < 33,
    ensures
        poll_next(encode_pvp_fight(v).take(i)) is Pending,
{
    let e = encode_pvp_fight(v);
    let p = e.take(i);
    if i > 0 {
        assert(p[0] == e[0]);
        assert(e[0] == 4);
    }
}

/// Prefix partiality for `Loot`.
pub proof fn lemma_loot_prefix_partial(v: LootView, i: int)
    requires
        loot_wf(v),
        0 <= i < 33,
    ensures
        poll_next(encode_loot(v).take(i)) is Pending,
{
    let e = encode_loot(v);
    let p = e.take(i);
    if i > 0 {
        assert(p[0] == e[0]);
        assert(e[0] == 5);
    }
}

/// Prefix partiality for `Character`.
pub proof fn lemma_character_prefix_partial(c: CharacterView, i: int)
    requires
        character_wf(c),
        0 <= i < encode_character(c).len(),
    ensures
        poll_next(encode_character(c).take(i)) is Pending,
{
    let e = encode_character(c);
    let p = e.take(i);
    if i > 0 {
        assert(p[0] == e[0]);
        assert(e[0] == 10);
        if i >= 48 {
            lemma_le16_round_trip(c.description.len() as u16);
            assert(p[46] == e[46] && p[47] == e[47]);
            assert(le16(p[46], p[47]) == c.description.len());
        }
    }
}

/// Walking the extensions of an encoding cut short always runs out of
/// bytes: the walk reports the cut.
pub proof fn lemma_exts_end_prefix(exts: Seq<Seq<u8>>, full: Seq<u8>, cursor: int, i: int)
    requires
        forall|k: int| 0 <= k < exts.len() ==> #[trigger] exts[k].len() <= 0xffff,
        0 <= cursor <= i,
        i < cursor + encode_exts(exts).len(),
        cursor + encode_exts(exts).len() <= full.len(),
        full.subrange(cursor, cursor + encode_exts(exts).len() as int) == encode_exts(exts),
    ensures
        exts_end(full.take(i), cursor, exts.len() as int) == -1,
    decreases exts.len(),
{
    let p = full.take(i);
    let head = exts[0];
    let l0 = head.len() as int;
    let enc = encode_exts(exts);
    let enc_rest = encode_exts(exts.drop_first());
    assert(enc == encode_ext(head) + enc_rest);
    assert forall|j: int| 0 <= j < enc.len() implies full[cursor + j] == enc[j] by {
        assert(full.subrange(cursor, cursor + enc.len() as int)[j] == enc[j]);
    }
    if cursor + 2 > i {
        assert(exts_end(p, cursor, exts.len() as int) == -1);
    } else {
        lemma_le16_round_trip(head.len() as u16);
        assert(p[cursor] == enc[0] && p[cursor + 1] == enc[1]);
        assert(le16(p[cursor], p[cursor + 1]) == l0);
        if cursor + 2 + l0 > i {
            assert(exts_end(p, cursor, exts.len() as int) == -1);
        } else {
            let next = cursor + 2 + l0;
            assert forall|j: int| 0 <= j < enc_rest.len() implies #[trigger] enc_rest[j] == full[
                next + j] by {
                assert(full[cursor + (2 + l0 + j)] == enc[2 + l0 + j]);
                assert(enc[2 + l0 + j] == enc_rest[j]);
            }
            assert(full.subrange(next, next + enc_rest.len() as int) =~= enc_rest);
            lemma_exts_end_prefix(exts.drop_first(), full, next, i);
            assert(exts_end(p, cursor, exts.len() as int) == exts_end(
                p,
                next,
                exts.len() as int - 1,
            ));
        }
    }
}

/// Prefix partiality for `Version`.
pub proof fn lemma_version_prefix_partial(v: VersionView, i: int)
    requires
        version_wf(v),
        0 <= i < encode_version(v).len(),
    ensures
        poll_next(encode_version(v).take(i)) is Pending,
{
    let e = encode_version(v);
    let p = e.take(i);
    if i > 0 {
        assert(p[0] == e[0]);
        assert(e[0] == 14);
        if i >= 5 {
            lemma_le16_round_trip(v.extensions.len() as u16);
            assert(p[3] == e[3] && p[4] == e[4]);
            assert(le16(p[3], p[4]) == v.extensions.len());
            assert(e.subrange(5, 5 + encode_exts(v.extensions).len() as int) =~= encode_exts(
                v.extensions,
            ));
            lemma_exts_end_prefix(v.extensions, e, 5, i);
            assert(crate::wire::version_frame_len(p) == -1);
        }
    }
}

// ---------------------------------------------------------------------------
// Incremental decoding: bytes may arrive in any chunks; the decoder
// yields the same ordered events as on the whole stream at once.
// ---------------------------------------------------------------------------

/// A successful extension walk stays within the buffer and never moves
/// backwards.
pub proof fn lemma_exts_end_bounds(b: Seq<u8>, cursor: int, r: int)
    requires
        0 <= cursor <= b.len(),
        0 <= r,
        exts_end(b, cursor, r) >= 0,
    ensures
        cursor <= exts_end(b, cursor, r) <= b.len(),
    decreases r,
{
    if r > 0 {
        let next = cursor + 2 + le16(b[cursor], b[cursor + 1]);
        lemma_exts_end_bounds(b, next, r - 1);
    }
}

/// Later bytes change nothing about a completed extension walk: the walk
/// ends where it ended and decodes what it decoded.
pub proof fn lemma_exts_extends(b: Seq<u8>, ext: Seq<u8>, cursor: int, r: int)
    requires
        0 <= cursor <= b.len(),
        0 <= r,
        exts_end(b, cursor, r) >= 0,
    ensures
        exts_end(b + ext, cursor, r) == exts_end(b, cursor, r),
        decode_exts(b + ext, cursor, r) == decode_exts(b, cursor, r),
    decreases r,
{
    let b2 = b + ext;
    if r == 0 {
        assert(decode_exts(b2, cursor, 0) =~= decode_exts(b, cursor, 0));
    } else {
        assert(cursor + 2 <= b.len());
        assert(b2[cursor] == b[cursor] && b2[cursor + 1] == b[cursor + 1]);
        let l = le16(b[cursor], b[cursor + 1]);
        let next = cursor + 2 + l;
        assert(next <= b.len());
        lemma_exts_extends(b, ext, next, r - 1);
        assert(b2.subrange(cursor + 2, next) =~= b.subrange(cursor + 2, next));
        assert(decode_exts(b2, cursor, r) == seq![b2.subrange(cursor + 2, next)] + decode_exts(
            b2,
            next,
            r - 1,
        ));
        assert(decode_exts(b2, cursor, r) =~= decode_exts(b, cursor, r));
    }
}

/// A decoded frame occupies at least one byte and never more than the
/// buffer holds.
pub proof fn lemma_poll_next_event_len(b: Seq<u8>)
    ensures
        match poll_next(b) {
            StepView::Event(_, l) => 1 <= l <= b.len(),
            _ => true,
        },
{
    if b.len() > 0 && b[0] == 14 && crate::wire::poll_version_at(b) is Complete {
        lemma_exts_end_bounds(b, 5, le16(b[3], b[4]) as int);
    }
}

/// One decoder step is stable under later bytes: a decoded frame stays
/// that frame, and a rejected stream stays rejected. Only `Pending` can
/// change as more bytes arrive.
pub proof fn lemma_poll_next_extends(b: Seq<u8>, ext: Seq<u8>)
    ensures
        match poll_next(b) {
            StepView::Event(e, l) => poll_next(b + ext) == StepView::Event(e, l),
            StepView::Bad => poll_next(b + ext) is Bad,
            StepView::Pending => true,
        },
{
    let b2 = b + ext;
    if b.len() == 0 {
    } else {
        assert(b2[0] == b[0]);
        if b[0] == 1 {
            if crate::wire::poll_message_at(b) is Complete {
                assert(b2[1] == b[1] && b2[2] == b[2]);
                let fl = crate::wire::message_frame_len(b);
                assert(crate::wire::message_frame_len(b2) == fl);
                assert(b2.subrange(3, 35) =~= b.subrange(3, 35));
                assert(b2.subrange(35, 67) =~= b.subrange(35, 67));
                assert(b2.subrange(67, fl) =~= b.subrange(67, fl));
                assert(crate::wire::decode_message(b2) =~= crate::wire::decode_message(b));
            }
        } else if b[0] == 2 {
            if b.len() >= 3 {
                assert(b2[1] == b[1] && b2[2] == b[2]);
            }
        } else if b[0] == 4 || b[0] == 5 {
            if b.len() >= 33 {
                assert(b2.subrange(1, 33) =~= b.subrange(1, 33));
            }
        } else if b[0] == 10 {
            if crate::wire::generic_poll(b, 10, 48, true) is Complete {
                assert forall|j: int| 1 <= j < 48 implies b2[j] == b[j] by {}
                let fl = crate::wire::var_frame_len(b, 48);
                assert(crate::wire::var_frame_len(b2, 48) == fl);
                assert(b2.subrange(1, 33) =~= b.subrange(1, 33));
                assert(b2.subrange(48, fl) =~= b.subrange(48, fl));
                assert(crate::wire::decode_character(b2) =~= crate::wire::decode_character(b));
            }
        } else if b[0] == 14 {
            if crate::wire::poll_version_at(b) is Complete {
                assert(b2[1] == b[1] && b2[2] == b[2] && b2[3] == b[3] && b2[4] == b[4]);
                lemma_exts_extends(b, ext, 5, le16(b[3], b[4]) as int);
                assert(crate::wire::decode_version(b2) =~= crate::wire::decode_version(b));
            }
        }
    }
}

/// Incremental decoding equivalence: decoding a stream extended by a new
/// chunk yields the events of the old stream followed by the events of
/// its residue with the chunk appended, and leaves the same residue. So
/// feeding a stream chunk by chunk, draining after each chunk, yields
/// exactly the events of feeding it whole.
pub proof fn lemma_incremental_decode(b: Seq<u8>, ext: Seq<u8>)
    ensures
        event_seq(b + ext) == event_seq(b) + event_seq(residual(b) + ext),
        residual(b + ext) == residual(residual(b) + ext),
    decreases b.len(),
{
    let b2 = b + ext;
    lemma_poll_next_event_len(b);
    lemma_poll_next_extends(b, ext);
    match poll_next(b) {
        StepView::Event(e, l) => {
            assert(0 < l <= b.len());
            assert(b2.skip(l) =~= b.skip(l) + ext);
            lemma_incremental_decode(b.skip(l), ext);
            assert(event_seq(b2) == seq![e] + event_seq(b.skip(l) + ext));
            assert(event_seq(b) == seq![e] + event_seq(b.skip(l)));
            assert(residual(b) == residual(b.skip(l)));
            assert(seq![e] + (event_seq(b.skip(l)) + event_seq(residual(b) + ext)) =~= (seq![e]
                + event_seq(b.skip(l))) + event_seq(residual(b) + ext));
        },
        StepView::Pending => {
            assert(residual(b) == b);
            assert(event_seq(b) =~= Seq::<EventView>::empty());
            assert(event_seq(b2) =~= event_seq(b) + event_seq(residual(b) + ext));
        },
        StepView::Bad => {
            assert(residual(b) == b);
            assert(event_seq(b) =~= Seq::<EventView>::empty());
            assert(event_seq(b2) =~= event_seq(b) + event_seq(residual(b) + ext));
        },
    }
}

} // verus!
