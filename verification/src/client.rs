//! One connected client: an identity, its read buffer, its outbound
//! sink, and the sticky poison flag. A poisoned client decodes nothing
//! further and is pending removal.

use vstd::prelude::*;

use crate::read::{LurkPollEvent, LurkRead, LurkReadEvent};
use crate::read_buffer::ReadBuffer;
use crate::wire::{poll_next, StepView};
use crate::write::WriteBuffer;

verus! {

/// Cap on unparsed inbound bytes per client: one mebibyte. A client that
/// exceeds it is poisoned, which bounds what a slow or malicious peer can
/// pin in memory.
pub const CLIENT_BUFFER_LIMIT: usize = 1024 * 1024;

/// Hands out clients with ids that increase strictly in accept order,
/// starting at 1, never reused for the server's lifetime.
pub struct ClientFactory {
    pub id_cursor: u128,
}

impl Default for ClientFactory {
    /// A factory whose first client gets id 1.
    fn default() -> (r: ClientFactory)
        ensures
            r.id_cursor == 0,
    {
        ClientFactory { id_cursor: 0 }
    }
}

impl ClientFactory {
    /// A fresh client with the next id: empty buffers, not poisoned, and
    /// an id strictly greater than every id handed out before.
    pub fn create(&mut self) -> (r: Client)
        requires
            old(self).id_cursor < u128::MAX,
        ensures
            final(self).id_cursor == old(self).id_cursor + 1,
            r.id == final(self).id_cursor,
            r.id > old(self).id_cursor,
            !r.poisoned,
            r.read@ == Seq::<u8>::empty(),
            r.write@ == Seq::<u8>::empty(),
    {
        self.id_cursor = self.id_cursor + 1;
        Client {
            id: self.id_cursor,
            read: ReadBuffer::new(),
            write: WriteBuffer::new(),
            poisoned: false,
        }
    }
}

/// One live connection, as the server loop owns it. The loop appends the
/// socket's bytes to `read` and sends what `write` buffers.
pub struct Client {
    pub id: u128,
    pub read: ReadBuffer,
    pub write: WriteBuffer,
    pub poisoned: bool,
}

/// What happened on a client: a decoded frame, or its arrival, or its
/// departure.
pub enum ClientEventKind {
    Read(LurkReadEvent),
    Join,
    Left,
}

/// An event tagged with the client it came from.
pub struct ClientEvent {
    pub event: ClientEventKind,
    pub client_id: u128,
}

impl ClientEvent {
    /// What happened.
    pub fn event(&self) -> (r: &ClientEventKind)
        ensures
            *r == self.event,
    {
        &self.event
    }

    /// Which client it happened on.
    pub fn client_id(&self) -> (r: u128)
        ensures
            r == self.client_id,
    {
        self.client_id
    }
}

/// What `poll_event` does on an active client within the buffer cap: one
/// decoder step, with `Bad` turning the poison flag on and a decoded
/// frame consuming exactly its bytes.
pub open spec fn polled_active(pre: Client, post: Client, r: Option<ClientEvent>) -> bool {
    match poll_next(pre.read@) {
        StepView::Pending => r is None && !post.poisoned && post.read@ == pre.read@,
        StepView::Bad => r is None && post.poisoned && post.read@ == pre.read@,
        StepView::Event(e, l) => {
            &&& !post.poisoned
            &&& post.read@ == pre.read@.skip(l)
            &&& match r {
                Option::Some(ev) => ev.client_id == pre.id && match ev.event {
                    ClientEventKind::Read(re) => re@ == e,
                    _ => false,
                },
                Option::None => false,
            }
        },
    }
}

impl Client {
    /// This client's id.
    pub fn id(&self) -> (r: u128)
        ensures
            r == self.id,
    {
        self.id
    }

    /// Put the client in the sticky terminal state: no further protocol
    /// interaction, pending removal.
    pub fn poison(&mut self)
        ensures
            final(self).poisoned,
            final(self).id == old(self).id,
            final(self).read@ == old(self).read@,
            final(self).write@ == old(self).write@,
    {
        self.poisoned = true;
    }

    /// Whether the client is poisoned.
    pub fn poisoned(&self) -> (r: bool)
        ensures
            r == self.poisoned,
    {
        self.poisoned
    }

    /// One decoding step. A poisoned client yields nothing; a client over
    /// the buffer cap is poisoned and yields nothing; otherwise the
    /// decoder runs once, a decoded frame becomes a `Read` event carrying
    /// this client's id, `Bad` poisons, and `Pending` leaves everything
    /// as it was. Only an active client ever yields an event.
    pub fn poll_event(&mut self) -> (r: Option<ClientEvent>)
        ensures
            final(self).id == old(self).id,
            final(self).write@ == old(self).write@,
            old(self).poisoned ==> r is None && final(self).poisoned && final(self).read@ == old(
                self,
            ).read@,
            !old(self).poisoned && old(self).read@.len() > CLIENT_BUFFER_LIMIT ==> r is None
                && final(self).poisoned && final(self).read@ == old(self).read@,
            !old(self).poisoned && old(self).read@.len() <= CLIENT_BUFFER_LIMIT ==> polled_active(
                *old(self),
                *final(self),
                r,
            ),
    {
        if self.read.len() > CLIENT_BUFFER_LIMIT {
            self.poison();
        }
        if let Some(event) = self.poll_lurk() {
            Some(ClientEvent { event: ClientEventKind::Read(event), client_id: self.id })
        } else {
            None
        }
    }

    /// One decoder step on an active client, at the frame level.
    fn poll_lurk(&mut self) -> (r: Option<LurkReadEvent>)
        ensures
            final(self).id == old(self).id,
            final(self).write@ == old(self).write@,
            old(self).poisoned ==> r is None && final(self).poisoned && final(self).read@ == old(
                self,
            ).read@,
            !old(self).poisoned ==> match poll_next(old(self).read@) {
                StepView::Pending => r is None && !final(self).poisoned && final(self).read@
                    == old(self).read@,
                StepView::Bad => r is None && final(self).poisoned && final(self).read@ == old(
                    self,
                ).read@,
                StepView::Event(e, l) => !final(self).poisoned && final(self).read@ == old(
                    self,
                ).read@.skip(l) && match r {
                    Option::Some(re) => re@ == e,
                    Option::None => false,
                },
            },
    {
        if self.poisoned() {
            return None;
        }
        let event = self.read.poll_lurk();
        match event {
            LurkPollEvent::Pending => None,
            LurkPollEvent::Message(msg) => Some(LurkReadEvent::Message(msg)),
            LurkPollEvent::ChangeRoom(chgrm) => Some(LurkReadEvent::ChangeRoom(chgrm)),
            LurkPollEvent::PVPFight(pvpfight) => Some(LurkReadEvent::PVPFight(pvpfight)),
            LurkPollEvent::Loot(loot) => Some(LurkReadEvent::Loot(loot)),
            LurkPollEvent::Character(ch) => Some(LurkReadEvent::Character(ch)),
            LurkPollEvent::Fight => Some(LurkReadEvent::Fight),
            LurkPollEvent::Start => Some(LurkReadEvent::Start),
            LurkPollEvent::Leave => Some(LurkReadEvent::Leave),
            LurkPollEvent::Version(vers) => Some(LurkReadEvent::Version(vers)),
            LurkPollEvent::Bad => {
                self.poison();
                None
            },
        }
    }

    /// The lifecycle event announcing this client's arrival.
    pub fn join(&self) -> (r: ClientEvent)
        ensures
            r.client_id == self.id,
            r.event is Join,
    {
        ClientEvent { event: ClientEventKind::Join, client_id: self.id }
    }

    /// The lifecycle event announcing this client's departure.
    pub fn left(&self) -> (r: ClientEvent)
        ensures
            r.client_id == self.id,
            r.event is Left,
    {
        ClientEvent { event: ClientEventKind::Left, client_id: self.id }
    }
}

} // verus!
