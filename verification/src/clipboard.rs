//! Dual-slot clipboard exchange: two independent single-item channels, one
//! per data origin (host or client), each holding at most one pending
//! serialized payload. Updates overwrite (last-write-wins, no queue); a
//! take atomically empties the slot, so at most one consumer observes a
//! given payload. Decoding of the payload bytes is delegated to the
//! boundary adapter.

use vstd::prelude::*;

verus! {

/// Origin tag value that marks a payload as client-originated; any other
/// tag means host-originated.
pub const CLIENT_ORIGIN_TAG: u8 = 1;

/// Mathematical model of the exchange: the pending payload bytes of each
/// origin, if any.
pub struct ClipboardModel {
    pub host: Option<Seq<u8>>,
    pub client: Option<Seq<u8>>,
}

/// The two single-slot clipboard channels, keyed by origin.
pub struct ClipboardExchange {
    /// Pending payload produced on the host side, if any.
    pub host: Option<Vec<u8>>,
    /// Pending payload produced on the client side, if any.
    pub client: Option<Vec<u8>>,
}

impl View for ClipboardExchange {
    type V = ClipboardModel;

    open spec fn view(&self) -> ClipboardModel {
        ClipboardModel {
            host: match self.host {
                Some(p) => Some(p@),
                None => None,
            },
            client: match self.client {
                Some(p) => Some(p@),
                None => None,
            },
        }
    }
}

/// The pending payload of the chosen origin.
pub open spec fn slot_of(m: ClipboardModel, client: bool) -> Option<Seq<u8>> {
    if client {
        m.client
    } else {
        m.host
    }
}

/// Exchange state after `update(client, payload)`: the chosen origin's
/// pending payload is overwritten, the other origin is untouched.
pub open spec fn clip_update_model(m: ClipboardModel, client: bool, payload: Seq<u8>) -> ClipboardModel {
    if client {
        ClipboardModel { client: Some(payload), ..m }
    } else {
        ClipboardModel { host: Some(payload), ..m }
    }
}

/// Exchange state after `take(client)`: the chosen origin is emptied, the
/// other origin is untouched.
pub open spec fn clip_take_model(m: ClipboardModel, client: bool) -> ClipboardModel {
    if client {
        ClipboardModel { client: None, ..m }
    } else {
        ClipboardModel { host: None, ..m }
    }
}

impl ClipboardExchange {
    /// A fresh exchange with both origins empty.
    pub fn new() -> (r: ClipboardExchange)
        ensures
            r@ == (ClipboardModel { host: None, client: None }),
    {
        ClipboardExchange { host: None, client: None }
    }

    /// Record an inbound payload for one origin, overwriting any
    /// unconsumed previous payload of that origin (last-write-wins).
    pub fn update(&mut self, client: bool, payload: Vec<u8>)
        ensures
            final(self)@ == clip_update_model(old(self)@, client, payload@),
    {
        if client {
            self.client = Some(payload);
        } else {
            self.host = Some(payload);
        }
    }

    /// Record an inbound payload under its origin tag: the client-origin
    /// slot when the tag is [`CLIENT_ORIGIN_TAG`], the host-origin slot
    /// for any other tag.
    pub fn update_tagged(&mut self, origin_tag: u8, payload: Vec<u8>)
        ensures
            final(self)@ == clip_update_model(old(self)@, origin_tag == CLIENT_ORIGIN_TAG, payload@),
    {
        self.update(origin_tag == CLIENT_ORIGIN_TAG, payload);
    }

    /// Atomically remove and return the pending payload of one origin, or
    /// `None` if that origin has nothing pending.
    pub fn take(&mut self, client: bool) -> (r: Option<Vec<u8>>)
        ensures
            final(self)@ == clip_take_model(old(self)@, client),
            r matches Some(p) ==> slot_of(old(self)@, client) == Some(p@),
            r is None ==> slot_of(old(self)@, client) is None,
    {
        if client {
            self.client.take()
        } else {
            self.host.take()
        }
    }
}

/// Law: two updates to the same origin followed by a take yield the second
/// payload only; the first is never observable, and the other origin is
/// untouched throughout.
pub proof fn lemma_clipboard_last_write_wins(
    m: ClipboardModel,
    client: bool,
    p1: Seq<u8>,
    p2: Seq<u8>,
)
    ensures
        slot_of(clip_update_model(clip_update_model(m, client, p1), client, p2), client)
            == Some(p2),
        slot_of(clip_update_model(clip_update_model(m, client, p1), client, p2), !client)
            == slot_of(m, !client),
        slot_of(clip_take_model(clip_update_model(clip_update_model(m, client, p1), client, p2), client), !client)
            == slot_of(m, !client),
{
}

/// Law: a take empties the slot it read, so a second take of the same
/// origin without an intervening update yields nothing.
pub proof fn lemma_clipboard_take_once(m: ClipboardModel, client: bool)
    ensures
        slot_of(clip_take_model(m, client), client) is None,
{
}

} // verus!
