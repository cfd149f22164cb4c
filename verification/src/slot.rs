//! The shared reply slot: a single optional, fixed-capacity payload buffer.
//!
//! The producer publishes a payload wholesale, unconditionally overwriting
//! any prior unconsumed value (last-write-wins, no queue, no backpressure);
//! the responder reads whatever was published most recently. Callers are
//! responsible for performing both accesses under the same mutual-exclusion
//! discipline; the slot itself only models the value.

use vstd::prelude::*;

verus! {

/// The most bytes one published payload can hold.
pub const REPLY_CAPACITY: usize = 64;

/// What the slot holds after a publish: exactly the published payload,
/// whatever it held before.
pub open spec fn slot_after_publish(prior: Option<Seq<u8>>, payload: Seq<u8>) -> Option<Seq<u8>> {
    Some(payload)
}

/// A single optional payload of at most `REPLY_CAPACITY` bytes.
/// Its view is `None` while nothing has been published, and `Some(payload)`
/// afterwards.
pub struct ReplySlot {
    occupied: bool,
    buf: Vec<u8>,
}

impl View for ReplySlot {
    type V = Option<Seq<u8>>;

    closed spec fn view(&self) -> Option<Seq<u8>> {
        if self.occupied {
            Some(self.buf@)
        } else {
            None
        }
    }
}

impl ReplySlot {
    /// The stored payload never exceeds the slot's capacity.
    pub closed spec fn wf(self) -> bool {
        self.buf@.len() <= REPLY_CAPACITY
    }

    /// A well-formed slot holds at most `REPLY_CAPACITY` bytes.
    pub proof fn lemma_wf_capacity(self)
        requires
            self.wf(),
        ensures
            self@ matches Some(p) ==> p.len() <= REPLY_CAPACITY,
    {
    }

    /// A fresh slot, created empty at boot.
    pub fn new() -> (s: ReplySlot)
        ensures
            s@ is None,
            s.wf(),
    {
        ReplySlot { occupied: false, buf: Vec::new() }
    }

    /// Publish a payload, replacing whatever was there before.
    pub fn publish(&mut self, payload: &[u8])
        requires
            old(self).wf(),
            payload@.len() <= REPLY_CAPACITY,
        ensures
            final(self).wf(),
            final(self)@ == slot_after_publish(old(self)@, payload@),
    {
        self.buf.clear();
        let mut i: usize = 0;
        while i < payload.len()
            invariant
                i <= payload@.len(),
                self.buf@ == payload@.subrange(0, i as int),
            decreases payload@.len() - i,
        {
            self.buf.push(payload[i]);
            i = i + 1;
        }
        self.occupied = true;
    }

    /// The current payload, if one has ever been published.
    pub fn read(&self) -> (r: Option<&Vec<u8>>)
        ensures
            (match r {
                Some(p) => self@ == Some(p@),
                None => self@ is None,
            }),
    {
        if self.occupied {
            Some(&self.buf)
        } else {
            None
        }
    }
}

} // verus!
