use vstd::prelude::*;

verus! {

/// A single-slot hand-off of one byte: a new byte replaces any byte that
/// was not taken yet, and taking empties the slot.
#[derive(Debug)]
pub struct Mailbox {
    slot: Option<u8>,
}

impl View for Mailbox {
    type V = Option<u8>;

    closed spec fn view(&self) -> Option<u8> {
        self.slot
    }
}

/// The slot after `b` is published.
pub open spec fn after_publish(slot: Option<u8>, b: u8) -> Option<u8> {
    Some(b)
}

/// What a take returns from `slot`.
pub open spec fn taken(slot: Option<u8>) -> Option<u8> {
    slot
}

/// The slot after a take.
pub open spec fn after_take(slot: Option<u8>) -> Option<u8> {
    None
}

impl Mailbox {
    /// An empty mailbox.
    pub fn new() -> (r: Mailbox)
        ensures
            r@ == None::<u8>,
    {
        Mailbox { slot: None }
    }

    /// Leaves `b` in the slot, replacing any byte not taken yet.
    pub fn publish(&mut self, b: u8)
        ensures
            final(self)@ == after_publish(old(self)@, b),
    {
        self.slot = Some(b);
    }

    /// Returns the pending byte, if any, and empties the slot.
    pub fn take(&mut self) -> (r: Option<u8>)
        ensures
            r == taken(old(self)@),
            final(self)@ == after_take(old(self)@),
    {
        let r = self.slot;
        self.slot = None;
        r
    }

    /// Whether a byte is waiting.
    pub fn is_pending(&self) -> (r: bool)
        ensures
            r == self@.is_some(),
    {
        self.slot.is_some()
    }
}

/// Of two takes with no publish between them, after a byte was published,
/// the first returns that byte and the second returns nothing. Only the
/// newest of several publishes is ever seen.
pub proof fn lemma_take_twice(slot: Option<u8>, b: u8)
    ensures
        taken(after_publish(slot, b)) == Some(b),
        taken(after_take(after_publish(slot, b))) == None::<u8>,
        forall|c: u8| taken(after_publish(after_publish(slot, c), b)) == Some(b),
{
}

} // verus!
