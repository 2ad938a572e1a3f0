//! The host's side of the boundary: a log sink that records what it receives.
use vstd::prelude::*;

use crate::memory::{region_bytes, region_ok, GuestMemory, MarshalError};

verus! {

/// The host's log sink. It keeps every message it received, in order of
/// arrival; it stands in for a real host and can be inspected afterwards.
pub struct HostLog {
    messages: Vec<Vec<u8>>,
}

impl View for HostLog {
    type V = Seq<Seq<u8>>;

    closed spec fn view(&self) -> Seq<Seq<u8>> {
        self.messages@.map_values(|m: Vec<u8>| m@)
    }
}

impl HostLog {
    /// A sink that has received nothing.
    pub fn new() -> (r: HostLog)
        ensures
            r@ == Seq::<Seq<u8>>::empty(),
    {
        let r = HostLog { messages: Vec::new() };
        assert(r@ =~= Seq::<Seq<u8>>::empty());
        r
    }

    /// Delivers one message: the sink receives exactly its bytes, after all
    /// the messages delivered before it. The call returns once the message is
    /// recorded.
    pub fn log(&mut self, message: &[u8])
        ensures
            final(self)@ == old(self)@.push(message@),
    {
        let copy = vstd::slice::slice_to_vec(message);
        self.messages.push(copy);
        assert(final(self)@ =~= old(self)@.push(message@));
    }

    /// The `log(address, length)` import: delivers the bytes of a region of
    /// guest memory. An invalid region is refused and nothing is delivered.
    pub fn log_region(&mut self, mem: &GuestMemory, address: usize, length: usize) -> (r: Result<(), MarshalError>)
        ensures
            r is Ok <==> region_ok(mem@, address as int, length as int),
            r is Ok ==> final(self)@ == old(self)@.push(region_bytes(mem@, address as int, length as int)),
            r is Err ==> r == Err::<(), MarshalError>(MarshalError::InvalidRegion) && final(self)@ == old(self)@,
    {
        match mem.view_bytes(address, length) {
            Ok(view) => {
                self.log(view.as_slice());
                Ok(())
            },
            Err(e) => Err(e),
        }
    }

    /// How many messages the sink has received.
    pub fn message_count(&self) -> (r: usize)
        ensures
            r == self@.len(),
    {
        self.messages.len()
    }

    /// The `i`-th message received, counting from 0.
    pub fn message(&self, i: usize) -> (r: &[u8])
        requires
            i < self@.len(),
        ensures
            r@ == self@[i as int],
    {
        self.messages[i].as_slice()
    }
}

/// Two messages logged one after the other are received in that order, right
/// after everything received before them.
pub proof fn lemma_log_order(received: Seq<Seq<u8>>, first: Seq<u8>, second: Seq<u8>)
    ensures
        received.push(first).push(second) == received + seq![first, second],
        received.push(first).push(second)[received.len() as int] == first,
        received.push(first).push(second)[received.len() + 1int] == second,
{
    assert(received.push(first).push(second) =~= received + seq![first, second]);
}

} // verus!
