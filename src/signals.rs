//! Queues of animation signals that a clip fired and the controller has not
//! consumed yet.

use vstd::prelude::*;

verus! {

/// Signal identifiers in the order the clip fired them.
pub struct EventQueue {
    events: Vec<u64>,
}

impl View for EventQueue {
    type V = Seq<u64>;

    closed spec fn view(&self) -> Seq<u64> {
        self.events@
    }
}

impl EventQueue {
    pub fn new() -> (q: EventQueue)
        ensures
            q@ == Seq::<u64>::empty(),
    {
        EventQueue { events: Vec::new() }
    }

    /// Records a signal fired by the clip.
    pub fn push(&mut self, signal: u64)
        ensures
            final(self)@ == old(self)@.push(signal),
    {
        self.events.push(signal);
    }

    /// Takes every pending signal, oldest first, and leaves the queue empty.
    pub fn drain(&mut self) -> (r: Vec<u64>)
        ensures
            r@ == old(self)@,
            final(self)@ == Seq::<u64>::empty(),
    {
        let mut taken: Vec<u64> = Vec::new();
        std::mem::swap(&mut taken, &mut self.events);
        taken
    }

    pub fn len(&self) -> (n: usize)
        ensures
            n == self@.len(),
    {
        self.events.len()
    }

    pub fn is_empty(&self) -> (b: bool)
        ensures
            b == (self@.len() == 0),
    {
        self.events.len() == 0
    }
}

} // verus!
