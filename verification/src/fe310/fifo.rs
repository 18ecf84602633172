//! The eight-entry byte queue that stands between a UART register and its
//! shift register.

use vstd::prelude::*;

verus! {

/// The number of bytes that a UART FIFO holds.
pub const UART_FIFO_DEPTH: usize = 8;

/// A first-in first-out queue of at most eight bytes. Its view is the queue's
/// content, oldest byte first.
pub struct Fifo {
    slots: [u8; 8],
    len: usize,
}

impl View for Fifo {
    type V = Seq<u8>;

    closed spec fn view(&self) -> Seq<u8> {
        self.slots@.take(self.len as int)
    }
}

impl Fifo {
    #[verifier::type_invariant]
    spec fn inv(&self) -> bool {
        self.len <= UART_FIFO_DEPTH
    }

    /// The empty queue.
    pub fn new() -> (fifo: Fifo)
        ensures
            fifo@ == Seq::<u8>::empty(),
    {
        let fifo = Fifo { slots: [0u8;8], len: 0 };
        assert(fifo@ =~= Seq::<u8>::empty());
        fifo
    }

    /// The number of bytes queued, never more than eight.
    pub fn len(&self) -> (n: usize)
        ensures
            n == self@.len(),
            n <= UART_FIFO_DEPTH,
    {
        proof {
            use_type_invariant(self);
        }
        self.len
    }

    /// Whether the queue has no room left.
    pub fn is_full(&self) -> (full: bool)
        ensures
            full == (self@.len() == UART_FIFO_DEPTH),
            self@.len() <= UART_FIFO_DEPTH,
    {
        proof {
            use_type_invariant(self);
        }
        self.len == UART_FIFO_DEPTH
    }

    /// Whether the queue holds nothing.
    pub fn is_empty(&self) -> (empty: bool)
        ensures
            empty == (self@.len() == 0),
    {
        proof {
            use_type_invariant(self);
        }
        self.len == 0
    }

    /// Queues `byte` behind the bytes already there. A full queue takes
    /// nothing: the byte is dropped and the content stays as it was.
    pub fn push(&mut self, byte: u8) -> (taken: bool)
        ensures
            taken == (old(self)@.len() < UART_FIFO_DEPTH),
            taken ==> final(self)@ == old(self)@.push(byte),
            !taken ==> final(self)@ == old(self)@,
            final(self)@.len() <= UART_FIFO_DEPTH,
    {
        proof {
            use_type_invariant(&*self);
        }
        if self.len == UART_FIFO_DEPTH {
            return false;
        }
        self.slots[self.len] = byte;
        self.len = self.len + 1;
        assert(self@ =~= old(self)@.push(byte));
        true
    }

    /// Takes the oldest byte off the queue, if there is one.
    pub fn pop(&mut self) -> (front: Option<u8>)
        ensures
            old(self)@.len() == 0 ==> front is None && final(self)@ == old(self)@,
            old(self)@.len() > 0 ==> front == Some(old(self)@[0]) && final(self)@ == old(
                self,
            )@.drop_first(),
    {
        proof {
            use_type_invariant(&*self);
        }
        if self.len == 0 {
            return None;
        }
        let front = self.slots[0];
        let mut i: usize = 0;
        while i + 1 < self.len
            invariant
                self.len == old(self).len,
                1 <= self.len <= UART_FIFO_DEPTH,
                i < self.len,
                forall|k: int| 0 <= k < i ==> self.slots@[k] == old(self).slots@[k + 1],
                forall|k: int| i <= k < 8 ==> self.slots@[k] == old(self).slots@[k],
            decreases self.len - i,
        {
            self.slots[i] = self.slots[i + 1];
            i += 1;
        }
        self.len = self.len - 1;
        assert(self@ =~= old(self)@.drop_first());
        Some(front)
    }
}

} // verus!
