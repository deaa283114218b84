//! The per-connection receive buffer.

use vstd::prelude::*;

verus! {

/// Number of request bytes a connection keeps.
pub const BUFFER_CAPACITY: usize = 1024;

/// What `held` becomes when `chunk` arrives: the chunk is added behind what is
/// held, as far as the capacity reaches.
pub open spec fn appended(held: Seq<u8>, chunk: Seq<u8>) -> Seq<u8> {
    if held.len() + chunk.len() <= BUFFER_CAPACITY {
        held + chunk
    } else {
        held + chunk.take(BUFFER_CAPACITY - held.len())
    }
}

/// A byte buffer of fixed capacity with a write cursor. Its view is the bytes
/// before the cursor.
pub struct ConnectionBuffer {
    bytes: [u8; 1024],
    cursor: usize,
}

impl View for ConnectionBuffer {
    type V = Seq<u8>;

    closed spec fn view(&self) -> Seq<u8> {
        self.bytes@.take(self.cursor as int)
    }
}

impl ConnectionBuffer {
    #[verifier::type_invariant]
    spec fn within_capacity(self) -> bool {
        self.cursor <= BUFFER_CAPACITY
    }

    /// An empty buffer.
    pub fn new() -> (buffer: ConnectionBuffer)
        ensures
            buffer@ == Seq::<u8>::empty(),
    {
        let buffer = ConnectionBuffer { bytes: [0u8; 1024], cursor: 0 };
        assert(buffer@ =~= Seq::<u8>::empty());
        buffer
    }

    /// Number of bytes held.
    pub fn len(&self) -> (len: usize)
        ensures
            len == self@.len(),
            len <= BUFFER_CAPACITY,
    {
        proof {
            use_type_invariant(self);
        }
        self.cursor
    }

    /// Number of bytes that still fit.
    pub fn remaining(&self) -> (room: usize)
        ensures
            room == BUFFER_CAPACITY - self@.len(),
            self@.len() <= BUFFER_CAPACITY,
    {
        proof {
            use_type_invariant(self);
        }
        BUFFER_CAPACITY - self.cursor
    }

    /// Whether the buffer holds as many bytes as it can.
    pub fn is_full(&self) -> (full: bool)
        ensures
            full == (self@.len() == BUFFER_CAPACITY),
            self@.len() <= BUFFER_CAPACITY,
    {
        proof {
            use_type_invariant(self);
        }
        self.cursor == BUFFER_CAPACITY
    }

    /// The bytes held, oldest first.
    pub fn as_slice(&self) -> (held: &[u8])
        ensures
            held@ == self@,
    {
        proof {
            use_type_invariant(self);
        }
        let held = vstd::slice::slice_subrange(self.bytes.as_slice(), 0, self.cursor);
        assert(held@ =~= self@);
        held
    }

    /// Forgets what is held: the cursor goes back to the start.
    pub fn reset(&mut self)
        ensures
            final(self)@ == Seq::<u8>::empty(),
    {
        self.cursor = 0;
        assert(self@ =~= Seq::<u8>::empty());
    }

    /// Adds `chunk` at the cursor, as far as the capacity reaches, and returns
    /// how many of its bytes were taken.
    pub fn append(&mut self, chunk: &[u8]) -> (taken: usize)
        ensures
            final(self)@ == appended(old(self)@, chunk@),
            taken == final(self)@.len() - old(self)@.len(),
    {
        proof {
            use_type_invariant(&*self);
        }
        let room: usize = BUFFER_CAPACITY - self.cursor;
        let count: usize = if chunk.len() <= room {
            chunk.len()
        } else {
            room
        };
        let start: usize = self.cursor;
        let mut done: usize = 0;
        while done < count
            invariant
                done <= count,
                count <= chunk@.len(),
                start + count <= BUFFER_CAPACITY,
                self.cursor == start + done,
                self.bytes@.take(start as int) == old(self)@,
                self.bytes@.subrange(start as int, start + done) == chunk@.take(done as int),
            decreases count - done,
        {
            let ghost before = self.bytes@;
            self.bytes[start + done] = chunk[done];
            done = done + 1;
            self.cursor = start + done;
            assert(self.bytes@.take(start as int) =~= before.take(start as int));
            assert(self.bytes@.subrange(start as int, start + done) =~= chunk@.take(done as int));
        }
        assert(self@ =~= old(self)@ + chunk@.take(count as int));
        assert(chunk@.take(chunk@.len() as int) =~= chunk@);
        count
    }
}

} // verus!
