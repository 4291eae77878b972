//! Input sources. Blocking reads are the program's own business; what the
//! library keeps is the queue behind an asynchronous reader: a background
//! reader pushes bytes as they arrive, and `read` takes what is there
//! without waiting.

use vstd::prelude::*;

verus! {

/// How many bytes an asynchronous reader holds before it drops new ones.
pub const ASYNC_QUEUE_CAPACITY: usize = 1024;

/// A bounded queue of input bytes, oldest first.
pub struct AsyncReader {
    pub queue: Vec<u8>,
    pub capacity: usize,
}

pub open spec fn min_of(a: int, b: int) -> int {
    if a <= b { a } else { b }
}

impl AsyncReader {
    pub open spec fn wf(&self) -> bool {
        self.queue@.len() <= self.capacity
    }

    /// An empty queue that holds at most `capacity` bytes.
    pub fn new(capacity: usize) -> (r: AsyncReader)
        ensures
            r.wf(),
            r.queue@.len() == 0,
            r.capacity == capacity,
    {
        AsyncReader { queue: Vec::new(), capacity }
    }

    /// The number of bytes waiting.
    pub fn len(&self) -> (r: usize)
        ensures
            r == self.queue@.len(),
    {
        self.queue.len()
    }

    /// Appends as many of `bytes` as there is room for; returns that number.
    pub fn push(&mut self, bytes: &[u8]) -> (n: usize)
        requires
            old(self).wf(),
        ensures
            final(self).wf(),
            n == min_of(bytes@.len() as int, old(self).capacity - old(self).queue@.len()),
            final(self).capacity == old(self).capacity,
            final(self).queue@ == old(self).queue@ + bytes@.subrange(0, n as int),
    {
        let room = self.capacity - self.queue.len();
        let n = if bytes.len() <= room { bytes.len() } else { room };
        let ghost start = self.queue@;
        let mut i: usize = 0;
        while i < n
            invariant
                i <= n <= bytes@.len(),
                n <= self.capacity - start.len(),
                self.capacity == old(self).capacity,
                start == old(self).queue@,
                self.queue@ == start + bytes@.subrange(0, i as int),
            decreases n - i,
        {
            self.queue.push(bytes[i]);
            i = i + 1;
            assert(self.queue@ =~= start + bytes@.subrange(0, i as int));
        }
        n
    }

    /// Moves the oldest waiting bytes into the front of `buf`, as many as
    /// fit, and returns their number. Never waits: with nothing queued it
    /// returns 0 and leaves `buf` alone.
    pub fn read(&mut self, buf: &mut Vec<u8>) -> (n: usize)
        requires
            old(self).wf(),
        ensures
            final(self).wf(),
            n == min_of(old(buf)@.len() as int, old(self).queue@.len() as int),
            final(self).capacity == old(self).capacity,
            final(self).queue@ == old(self).queue@.subrange(n as int, old(self).queue@.len() as int),
            final(buf)@ == old(self).queue@.subrange(0, n as int) + old(buf)@.subrange(n as int, old(buf)@.len() as int),
    {
        let n = if buf.len() <= self.queue.len() { buf.len() } else { self.queue.len() };
        let ghost b0 = buf@;
        let mut i: usize = 0;
        while i < n
            invariant
                i <= n <= buf@.len(),
                n <= self.queue@.len(),
                buf@.len() == b0.len(),
                self.queue@ == old(self).queue@,
                self.capacity == old(self).capacity,
                forall|j: int| 0 <= j < b0.len() ==> buf@[j] == (if j < i { self.queue@[j] } else { b0[j] }),
            decreases n - i,
        {
            buf.set(i, self.queue[i]);
            i = i + 1;
        }
        let mut rest: Vec<u8> = Vec::new();
        let mut k: usize = n;
        while k < self.queue.len()
            invariant
                n <= k <= self.queue@.len(),
                self.queue@ == old(self).queue@,
                rest@ == self.queue@.subrange(n as int, k as int),
            decreases self.queue@.len() - k,
        {
            rest.push(self.queue[k]);
            k = k + 1;
            assert(rest@ =~= self.queue@.subrange(n as int, k as int));
        }
        self.queue = rest;
        assert(buf@ =~= old(self).queue@.subrange(0, n as int) + b0.subrange(n as int, b0.len() as int));
        n
    }
}

/// The input source of a terminal that reads standard input.
pub struct UnixInput {}

impl UnixInput {
    pub fn new() -> (r: UnixInput) {
        UnixInput {}
    }

    /// A reader whose queue a background reader fills; it starts empty.
    pub fn read_async(&self) -> (r: AsyncReader)
        ensures
            r.wf(),
            r.queue@.len() == 0,
            r.capacity == ASYNC_QUEUE_CAPACITY,
    {
        AsyncReader::new(ASYNC_QUEUE_CAPACITY)
    }
}

} // verus!
