//! Byte streams that the host hands to a plugin to save and load its state.
use vstd::prelude::*;

verus! {

/// A stream that state is written to, as the host provides it.
pub trait OutputStream {
    /// Writes some leading part of `buffer`; the number of bytes written, or a
    /// negative number on error.
    fn write(&mut self, buffer: &[u8]) -> i64;
}

/// A stream that state is read from, as the host provides it.
pub trait InputStream {
    /// Reads into a leading part of `buffer`; the number of bytes read, 0 at
    /// the end of the stream, or a negative number on error.
    fn read(&mut self, buffer: &mut [u8]) -> i64;
}

/// A stream held in memory: what was written, and how much of it was read.
pub struct MemoryStream {
    data: Vec<u8>,
    position: usize,
}

impl View for MemoryStream {
    type V = (Seq<u8>, nat);

    closed spec fn view(&self) -> (Seq<u8>, nat) {
        (self.data@, self.position as nat)
    }
}

impl MemoryStream {
    /// The read position is within the data.
    pub open spec fn wf(&self) -> bool {
        self@.1 <= self@.0.len()
    }

    /// An empty stream.
    pub fn new() -> (r: MemoryStream)
        ensures
            r@ == (Seq::<u8>::empty(), 0nat),
            r.wf(),
    {
        MemoryStream { data: Vec::new(), position: 0 }
    }

    /// A stream that reads the given bytes from the start.
    pub fn from_bytes(data: Vec<u8>) -> (r: MemoryStream)
        ensures
            r@ == (data@, 0nat),
            r.wf(),
    {
        MemoryStream { data, position: 0 }
    }

    /// Everything written so far.
    pub fn contents(&self) -> (r: &[u8])
        ensures
            r@ == self@.0,
    {
        self.data.as_slice()
    }

    /// Appends all of `buffer`.
    pub fn append(&mut self, buffer: &[u8]) -> (r: usize)
        requires
            old(self).wf(),
        ensures
            final(self)@ == (old(self)@.0 + buffer@, old(self)@.1),
            final(self).wf(),
            r == buffer@.len(),
    {
        let mut i: usize = 0;
        let ghost start = self.data@;
        let ghost pos = self.position;
        while i < buffer.len()
            invariant
                i <= buffer@.len(),
                self.data@ == start + buffer@.take(i as int),
                self.position == pos,
                pos <= start.len(),
            decreases buffer@.len() - i,
        {
            self.data.push(buffer[i]);
            i = i + 1;
            assert(self.data@ =~= start + buffer@.take(i as int));
        }
        assert(buffer@.take(i as int) =~= buffer@);
        i
    }

    /// Copies the next unread bytes into `buffer`, as many as fit, and moves past them.
    pub fn take_into(&mut self, buffer: &mut [u8]) -> (r: usize)
        requires
            old(self).wf(),
        ensures
            r == vstd::math::min(old(buffer)@.len() as int, old(self)@.0.len() - old(self)@.1),
            final(self)@ == (old(self)@.0, (old(self)@.1 + r) as nat),
            final(self).wf(),
            final(buffer)@.len() == old(buffer)@.len(),
            final(buffer)@.take(r as int) == old(self)@.0.subrange(old(self)@.1 as int, old(self)@.1 + r),
            final(buffer)@.skip(r as int) == old(buffer)@.skip(r as int),
    {
        let available = self.data.len() - self.position;
        let n = if buffer.len() < available { buffer.len() } else { available };
        let mut i: usize = 0;
        let ghost before = buffer@;
        while i < n
            invariant
                i <= n,
                n <= buffer@.len(),
                buffer@.len() == before.len(),
                self.position + n <= self.data@.len(),
                self.data@.len() <= usize::MAX,
                forall|j: int| 0 <= j < i ==> buffer@[j] == self.data@[self.position + j],
                forall|j: int| i <= j < buffer@.len() ==> buffer@[j] == before[j],
            decreases n - i,
        {
            buffer[i] = self.data[self.position + i];
            i = i + 1;
        }
        assert(buffer@.take(n as int) =~= self.data@.subrange(self.position as int, self.position + n));
        assert(buffer@.skip(n as int) =~= before.skip(n as int));
        self.position = self.position + n;
        n
    }
}

impl OutputStream for MemoryStream {
    fn write(&mut self, buffer: &[u8]) -> i64 {
        if buffer.len() > i64::MAX as usize || !(self.position <= self.data.len()) {
            return -1;
        }
        self.append(buffer) as i64
    }
}

impl InputStream for MemoryStream {
    fn read(&mut self, buffer: &mut [u8]) -> i64 {
        if buffer.len() > i64::MAX as usize || !(self.position <= self.data.len()) {
            return -1;
        }
        self.take_into(buffer) as i64
    }
}

} // verus!
