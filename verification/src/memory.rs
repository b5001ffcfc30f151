use vstd::prelude::*;

use crate::error::TrapError;

verus! {

/// The memory `m` with the bytes starting at `ptr` replaced by `data` and
/// every byte outside `[ptr, ptr + data.len())` unchanged.
pub open spec fn spliced(m: Seq<u8>, ptr: int, data: Seq<u8>) -> Seq<u8> {
    m.take(ptr) + data + m.skip(ptr + data.len())
}

/// The guest's linear memory: a single contiguous, bounds-limited byte
/// region.  Host capability code reaches guest memory only through `read`
/// and `write`, which validate every (pointer, length) range; a range that
/// leaves the region fails with `OutOfBounds` and changes nothing.
pub struct GuestMemory {
    bytes: Vec<u8>,
}

impl View for GuestMemory {
    type V = Seq<u8>;

    closed spec fn view(&self) -> Seq<u8> {
        self.bytes@
    }
}

impl GuestMemory {
    /// A zero-filled memory of `size` bytes.
    pub fn new(size: usize) -> (m: GuestMemory)
        ensures
            m@.len() == size,
            forall|i: int| 0 <= i < size ==> m@[i] == 0u8,
    {
        let mut bytes: Vec<u8> = Vec::new();
        while bytes.len() < size
            invariant
                bytes@.len() <= size,
                forall|i: int| 0 <= i < bytes@.len() ==> bytes@[i] == 0u8,
            decreases size - bytes@.len(),
        {
            bytes.push(0u8);
        }
        GuestMemory { bytes }
    }

    /// A memory holding exactly the given bytes (for example a guest image).
    pub fn from_bytes(bytes: Vec<u8>) -> (m: GuestMemory)
        ensures
            m@ == bytes@,
    {
        GuestMemory { bytes }
    }

    /// The current memory size in bytes.
    pub fn size(&self) -> (n: usize)
        ensures
            n == self@.len(),
    {
        self.bytes.len()
    }

    /// Reads `len` bytes starting at `ptr`.
    pub fn read(&self, ptr: usize, len: usize) -> (r: Result<Vec<u8>, TrapError>)
        ensures
            ptr + len <= self@.len() ==> (r matches Ok(b) && b@ == self@.subrange(
                ptr as int,
                ptr + len,
            )),
            ptr + len > self@.len() ==> r == Err::<Vec<u8>, TrapError>(TrapError::OutOfBounds),
    {
        if len > self.bytes.len() || ptr > self.bytes.len() - len {
            return Err(TrapError::OutOfBounds);
        }
        let mut out: Vec<u8> = Vec::new();
        let mut i: usize = 0;
        while i < len
            invariant
                ptr + len <= self@.len(),
                ptr + len <= usize::MAX,
                i <= len,
                out@.len() == i,
                forall|j: int| 0 <= j < i ==> out@[j] == self@[ptr + j],
            decreases len - i,
        {
            out.push(self.bytes[ptr + i]);
            i = i + 1;
        }
        proof {
            assert(out@ =~= self@.subrange(ptr as int, ptr + len));
        }
        Ok(out)
    }

    /// Writes all of `data` starting at `ptr`.  On success the written range
    /// holds `data` and every byte outside it is unchanged.
    pub fn write(&mut self, ptr: usize, data: &[u8]) -> (r: Result<(), TrapError>)
        ensures
            ptr + data@.len() <= old(self)@.len() ==> (r == Ok::<(), TrapError>(())
                && final(self)@ == spliced(old(self)@, ptr as int, data@)),
            ptr + data@.len() > old(self)@.len() ==> (r == Err::<(), TrapError>(
                TrapError::OutOfBounds,
            ) && final(self)@ == old(self)@),
    {
        let n = data.len();
        if n > self.bytes.len() || ptr > self.bytes.len() - n {
            return Err(TrapError::OutOfBounds);
        }
        let mut i: usize = 0;
        while i < n
            invariant
                i <= n,
                n == data@.len(),
                ptr + n <= usize::MAX,
                ptr + n <= self.bytes@.len(),
                self.bytes@.len() == old(self)@.len(),
                forall|j: int| 0 <= j < i ==> self.bytes@[ptr + j] == data@[j],
                forall|j: int|
                    0 <= j < self.bytes@.len() && !(ptr <= j < ptr + i) ==> self.bytes@[j] == old(
                        self,
                    )@[j],
            decreases n - i,
        {
            self.bytes[ptr + i] = data[i];
            i = i + 1;
        }
        proof {
            assert(self@ =~= spliced(old(self)@, ptr as int, data@));
        }
        Ok(())
    }
}

} // verus!
