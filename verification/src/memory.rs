use vstd::prelude::*;

use crate::error::Chip8Error;

verus! {

/// Number of bytes in the address space.
pub const MEMORY_SIZE: usize = 4096;

/// Replaces `data.len()` bytes of `s` starting at `at` with `data`, leaving
/// every byte outside that range unchanged.
pub open spec fn splice(s: Seq<u8>, at: int, data: Seq<u8>) -> Seq<u8>
    recommends
        0 <= at,
        at + data.len() <= s.len(),
{
    Seq::new(
        s.len(),
        |j: int|
            if at <= j < at + data.len() {
                data[j - at]
            } else {
                s[j]
            },
    )
}

/// The flat byte-addressable address space: 4096 bytes, every access
/// bounds-checked.
pub struct Memory(pub Vec<u8>);

impl View for Memory {
    type V = Seq<u8>;

    open spec fn view(&self) -> Seq<u8> {
        self.0@
    }
}

impl Memory {
    pub open spec fn wf(&self) -> bool {
        self@.len() == MEMORY_SIZE
    }

    /// A fresh memory holds 4096 zero bytes.
    pub fn new() -> (m: Memory)
        ensures
            m.wf(),
            m@ == Seq::new(MEMORY_SIZE as nat, |j: int| 0u8),
    {
        let mut data: Vec<u8> = Vec::new();
        let mut k: usize = 0;
        while k < MEMORY_SIZE
            invariant
                k <= MEMORY_SIZE,
                data@.len() == k,
                forall|j: int| 0 <= j < k ==> data@[j] == 0u8,
            decreases MEMORY_SIZE - k,
        {
            data.push(0u8);
            k = k + 1;
        }
        proof {
            assert(data@ =~= Seq::new(MEMORY_SIZE as nat, |j: int| 0u8));
        }
        Memory(data)
    }

    /// Returns a copy of the `size` bytes starting at `addr`, or fails with
    /// an address-range error when the range reaches past the address space.
    /// The memory itself is never changed.
    pub fn read(&self, addr: usize, size: usize) -> (r: Result<Vec<u8>, Chip8Error>)
        requires
            self.wf(),
        ensures
            (match r {
                Ok(bytes) => addr + size <= MEMORY_SIZE
                    && bytes@ == self@.subrange(addr as int, addr + size),
                Err(e) => addr + size > MEMORY_SIZE && e == Chip8Error::AddressRange,
            }),
    {
        if addr > MEMORY_SIZE || size > MEMORY_SIZE - addr {
            return Err(Chip8Error::AddressRange);
        }
        let mut out: Vec<u8> = Vec::new();
        let mut k: usize = 0;
        while k < size
            invariant
                k <= size,
                addr + size <= MEMORY_SIZE,
                self.wf(),
                out@ == self@.subrange(addr as int, addr + k),
            decreases size - k,
        {
            out.push(self.0[addr + k]);
            k = k + 1;
            proof {
                assert(out@ =~= self@.subrange(addr as int, addr + k));
            }
        }
        Ok(out)
    }

    /// Overwrites the bytes starting at `addr` with `data`, or fails with an
    /// address-range error when the range reaches past the address space; a
    /// failing store leaves the memory unmodified.
    pub fn store(&mut self, addr: usize, data: &[u8]) -> (r: Result<(), Chip8Error>)
        requires
            old(self).wf(),
        ensures
            final(self).wf(),
            (match r {
                Ok(()) => addr + data@.len() <= MEMORY_SIZE
                    && final(self)@ == splice(old(self)@, addr as int, data@),
                Err(e) => addr + data@.len() > MEMORY_SIZE
                    && e == Chip8Error::AddressRange
                    && final(self)@ == old(self)@,
            }),
    {
        let size: usize = data.len();
        if addr > MEMORY_SIZE || size > MEMORY_SIZE - addr {
            return Err(Chip8Error::AddressRange);
        }
        let mut k: usize = 0;
        while k < size
            invariant
                k <= size,
                size == data@.len(),
                addr + size <= MEMORY_SIZE,
                self.wf(),
                self@ == splice(old(self)@, addr as int, data@.subrange(0, k as int)),
            decreases size - k,
        {
            self.0.set(addr + k, data[k]);
            k = k + 1;
            proof {
                assert(self@ =~= splice(old(self)@, addr as int, data@.subrange(0, k as int)));
            }
        }
        proof {
            assert(data@.subrange(0, size as int) =~= data@);
        }
        Ok(())
    }
}

/// Round trip: writing a byte range and then reading back the same range
/// returns exactly the bytes that were written.
pub proof fn lemma_write_read_roundtrip(mem: Seq<u8>, addr: int, data: Seq<u8>)
    requires
        mem.len() == MEMORY_SIZE,
        0 <= addr,
        addr + data.len() <= MEMORY_SIZE,
    ensures
        splice(mem, addr, data).subrange(addr, addr + data.len()) == data,
{
    assert(splice(mem, addr, data).subrange(addr, addr + data.len()) =~= data);
}

} // verus!
