use vstd::prelude::*;

use crate::error::Chip8Error;

verus! {

/// Number of general-purpose registers.
pub const V_SIZE: usize = 16;

/// The register file: sixteen 8-bit general-purpose registers `V0..VF`, the
/// 16-bit index register `I` and the 16-bit program counter `PC`.
///
/// `I` and `PC` are unrestricted 16-bit values exposed directly; the cycle
/// engine is responsible for keeping `PC` within fetched-instruction bounds.
pub struct Registers {
    /// General-purpose registers (8-bit, x16).
    pub v: Vec<u8>,
    /// Memory address register (16-bit).
    pub i: u16,
    /// Program counter (16-bit).
    pub pc: u16,
}

impl Registers {
    pub open spec fn wf(&self) -> bool {
        self.v@.len() == V_SIZE
    }

    /// A fresh register file holds all-zero registers.
    pub fn new() -> (r: Registers)
        ensures
            r.wf(),
            r.v@ == Seq::new(V_SIZE as nat, |j: int| 0u8),
            r.i == 0,
            r.pc == 0,
    {
        let mut v: Vec<u8> = Vec::new();
        let mut k: usize = 0;
        while k < V_SIZE
            invariant
                k <= V_SIZE,
                v@.len() == k,
                forall|j: int| 0 <= j < k ==> v@[j] == 0u8,
            decreases V_SIZE - k,
        {
            v.push(0u8);
            k = k + 1;
        }
        proof {
            assert(v@ =~= Seq::new(V_SIZE as nat, |j: int| 0u8));
        }
        Registers { v, i: 0u16, pc: 0u16 }
    }

    /// Sets `Vx` to `value`, or fails with a register-index error for an
    /// index of 16 or more (defensive: the decoder itself only produces
    /// 4-bit indices).  A failing set leaves the register file unchanged.
    pub fn set_v(&mut self, x: usize, value: u8) -> (r: Result<(), Chip8Error>)
        requires
            old(self).wf(),
        ensures
            final(self).wf(),
            final(self).i == old(self).i,
            final(self).pc == old(self).pc,
            (match r {
                Ok(()) => x < V_SIZE && final(self).v@ == old(self).v@.update(x as int, value),
                Err(e) => x >= V_SIZE && e == Chip8Error::RegisterIndex
                    && final(self).v@ == old(self).v@,
            }),
    {
        if x >= V_SIZE {
            Err(Chip8Error::RegisterIndex)
        } else {
            self.v.set(x, value);
            Ok(())
        }
    }

    /// Returns the value of `Vx`, or fails with a register-index error for
    /// an index of 16 or more.
    pub fn get_v(&mut self, x: usize) -> (r: Result<u8, Chip8Error>)
        requires
            old(self).wf(),
        ensures
            *final(self) == *old(self),
            (match r {
                Ok(value) => x < V_SIZE && value == old(self).v@[x as int],
                Err(e) => x >= V_SIZE && e == Chip8Error::RegisterIndex,
            }),
    {
        if x >= V_SIZE {
            Err(Chip8Error::RegisterIndex)
        } else {
            Ok(self.v[x])
        }
    }
}

} // verus!
