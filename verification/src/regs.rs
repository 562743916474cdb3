//! A bare register file: the general-purpose registers and the program counter.

use vstd::prelude::*;

verus! {

/// The general-purpose registers and the program counter.
pub struct Regs {
    pub x: [u64; 32],
    pub pc: u64,
}

impl Regs {
    /// A register file with every register and the program counter zero.
    pub fn new() -> (r: Self)
        ensures
            r.x@ == Seq::new(32, |i: int| 0u64),
            r.pc == 0,
    {
        Regs { x: [0;32], pc: 0 }
    }

    /// Zeroes every register and the program counter, and hands the register
    /// file back.
    pub fn reset(&mut self) -> (r: &mut Self)
        ensures
            r.x@ == Seq::new(32, |i: int| 0u64),
            r.pc == 0,
            *final(self) == *final(r),
    {
        self.x = [0;32];
        self.pc = 0;
        self
    }
}

} // verus!
