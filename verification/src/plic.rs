//! The platform-level interrupt controller: four 32-bit registers.

use vstd::prelude::*;
use crate::alu::{add_spec, low32, low_word};
use crate::bus::PLIC_BASE;
use crate::exceptions::Exception;

verus! {

pub const PLIC_PENDING: u64 = 0x1000;
pub const PLIC_SENABLE: u64 = 0x2000;
pub const PLIC_SPRIORITY: u64 = 0x20_1000;
pub const PLIC_SCLAIM: u64 = 0x20_1004;

/// The controller's registers.
#[derive(Debug, Clone, Copy, PartialEq, Eq, Structural)]
pub struct Plic {
    pub pending: u32,
    pub senable: u32,
    pub spriority: u32,
    pub sclaim: u32,
}

/// The pending register after the interrupt `id` is claimed: its bit is
/// cleared. An id that names no bit of the register clears none.
pub open spec fn clear_pending(pending: u32, id: u32) -> u32 {
    if id < 32 {
        pending & !(1u32 << id)
    } else {
        pending
    }
}

impl Plic {
    /// The state after reset: every register zero.
    pub open spec fn initial() -> Plic {
        Plic { pending: 0, senable: 0, spriority: 0, sclaim: 0 }
    }

    /// The device after a load of `size` bits at offset `addr`, and what the
    /// load returns.
    ///
    /// Only 32-bit loads are answered; any other is an access fault at the bus
    /// address. A load of the claim register returns the interrupt it holds and
    /// clears that interrupt's pending bit. An offset that names no register
    /// reads as zero.
    pub open spec fn load_spec(self, addr: u64, size: u64) -> (Plic, Result<u64, Exception>) {
        if size != 32 {
            (self, Err(Exception::LoadAccessFault(add_spec(addr, PLIC_BASE))))
        } else if addr == PLIC_PENDING {
            (self, Ok(self.pending as u64))
        } else if addr == PLIC_SENABLE {
            (self, Ok(self.senable as u64))
        } else if addr == PLIC_SPRIORITY {
            (self, Ok(self.spriority as u64))
        } else if addr == PLIC_SCLAIM {
            (
                Plic { pending: clear_pending(self.pending, self.sclaim), ..self },
                Ok(self.sclaim as u64),
            )
        } else {
            (self, Ok(0))
        }
    }

    /// The device after a store of the low `size` bits of `val` at offset
    /// `addr`, and what the store returns.
    ///
    /// Only 32-bit stores are taken; any other is an access fault at the bus
    /// address that changes nothing. A store to the claim register completes the
    /// interrupt by recording its id there. An offset that names no register
    /// ignores the store.
    pub open spec fn store_spec(self, addr: u64, val: u64, size: u64) -> (
        Plic,
        Result<(), Exception>,
    ) {
        if size != 32 {
            (self, Err(Exception::StoreAMOAccessFault(add_spec(addr, PLIC_BASE))))
        } else if addr == PLIC_PENDING {
            (Plic { pending: low32(val), ..self }, Ok(()))
        } else if addr == PLIC_SENABLE {
            (Plic { senable: low32(val), ..self }, Ok(()))
        } else if addr == PLIC_SPRIORITY {
            (Plic { spriority: low32(val), ..self }, Ok(()))
        } else if addr == PLIC_SCLAIM {
            (Plic { sclaim: low32(val), ..self }, Ok(()))
        } else {
            (self, Ok(()))
        }
    }

    pub fn new() -> (r: Self)
        ensures
            r == Plic::initial(),
    {
        Self { pending: 0, senable: 0, spriority: 0, sclaim: 0 }
    }

    pub fn reset(&mut self)
        ensures
            *final(self) == Plic::initial(),
    {
        self.pending = 0;
        self.senable = 0;
        self.spriority = 0;
        self.sclaim = 0;
    }

    pub fn load(&mut self, addr: u64, size: u64) -> (r: Result<u64, Exception>)
        ensures
            (*final(self), r) == old(self).load_spec(addr, size),
    {
        if size != 32 {
            return Err(Exception::LoadAccessFault(addr.wrapping_add(PLIC_BASE)));
        }
        match addr {
            PLIC_PENDING => Ok(self.pending as u64),
            PLIC_SENABLE => Ok(self.senable as u64),
            PLIC_SPRIORITY => Ok(self.spriority as u64),
            PLIC_SCLAIM => {
                let id = self.sclaim;
                if id < 32 {
                    self.pending = self.pending & !(1u32 << id);
                }
                Ok(id as u64)
            },
            _ => Ok(0),
        }
    }

    pub fn store(&mut self, addr: u64, val: u64, size: u64) -> (r: Result<(), Exception>)
        ensures
            (*final(self), r) == old(self).store_spec(addr, val, size),
    {
        if size != 32 {
            return Err(Exception::StoreAMOAccessFault(addr.wrapping_add(PLIC_BASE)));
        }
        let value = low_word(val);
        match addr {
            PLIC_PENDING => {
                self.pending = value;
            },
            PLIC_SENABLE => {
                self.senable = value;
            },
            PLIC_SPRIORITY => {
                self.spriority = value;
            },
            PLIC_SCLAIM => {
                self.sclaim = value;
            },
            _ => {},
        }
        Ok(())
    }
}

} // verus!
