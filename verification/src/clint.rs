//! The core-local interruptor: a timer and its compare register.

use vstd::prelude::*;
use crate::alu::add_spec;
use crate::bus::CLINT_BASE;
use crate::exceptions::Exception;

verus! {

/// Offset of the compare register.
pub const CLINT_MTIMECMP: u64 = 0x4000;

/// Offset of the timer.
pub const CLINT_MTIME: u64 = 0xbff8;

/// The timer `mtime` and the value `mtimecmp` that it is compared with.
#[derive(Debug, Clone, Copy, PartialEq, Eq, Structural)]
pub struct Clint {
    pub mtime: u64,
    pub mtimecmp: u64,
}

impl Clint {
    /// What a load of `size` bits at offset `addr` returns: the two registers
    /// answer 64-bit loads, and every other load is an access fault at the bus
    /// address.
    pub open spec fn load_spec(self, addr: u64, size: u64) -> Result<u64, Exception> {
        if size == 64 && addr == CLINT_MTIME {
            Ok(self.mtime)
        } else if size == 64 && addr == CLINT_MTIMECMP {
            Ok(self.mtimecmp)
        } else {
            Err(Exception::LoadAccessFault(add_spec(addr, CLINT_BASE)))
        }
    }

    /// The device after a store, and what the store returns: the two registers
    /// take 64-bit stores, and every other store is an access fault at the bus
    /// address that changes nothing.
    pub open spec fn store_spec(self, addr: u64, val: u64, size: u64) -> (
        Clint,
        Result<(), Exception>,
    ) {
        if size == 64 && addr == CLINT_MTIME {
            (Clint { mtime: val, ..self }, Ok(()))
        } else if size == 64 && addr == CLINT_MTIMECMP {
            (Clint { mtimecmp: val, ..self }, Ok(()))
        } else {
            (self, Err(Exception::StoreAMOAccessFault(add_spec(addr, CLINT_BASE))))
        }
    }

    /// The timer interrupt line: asserted once the timer has reached a compare
    /// value that is not zero.
    pub open spec fn timer_pending(self) -> bool {
        self.mtimecmp != 0 && self.mtime >= self.mtimecmp
    }

    /// The device one tick later.
    pub open spec fn tick_spec(self) -> Clint {
        Clint { mtime: add_spec(self.mtime, 1), ..self }
    }

    pub fn new() -> (r: Self)
        ensures
            r == (Clint { mtime: 0, mtimecmp: 0 }),
    {
        Self { mtime: 0, mtimecmp: 0 }
    }

    pub fn reset(&mut self)
        ensures
            *final(self) == (Clint { mtime: 0, mtimecmp: 0 }),
    {
        self.mtime = 0;
        self.mtimecmp = 0;
    }

    pub fn load(&mut self, addr: u64, size: u64) -> (r: Result<u64, Exception>)
        ensures
            *final(self) == *old(self),
            r == old(self).load_spec(addr, size),
    {
        if size != 64 {
            return Err(Exception::LoadAccessFault(addr.wrapping_add(CLINT_BASE)));
        }
        match addr {
            CLINT_MTIME => Ok(self.mtime),
            CLINT_MTIMECMP => Ok(self.mtimecmp),
            _ => Err(Exception::LoadAccessFault(addr.wrapping_add(CLINT_BASE))),
        }
    }

    pub fn store(&mut self, addr: u64, val: u64, size: u64) -> (r: Result<(), Exception>)
        ensures
            (*final(self), r) == old(self).store_spec(addr, val, size),
    {
        if size != 64 {
            return Err(Exception::StoreAMOAccessFault(addr.wrapping_add(CLINT_BASE)));
        }
        match addr {
            CLINT_MTIME => {
                self.mtime = val;
                Ok(())
            },
            CLINT_MTIMECMP => {
                self.mtimecmp = val;
                Ok(())
            },
            _ => Err(Exception::StoreAMOAccessFault(addr.wrapping_add(CLINT_BASE))),
        }
    }

    /// Advances the timer by one.
    pub fn tick(&mut self)
        ensures
            *final(self) == old(self).tick_spec(),
    {
        self.mtime = self.mtime.wrapping_add(1);
    }

    /// Whether the timer interrupt line is asserted.
    pub fn is_interrupting(&self) -> (r: bool)
        ensures
            r == self.timer_pending(),
    {
        self.mtimecmp != 0 && self.mtime >= self.mtimecmp
    }
}

} // verus!
