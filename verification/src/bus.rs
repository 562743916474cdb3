//! The memory bus: routes an address to guest memory or to the device whose
//! region holds it.

use vstd::prelude::*;
use crate::clint::Clint;
use crate::exceptions::Exception;
use crate::plic::Plic;
use crate::ram::{access_ok, le_read, le_write, lemma_store_then_load, size_mask};
use crate::uart::{Uart, UartView};

verus! {

/// The first address of guest memory.
pub const RAM_BASE: u64 = 0x8000_0000;

/// The first address of the interrupt controller.
pub const PLIC_BASE: u64 = 0xc00_0000;

pub const PLIC_SIZE: u64 = 0x400_0000;

/// The address after the last of the interrupt controller.
pub const PLIC_END: u64 = 0x1000_0000;

/// The first address of the core-local interruptor.
pub const CLINT_BASE: u64 = 0x200_0000;

pub const CLINT_SIZE: u64 = 0x1_0000;

/// The address after the last of the core-local interruptor.
pub const CLINT_END: u64 = 0x201_0000;

/// The first address of the serial port.
pub const UART_BASE: u64 = 0x1000_0000;

pub const UART_SIZE: u64 = 0x100;

/// The address after the last of the serial port.
pub const UART_END: u64 = 0x1000_0100;

/// The backing store for guest memory, supplied by the host.
///
/// The store is a sequence of bytes. Every sized access is little-endian, and an
/// access that does not lie within the store is refused with an access fault at
/// the offset and leaves the store as it was.
pub trait MemIntf {
    /// The bytes that the store holds.
    spec fn bytes(&self) -> Seq<u8>;

    /// Sets every byte to zero and keeps the length.
    fn reset(&mut self)
        ensures
            final(self).bytes() == Seq::new(old(self).bytes().len(), |i: int| 0u8),
    ;

    /// Reads `size` bits at offset `addr`.
    fn load(&mut self, addr: u64, size: u64) -> (r: Result<u64, Exception>)
        ensures
            final(self).bytes() == old(self).bytes(),
            r is Ok <==> access_ok(old(self).bytes().len(), addr, size),
            r is Ok ==> r->Ok_0 == le_read(old(self).bytes(), addr as int, size),
            r is Err ==> r->Err_0 == Exception::LoadAccessFault(addr),
    ;

    /// Writes the low `size` bits of `val` at offset `addr`.
    fn store(&mut self, addr: u64, val: u64, size: u64) -> (r: Result<(), Exception>)
        ensures
            r is Ok <==> access_ok(old(self).bytes().len(), addr, size),
            r is Ok ==> final(self).bytes() == le_write(old(self).bytes(), addr as int, val, size),
            r is Err ==> final(self).bytes() == old(self).bytes(),
            r is Err ==> r->Err_0 == Exception::StoreAMOAccessFault(addr),
    ;
}

/// The regions of the address map.
#[derive(Debug, Clone, Copy, PartialEq, Eq, Structural)]
pub enum Region {
    Ram,
    Plic,
    Clint,
    Uart,
}

/// The region that holds an address: each region runs from its base up to, not
/// including, its end, and guest memory from its base up to the top of the
/// address space.
pub open spec fn region_of(addr: u64) -> Option<Region> {
    if addr >= RAM_BASE {
        Some(Region::Ram)
    } else if PLIC_BASE <= addr < PLIC_END {
        Some(Region::Plic)
    } else if CLINT_BASE <= addr < CLINT_END {
        Some(Region::Clint)
    } else if UART_BASE <= addr < UART_END {
        Some(Region::Uart)
    } else {
        None
    }
}

/// The bus with guest memory and the three devices.
pub struct Bus<M: MemIntf> {
    pub ram: M,
    /// The number of bytes of guest memory that are mapped at `RAM_BASE`.
    pub ram_size: u64,
    pub plic: Plic,
    pub clint: Clint,
    pub uart: Uart,
}

/// The state of the bus: the bytes of guest memory and the state of each
/// device.
#[verifier::ext_equal]
pub struct BusView {
    pub ram: Seq<u8>,
    pub ram_size: u64,
    pub plic: Plic,
    pub clint: Clint,
    pub uart: UartView,
}

impl<M: MemIntf> View for Bus<M> {
    type V = BusView;

    open spec fn view(&self) -> BusView {
        BusView {
            ram: self.ram.bytes(),
            ram_size: self.ram_size,
            plic: self.plic,
            clint: self.clint,
            uart: self.uart@,
        }
    }
}

impl BusView {
    /// An access of `size` bits at `addr` lies within mapped guest memory: within
    /// the mapped length and within the bytes that the store holds.
    pub open spec fn ram_access_ok(self, addr: u64, size: u64) -> bool {
        &&& addr >= RAM_BASE
        &&& addr - RAM_BASE + size / 8 <= self.ram_size
        &&& access_ok(self.ram.len(), (addr - RAM_BASE) as u64, size)
    }

    /// An access of `size` bits at `addr` ends within the region that ends at
    /// `end`.
    pub open spec fn fits(addr: u64, size: u64, end: u64) -> bool {
        addr + size / 8 <= end
    }

    /// The bus after a load of `size` bits at `addr`, and what the load returns.
    ///
    /// The region that holds the address answers, at the offset from its base,
    /// where the access lies within it. Every refusal, by the bus or by a device,
    /// is a load access fault at `addr`.
    pub open spec fn load_spec(self, addr: u64, size: u64) -> (BusView, Result<u64, Exception>) {
        let fault = (self, Err::<u64, Exception>(Exception::LoadAccessFault(addr)));
        match region_of(addr) {
            Some(Region::Ram) => if self.ram_access_ok(addr, size) {
                (self, Ok(le_read(self.ram, addr - RAM_BASE, size)))
            } else {
                fault
            },
            Some(Region::Plic) => if Self::fits(addr, size, PLIC_END) {
                let (plic, r) = self.plic.load_spec((addr - PLIC_BASE) as u64, size);
                (BusView { plic, ..self }, r)
            } else {
                fault
            },
            Some(Region::Clint) => if Self::fits(addr, size, CLINT_END) {
                (self, self.clint.load_spec((addr - CLINT_BASE) as u64, size))
            } else {
                fault
            },
            Some(Region::Uart) => if Self::fits(addr, size, UART_END) {
                let (uart, r) = self.uart.load_spec((addr - UART_BASE) as u64, size);
                (BusView { uart, ..self }, r)
            } else {
                fault
            },
            None => fault,
        }
    }

    /// The bus after a store of the low `size` bits of `val` at `addr`, and what
    /// the store returns.
    ///
    /// The region that holds the address takes the store, at the offset from its
    /// base, where the access lies within it. Every refusal, by the bus or by a
    /// device, is a store access fault at `addr` and changes nothing.
    pub open spec fn store_spec(self, addr: u64, val: u64, size: u64) -> (
        BusView,
        Result<(), Exception>,
    ) {
        let fault = (self, Err::<(), Exception>(Exception::StoreAMOAccessFault(addr)));
        match region_of(addr) {
            Some(Region::Ram) => if self.ram_access_ok(addr, size) {
                (BusView { ram: le_write(self.ram, addr - RAM_BASE, val, size), ..self }, Ok(()))
            } else {
                fault
            },
            Some(Region::Plic) => if Self::fits(addr, size, PLIC_END) {
                let (plic, r) = self.plic.store_spec((addr - PLIC_BASE) as u64, val, size);
                (BusView { plic, ..self }, r)
            } else {
                fault
            },
            Some(Region::Clint) => if Self::fits(addr, size, CLINT_END) {
                let (clint, r) = self.clint.store_spec((addr - CLINT_BASE) as u64, val, size);
                (BusView { clint, ..self }, r)
            } else {
                fault
            },
            Some(Region::Uart) => if Self::fits(addr, size, UART_END) {
                let (uart, r) = self.uart.store_spec((addr - UART_BASE) as u64, val, size);
                (BusView { uart, ..self }, r)
            } else {
                fault
            },
            None => fault,
        }
    }

    /// The bus after reset: memory zeroed, every device in its reset state.
    pub open spec fn reset_spec(self) -> BusView {
        BusView {
            ram: Seq::new(self.ram.len(), |i: int| 0u8),
            ram_size: self.ram_size,
            plic: Plic::initial(),
            clint: Clint { mtime: 0, mtimecmp: 0 },
            uart: UartView::initial(),
        }
    }
}

/// A load that fails is a load access fault at the address of the load, and
/// leaves the bus as it was; a load outside every region fails.
pub proof fn lemma_load_fault(b: BusView, addr: u64, size: u64)
    ensures
        b.load_spec(addr, size).1 is Err ==> b.load_spec(addr, size) == (
            b,
            Err::<u64, Exception>(Exception::LoadAccessFault(addr)),
        ),
        region_of(addr) is None ==> b.load_spec(addr, size).1 is Err,
{
}

/// A store that fails is a store access fault at the address of the store, and
/// leaves the bus as it was; a store outside every region fails.
pub proof fn lemma_store_fault(b: BusView, addr: u64, val: u64, size: u64)
    ensures
        b.store_spec(addr, val, size).1 is Err ==> b.store_spec(addr, val, size) == (
            b,
            Err::<(), Exception>(Exception::StoreAMOAccessFault(addr)),
        ),
        region_of(addr) is None ==> b.store_spec(addr, val, size).1 is Err,
{
}

/// A value stored to guest memory and loaded again at the same address and
/// width comes back with the bits that the width carries.
pub proof fn lemma_ram_store_then_load(b: BusView, addr: u64, val: u64, size: u64)
    requires
        b.ram_access_ok(addr, size),
    ensures
        b.store_spec(addr, val, size).1 is Ok,
        b.store_spec(addr, val, size).0.load_spec(addr, size).1 == Ok::<u64, Exception>(
            val & size_mask(size),
        ),
{
    lemma_store_then_load(b.ram, (addr - RAM_BASE) as u64, val, size);
}

impl<M: MemIntf> Bus<M> {
    /// A bus over the given store, of which `ram_size` bytes are mapped, with
    /// every device in its reset state.
    pub fn new(ram: M, ram_size: u64) -> (r: Self)
        ensures
            r@.ram == ram.bytes(),
            r@.ram_size == ram_size,
            r@.plic == Plic::initial(),
            r@.clint == (Clint { mtime: 0, mtimecmp: 0 }),
            r@.uart == UartView::initial(),
            r@.uart.wf(),
    {
        Bus { ram, ram_size, plic: Plic::new(), clint: Clint::new(), uart: Uart::new() }
    }

    pub fn reset(&mut self)
        ensures
            final(self)@ == old(self)@.reset_spec(),
            final(self)@.uart.wf(),
    {
        self.ram.reset();
        self.plic.reset();
        self.clint.reset();
        self.uart.reset();
    }

    /// Whether an access of `size` bits at `addr` ends at or before `end`.
    fn fits(addr: u64, size: u64, end: u64) -> (r: bool)
        requires
            addr < end,
        ensures
            r == BusView::fits(addr, size, end),
    {
        end - addr >= size / 8
    }

    /// Loads `size` bits at `addr`.
    pub fn load(&mut self, addr: u64, size: u64) -> (r: Result<u64, Exception>)
        ensures
            (final(self)@, r) == old(self)@.load_spec(addr, size),
            r is Err ==> r == Err::<u64, Exception>(Exception::LoadAccessFault(addr))
                && final(self)@ == old(self)@,
            region_of(addr) is None ==> r is Err,
            old(self)@.uart.wf() ==> final(self)@.uart.wf(),
    {
        let fault = Err(Exception::LoadAccessFault(addr));
        if addr >= RAM_BASE {
            let offset = addr - RAM_BASE;
            if offset > self.ram_size || self.ram_size - offset < size / 8 {
                return fault;
            }
            match self.ram.load(offset, size) {
                Ok(v) => Ok(v),
                Err(_) => fault,
            }
        } else if PLIC_BASE <= addr && addr < PLIC_END {
            if !Self::fits(addr, size, PLIC_END) {
                return fault;
            }
            self.plic.load(addr - PLIC_BASE, size)
        } else if CLINT_BASE <= addr && addr < CLINT_END {
            if !Self::fits(addr, size, CLINT_END) {
                return fault;
            }
            self.clint.load(addr - CLINT_BASE, size)
        } else if UART_BASE <= addr && addr < UART_END {
            if !Self::fits(addr, size, UART_END) {
                return fault;
            }
            self.uart.load(addr - UART_BASE, size)
        } else {
            fault
        }
    }

    /// Stores the low `size` bits of `val` at `addr`.
    pub fn store(&mut self, addr: u64, val: u64, size: u64) -> (r: Result<(), Exception>)
        ensures
            (final(self)@, r) == old(self)@.store_spec(addr, val, size),
            r is Err ==> r == Err::<(), Exception>(Exception::StoreAMOAccessFault(addr))
                && final(self)@ == old(self)@,
            region_of(addr) is None ==> r is Err,
            old(self)@.uart.wf() ==> final(self)@.uart.wf(),
    {
        let fault = Err(Exception::StoreAMOAccessFault(addr));
        if addr >= RAM_BASE {
            let offset = addr - RAM_BASE;
            if offset > self.ram_size || self.ram_size - offset < size / 8 {
                return fault;
            }
            match self.ram.store(offset, val, size) {
                Ok(()) => Ok(()),
                Err(_) => fault,
            }
        } else if PLIC_BASE <= addr && addr < PLIC_END {
            if !Self::fits(addr, size, PLIC_END) {
                return fault;
            }
            self.plic.store(addr - PLIC_BASE, val, size)
        } else if CLINT_BASE <= addr && addr < CLINT_END {
            if !Self::fits(addr, size, CLINT_END) {
                return fault;
            }
            self.clint.store(addr - CLINT_BASE, val, size)
        } else if UART_BASE <= addr && addr < UART_END {
            if !Self::fits(addr, size, UART_END) {
                return fault;
            }
            self.uart.store(addr - UART_BASE, val, size)
        } else {
            fault
        }
    }
}

} // verus!
