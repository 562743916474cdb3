//! A virtio block device: its register file and the disk behind it.

use vstd::prelude::*;
use crate::alu::{add_spec, low32, low_word};
use crate::bus::MemIntf;
use crate::exceptions::Exception;

verus! {

/// The address of the device's first register.
pub const VIRTIO_BASE: u64 = 0x1000_1000;

/// The number of queues of the device.
pub const MAX_BLOCK_QUEUE: u32 = 1;

/// Always reads as 0x74726976.
pub const VIRTIO_MAGIC: u64 = 0x1000_1000;

/// The version. 1 is legacy.
pub const VIRTIO_VERSION: u64 = 0x1000_1004;

/// The device type: 1 is net, 2 is disk.
pub const VIRTIO_DEVICE_ID: u64 = 0x1000_1008;

/// Always reads as 0x554d4551.
pub const VIRTIO_VENDOR_ID: u64 = 0x1000_100c;

/// Device features.
pub const VIRTIO_DEVICE_FEATURES: u64 = 0x1000_1010;

/// Driver features.
pub const VIRTIO_DRIVER_FEATURES: u64 = 0x1000_1020;

/// Page size for the queue's page number, write only.
pub const VIRTIO_GUEST_PAGE_SIZE: u64 = 0x1000_1028;

/// Selects the queue, write only.
pub const VIRTIO_QUEUE_SEL: u64 = 0x1000_1030;

/// The greatest size of the selected queue, read only.
pub const VIRTIO_QUEUE_NUM_MAX: u64 = 0x1000_1034;

/// The size of the selected queue, write only.
pub const VIRTIO_QUEUE_NUM: u64 = 0x1000_1038;

/// The physical page number of the queue.
pub const VIRTIO_QUEUE_PFN: u64 = 0x1000_1040;

/// Notifies the device of a queue, write only.
pub const VIRTIO_QUEUE_NOTIFY: u64 = 0x1000_1050;

/// The device status.
pub const VIRTIO_STATUS: u64 = 0x1000_1070;

pub const PAGE_SIZE: u64 = 4096;

pub const SECTOR_SIZE: u64 = 512;

/// Request type: read from the disk.
pub const VIRTIO_BLK_T_IN: u32 = 0;

/// Request type: write to the disk.
pub const VIRTIO_BLK_T_OUT: u32 = 1;

/// Descriptor flag: the descriptor continues in the next one.
pub const VIRTQ_DESC_F_NEXT: u16 = 1;

/// Descriptor flag: the device writes the buffer.
pub const VIRTQ_DESC_F_WRITE: u16 = 2;

/// Descriptor flag: the buffer holds a list of descriptors.
pub const VIRTQ_DESC_F_INDIRECT: u16 = 4;

/// The registers of the block device.
#[derive(Debug, Clone, Copy, PartialEq, Eq, Structural)]
pub struct VirtioRegs {
    pub id: u64,
    pub driver_features: u32,
    pub page_size: u32,
    pub queue_sel: u32,
    pub queue_num: u32,
    pub queue_pfn: u32,
    pub queue_notify: u32,
    pub status: u32,
}

/// The block device over the disk `disk`.
pub struct VirtioBlock<D: MemIntf> {
    pub regs: VirtioRegs,
    pub disk: D,
}

impl VirtioRegs {
    /// The registers of a new device: all zero, and no queue notified.
    pub open spec fn initial() -> VirtioRegs {
        VirtioRegs {
            id: 0,
            driver_features: 0,
            page_size: 0,
            queue_sel: 0,
            queue_num: 0,
            queue_pfn: 0,
            queue_notify: MAX_BLOCK_QUEUE,
            status: 0,
        }
    }

    /// A queue has been notified and the notification has not been taken yet.
    pub open spec fn notified(self) -> bool {
        self.queue_notify < MAX_BLOCK_QUEUE
    }

    /// The address of the queue's descriptors: its page number times the page
    /// size.
    pub open spec fn desc_addr(self) -> u64 {
        (self.queue_pfn * self.page_size) as u64
    }

    /// What a load of `size` bits at the address `addr` returns.
    ///
    /// Only 32-bit loads are answered; any other is a load access fault at
    /// `addr`. The identification registers read as constants, the driver
    /// features as they were stored, the queue's page number register as the
    /// device status, and every other address as zero.
    pub open spec fn load_spec(self, addr: u64, size: u64) -> Result<u64, Exception> {
        if size != 32 {
            Err(Exception::LoadAccessFault(addr))
        } else if addr == VIRTIO_MAGIC {
            Ok(0x74726976)
        } else if addr == VIRTIO_VERSION {
            Ok(0x1)
        } else if addr == VIRTIO_DEVICE_ID {
            Ok(0x2)
        } else if addr == VIRTIO_VENDOR_ID {
            Ok(0x554d4551)
        } else if addr == VIRTIO_DEVICE_FEATURES {
            Ok(0)
        } else if addr == VIRTIO_DRIVER_FEATURES {
            Ok(self.driver_features as u64)
        } else if addr == VIRTIO_QUEUE_NUM_MAX {
            Ok(MAX_BLOCK_QUEUE as u64)
        } else if addr == VIRTIO_QUEUE_PFN {
            Ok(self.status as u64)
        } else {
            Ok(0)
        }
    }

    /// The registers after a store of the low `size` bits of `val` at the
    /// address `addr`, and what the store returns.
    ///
    /// Only 32-bit stores are taken; any other is a store access fault at `addr`
    /// that changes nothing. A store to the device features register sets the
    /// driver features. A store to an address that names no writable register is
    /// ignored.
    pub open spec fn store_spec(self, addr: u64, val: u64, size: u64) -> (
        VirtioRegs,
        Result<(), Exception>,
    ) {
        let value = low32(val);
        if size != 32 {
            (self, Err(Exception::StoreAMOAccessFault(addr)))
        } else if addr == VIRTIO_DEVICE_FEATURES {
            (VirtioRegs { driver_features: value, ..self }, Ok(()))
        } else if addr == VIRTIO_GUEST_PAGE_SIZE {
            (VirtioRegs { page_size: value, ..self }, Ok(()))
        } else if addr == VIRTIO_QUEUE_SEL {
            (VirtioRegs { queue_sel: value, ..self }, Ok(()))
        } else if addr == VIRTIO_QUEUE_NUM {
            (VirtioRegs { queue_num: value, ..self }, Ok(()))
        } else if addr == VIRTIO_QUEUE_PFN {
            (VirtioRegs { queue_pfn: value, ..self }, Ok(()))
        } else if addr == VIRTIO_QUEUE_NOTIFY {
            (VirtioRegs { queue_notify: value, ..self }, Ok(()))
        } else if addr == VIRTIO_STATUS {
            (VirtioRegs { status: value, ..self }, Ok(()))
        } else {
            (self, Ok(()))
        }
    }
}

impl<D: MemIntf> VirtioBlock<D> {
    /// A new device over the disk image.
    pub fn new(disk_image: D) -> (r: Self)
        ensures
            r.regs == VirtioRegs::initial(),
            r.disk.bytes() == disk_image.bytes(),
    {
        Self {
            regs: VirtioRegs {
                id: 0,
                driver_features: 0,
                page_size: 0,
                queue_sel: 0,
                queue_num: 0,
                queue_pfn: 0,
                queue_notify: MAX_BLOCK_QUEUE,
                status: 0,
            },
            disk: disk_image,
        }
    }

    /// Whether a queue has been notified; the notification is taken.
    pub fn is_interrupting(&mut self) -> (r: bool)
        ensures
            r == old(self).regs.notified(),
            r ==> final(self).regs == (VirtioRegs {
                queue_notify: MAX_BLOCK_QUEUE,
                ..old(self).regs
            }),
            !r ==> final(self).regs == old(self).regs,
            final(self).disk.bytes() == old(self).disk.bytes(),
    {
        if self.regs.queue_notify < MAX_BLOCK_QUEUE {
            self.regs.queue_notify = MAX_BLOCK_QUEUE;
            return true;
        }
        false
    }

    /// Counts the requests: the next number, modulo 2^64.
    pub fn get_new_id(&mut self) -> (r: u64)
        ensures
            r == add_spec(old(self).regs.id, 1),
            final(self).regs == (VirtioRegs { id: r, ..old(self).regs }),
            final(self).disk.bytes() == old(self).disk.bytes(),
    {
        self.regs.id = self.regs.id.wrapping_add(1);
        self.regs.id
    }

    /// The address of the queue's descriptors.
    pub fn desc_addr(&self) -> (r: u64)
        ensures
            r == self.regs.desc_addr(),
            r == self.regs.queue_pfn * self.regs.page_size,
    {
        assert(self.regs.queue_pfn * self.regs.page_size <= 0xffff_ffff * 0xffff_ffff)
            by (nonlinear_arith)
            requires
                0 <= self.regs.queue_pfn <= 0xffff_ffff,
                0 <= self.regs.page_size <= 0xffff_ffff,
        ;
        self.regs.queue_pfn as u64 * self.regs.page_size as u64
    }

    /// Reads the byte of the disk at `addr`.
    pub fn read_disk(&mut self, addr: u64) -> (r: u64)
        requires
            addr < old(self).disk.bytes().len(),
        ensures
            r == old(self).disk.bytes()[addr as int],
            final(self).disk.bytes() == old(self).disk.bytes(),
            final(self).regs == old(self).regs,
    {
        match self.disk.load(addr, 8) {
            Ok(v) => v,
            Err(_) => 0,
        }
    }

    /// Writes the low byte of `val` to the disk at `addr`.
    pub fn write_disk(&mut self, addr: u64, val: u64)
        requires
            addr < old(self).disk.bytes().len(),
        ensures
            final(self).disk.bytes() == old(self).disk.bytes().update(addr as int, val as u8),
            final(self).regs == old(self).regs,
    {
        let _ = self.disk.store(addr, val, 8);
    }

    /// Loads `size` bits from the register at the address `addr`.
    pub fn load(&mut self, addr: u64, size: u64) -> (r: Result<u64, Exception>)
        ensures
            r == old(self).regs.load_spec(addr, size),
            final(self).regs == old(self).regs,
            final(self).disk.bytes() == old(self).disk.bytes(),
    {
        if size != 32 {
            return Err(Exception::LoadAccessFault(addr));
        }
        match addr {
            VIRTIO_MAGIC => Ok(0x74726976),
            VIRTIO_VERSION => Ok(0x1),
            VIRTIO_DEVICE_ID => Ok(0x2),
            VIRTIO_VENDOR_ID => Ok(0x554d4551),
            VIRTIO_DEVICE_FEATURES => Ok(0x0),
            VIRTIO_DRIVER_FEATURES => Ok(self.regs.driver_features as u64),
            VIRTIO_QUEUE_NUM_MAX => Ok(MAX_BLOCK_QUEUE as u64),
            VIRTIO_QUEUE_PFN => Ok(self.regs.status as u64),
            _ => Ok(0),
        }
    }

    /// Stores the low `size` bits of `val` to the register at the address
    /// `addr`.
    pub fn store(&mut self, addr: u64, val: u64, size: u64) -> (r: Result<(), Exception>)
        ensures
            (final(self).regs, r) == old(self).regs.store_spec(addr, val, size),
            final(self).disk.bytes() == old(self).disk.bytes(),
    {
        if size != 32 {
            return Err(Exception::StoreAMOAccessFault(addr));
        }
        let value = low_word(val);
        match addr {
            VIRTIO_DEVICE_FEATURES => {
                self.regs.driver_features = value;
            },
            VIRTIO_GUEST_PAGE_SIZE => {
                self.regs.page_size = value;
            },
            VIRTIO_QUEUE_SEL => {
                self.regs.queue_sel = value;
            },
            VIRTIO_QUEUE_NUM => {
                self.regs.queue_num = value;
            },
            VIRTIO_QUEUE_PFN => {
                self.regs.queue_pfn = value;
            },
            VIRTIO_QUEUE_NOTIFY => {
                self.regs.queue_notify = value;
            },
            VIRTIO_STATUS => {
                self.regs.status = value;
            },
            _ => {},
        }
        Ok(())
    }
}

} // verus!
