//! Numbers of the control and status registers the trap machine uses, and the
//! masks of the fields it reads and writes.

use vstd::prelude::*;

verus! {

/// Number of slots in the control-and-status-register file.
pub const CSR_COUNT: usize = 4096;

pub const SSTATUS: usize = 0x100;
pub const SIE: usize = 0x104;
pub const STVEC: usize = 0x105;
pub const SEPC: usize = 0x141;
pub const SCAUSE: usize = 0x142;
pub const STVAL: usize = 0x143;
pub const SIP: usize = 0x144;

pub const MSTATUS: usize = 0x300;
pub const MEDELEG: usize = 0x302;
pub const MIDELEG: usize = 0x303;
pub const MIE: usize = 0x304;
pub const MTVEC: usize = 0x305;
pub const MEPC: usize = 0x341;
pub const MCAUSE: usize = 0x342;
pub const MTVAL: usize = 0x343;
pub const MIP: usize = 0x344;

/// Supervisor interrupt enable, bit 1 of the supervisor status register.
pub const MASK_SIE: u64 = 0x2;
/// Supervisor previous interrupt enable, bit 5.
pub const MASK_SPIE: u64 = 0x20;
/// Supervisor previous privilege, bit 8.
pub const MASK_SPP: u64 = 0x100;

/// Machine interrupt enable, bit 3 of the machine status register.
pub const MASK_MIE: u64 = 0x8;
/// Machine previous interrupt enable, bit 7.
pub const MASK_MPIE: u64 = 0x80;
/// Machine previous privilege, bits 12:11.
pub const MASK_MPP: u64 = 0x1800;
/// Modify privilege, bit 17.
pub const MASK_MPRV: u64 = 0x2_0000;

/// Supervisor software interrupt pending, bit 1 of the pending register.
pub const MASK_SSIP: u64 = 0x2;
/// Machine software interrupt pending, bit 3.
pub const MASK_MSIP: u64 = 0x8;
/// Supervisor timer interrupt pending, bit 5.
pub const MASK_STIP: u64 = 0x20;
/// Machine timer interrupt pending, bit 7.
pub const MASK_MTIP: u64 = 0x80;
/// Supervisor external interrupt pending, bit 9.
pub const MASK_SEIP: u64 = 0x200;
/// Machine external interrupt pending, bit 11.
pub const MASK_MEIP: u64 = 0x800;

} // verus!
