//! A 64-bit RISC-V hart with its memory bus and bring-up devices.
//!
//! The hart runs the base integer instructions together with the multiply/divide,
//! atomic, and control-and-status-register extensions, and the privileged
//! instructions needed to take and return from traps. Every instruction retires in
//! one tick, address translation is the identity, and a single hart is modelled.

pub mod exceptions;
pub mod interrupt;
pub mod csrs;
pub mod inst;
pub mod decode;
pub mod encode;
pub mod alu;
pub mod bus;
pub mod ram;
pub mod mmu;
pub mod clint;
pub mod plic;
pub mod uart;
pub mod virtio;
pub mod regs;
pub mod cpu;
pub mod traps;
pub mod step;
pub mod vm;
