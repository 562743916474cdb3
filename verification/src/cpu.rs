//! The hart: its registers, the execution of one instruction, and the trap
//! machine.

use vstd::prelude::*;
use crate::alu::{
    add_spec, addw, addw_spec, as_signed, as_unsigned, div, div_spec, divu, divu_spec, divuw,
    divuw_spec, divw, divw_spec, imm_bits, low32, low_word, max_signed, max_signed_spec, minus,
    max_unsigned, max_unsigned_spec, min_signed, min_signed_spec, min_unsigned, min_unsigned_spec,
    mul_spec, mulh, mulh_spec, mulhsu, mulhsu_spec, mulhu, mulhu_spec, mulw, mulw_spec, plus, rem,
    rem_spec, remu, remu_spec, remuw, remuw_spec, remw, remw_spec, sext_byte, sext_half, sext_word,
    sign_extend_byte, sign_extend_half, sign_extend_word, signed64, sll, sll_spec, sllw, sllw_spec,
    slt, slt_spec, sltu, sltu_spec, sra, sra_spec, sraw, sraw_spec, srl, srl_spec, srlw, srlw_spec,
    sub_spec, subw, subw_spec, times,
};
use crate::bus::{Bus, BusView, MemIntf, PLIC_BASE};
use crate::csrs::{
    MASK_MEIP, MASK_MIE, MASK_MPIE, MASK_MPP, MASK_MPRV, MASK_MSIP, MASK_MTIP, MASK_SEIP, MASK_SIE,
    MASK_SPIE, MASK_SPP, MASK_SSIP, MASK_STIP, MCAUSE, MEDELEG, MEPC, MIDELEG, MIE, MIP, MSTATUS,
    MTVAL, MTVEC, SCAUSE, SEPC, SSTATUS, STVAL, STVEC,
};
use crate::decode::{decode_spec, decode_word, format_of, illegal, opcode_of};
use crate::exceptions::Exception;
use crate::inst::Inst;
use crate::interrupt::Interrupt;
use crate::plic::{Plic, PLIC_SCLAIM};
use crate::uart::UART_IRQ;

verus! {

/// A privilege mode, by its encoding.
pub type Mode = u64;

pub const USER: Mode = 0;

pub const SUPERVISOR: Mode = 1;

pub const MACHINE: Mode = 3;

/// The hart.
pub struct Cpu {
    /// The general-purpose registers. `x[0]` reads as zero.
    pub x: [u64; 32],
    /// The program counter.
    pub pc: u64,
    /// The privilege mode.
    pub mode: Mode,
    /// The control and status registers, by number.
    pub csr: [u64; 4096],
    /// The address that a load-reserved has reserved, if any.
    pub reservation: Option<u64>,
}

/// The state of the hart.
#[verifier::ext_equal]
pub struct CpuView {
    pub x: Seq<u64>,
    pub pc: u64,
    pub mode: u64,
    pub csr: Seq<u64>,
    pub reservation: Option<u64>,
}

impl View for Cpu {
    type V = CpuView;

    open spec fn view(&self) -> CpuView {
        CpuView {
            x: self.x@,
            pc: self.pc,
            mode: self.mode,
            csr: self.csr@,
            reservation: self.reservation,
        }
    }
}

/// How a loaded value fills the register.
#[derive(Debug, Clone, Copy, PartialEq, Eq, Structural)]
pub enum Extend {
    Sign,
    Zero,
}

/// What an atomic memory operation does with the value in memory and the
/// source register.
#[derive(Debug, Clone, Copy, PartialEq, Eq, Structural)]
pub enum AmoOp {
    Swap,
    Add,
    Xor,
    And,
    Or,
    Min,
    Max,
    Minu,
    Maxu,
}

/// The hart and the bus after a step, and how the step ended.
#[verifier::ext_equal]
pub struct Outcome<T> {
    pub cpu: CpuView,
    pub bus: BusView,
    pub result: Result<T, Exception>,
}

/// The step ended well.
pub open spec fn done(cpu: CpuView, bus: BusView) -> Outcome<()> {
    Outcome { cpu, bus, result: Ok(()) }
}

/// The step raised an exception.
pub open spec fn raise(cpu: CpuView, bus: BusView, e: Exception) -> Outcome<()> {
    Outcome { cpu, bus, result: Err(e) }
}

/// The environment call that a mode raises.
pub open spec fn environment_call(mode: u64) -> Exception {
    if mode == USER {
        Exception::EnvironmentCallFromUMode
    } else if mode == SUPERVISOR {
        Exception::EnvironmentCallFromSMode
    } else {
        Exception::EnvironmentCallFromMMode
    }
}

/// A loaded value of `size` bits, extended to the register.
pub open spec fn extend_spec(v: u64, size: u64, ext: Extend) -> u64 {
    if ext is Zero {
        v
    } else if size == 8 {
        sext_byte(v)
    } else if size == 16 {
        sext_half(v)
    } else if size == 32 {
        sext_word(v)
    } else {
        v
    }
}

/// The value that an atomic memory operation of `size` bits stores, given the
/// value `old` in memory and the source register `src`. A word operation compares
/// the low words: sign-extended for the signed minimum and maximum, as they are
/// for the unsigned.
pub open spec fn amo_value_spec(op: AmoOp, old: u64, src: u64, size: u64) -> u64 {
    match op {
        AmoOp::Swap => src,
        AmoOp::Add => add_spec(old, src),
        AmoOp::Xor => old ^ src,
        AmoOp::And => old & src,
        AmoOp::Or => old | src,
        AmoOp::Min => if size == 32 {
            min_signed_spec(sext_word(old), sext_word(src))
        } else {
            min_signed_spec(old, src)
        },
        AmoOp::Max => if size == 32 {
            max_signed_spec(sext_word(old), sext_word(src))
        } else {
            max_signed_spec(old, src)
        },
        AmoOp::Minu => if size == 32 {
            min_unsigned_spec(low32(old) as u64, low32(src) as u64)
        } else {
            min_unsigned_spec(old, src)
        },
        AmoOp::Maxu => if size == 32 {
            max_unsigned_spec(low32(old) as u64, low32(src) as u64)
        } else {
            max_unsigned_spec(old, src)
        },
    }
}

/// The status register after a trap into supervisor mode from `mode`: the
/// interrupt enable moves to the previous enable and is cleared, and the low bit
/// of the mode is kept as the previous privilege.
pub open spec fn trap_status_s(status: u64, mode: u64) -> u64 {
    let ie = (status & MASK_SIE) >> 1;
    ((((status & !MASK_SPIE) | (ie << 5)) & !MASK_SIE) & !MASK_SPP) | ((mode & 1) << 8)
}

/// The status register after a trap into machine mode from `mode`: the
/// interrupt enable moves to the previous enable and is cleared, and the two bits
/// of the mode are kept as the previous privilege.
pub open spec fn trap_status_m(status: u64, mode: u64) -> u64 {
    let ie = (status & MASK_MIE) >> 3;
    ((((status & !MASK_MPIE) | (ie << 7)) & !MASK_MIE) & !MASK_MPP) | ((mode & 3) << 11)
}

/// The status register after a return from supervisor mode: the previous
/// enable moves back to the interrupt enable and is set, and the previous
/// privilege is cleared.
pub open spec fn sret_status(status: u64) -> u64 {
    let pie = (status & MASK_SPIE) >> 5;
    (((status & !MASK_SIE) | (pie << 1)) | MASK_SPIE) & !MASK_SPP
}

/// The status register after a return from machine mode: the previous enable
/// moves back to the interrupt enable and is set, and the previous privilege and
/// the modify-privilege bit are cleared.
pub open spec fn mret_status(status: u64) -> u64 {
    let pie = (status & MASK_MPIE) >> 7;
    ((((status & !MASK_MIE) | (pie << 3)) | MASK_MPIE) & !MASK_MPP) & !MASK_MPRV
}

impl CpuView {
    /// There are 32 registers and 4096 control and status registers.
    pub open spec fn wf(self) -> bool {
        self.x.len() == 32 && self.csr.len() == 4096
    }

    /// The state after reset: every register zero, machine mode, no
    /// reservation.
    pub open spec fn initial() -> CpuView {
        CpuView {
            x: Seq::new(32, |i: int| 0u64),
            pc: 0,
            mode: MACHINE,
            csr: Seq::new(4096, |i: int| 0u64),
            reservation: None,
        }
    }

    /// The value of a register.
    pub open spec fn reg(self, r: usize) -> u64 {
        self.x[r as int]
    }

    /// The hart with `x[0]` zero.
    pub open spec fn zero_x0(self) -> CpuView {
        CpuView { x: self.x.update(0, 0), ..self }
    }

    /// The hart after `v` is written to register `rd`. A write to `x[0]` is
    /// dropped.
    pub open spec fn write(self, rd: usize, v: u64) -> CpuView {
        if rd == 0 {
            self
        } else {
            CpuView { x: self.x.update(rd as int, v), ..self }
        }
    }

    /// The hart after `v` is written to the control and status register `csr`.
    pub open spec fn write_csr(self, csr: usize, v: u64) -> CpuView {
        CpuView { csr: self.csr.update(csr as int, v), ..self }
    }

    /// The hart with the program counter at `target`.
    pub open spec fn jump(self, target: u64) -> CpuView {
        CpuView { pc: target, ..self }
    }

    /// The hart after a branch: where it is taken, the program counter moves by
    /// `imm` from the address of the branch, which lies four below the program
    /// counter.
    pub open spec fn branch(self, taken: bool, imm: i64) -> CpuView {
        if taken {
            self.jump(add_spec(sub_spec(self.pc, 4), imm_bits(imm)))
        } else {
            self
        }
    }

    /// The hart without a reservation.
    pub open spec fn clear_reservation(self) -> CpuView {
        CpuView { reservation: None, ..self }
    }

    /// The hart after a return from a trap taken in supervisor mode.
    pub open spec fn sret(self) -> CpuView {
        let status = self.csr[SSTATUS as int];
        CpuView {
            mode: (status & MASK_SPP) >> 8,
            pc: self.csr[SEPC as int] & !3u64,
            csr: self.csr.update(SSTATUS as int, sret_status(status)),
            ..self
        }
    }

    /// The hart after a return from a trap taken in machine mode.
    pub open spec fn mret(self) -> CpuView {
        let status = self.csr[MSTATUS as int];
        CpuView {
            mode: (status & MASK_MPP) >> 11,
            pc: self.csr[MEPC as int] & !3u64,
            csr: self.csr.update(MSTATUS as int, mret_status(status)),
            ..self
        }
    }

    /// Whether a trap whose cause has the number `bit` is delegated to
    /// supervisor mode by the delegation register `deleg`: the hart runs in
    /// supervisor mode or below, and the register has that bit set.
    pub open spec fn delegated(self, deleg: usize, bit: u64) -> bool {
        self.mode <= SUPERVISOR && (self.csr[deleg as int] >> bit) & 1 == 1
    }

    /// The hart after trap entry into supervisor mode (`to_s`) or machine mode:
    /// the program counter is saved, cause and trap value are recorded, the status
    /// register is updated, and the hart runs at `target` in the mode that takes
    /// the trap.
    pub open spec fn enter_trap(self, to_s: bool, cause: u64, tval: u64, target: u64) -> CpuView {
        if to_s {
            CpuView {
                pc: target,
                mode: SUPERVISOR,
                csr: self.csr.update(SEPC as int, self.pc).update(SCAUSE as int, cause).update(
                    STVAL as int,
                    tval,
                ).update(SSTATUS as int, trap_status_s(self.csr[SSTATUS as int], self.mode)),
                ..self
            }
        } else {
            CpuView {
                pc: target,
                mode: MACHINE,
                csr: self.csr.update(MEPC as int, self.pc).update(MCAUSE as int, cause).update(
                    MTVAL as int,
                    tval,
                ).update(MSTATUS as int, trap_status_m(self.csr[MSTATUS as int], self.mode)),
                ..self
            }
        }
    }

    /// The hart after it takes the exception `e`: the handler runs at the base of
    /// the trap vector.
    pub open spec fn take_exception(self, e: Exception) -> CpuView {
        let to_s = self.delegated(MEDELEG, e.code());
        let tvec = if to_s {
            self.csr[STVEC as int]
        } else {
            self.csr[MTVEC as int]
        };
        self.enter_trap(to_s, e.code(), e.value(), tvec & !3u64)
    }

    /// The hart after it takes the interrupt `i`: the handler runs at the base of
    /// the trap vector, or, where the vector's low bit asks for it, four times the
    /// interrupt's number above the base.
    pub open spec fn take_interrupt(self, i: Interrupt) -> CpuView {
        let to_s = self.delegated(MIDELEG, i.number());
        let tvec = if to_s {
            self.csr[STVEC as int]
        } else {
            self.csr[MTVEC as int]
        };
        let base = tvec & !3u64;
        let target = if tvec & 1 != 0 {
            add_spec(base, (4 * i.number()) as u64)
        } else {
            base
        };
        self.enter_trap(to_s, i.code(), 0, target)
    }

    /// The hart takes no interrupt now: it runs in machine mode with machine
    /// interrupts disabled, or in supervisor mode with supervisor interrupts
    /// disabled.
    pub open spec fn interrupts_masked(self) -> bool {
        (self.mode == MACHINE && self.csr[MSTATUS as int] & MASK_MIE == 0) || (self.mode
            == SUPERVISOR && self.csr[SSTATUS as int] & MASK_SIE == 0)
    }

    /// The hart with the bits of `mask` set in the interrupt-pending register.
    pub open spec fn post(self, mask: u64) -> CpuView {
        self.write_csr(MIP, self.csr[MIP as int] | mask)
    }

    /// The hart with the bits of `mask` cleared in the interrupt-pending
    /// register.
    pub open spec fn unpost(self, mask: u64) -> CpuView {
        self.write_csr(MIP, self.csr[MIP as int] & !mask)
    }

    /// The interrupt that is taken next, if any: the first that is both pending
    /// and enabled, machine before supervisor, and within each external before
    /// software before timer for machine, external before timer before software
    /// for supervisor.
    pub open spec fn next_interrupt(self) -> Option<(u64, Interrupt)> {
        let pending = self.csr[MIE as int] & self.csr[MIP as int];
        if pending & MASK_MEIP != 0 {
            Some((MASK_MEIP, Interrupt::MachineExternalInterrupt))
        } else if pending & MASK_MSIP != 0 {
            Some((MASK_MSIP, Interrupt::MachineSoftwareInterrupt))
        } else if pending & MASK_MTIP != 0 {
            Some((MASK_MTIP, Interrupt::MachineTimerInterrupt))
        } else if pending & MASK_SEIP != 0 {
            Some((MASK_SEIP, Interrupt::SupervisorExternalInterrupt))
        } else if pending & MASK_STIP != 0 {
            Some((MASK_STIP, Interrupt::SupervisorTimerInterrupt))
        } else if pending & MASK_SSIP != 0 {
            Some((MASK_SSIP, Interrupt::SupervisorSoftwareInterrupt))
        } else {
            None
        }
    }
}

/// A load of `size` bits at `addr` into register `rd`.
#[verifier::opaque]
pub open spec fn load_op(c: CpuView, bus: BusView, rd: usize, addr: u64, size: u64, ext: Extend)
    -> Outcome<()> {
    let (bus1, r) = bus.load_spec(addr, size);
    match r {
        Ok(v) => done(c.write(rd, extend_spec(v, size, ext)), bus1),
        Err(e) => raise(c, bus1, e),
    }
}

/// A store of the low `size` bits of `val` at `addr`. A store that succeeds
/// clears the reservation.
#[verifier::opaque]
pub open spec fn store_op(c: CpuView, bus: BusView, addr: u64, val: u64, size: u64) -> Outcome<
    (),
> {
    let (bus1, r) = bus.store_spec(addr, val, size);
    match r {
        Ok(()) => done(c.clear_reservation(), bus1),
        Err(e) => raise(c, bus1, e),
    }
}

/// A load-reserved of `size` bits at `addr` into register `rd`: a sign-extending
/// load that reserves the address.
#[verifier::opaque]
pub open spec fn lr_op(c: CpuView, bus: BusView, rd: usize, addr: u64, size: u64) -> Outcome<()> {
    let (bus1, r) = bus.load_spec(addr, size);
    match r {
        Ok(v) => done(
            CpuView { reservation: Some(addr), ..c.write(rd, extend_spec(v, size, Extend::Sign)) },
            bus1,
        ),
        Err(e) => raise(c, bus1, e),
    }
}

/// A store-conditional of the low `size` bits of `val` at `addr`: where the
/// address is the reserved one the value is stored and `rd` gets 0; else nothing
/// is stored and `rd` gets 1. Either way the reservation is gone.
#[verifier::opaque]
pub open spec fn sc_op(c: CpuView, bus: BusView, rd: usize, addr: u64, val: u64, size: u64)
    -> Outcome<()> {
    if c.reservation == Some(addr) {
        let (bus1, r) = bus.store_spec(addr, val, size);
        match r {
            Ok(()) => done(c.write(rd, 0).clear_reservation(), bus1),
            Err(e) => raise(c, bus1, e),
        }
    } else {
        done(c.write(rd, 1).clear_reservation(), bus)
    }
}

/// An atomic memory operation of `size` bits at `addr`: the value in memory is
/// loaded, combined with `src` and stored back, and `rd` gets the loaded value,
/// sign-extended. The store clears the reservation.
#[verifier::opaque]
pub open spec fn amo_op(
    c: CpuView,
    bus: BusView,
    rd: usize,
    addr: u64,
    src: u64,
    size: u64,
    op: AmoOp,
) -> Outcome<()> {
    let (bus1, r) = bus.load_spec(addr, size);
    match r {
        Ok(old) => {
            let (bus2, w) = bus1.store_spec(addr, amo_value_spec(op, old, src, size), size);
            match w {
                Ok(()) => done(
                    c.write(rd, extend_spec(old, size, Extend::Sign)).clear_reservation(),
                    bus2,
                ),
                Err(e) => raise(c, bus2, e),
            }
        },
        Err(e) => raise(c, bus1, e),
    }
}

/// The effect of an instruction that combines a register with an immediate or
/// shifts it by a constant.
#[verifier::opaque]
pub open spec fn op_imm_spec(c: CpuView, bus: BusView, inst: Inst) -> Outcome<()> {
    match inst {
        Inst::Addi { rd, rs1, imm } => {
            let a = c.reg(rs1);
            let b = imm_bits(imm);
            done(c.write(rd, add_spec(a, b)), bus)
        },
        Inst::Slti { rd, rs1, imm } => {
            let a = c.reg(rs1);
            let b = imm_bits(imm);
            done(c.write(rd, slt_spec(a, b)), bus)
        },
        Inst::Sltiu { rd, rs1, imm } => {
            let a = c.reg(rs1);
            let b = imm_bits(imm);
            done(c.write(rd, sltu_spec(a, b)), bus)
        },
        Inst::Xori { rd, rs1, imm } => {
            let a = c.reg(rs1);
            let b = imm_bits(imm);
            done(c.write(rd, a ^ b), bus)
        },
        Inst::Ori { rd, rs1, imm } => {
            let a = c.reg(rs1);
            let b = imm_bits(imm);
            done(c.write(rd, a | b), bus)
        },
        Inst::Andi { rd, rs1, imm } => {
            let a = c.reg(rs1);
            let b = imm_bits(imm);
            done(c.write(rd, a & b), bus)
        },
        Inst::Addiw { rd, rs1, imm } => {
            let a = c.reg(rs1);
            let b = imm_bits(imm);
            done(c.write(rd, addw_spec(a, b)), bus)
        },
        Inst::Slli { rd, rs1, shamt } => {
            let a = c.reg(rs1);
            let b = shamt as u64;
            done(c.write(rd, sll_spec(a, b)), bus)
        },
        Inst::Srli { rd, rs1, shamt } => {
            let a = c.reg(rs1);
            let b = shamt as u64;
            done(c.write(rd, srl_spec(a, b)), bus)
        },
        Inst::Srai { rd, rs1, shamt } => {
            let a = c.reg(rs1);
            let b = shamt as u64;
            done(c.write(rd, sra_spec(a, b)), bus)
        },
        Inst::Slliw { rd, rs1, shamt } => {
            let a = c.reg(rs1);
            let b = shamt as u64;
            done(c.write(rd, sllw_spec(a, b)), bus)
        },
        Inst::Srliw { rd, rs1, shamt } => {
            let a = c.reg(rs1);
            let b = shamt as u64;
            done(c.write(rd, srlw_spec(a, b)), bus)
        },
        Inst::Sraiw { rd, rs1, shamt } => {
            let a = c.reg(rs1);
            let b = shamt as u64;
            done(c.write(rd, sraw_spec(a, b)), bus)
        },
        _ => done(c, bus),
    }
}

/// The effect of a load or a store. The address is the base register plus the
/// immediate.
#[verifier::opaque]
pub open spec fn memory_spec(c: CpuView, bus: BusView, inst: Inst) -> Outcome<()> {
    match inst {
        Inst::Lb { rd, rs1, imm } => load_op(
            c,
            bus,
            rd,
            add_spec(c.reg(rs1), imm_bits(imm)),
            8,
            Extend::Sign,
        ),
        Inst::Lh { rd, rs1, imm } => load_op(
            c,
            bus,
            rd,
            add_spec(c.reg(rs1), imm_bits(imm)),
            16,
            Extend::Sign,
        ),
        Inst::Lw { rd, rs1, imm } => load_op(
            c,
            bus,
            rd,
            add_spec(c.reg(rs1), imm_bits(imm)),
            32,
            Extend::Sign,
        ),
        Inst::Ld { rd, rs1, imm } => load_op(
            c,
            bus,
            rd,
            add_spec(c.reg(rs1), imm_bits(imm)),
            64,
            Extend::Zero,
        ),
        Inst::Lbu { rd, rs1, imm } => load_op(
            c,
            bus,
            rd,
            add_spec(c.reg(rs1), imm_bits(imm)),
            8,
            Extend::Zero,
        ),
        Inst::Lhu { rd, rs1, imm } => load_op(
            c,
            bus,
            rd,
            add_spec(c.reg(rs1), imm_bits(imm)),
            16,
            Extend::Zero,
        ),
        Inst::Lwu { rd, rs1, imm } => load_op(
            c,
            bus,
            rd,
            add_spec(c.reg(rs1), imm_bits(imm)),
            32,
            Extend::Zero,
        ),
        Inst::Sb { rs1, rs2, imm } => store_op(
            c,
            bus,
            add_spec(c.reg(rs1), imm_bits(imm)),
            c.reg(rs2),
            8,
        ),
        Inst::Sh { rs1, rs2, imm } => store_op(
            c,
            bus,
            add_spec(c.reg(rs1), imm_bits(imm)),
            c.reg(rs2),
            16,
        ),
        Inst::Sw { rs1, rs2, imm } => store_op(
            c,
            bus,
            add_spec(c.reg(rs1), imm_bits(imm)),
            c.reg(rs2),
            32,
        ),
        Inst::Sd { rs1, rs2, imm } => store_op(
            c,
            bus,
            add_spec(c.reg(rs1), imm_bits(imm)),
            c.reg(rs2),
            64,
        ),
        _ => done(c, bus),
    }
}

/// The effect of a fence, an environment call or breakpoint, a trap return, or
/// a status-register instruction.
///
/// Fences do nothing: the hart is the only observer of memory. A
/// status-register instruction reads the old value into `rd` and writes the
/// new one: the source, the old value with the source bits set, or the old
/// value with the source bits cleared.
#[verifier::opaque]
pub open spec fn system_spec(c: CpuView, bus: BusView, inst: Inst) -> Outcome<()> {
    match inst {
        Inst::Fence { .. } => done(c, bus),
        Inst::Fencei { .. } => done(c, bus),
        Inst::Sfencevma => done(c, bus),
        Inst::Ebreak => raise(c, bus, Exception::Breakpoint(sub_spec(c.pc, 4))),
        Inst::Ecall => raise(c, bus, environment_call(c.mode)),
        Inst::Sret => done(c.sret(), bus),
        Inst::Mret => done(c.mret(), bus),
        Inst::Csrrw { rd, rs1, csr } => {
            let old = c.csr[csr as int];
            let src = c.reg(rs1);
            done(c.write_csr(csr, src).write(rd, old), bus)
        },
        Inst::Csrrs { rd, rs1, csr } => {
            let old = c.csr[csr as int];
            let src = c.reg(rs1);
            done(c.write_csr(csr, old | src).write(rd, old), bus)
        },
        Inst::Csrrc { rd, rs1, csr } => {
            let old = c.csr[csr as int];
            let src = c.reg(rs1);
            done(c.write_csr(csr, old & !src).write(rd, old), bus)
        },
        Inst::Csrrwi { rd, uimm, csr } => {
            let old = c.csr[csr as int];
            let src = uimm;
            done(c.write_csr(csr, src).write(rd, old), bus)
        },
        Inst::Csrrsi { rd, uimm, csr } => {
            let old = c.csr[csr as int];
            let src = uimm;
            done(c.write_csr(csr, old | src).write(rd, old), bus)
        },
        Inst::Csrrci { rd, uimm, csr } => {
            let old = c.csr[csr as int];
            let src = uimm;
            done(c.write_csr(csr, old & !src).write(rd, old), bus)
        },
        _ => done(c, bus),
    }
}

/// The effect of an upper-immediate instruction, a jump or a branch.
///
/// A jump writes the program counter to `rd`, which is the address after the
/// jump. The indirect jump reads its base register before it writes `rd`, and
/// clears the low bit of its target.
#[verifier::opaque]
pub open spec fn jump_spec(c: CpuView, bus: BusView, inst: Inst) -> Outcome<()> {
    match inst {
        Inst::Lui { rd, imm } => done(c.write(rd, imm_bits(imm)), bus),
        Inst::Auipc { rd, imm } => done(c.write(rd, add_spec(sub_spec(c.pc, 4), imm_bits(imm))), bus),
        Inst::Jal { rd, imm } => {
            let target = add_spec(sub_spec(c.pc, 4), imm_bits(imm));
            done(c.write(rd, c.pc).jump(target), bus)
        },
        Inst::Jalr { rd, rs1, imm } => {
            let target = add_spec(c.reg(rs1), imm_bits(imm)) & !1u64;
            done(c.write(rd, c.pc).jump(target), bus)
        },
        Inst::Beq { rs1, rs2, imm } => {
            let a = c.reg(rs1);
            let b = c.reg(rs2);
            done(c.branch(a == b, imm), bus)
        },
        Inst::Bne { rs1, rs2, imm } => {
            let a = c.reg(rs1);
            let b = c.reg(rs2);
            done(c.branch(a != b, imm), bus)
        },
        Inst::Blt { rs1, rs2, imm } => {
            let a = c.reg(rs1);
            let b = c.reg(rs2);
            done(c.branch(signed64(a) < signed64(b), imm), bus)
        },
        Inst::Bge { rs1, rs2, imm } => {
            let a = c.reg(rs1);
            let b = c.reg(rs2);
            done(c.branch(signed64(a) >= signed64(b), imm), bus)
        },
        Inst::Bltu { rs1, rs2, imm } => {
            let a = c.reg(rs1);
            let b = c.reg(rs2);
            done(c.branch(a < b, imm), bus)
        },
        Inst::Bgeu { rs1, rs2, imm } => {
            let a = c.reg(rs1);
            let b = c.reg(rs2);
            done(c.branch(a >= b, imm), bus)
        },
        _ => done(c, bus),
    }
}

/// The effect of an instruction that combines two registers, multiply and
/// divide included.
#[verifier::opaque]
pub open spec fn op_spec(c: CpuView, bus: BusView, inst: Inst) -> Outcome<()> {
    match inst {
        Inst::Add { rd, rs1, rs2 } => {
            let a = c.reg(rs1);
            let b = c.reg(rs2);
            done(c.write(rd, add_spec(a, b)), bus)
        },
        Inst::Sub { rd, rs1, rs2 } => {
            let a = c.reg(rs1);
            let b = c.reg(rs2);
            done(c.write(rd, sub_spec(a, b)), bus)
        },
        Inst::Sll { rd, rs1, rs2 } => {
            let a = c.reg(rs1);
            let b = c.reg(rs2);
            done(c.write(rd, sll_spec(a, b)), bus)
        },
        Inst::Slt { rd, rs1, rs2 } => {
            let a = c.reg(rs1);
            let b = c.reg(rs2);
            done(c.write(rd, slt_spec(a, b)), bus)
        },
        Inst::Sltu { rd, rs1, rs2 } => {
            let a = c.reg(rs1);
            let b = c.reg(rs2);
            done(c.write(rd, sltu_spec(a, b)), bus)
        },
        Inst::Xor { rd, rs1, rs2 } => {
            let a = c.reg(rs1);
            let b = c.reg(rs2);
            done(c.write(rd, a ^ b), bus)
        },
        Inst::Srl { rd, rs1, rs2 } => {
            let a = c.reg(rs1);
            let b = c.reg(rs2);
            done(c.write(rd, srl_spec(a, b)), bus)
        },
        Inst::Sra { rd, rs1, rs2 } => {
            let a = c.reg(rs1);
            let b = c.reg(rs2);
            done(c.write(rd, sra_spec(a, b)), bus)
        },
        Inst::Or { rd, rs1, rs2 } => {
            let a = c.reg(rs1);
            let b = c.reg(rs2);
            done(c.write(rd, a | b), bus)
        },
        Inst::And { rd, rs1, rs2 } => {
            let a = c.reg(rs1);
            let b = c.reg(rs2);
            done(c.write(rd, a & b), bus)
        },
        Inst::Mul { rd, rs1, rs2 } => {
            let a = c.reg(rs1);
            let b = c.reg(rs2);
            done(c.write(rd, mul_spec(a, b)), bus)
        },
        Inst::Mulh { rd, rs1, rs2 } => {
            let a = c.reg(rs1);
            let b = c.reg(rs2);
            done(c.write(rd, mulh_spec(a, b)), bus)
        },
        Inst::Mulhsu { rd, rs1, rs2 } => {
            let a = c.reg(rs1);
            let b = c.reg(rs2);
            done(c.write(rd, mulhsu_spec(a, b)), bus)
        },
        Inst::Mulhu { rd, rs1, rs2 } => {
            let a = c.reg(rs1);
            let b = c.reg(rs2);
            done(c.write(rd, mulhu_spec(a, b)), bus)
        },
        Inst::Div { rd, rs1, rs2 } => {
            let a = c.reg(rs1);
            let b = c.reg(rs2);
            done(c.write(rd, div_spec(a, b)), bus)
        },
        Inst::Divu { rd, rs1, rs2 } => {
            let a = c.reg(rs1);
            let b = c.reg(rs2);
            done(c.write(rd, divu_spec(a, b)), bus)
        },
        Inst::Rem { rd, rs1, rs2 } => {
            let a = c.reg(rs1);
            let b = c.reg(rs2);
            done(c.write(rd, rem_spec(a, b)), bus)
        },
        Inst::Remu { rd, rs1, rs2 } => {
            let a = c.reg(rs1);
            let b = c.reg(rs2);
            done(c.write(rd, remu_spec(a, b)), bus)
        },
        _ => done(c, bus),
    }
}

/// The effect of an instruction that combines the low words of two registers,
/// multiply and divide included.
#[verifier::opaque]
pub open spec fn op_32_spec(c: CpuView, bus: BusView, inst: Inst) -> Outcome<()> {
    match inst {
        Inst::Addw { rd, rs1, rs2 } => {
            let a = c.reg(rs1);
            let b = c.reg(rs2);
            done(c.write(rd, addw_spec(a, b)), bus)
        },
        Inst::Subw { rd, rs1, rs2 } => {
            let a = c.reg(rs1);
            let b = c.reg(rs2);
            done(c.write(rd, subw_spec(a, b)), bus)
        },
        Inst::Sllw { rd, rs1, rs2 } => {
            let a = c.reg(rs1);
            let b = c.reg(rs2);
            done(c.write(rd, sllw_spec(a, b)), bus)
        },
        Inst::Srlw { rd, rs1, rs2 } => {
            let a = c.reg(rs1);
            let b = c.reg(rs2);
            done(c.write(rd, srlw_spec(a, b)), bus)
        },
        Inst::Sraw { rd, rs1, rs2 } => {
            let a = c.reg(rs1);
            let b = c.reg(rs2);
            done(c.write(rd, sraw_spec(a, b)), bus)
        },
        Inst::Mulw { rd, rs1, rs2 } => {
            let a = c.reg(rs1);
            let b = c.reg(rs2);
            done(c.write(rd, mulw_spec(a, b)), bus)
        },
        Inst::Divw { rd, rs1, rs2 } => {
            let a = c.reg(rs1);
            let b = c.reg(rs2);
            done(c.write(rd, divw_spec(a, b)), bus)
        },
        Inst::Divuw { rd, rs1, rs2 } => {
            let a = c.reg(rs1);
            let b = c.reg(rs2);
            done(c.write(rd, divuw_spec(a, b)), bus)
        },
        Inst::Remw { rd, rs1, rs2 } => {
            let a = c.reg(rs1);
            let b = c.reg(rs2);
            done(c.write(rd, remw_spec(a, b)), bus)
        },
        Inst::Remuw { rd, rs1, rs2 } => {
            let a = c.reg(rs1);
            let b = c.reg(rs2);
            done(c.write(rd, remuw_spec(a, b)), bus)
        },
        _ => done(c, bus),
    }
}

/// The effect of an atomic operation on a word. The address is the register
/// `rs1`.
#[verifier::opaque]
pub open spec fn atomic_w_spec(c: CpuView, bus: BusView, inst: Inst) -> Outcome<()> {
    match inst {
        Inst::Lrw { rd, rs1, .. } => lr_op(c, bus, rd, c.reg(rs1), 32),
        Inst::Scw { rd, rs1, rs2, .. } => sc_op(c, bus, rd, c.reg(rs1), c.reg(rs2), 32),
        Inst::Amoswapw { rd, rs1, rs2, .. } => amo_op(
            c,
            bus,
            rd,
            c.reg(rs1),
            c.reg(rs2),
            32,
            AmoOp::Swap,
        ),
        Inst::Amoaddw { rd, rs1, rs2, .. } => amo_op(
            c,
            bus,
            rd,
            c.reg(rs1),
            c.reg(rs2),
            32,
            AmoOp::Add,
        ),
        Inst::Amoxorw { rd, rs1, rs2, .. } => amo_op(
            c,
            bus,
            rd,
            c.reg(rs1),
            c.reg(rs2),
            32,
            AmoOp::Xor,
        ),
        Inst::Amoandw { rd, rs1, rs2, .. } => amo_op(
            c,
            bus,
            rd,
            c.reg(rs1),
            c.reg(rs2),
            32,
            AmoOp::And,
        ),
        Inst::Amoorw { rd, rs1, rs2, .. } => amo_op(
            c,
            bus,
            rd,
            c.reg(rs1),
            c.reg(rs2),
            32,
            AmoOp::Or,
        ),
        Inst::Amominw { rd, rs1, rs2, .. } => amo_op(
            c,
            bus,
            rd,
            c.reg(rs1),
            c.reg(rs2),
            32,
            AmoOp::Min,
        ),
        Inst::Amomaxw { rd, rs1, rs2, .. } => amo_op(
            c,
            bus,
            rd,
            c.reg(rs1),
            c.reg(rs2),
            32,
            AmoOp::Max,
        ),
        Inst::Amominuw { rd, rs1, rs2, .. } => amo_op(
            c,
            bus,
            rd,
            c.reg(rs1),
            c.reg(rs2),
            32,
            AmoOp::Minu,
        ),
        Inst::Amomaxuw { rd, rs1, rs2, .. } => amo_op(
            c,
            bus,
            rd,
            c.reg(rs1),
            c.reg(rs2),
            32,
            AmoOp::Maxu,
        ),
        _ => done(c, bus),
    }
}

/// The effect of an atomic operation on a doubleword. The address is the
/// register `rs1`.
#[verifier::opaque]
pub open spec fn atomic_d_spec(c: CpuView, bus: BusView, inst: Inst) -> Outcome<()> {
    match inst {
        Inst::Lrd { rd, rs1, .. } => lr_op(c, bus, rd, c.reg(rs1), 64),
        Inst::Scd { rd, rs1, rs2, .. } => sc_op(c, bus, rd, c.reg(rs1), c.reg(rs2), 64),
        Inst::Amoswapd { rd, rs1, rs2, .. } => amo_op(
            c,
            bus,
            rd,
            c.reg(rs1),
            c.reg(rs2),
            64,
            AmoOp::Swap,
        ),
        Inst::Amoaddd { rd, rs1, rs2, .. } => amo_op(
            c,
            bus,
            rd,
            c.reg(rs1),
            c.reg(rs2),
            64,
            AmoOp::Add,
        ),
        Inst::Amoxord { rd, rs1, rs2, .. } => amo_op(
            c,
            bus,
            rd,
            c.reg(rs1),
            c.reg(rs2),
            64,
            AmoOp::Xor,
        ),
        Inst::Amoandd { rd, rs1, rs2, .. } => amo_op(
            c,
            bus,
            rd,
            c.reg(rs1),
            c.reg(rs2),
            64,
            AmoOp::And,
        ),
        Inst::Amoord { rd, rs1, rs2, .. } => amo_op(
            c,
            bus,
            rd,
            c.reg(rs1),
            c.reg(rs2),
            64,
            AmoOp::Or,
        ),
        Inst::Amomind { rd, rs1, rs2, .. } => amo_op(
            c,
            bus,
            rd,
            c.reg(rs1),
            c.reg(rs2),
            64,
            AmoOp::Min,
        ),
        Inst::Amomaxd { rd, rs1, rs2, .. } => amo_op(
            c,
            bus,
            rd,
            c.reg(rs1),
            c.reg(rs2),
            64,
            AmoOp::Max,
        ),
        Inst::Amominud { rd, rs1, rs2, .. } => amo_op(
            c,
            bus,
            rd,
            c.reg(rs1),
            c.reg(rs2),
            64,
            AmoOp::Minu,
        ),
        Inst::Amomaxud { rd, rs1, rs2, .. } => amo_op(
            c,
            bus,
            rd,
            c.reg(rs1),
            c.reg(rs2),
            64,
            AmoOp::Maxu,
        ),
        _ => done(c, bus),
    }
}

/// The effect of one decoded instruction on a hart whose program counter
/// already points past it.
///
/// Everything relative to the program counter is relative to the address of the
/// instruction, which lies four below the program counter. An instruction that
/// raises an exception leaves the hart as it was.
pub open spec fn exec_spec(c: CpuView, bus: BusView, inst: Inst) -> Outcome<()> {
    if inst.is_op_imm() {
        op_imm_spec(c, bus, inst)
    } else if inst.is_memory() {
        memory_spec(c, bus, inst)
    } else if inst.is_system() {
        system_spec(c, bus, inst)
    } else if inst.is_jump() {
        jump_spec(c, bus, inst)
    } else if inst.is_op() {
        op_spec(c, bus, inst)
    } else if inst.is_op_32() {
        op_32_spec(c, bus, inst)
    } else if inst.is_atomic_w() {
        atomic_w_spec(c, bus, inst)
    } else {
        atomic_d_spec(c, bus, inst)
    }
}

/// The effect of executing the instruction word `word` on a hart whose program
/// counter already points past it: the word is decoded, `x[0]` is zeroed, and the
/// instruction takes effect. A word that does not decode changes nothing.
pub open spec fn execute_spec(c: CpuView, bus: BusView, word: u32) -> Outcome<Inst> {
    match decode_spec(word) {
        Ok(inst) => {
            let o = exec_spec(c.zero_x0(), bus, inst);
            Outcome {
                cpu: o.cpu,
                bus: o.bus,
                result: match o.result {
                    Ok(()) => Ok(inst),
                    Err(e) => Err(e),
                },
            }
        },
        Err(e) => Outcome { cpu: c, bus, result: Err(e) },
    }
}

/// The fetch of the instruction word at the program counter, which then moves
/// past it. A program counter that is not a multiple of four is an
/// instruction-address-misaligned exception; a failed fetch leaves the program
/// counter where it was.
pub open spec fn fetch_spec(c: CpuView, bus: BusView) -> Outcome<u32> {
    if c.pc & 3 != 0 {
        Outcome { cpu: c, bus, result: Err(Exception::InstructionAddressMisaligned) }
    } else {
        let (bus1, r) = bus.load_spec(c.pc, 32);
        match r {
            Ok(v) => Outcome { cpu: c.jump(add_spec(c.pc, 4)), bus: bus1, result: Ok(low32(v)) },
            Err(e) => Outcome { cpu: c, bus: bus1, result: Err(e) },
        }
    }
}

/// One step of the hart: `x[0]` is zeroed, the instruction at the program
/// counter is fetched, decoded and executed. A step that raises an exception
/// leaves the program counter at the instruction that raised it.
pub open spec fn tick_spec(c: CpuView, bus: BusView) -> Outcome<Inst> {
    let f = fetch_spec(c.zero_x0(), bus);
    match f.result {
        Ok(word) => {
            let o = execute_spec(f.cpu, f.bus, word);
            if o.result is Ok {
                o
            } else {
                Outcome { cpu: o.cpu.jump(c.pc), ..o }
            }
        },
        Err(e) => Outcome { cpu: f.cpu, bus: f.bus, result: Err(e) },
    }
}

/// The hart and the bus after the check for a pending interrupt, and the
/// interrupt to take.
///
/// While interrupts are masked nothing happens. Else an edge on the serial
/// port's interrupt line is consumed: the port's request number is recorded in
/// the interrupt controller's claim register, and the supervisor external
/// interrupt is posted. Then the first interrupt that is pending and enabled is
/// taken off the pending register.
pub open spec fn pending_spec(c: CpuView, bus: BusView) -> (CpuView, BusView, Option<Interrupt>) {
    if c.interrupts_masked() {
        (c, bus, None)
    } else {
        let (c1, bus1) = if bus.uart.interrupt {
            (
                c.post(MASK_SEIP),
                BusView {
                    uart: bus.uart.sampled(),
                    plic: Plic { sclaim: UART_IRQ as u32, ..bus.plic },
                    ..bus
                },
            )
        } else {
            (c, bus)
        };
        match c1.next_interrupt() {
            Some((mask, i)) => (c1.unpost(mask), bus1, Some(i)),
            None => (c1, bus1, None),
        }
    }
}

/// Extends a loaded value of `size` bits to the register.
fn extend(v: u64, size: u64, ext: Extend) -> (r: u64)
    ensures
        r == extend_spec(v, size, ext),
{
    match ext {
        Extend::Zero => v,
        Extend::Sign => if size == 8 {
            sign_extend_byte(v)
        } else if size == 16 {
            sign_extend_half(v)
        } else if size == 32 {
            sign_extend_word(v)
        } else {
            v
        },
    }
}

/// The value that an atomic memory operation stores.
fn amo_value(op: AmoOp, old: u64, src: u64, size: u64) -> (r: u64)
    ensures
        r == amo_value_spec(op, old, src, size),
{
    match op {
        AmoOp::Swap => src,
        AmoOp::Add => plus(old, src),
        AmoOp::Xor => old ^ src,
        AmoOp::And => old & src,
        AmoOp::Or => old | src,
        AmoOp::Min => if size == 32 {
            min_signed(sign_extend_word(old), sign_extend_word(src))
        } else {
            min_signed(old, src)
        },
        AmoOp::Max => if size == 32 {
            max_signed(sign_extend_word(old), sign_extend_word(src))
        } else {
            max_signed(old, src)
        },
        AmoOp::Minu => if size == 32 {
            min_unsigned(low_word(old) as u64, low_word(src) as u64)
        } else {
            min_unsigned(old, src)
        },
        AmoOp::Maxu => if size == 32 {
            max_unsigned(low_word(old) as u64, low_word(src) as u64)
        } else {
            max_unsigned(old, src)
        },
    }
}

impl Cpu {
    /// A hart in its reset state.
    pub fn new() -> (r: Self)
        ensures
            r@ == CpuView::initial(),
    {
        Cpu { x: [0u64;32], pc: 0, csr: [0u64;4096], mode: MACHINE, reservation: None }
    }

    /// Puts the hart back into its reset state, and hands the hart back.
    pub fn reset(&mut self) -> (r: &mut Self)
        ensures
            r@ == CpuView::initial(),
            *final(self) == *final(r),
    {
        self.pc = 0;
        self.x = [0u64;32];
        self.csr = [0u64;4096];
        self.mode = MACHINE;
        self.reservation = None;
        self
    }

    /// Runs one step: fetches the instruction at the program counter, decodes
    /// and executes it, and returns the instruction that retired.
    ///
    /// On an exception the program counter stays at the instruction that raised
    /// it. After the step `x[0]` is zero. After an instruction that is no jump,
    /// branch or trap return, the program counter has moved on by four.
    pub fn tick<M: MemIntf>(&mut self, bus: &mut Bus<M>) -> (r: Result<Inst, Exception>)
        ensures
            tick_spec(old(self)@, old(bus)@) == (Outcome {
                cpu: final(self)@,
                bus: final(bus)@,
                result: r,
            }),
            final(self).x[0] == 0,
            r is Err ==> final(self).pc == old(self).pc,
            r is Ok && !r->Ok_0.is_control_transfer() ==> final(self).pc == add_spec(
                old(self).pc,
                4,
            ),
            r is Ok ==> r->Ok_0.wf(),
            old(bus)@.uart.wf() ==> final(bus)@.uart.wf(),
    {
        let pc = self.pc;
        self.x[0] = 0;
        let word = self.fetch(bus)?;
        match self.execute(word, bus) {
            Ok(inst) => Ok(inst),
            Err(e) => {
                self.pc = pc;
                Err(e)
            },
        }
    }

    /// Takes the exception `e`: saves the program counter, records cause and
    /// trap value, updates the status register, and enters the handler in the mode
    /// that the delegation register selects.
    pub fn handle_exception(&mut self, e: Exception)
        ensures
            final(self)@ == old(self)@.take_exception(e),
    {
        let cause = e.code();
        let to_s = self.mode <= SUPERVISOR && (self.csr[MEDELEG] >> cause) & 1 == 1;
        let tvec = if to_s {
            self.csr[STVEC]
        } else {
            self.csr[MTVEC]
        };
        self.enter_trap(to_s, cause, e.value(), tvec & !3u64);
    }

    /// Takes the interrupt `interrupt`: as for an exception, but the trap value
    /// is zero and a vectored trap vector selects the handler by the interrupt's
    /// number.
    pub fn handle_interrupt(&mut self, interrupt: Interrupt)
        ensures
            final(self)@ == old(self)@.take_interrupt(interrupt),
    {
        let number = interrupt.number();
        let to_s = self.mode <= SUPERVISOR && (self.csr[MIDELEG] >> number) & 1 == 1;
        let tvec = if to_s {
            self.csr[STVEC]
        } else {
            self.csr[MTVEC]
        };
        let base = tvec & !3u64;
        let target = if tvec & 1 != 0 {
            plus(base, 4 * number)
        } else {
            base
        };
        self.enter_trap(to_s, interrupt.code(), 0, target);
    }

    /// Enters a trap handler at `target`.
    fn enter_trap(&mut self, to_s: bool, cause: u64, tval: u64, target: u64)
        ensures
            final(self)@ == old(self)@.enter_trap(to_s, cause, tval, target),
    {
        let mode = self.mode;
        if to_s {
            let status = self.csr[SSTATUS];
            let ie = (status & MASK_SIE) >> 1;
            self.csr[SEPC] = self.pc;
            self.csr[SCAUSE] = cause;
            self.csr[STVAL] = tval;
            self.csr[SSTATUS] = ((((status & !MASK_SPIE) | (ie << 5)) & !MASK_SIE) & !MASK_SPP) | ((
            mode & 1) << 8);
            self.mode = SUPERVISOR;
        } else {
            let status = self.csr[MSTATUS];
            let ie = (status & MASK_MIE) >> 3;
            self.csr[MEPC] = self.pc;
            self.csr[MCAUSE] = cause;
            self.csr[MTVAL] = tval;
            self.csr[MSTATUS] = ((((status & !MASK_MPIE) | (ie << 7)) & !MASK_MIE) & !MASK_MPP) | ((
            mode & 3) << 11);
            self.mode = MACHINE;
        }
        self.pc = target;
    }

    /// Looks for an interrupt to take.
    ///
    /// Nothing is looked at while interrupts are masked. Else an edge on the
    /// serial port's interrupt line is recorded in the interrupt controller and
    /// posted as a supervisor external interrupt, and the first interrupt that is
    /// pending and enabled is taken off the pending register and returned. The
    /// check never fails.
    pub fn check_pending_interrupt<M: MemIntf>(&mut self, bus: &mut Bus<M>) -> (r: Result<
        Option<Interrupt>,
        Exception,
    >)
        ensures
            r is Ok,
            (final(self)@, final(bus)@, r->Ok_0) == pending_spec(old(self)@, old(bus)@),
            old(bus)@.uart.wf() ==> final(bus)@.uart.wf(),
    {
        if self.mode == MACHINE && (self.csr[MSTATUS] & MASK_MIE) == 0 {
            return Ok(None);
        }
        if self.mode == SUPERVISOR && (self.csr[SSTATUS] & MASK_SIE) == 0 {
            return Ok(None);
        }
        if bus.uart.is_interrupting() {
            proof {
                lemma_low32_small(UART_IRQ);
            }
            bus.store(PLIC_BASE + PLIC_SCLAIM, UART_IRQ, 32)?;
            self.csr[MIP] = self.csr[MIP] | MASK_SEIP;
        }
        let pending = self.csr[MIE] & self.csr[MIP];
        if (pending & MASK_MEIP) != 0 {
            self.csr[MIP] = self.csr[MIP] & !MASK_MEIP;
            return Ok(Some(Interrupt::MachineExternalInterrupt));
        }
        if (pending & MASK_MSIP) != 0 {
            self.csr[MIP] = self.csr[MIP] & !MASK_MSIP;
            return Ok(Some(Interrupt::MachineSoftwareInterrupt));
        }
        if (pending & MASK_MTIP) != 0 {
            self.csr[MIP] = self.csr[MIP] & !MASK_MTIP;
            return Ok(Some(Interrupt::MachineTimerInterrupt));
        }
        if (pending & MASK_SEIP) != 0 {
            self.csr[MIP] = self.csr[MIP] & !MASK_SEIP;
            return Ok(Some(Interrupt::SupervisorExternalInterrupt));
        }
        if (pending & MASK_STIP) != 0 {
            self.csr[MIP] = self.csr[MIP] & !MASK_STIP;
            return Ok(Some(Interrupt::SupervisorTimerInterrupt));
        }
        if (pending & MASK_SSIP) != 0 {
            self.csr[MIP] = self.csr[MIP] & !MASK_SSIP;
            return Ok(Some(Interrupt::SupervisorSoftwareInterrupt));
        }
        Ok(None)
    }

    /// Raises the machine timer interrupt in the pending register.
    pub fn post_timer_interrupt(&mut self)
        ensures
            final(self)@ == old(self)@.post(MASK_MTIP),
    {
        self.csr[MIP] = self.csr[MIP] | MASK_MTIP;
    }

    /// Fetches the instruction word at the program counter and moves the
    /// program counter past it.
    pub fn fetch<M: MemIntf>(&mut self, bus: &mut Bus<M>) -> (r: Result<u32, Exception>)
        ensures
            fetch_spec(old(self)@, old(bus)@) == (Outcome {
                cpu: final(self)@,
                bus: final(bus)@,
                result: r,
            }),
            r is Err ==> final(self)@ == old(self)@,
            r is Ok ==> final(self).pc == add_spec(old(self).pc, 4),
            final(self).x == old(self).x,
            old(bus)@.uart.wf() ==> final(bus)@.uart.wf(),
    {
        if self.pc & 3 != 0 {
            return Err(Exception::InstructionAddressMisaligned);
        }
        let v = bus.load(self.pc, 32)?;
        self.pc = plus(self.pc, 4);
        Ok(low_word(v))
    }

    /// Decodes an instruction word.
    ///
    /// A word whose opcode selects no row of the opcode table, or whose function
    /// fields name no operation, is an illegal instruction with the word as its
    /// trap value.
    pub fn decode(inst: u32) -> (r: Result<Inst, Exception>)
        ensures
            r == decode_spec(inst),
            r is Ok ==> r->Ok_0.wf(),
            r is Err ==> r == illegal(inst),
            format_of(opcode_of(inst)) is None ==> r == illegal(inst),
    {
        decode_word(inst)
    }

    /// Decodes and executes the instruction word `inst` on a hart whose program
    /// counter already points past it, and returns the instruction.
    pub fn execute<M: MemIntf>(&mut self, inst: u32, bus: &mut Bus<M>) -> (r: Result<
        Inst,
        Exception,
    >)
        ensures
            execute_spec(old(self)@, old(bus)@, inst) == (Outcome {
                cpu: final(self)@,
                bus: final(bus)@,
                result: r,
            }),
            old(self).x[0] == 0 ==> final(self).x[0] == 0,
            r is Ok ==> r->Ok_0.wf(),
            r is Ok && !r->Ok_0.is_control_transfer() ==> final(self).pc == old(self).pc,
            old(bus)@.uart.wf() ==> final(bus)@.uart.wf(),
    {
        let inst = Self::decode(inst)?;
        self.x[0] = 0;
        match self.dispatch(inst, bus) {
            Ok(()) => Ok(inst),
            Err(e) => Err(e),
        }
    }

    /// Writes `v` to register `rd`, unless that is `x[0]`.
    fn write(&mut self, rd: usize, v: u64) -> (r: Result<(), Exception>)
        requires
            rd < 32,
        ensures
            final(self)@ == old(self)@.write(rd, v),
            final(self).x[0] == old(self).x[0],
            r == Ok::<(), Exception>(()),
    {
        if rd != 0 {
            self.x[rd] = v;
        }
        Ok(())
    }

    /// Moves the program counter by `imm` from the address of the branch where
    /// the branch is taken.
    fn branch(&mut self, taken: bool, imm: i64) -> (r: Result<(), Exception>)
        ensures
            final(self)@ == old(self)@.branch(taken, imm),
            r == Ok::<(), Exception>(()),
    {
        if taken {
            self.pc = plus(minus(self.pc, 4), as_unsigned(imm));
        }
        Ok(())
    }

    /// The environment call that the current mode raises.
    fn environment_call(&self) -> (e: Exception)
        ensures
            e == environment_call(self.mode),
    {
        if self.mode == USER {
            Exception::EnvironmentCallFromUMode
        } else if self.mode == SUPERVISOR {
            Exception::EnvironmentCallFromSMode
        } else {
            Exception::EnvironmentCallFromMMode
        }
    }

    /// Returns from a trap taken in supervisor mode.
    fn sret(&mut self) -> (r: Result<(), Exception>)
        ensures
            final(self)@ == old(self)@.sret(),
            r == Ok::<(), Exception>(()),
    {
        let status = self.csr[SSTATUS];
        let pie = (status & MASK_SPIE) >> 5;
        self.mode = (status & MASK_SPP) >> 8;
        self.csr[SSTATUS] = (((status & !MASK_SIE) | (pie << 1)) | MASK_SPIE) & !MASK_SPP;
        self.pc = self.csr[SEPC] & !3u64;
        Ok(())
    }

    /// Returns from a trap taken in machine mode.
    fn mret(&mut self) -> (r: Result<(), Exception>)
        ensures
            final(self)@ == old(self)@.mret(),
            r == Ok::<(), Exception>(()),
    {
        let status = self.csr[MSTATUS];
        let pie = (status & MASK_MPIE) >> 7;
        self.mode = (status & MASK_MPP) >> 11;
        self.csr[MSTATUS] = ((((status & !MASK_MIE) | (pie << 3)) | MASK_MPIE) & !MASK_MPP)
            & !MASK_MPRV;
        self.pc = self.csr[MEPC] & !3u64;
        Ok(())
    }

    fn load_op<M: MemIntf>(
        &mut self,
        bus: &mut Bus<M>,
        rd: usize,
        addr: u64,
        size: u64,
        ext: Extend,
    ) -> (r: Result<(), Exception>)
        requires
            rd < 32,
        ensures
            load_op(old(self)@, old(bus)@, rd, addr, size, ext) == (Outcome {
                cpu: final(self)@,
                bus: final(bus)@,
                result: r,
            }),
            old(bus)@.uart.wf() ==> final(bus)@.uart.wf(),
            final(self).x[0] == old(self).x[0],
            final(self).pc == old(self).pc,
    {
        reveal(load_op);
        let v = bus.load(addr, size)?;
        self.write(rd, extend(v, size, ext))
    }

    fn store_op<M: MemIntf>(&mut self, bus: &mut Bus<M>, addr: u64, val: u64, size: u64) -> (r:
        Result<(), Exception>)
        ensures
            store_op(old(self)@, old(bus)@, addr, val, size) == (Outcome {
                cpu: final(self)@,
                bus: final(bus)@,
                result: r,
            }),
            old(bus)@.uart.wf() ==> final(bus)@.uart.wf(),
            final(self).x == old(self).x,
            final(self).pc == old(self).pc,
    {
        reveal(store_op);
        bus.store(addr, val, size)?;
        self.reservation = None;
        Ok(())
    }

    fn lr_op<M: MemIntf>(&mut self, bus: &mut Bus<M>, rd: usize, addr: u64, size: u64) -> (r:
        Result<(), Exception>)
        requires
            rd < 32,
        ensures
            lr_op(old(self)@, old(bus)@, rd, addr, size) == (Outcome {
                cpu: final(self)@,
                bus: final(bus)@,
                result: r,
            }),
            old(bus)@.uart.wf() ==> final(bus)@.uart.wf(),
            final(self).x[0] == old(self).x[0],
            final(self).pc == old(self).pc,
    {
        reveal(lr_op);
        let v = bus.load(addr, size)?;
        self.reservation = Some(addr);
        self.write(rd, extend(v, size, Extend::Sign))
    }

    fn sc_op<M: MemIntf>(
        &mut self,
        bus: &mut Bus<M>,
        rd: usize,
        addr: u64,
        val: u64,
        size: u64,
    ) -> (r: Result<(), Exception>)
        requires
            rd < 32,
        ensures
            sc_op(old(self)@, old(bus)@, rd, addr, val, size) == (Outcome {
                cpu: final(self)@,
                bus: final(bus)@,
                result: r,
            }),
            old(bus)@.uart.wf() ==> final(bus)@.uart.wf(),
            final(self).x[0] == old(self).x[0],
            final(self).pc == old(self).pc,
    {
        reveal(sc_op);
        let reserved = match self.reservation {
            Some(a) => a == addr,
            None => false,
        };
        if reserved {
            bus.store(addr, val, size)?;
            self.reservation = None;
            self.write(rd, 0)
        } else {
            self.reservation = None;
            self.write(rd, 1)
        }
    }

    fn amo_op<M: MemIntf>(
        &mut self,
        bus: &mut Bus<M>,
        rd: usize,
        addr: u64,
        src: u64,
        size: u64,
        op: AmoOp,
    ) -> (r: Result<(), Exception>)
        requires
            rd < 32,
        ensures
            amo_op(old(self)@, old(bus)@, rd, addr, src, size, op) == (Outcome {
                cpu: final(self)@,
                bus: final(bus)@,
                result: r,
            }),
            old(bus)@.uart.wf() ==> final(bus)@.uart.wf(),
            final(self).x[0] == old(self).x[0],
            final(self).pc == old(self).pc,
    {
        reveal(amo_op);
        let old = bus.load(addr, size)?;
        bus.store(addr, amo_value(op, old, src, size), size)?;
        self.reservation = None;
        self.write(rd, extend(old, size, Extend::Sign))
    }

    /// Arithmetic with an immediate.
    fn exec_op_imm(&mut self, inst: Inst, Ghost(bus): Ghost<BusView>) -> (r: Result<(), Exception>)
        requires
            inst.wf(),
            inst.is_op_imm(),
            old(self).x[0] == 0,
        ensures
            op_imm_spec(old(self)@, bus, inst) == (Outcome { cpu: final(self)@, bus, result: r }),
            final(self).x[0] == 0,
            r is Ok && !inst.is_control_transfer() ==> final(self).pc == old(self).pc,
    {
        reveal(op_imm_spec);
        match inst {
            Inst::Addi { rd, rs1, imm } => {
                let a = self.x[rs1];
                let b = as_unsigned(imm);
                self.write(rd, plus(a, b))
            },
            Inst::Slti { rd, rs1, imm } => {
                let a = self.x[rs1];
                let b = as_unsigned(imm);
                self.write(rd, slt(a, b))
            },
            Inst::Sltiu { rd, rs1, imm } => {
                let a = self.x[rs1];
                let b = as_unsigned(imm);
                self.write(rd, sltu(a, b))
            },
            Inst::Xori { rd, rs1, imm } => {
                let a = self.x[rs1];
                let b = as_unsigned(imm);
                self.write(rd, a ^ b)
            },
            Inst::Ori { rd, rs1, imm } => {
                let a = self.x[rs1];
                let b = as_unsigned(imm);
                self.write(rd, a | b)
            },
            Inst::Andi { rd, rs1, imm } => {
                let a = self.x[rs1];
                let b = as_unsigned(imm);
                self.write(rd, a & b)
            },
            Inst::Addiw { rd, rs1, imm } => {
                let a = self.x[rs1];
                let b = as_unsigned(imm);
                self.write(rd, addw(a, b))
            },
            Inst::Slli { rd, rs1, shamt } => {
                let a = self.x[rs1];
                let b = shamt as u64;
                self.write(rd, sll(a, b))
            },
            Inst::Srli { rd, rs1, shamt } => {
                let a = self.x[rs1];
                let b = shamt as u64;
                self.write(rd, srl(a, b))
            },
            Inst::Srai { rd, rs1, shamt } => {
                let a = self.x[rs1];
                let b = shamt as u64;
                self.write(rd, sra(a, b))
            },
            Inst::Slliw { rd, rs1, shamt } => {
                let a = self.x[rs1];
                let b = shamt as u64;
                self.write(rd, sllw(a, b))
            },
            Inst::Srliw { rd, rs1, shamt } => {
                let a = self.x[rs1];
                let b = shamt as u64;
                self.write(rd, srlw(a, b))
            },
            Inst::Sraiw { rd, rs1, shamt } => {
                let a = self.x[rs1];
                let b = shamt as u64;
                self.write(rd, sraw(a, b))
            },
            _ => Ok(()),
        }
    }

    /// Loads and stores.
    fn exec_memory<M: MemIntf>(&mut self, inst: Inst, bus: &mut Bus<M>) -> (r: Result<(), Exception>)
        requires
            inst.wf(),
            inst.is_memory(),
            old(self).x[0] == 0,
        ensures
            memory_spec(old(self)@, old(bus)@, inst) == (Outcome {
                cpu: final(self)@,
                bus: final(bus)@,
                result: r,
            }),
            final(self).x[0] == 0,
            r is Ok ==> final(self).pc == old(self).pc,
            old(bus)@.uart.wf() ==> final(bus)@.uart.wf(),
    {
        reveal(memory_spec);
        match inst {
            Inst::Lb { rd, rs1, imm } => {
                let addr = plus(self.x[rs1], as_unsigned(imm));
                self.load_op(bus, rd, addr, 8, Extend::Sign)
            },
            Inst::Lh { rd, rs1, imm } => {
                let addr = plus(self.x[rs1], as_unsigned(imm));
                self.load_op(bus, rd, addr, 16, Extend::Sign)
            },
            Inst::Lw { rd, rs1, imm } => {
                let addr = plus(self.x[rs1], as_unsigned(imm));
                self.load_op(bus, rd, addr, 32, Extend::Sign)
            },
            Inst::Ld { rd, rs1, imm } => {
                let addr = plus(self.x[rs1], as_unsigned(imm));
                self.load_op(bus, rd, addr, 64, Extend::Zero)
            },
            Inst::Lbu { rd, rs1, imm } => {
                let addr = plus(self.x[rs1], as_unsigned(imm));
                self.load_op(bus, rd, addr, 8, Extend::Zero)
            },
            Inst::Lhu { rd, rs1, imm } => {
                let addr = plus(self.x[rs1], as_unsigned(imm));
                self.load_op(bus, rd, addr, 16, Extend::Zero)
            },
            Inst::Lwu { rd, rs1, imm } => {
                let addr = plus(self.x[rs1], as_unsigned(imm));
                self.load_op(bus, rd, addr, 32, Extend::Zero)
            },
            Inst::Sb { rs1, rs2, imm } => {
                let addr = plus(self.x[rs1], as_unsigned(imm));
                let val = self.x[rs2];
                self.store_op(bus, addr, val, 8)
            },
            Inst::Sh { rs1, rs2, imm } => {
                let addr = plus(self.x[rs1], as_unsigned(imm));
                let val = self.x[rs2];
                self.store_op(bus, addr, val, 16)
            },
            Inst::Sw { rs1, rs2, imm } => {
                let addr = plus(self.x[rs1], as_unsigned(imm));
                let val = self.x[rs2];
                self.store_op(bus, addr, val, 32)
            },
            Inst::Sd { rs1, rs2, imm } => {
                let addr = plus(self.x[rs1], as_unsigned(imm));
                let val = self.x[rs2];
                self.store_op(bus, addr, val, 64)
            },
            _ => Ok(()),
        }
    }

    /// Fences, environment calls, trap returns, and the status-register instructions.
    fn exec_system(&mut self, inst: Inst, Ghost(bus): Ghost<BusView>) -> (r: Result<(), Exception>)
        requires
            inst.wf(),
            inst.is_system(),
            old(self).x[0] == 0,
        ensures
            system_spec(old(self)@, bus, inst) == (Outcome { cpu: final(self)@, bus, result: r }),
            final(self).x[0] == 0,
            r is Ok && !inst.is_control_transfer() ==> final(self).pc == old(self).pc,
    {
        reveal(system_spec);
        match inst {
            Inst::Fence { .. } => Ok(()),
            Inst::Fencei { .. } => Ok(()),
            Inst::Sfencevma => Ok(()),
            Inst::Ebreak => Err(Exception::Breakpoint(minus(self.pc, 4))),
            Inst::Ecall => Err(self.environment_call()),
            Inst::Sret => self.sret(),
            Inst::Mret => self.mret(),
            Inst::Csrrw { rd, rs1, csr } => {
                let old = self.csr[csr];
                let src = self.x[rs1];
                self.csr[csr] = src;
                self.write(rd, old)
            },
            Inst::Csrrs { rd, rs1, csr } => {
                let old = self.csr[csr];
                let src = self.x[rs1];
                self.csr[csr] = old | src;
                self.write(rd, old)
            },
            Inst::Csrrc { rd, rs1, csr } => {
                let old = self.csr[csr];
                let src = self.x[rs1];
                self.csr[csr] = old & !src;
                self.write(rd, old)
            },
            Inst::Csrrwi { rd, uimm, csr } => {
                let old = self.csr[csr];
                let src = uimm;
                self.csr[csr] = src;
                self.write(rd, old)
            },
            Inst::Csrrsi { rd, uimm, csr } => {
                let old = self.csr[csr];
                let src = uimm;
                self.csr[csr] = old | src;
                self.write(rd, old)
            },
            Inst::Csrrci { rd, uimm, csr } => {
                let old = self.csr[csr];
                let src = uimm;
                self.csr[csr] = old & !src;
                self.write(rd, old)
            },
            _ => Ok(()),
        }
    }

    /// Upper immediates, jumps and branches.
    fn exec_jump(&mut self, inst: Inst, Ghost(bus): Ghost<BusView>) -> (r: Result<(), Exception>)
        requires
            inst.wf(),
            inst.is_jump(),
            old(self).x[0] == 0,
        ensures
            jump_spec(old(self)@, bus, inst) == (Outcome { cpu: final(self)@, bus, result: r }),
            final(self).x[0] == 0,
            r is Ok && !inst.is_control_transfer() ==> final(self).pc == old(self).pc,
    {
        reveal(jump_spec);
        match inst {
            Inst::Lui { rd, imm } => self.write(rd, as_unsigned(imm)),
            Inst::Auipc { rd, imm } => {
                let v = plus(minus(self.pc, 4), as_unsigned(imm));
                self.write(rd, v)
            },
            Inst::Jal { rd, imm } => {
                let target = plus(minus(self.pc, 4), as_unsigned(imm));
                let link = self.pc;
                self.pc = target;
                self.write(rd, link)
            },
            Inst::Jalr { rd, rs1, imm } => {
                let target = plus(self.x[rs1], as_unsigned(imm)) & !1u64;
                let link = self.pc;
                self.pc = target;
                self.write(rd, link)
            },
            Inst::Beq { rs1, rs2, imm } => {
                let a = self.x[rs1];
                let b = self.x[rs2];
                self.branch(a == b, imm)
            },
            Inst::Bne { rs1, rs2, imm } => {
                let a = self.x[rs1];
                let b = self.x[rs2];
                self.branch(a != b, imm)
            },
            Inst::Blt { rs1, rs2, imm } => {
                let a = self.x[rs1];
                let b = self.x[rs2];
                self.branch(as_signed(a) < as_signed(b), imm)
            },
            Inst::Bge { rs1, rs2, imm } => {
                let a = self.x[rs1];
                let b = self.x[rs2];
                self.branch(as_signed(a) >= as_signed(b), imm)
            },
            Inst::Bltu { rs1, rs2, imm } => {
                let a = self.x[rs1];
                let b = self.x[rs2];
                self.branch(a < b, imm)
            },
            Inst::Bgeu { rs1, rs2, imm } => {
                let a = self.x[rs1];
                let b = self.x[rs2];
                self.branch(a >= b, imm)
            },
            _ => Ok(()),
        }
    }

    /// Register arithmetic on the full register.
    fn exec_op(&mut self, inst: Inst, Ghost(bus): Ghost<BusView>) -> (r: Result<(), Exception>)
        requires
            inst.wf(),
            inst.is_op(),
            old(self).x[0] == 0,
        ensures
            op_spec(old(self)@, bus, inst) == (Outcome { cpu: final(self)@, bus, result: r }),
            final(self).x[0] == 0,
            r is Ok && !inst.is_control_transfer() ==> final(self).pc == old(self).pc,
    {
        reveal(op_spec);
        match inst {
            Inst::Add { rd, rs1, rs2 } => {
                let a = self.x[rs1];
                let b = self.x[rs2];
                self.write(rd, plus(a, b))
            },
            Inst::Sub { rd, rs1, rs2 } => {
                let a = self.x[rs1];
                let b = self.x[rs2];
                self.write(rd, minus(a, b))
            },
            Inst::Sll { rd, rs1, rs2 } => {
                let a = self.x[rs1];
                let b = self.x[rs2];
                self.write(rd, sll(a, b))
            },
            Inst::Slt { rd, rs1, rs2 } => {
                let a = self.x[rs1];
                let b = self.x[rs2];
                self.write(rd, slt(a, b))
            },
            Inst::Sltu { rd, rs1, rs2 } => {
                let a = self.x[rs1];
                let b = self.x[rs2];
                self.write(rd, sltu(a, b))
            },
            Inst::Xor { rd, rs1, rs2 } => {
                let a = self.x[rs1];
                let b = self.x[rs2];
                self.write(rd, a ^ b)
            },
            Inst::Srl { rd, rs1, rs2 } => {
                let a = self.x[rs1];
                let b = self.x[rs2];
                self.write(rd, srl(a, b))
            },
            Inst::Sra { rd, rs1, rs2 } => {
                let a = self.x[rs1];
                let b = self.x[rs2];
                self.write(rd, sra(a, b))
            },
            Inst::Or { rd, rs1, rs2 } => {
                let a = self.x[rs1];
                let b = self.x[rs2];
                self.write(rd, a | b)
            },
            Inst::And { rd, rs1, rs2 } => {
                let a = self.x[rs1];
                let b = self.x[rs2];
                self.write(rd, a & b)
            },
            Inst::Mul { rd, rs1, rs2 } => {
                let a = self.x[rs1];
                let b = self.x[rs2];
                self.write(rd, times(a, b))
            },
            Inst::Mulh { rd, rs1, rs2 } => {
                let a = self.x[rs1];
                let b = self.x[rs2];
                self.write(rd, mulh(a, b))
            },
            Inst::Mulhsu { rd, rs1, rs2 } => {
                let a = self.x[rs1];
                let b = self.x[rs2];
                self.write(rd, mulhsu(a, b))
            },
            Inst::Mulhu { rd, rs1, rs2 } => {
                let a = self.x[rs1];
                let b = self.x[rs2];
                self.write(rd, mulhu(a, b))
            },
            Inst::Div { rd, rs1, rs2 } => {
                let a = self.x[rs1];
                let b = self.x[rs2];
                self.write(rd, div(a, b))
            },
            Inst::Divu { rd, rs1, rs2 } => {
                let a = self.x[rs1];
                let b = self.x[rs2];
                self.write(rd, divu(a, b))
            },
            Inst::Rem { rd, rs1, rs2 } => {
                let a = self.x[rs1];
                let b = self.x[rs2];
                self.write(rd, rem(a, b))
            },
            Inst::Remu { rd, rs1, rs2 } => {
                let a = self.x[rs1];
                let b = self.x[rs2];
                self.write(rd, remu(a, b))
            },
            _ => Ok(()),
        }
    }

    /// Register arithmetic on the low word.
    fn exec_op_32(&mut self, inst: Inst, Ghost(bus): Ghost<BusView>) -> (r: Result<(), Exception>)
        requires
            inst.wf(),
            inst.is_op_32(),
            old(self).x[0] == 0,
        ensures
            op_32_spec(old(self)@, bus, inst) == (Outcome { cpu: final(self)@, bus, result: r }),
            final(self).x[0] == 0,
            r is Ok && !inst.is_control_transfer() ==> final(self).pc == old(self).pc,
    {
        reveal(op_32_spec);
        match inst {
            Inst::Addw { rd, rs1, rs2 } => {
                let a = self.x[rs1];
                let b = self.x[rs2];
                self.write(rd, addw(a, b))
            },
            Inst::Subw { rd, rs1, rs2 } => {
                let a = self.x[rs1];
                let b = self.x[rs2];
                self.write(rd, subw(a, b))
            },
            Inst::Sllw { rd, rs1, rs2 } => {
                let a = self.x[rs1];
                let b = self.x[rs2];
                self.write(rd, sllw(a, b))
            },
            Inst::Srlw { rd, rs1, rs2 } => {
                let a = self.x[rs1];
                let b = self.x[rs2];
                self.write(rd, srlw(a, b))
            },
            Inst::Sraw { rd, rs1, rs2 } => {
                let a = self.x[rs1];
                let b = self.x[rs2];
                self.write(rd, sraw(a, b))
            },
            Inst::Mulw { rd, rs1, rs2 } => {
                let a = self.x[rs1];
                let b = self.x[rs2];
                self.write(rd, mulw(a, b))
            },
            Inst::Divw { rd, rs1, rs2 } => {
                let a = self.x[rs1];
                let b = self.x[rs2];
                self.write(rd, divw(a, b))
            },
            Inst::Divuw { rd, rs1, rs2 } => {
                let a = self.x[rs1];
                let b = self.x[rs2];
                self.write(rd, divuw(a, b))
            },
            Inst::Remw { rd, rs1, rs2 } => {
                let a = self.x[rs1];
                let b = self.x[rs2];
                self.write(rd, remw(a, b))
            },
            Inst::Remuw { rd, rs1, rs2 } => {
                let a = self.x[rs1];
                let b = self.x[rs2];
                self.write(rd, remuw(a, b))
            },
            _ => Ok(()),
        }
    }

    /// Atomic operations on a word.
    fn exec_atomic_w<M: MemIntf>(&mut self, inst: Inst, bus: &mut Bus<M>) -> (r: Result<(), Exception>)
        requires
            inst.wf(),
            inst.is_atomic_w(),
            old(self).x[0] == 0,
        ensures
            atomic_w_spec(old(self)@, old(bus)@, inst) == (Outcome {
                cpu: final(self)@,
                bus: final(bus)@,
                result: r,
            }),
            final(self).x[0] == 0,
            r is Ok ==> final(self).pc == old(self).pc,
            old(bus)@.uart.wf() ==> final(bus)@.uart.wf(),
    {
        reveal(atomic_w_spec);
        match inst {
            Inst::Lrw { rd, rs1, .. } => {
                let addr = self.x[rs1];
                self.lr_op(bus, rd, addr, 32)
            },
            Inst::Scw { rd, rs1, rs2, .. } => {
                let addr = self.x[rs1];
                let val = self.x[rs2];
                self.sc_op(bus, rd, addr, val, 32)
            },
            Inst::Amoswapw { rd, rs1, rs2, .. } => {
                let addr = self.x[rs1];
                let src = self.x[rs2];
                self.amo_op(bus, rd, addr, src, 32, AmoOp::Swap)
            },
            Inst::Amoaddw { rd, rs1, rs2, .. } => {
                let addr = self.x[rs1];
                let src = self.x[rs2];
                self.amo_op(bus, rd, addr, src, 32, AmoOp::Add)
            },
            Inst::Amoxorw { rd, rs1, rs2, .. } => {
                let addr = self.x[rs1];
                let src = self.x[rs2];
                self.amo_op(bus, rd, addr, src, 32, AmoOp::Xor)
            },
            Inst::Amoandw { rd, rs1, rs2, .. } => {
                let addr = self.x[rs1];
                let src = self.x[rs2];
                self.amo_op(bus, rd, addr, src, 32, AmoOp::And)
            },
            Inst::Amoorw { rd, rs1, rs2, .. } => {
                let addr = self.x[rs1];
                let src = self.x[rs2];
                self.amo_op(bus, rd, addr, src, 32, AmoOp::Or)
            },
            Inst::Amominw { rd, rs1, rs2, .. } => {
                let addr = self.x[rs1];
                let src = self.x[rs2];
                self.amo_op(bus, rd, addr, src, 32, AmoOp::Min)
            },
            Inst::Amomaxw { rd, rs1, rs2, .. } => {
                let addr = self.x[rs1];
                let src = self.x[rs2];
                self.amo_op(bus, rd, addr, src, 32, AmoOp::Max)
            },
            Inst::Amominuw { rd, rs1, rs2, .. } => {
                let addr = self.x[rs1];
                let src = self.x[rs2];
                self.amo_op(bus, rd, addr, src, 32, AmoOp::Minu)
            },
            Inst::Amomaxuw { rd, rs1, rs2, .. } => {
                let addr = self.x[rs1];
                let src = self.x[rs2];
                self.amo_op(bus, rd, addr, src, 32, AmoOp::Maxu)
            },
            _ => Ok(()),
        }
    }

    /// Atomic operations on a doubleword.
    fn exec_atomic_d<M: MemIntf>(&mut self, inst: Inst, bus: &mut Bus<M>) -> (r: Result<(), Exception>)
        requires
            inst.wf(),
            inst.is_atomic_d(),
            old(self).x[0] == 0,
        ensures
            atomic_d_spec(old(self)@, old(bus)@, inst) == (Outcome {
                cpu: final(self)@,
                bus: final(bus)@,
                result: r,
            }),
            final(self).x[0] == 0,
            r is Ok ==> final(self).pc == old(self).pc,
            old(bus)@.uart.wf() ==> final(bus)@.uart.wf(),
    {
        reveal(atomic_d_spec);
        match inst {
            Inst::Lrd { rd, rs1, .. } => {
                let addr = self.x[rs1];
                self.lr_op(bus, rd, addr, 64)
            },
            Inst::Scd { rd, rs1, rs2, .. } => {
                let addr = self.x[rs1];
                let val = self.x[rs2];
                self.sc_op(bus, rd, addr, val, 64)
            },
            Inst::Amoswapd { rd, rs1, rs2, .. } => {
                let addr = self.x[rs1];
                let src = self.x[rs2];
                self.amo_op(bus, rd, addr, src, 64, AmoOp::Swap)
            },
            Inst::Amoaddd { rd, rs1, rs2, .. } => {
                let addr = self.x[rs1];
                let src = self.x[rs2];
                self.amo_op(bus, rd, addr, src, 64, AmoOp::Add)
            },
            Inst::Amoxord { rd, rs1, rs2, .. } => {
                let addr = self.x[rs1];
                let src = self.x[rs2];
                self.amo_op(bus, rd, addr, src, 64, AmoOp::Xor)
            },
            Inst::Amoandd { rd, rs1, rs2, .. } => {
                let addr = self.x[rs1];
                let src = self.x[rs2];
                self.amo_op(bus, rd, addr, src, 64, AmoOp::And)
            },
            Inst::Amoord { rd, rs1, rs2, .. } => {
                let addr = self.x[rs1];
                let src = self.x[rs2];
                self.amo_op(bus, rd, addr, src, 64, AmoOp::Or)
            },
            Inst::Amomind { rd, rs1, rs2, .. } => {
                let addr = self.x[rs1];
                let src = self.x[rs2];
                self.amo_op(bus, rd, addr, src, 64, AmoOp::Min)
            },
            Inst::Amomaxd { rd, rs1, rs2, .. } => {
                let addr = self.x[rs1];
                let src = self.x[rs2];
                self.amo_op(bus, rd, addr, src, 64, AmoOp::Max)
            },
            Inst::Amominud { rd, rs1, rs2, .. } => {
                let addr = self.x[rs1];
                let src = self.x[rs2];
                self.amo_op(bus, rd, addr, src, 64, AmoOp::Minu)
            },
            Inst::Amomaxud { rd, rs1, rs2, .. } => {
                let addr = self.x[rs1];
                let src = self.x[rs2];
                self.amo_op(bus, rd, addr, src, 64, AmoOp::Maxu)
            },
            _ => Ok(()),
        }
    }

    /// Executes one decoded instruction.
    fn dispatch<M: MemIntf>(&mut self, inst: Inst, bus: &mut Bus<M>) -> (r: Result<(), Exception>)
        requires
            inst.wf(),
            old(self).x[0] == 0,
        ensures
            exec_spec(old(self)@, old(bus)@, inst) == (Outcome {
                cpu: final(self)@,
                bus: final(bus)@,
                result: r,
            }),
            final(self).x[0] == 0,
            r is Ok && !inst.is_control_transfer() ==> final(self).pc == old(self).pc,
            old(bus)@.uart.wf() ==> final(bus)@.uart.wf(),
    {
        match inst {
            Inst::Addi { .. } | Inst::Slti { .. } | Inst::Sltiu { .. } | Inst::Xori { .. } | Inst::Ori { .. } | Inst::Andi { .. } | Inst::Addiw { .. } | Inst::Slli { .. } | Inst::Srli { .. } | Inst::Srai { .. } | Inst::Slliw { .. } | Inst::Srliw { .. } | Inst::Sraiw { .. } => self.exec_op_imm(inst, Ghost(bus@)),
            Inst::Lb { .. } | Inst::Lh { .. } | Inst::Lw { .. } | Inst::Ld { .. } | Inst::Lbu { .. } | Inst::Lhu { .. } | Inst::Lwu { .. } | Inst::Sb { .. } | Inst::Sh { .. } | Inst::Sw { .. } | Inst::Sd { .. } => self.exec_memory(inst, bus),
            Inst::Fence { .. } | Inst::Fencei { .. } | Inst::Sfencevma | Inst::Ebreak | Inst::Ecall | Inst::Sret | Inst::Mret | Inst::Csrrw { .. } | Inst::Csrrs { .. } | Inst::Csrrc { .. } | Inst::Csrrwi { .. } | Inst::Csrrsi { .. } | Inst::Csrrci { .. } => self.exec_system(inst, Ghost(bus@)),
            Inst::Lui { .. } | Inst::Auipc { .. } | Inst::Jal { .. } | Inst::Jalr { .. } | Inst::Beq { .. } | Inst::Bne { .. } | Inst::Blt { .. } | Inst::Bge { .. } | Inst::Bltu { .. } | Inst::Bgeu { .. } => self.exec_jump(inst, Ghost(bus@)),
            Inst::Add { .. } | Inst::Sub { .. } | Inst::Sll { .. } | Inst::Slt { .. } | Inst::Sltu { .. } | Inst::Xor { .. } | Inst::Srl { .. } | Inst::Sra { .. } | Inst::Or { .. } | Inst::And { .. } | Inst::Mul { .. } | Inst::Mulh { .. } | Inst::Mulhsu { .. } | Inst::Mulhu { .. } | Inst::Div { .. } | Inst::Divu { .. } | Inst::Rem { .. } | Inst::Remu { .. } => self.exec_op(inst, Ghost(bus@)),
            Inst::Addw { .. } | Inst::Subw { .. } | Inst::Sllw { .. } | Inst::Srlw { .. } | Inst::Sraw { .. } | Inst::Mulw { .. } | Inst::Divw { .. } | Inst::Divuw { .. } | Inst::Remw { .. } | Inst::Remuw { .. } => self.exec_op_32(inst, Ghost(bus@)),
            Inst::Lrw { .. } | Inst::Scw { .. } | Inst::Amoswapw { .. } | Inst::Amoaddw { .. } | Inst::Amoxorw { .. } | Inst::Amoandw { .. } | Inst::Amoorw { .. } | Inst::Amominw { .. } | Inst::Amomaxw { .. } | Inst::Amominuw { .. } | Inst::Amomaxuw { .. } => self.exec_atomic_w(inst, bus),
            Inst::Lrd { .. } | Inst::Scd { .. } | Inst::Amoswapd { .. } | Inst::Amoaddd { .. } | Inst::Amoxord { .. } | Inst::Amoandd { .. } | Inst::Amoord { .. } | Inst::Amomind { .. } | Inst::Amomaxd { .. } | Inst::Amominud { .. } | Inst::Amomaxud { .. } => self.exec_atomic_d(inst, bus),
        }
    }
}

/// A value below 2^32 is its own low word.
proof fn lemma_low32_small(v: u64)
    requires
        v < 0x1_0000_0000,
    ensures
        low32(v) == v,
{
}

} // verus!
