//! What trap entry records and what trap return restores.

use vstd::prelude::*;
use crate::alu::low32;
use crate::bus::BusView;
use crate::cpu::{
    done, exec_spec, fetch_spec, mret_status, sret_status, system_spec, trap_status_m,
    trap_status_s, CpuView, MACHINE, SUPERVISOR,
};
use crate::csrs::{
    MASK_MIE, MASK_MPIE, MASK_MPP, MASK_MPRV, MASK_SIE, MASK_SPIE, MASK_SPP, MCAUSE, MEDELEG, MEPC,
    MSTATUS, MTVAL, MTVEC, SCAUSE, SEPC, SSTATUS, STVAL, STVEC,
};
use crate::exceptions::Exception;
use crate::inst::Inst;

verus! {

/// The fields of the machine status register across trap entry and return.
proof fn lemma_status_m(status: u64, mode: u64)
    by (bit_vector)
    ensures
        (trap_status_m(status, mode) & MASK_MPP) >> 11 == mode & 3,
        trap_status_m(status, mode) & MASK_MIE == 0,
        (trap_status_m(status, mode) & MASK_MPIE != 0) == (status & MASK_MIE != 0),
        (mret_status(status) & MASK_MIE != 0) == (status & MASK_MPIE != 0),
        mret_status(status) & MASK_MPIE == MASK_MPIE,
        mret_status(status) & MASK_MPP == 0,
        mret_status(status) & MASK_MPRV == 0,
        mret_status(trap_status_m(status, mode)) & MASK_MIE == status & MASK_MIE,
        (status & MASK_MPP) >> 11 <= 3,
{
}

/// The fields of the supervisor status register across trap entry and return.
proof fn lemma_status_s(status: u64, mode: u64)
    by (bit_vector)
    ensures
        (trap_status_s(status, mode) & MASK_SPP) >> 8 == mode & 1,
        trap_status_s(status, mode) & MASK_SIE == 0,
        (trap_status_s(status, mode) & MASK_SPIE != 0) == (status & MASK_SIE != 0),
        (sret_status(status) & MASK_SIE != 0) == (status & MASK_SPIE != 0),
        sret_status(status) & MASK_SPIE == MASK_SPIE,
        sret_status(status) & MASK_SPP == 0,
        sret_status(trap_status_s(status, mode)) & MASK_SIE == status & MASK_SIE,
        (status & MASK_SPP) >> 8 <= 1,
{
}

/// An address with its low two bits cleared is a multiple of four, and the low
/// bits of a small mode are the mode.
proof fn lemma_low_bits(a: u64, mode: u64)
    by (bit_vector)
    ensures
        (a & !3u64) & 3 == 0,
        mode <= 3 ==> mode & 3 == mode,
        mode <= 1 ==> mode & 1 == mode,
{
}

/// An exception that is not delegated is taken in machine mode: the machine
/// trap registers record the program counter, the cause and the trap value; the
/// status register keeps the mode and the interrupt enable that the hart had,
/// and disables interrupts; the hart continues at the base of the machine trap
/// vector.
pub proof fn lemma_exception_in_machine_mode(c: CpuView, e: Exception)
    requires
        c.wf(),
        !c.delegated(MEDELEG, e.code()),
    ensures
        ({
            let r = c.take_exception(e);
            &&& r.wf()
            &&& r.mode == MACHINE
            &&& r.pc == c.csr[MTVEC as int] & !3u64
            &&& r.csr[MEPC as int] == c.pc
            &&& r.csr[MCAUSE as int] == e.code()
            &&& r.csr[MTVAL as int] == e.value()
            &&& (r.csr[MSTATUS as int] & MASK_MPP) >> 11 == c.mode & 3
            &&& r.csr[MSTATUS as int] & MASK_MIE == 0
            &&& (r.csr[MSTATUS as int] & MASK_MPIE != 0) == (c.csr[MSTATUS as int] & MASK_MIE
                != 0)
            &&& r.x == c.x
        }),
{
    lemma_status_m(c.csr[MSTATUS as int], c.mode);
}

/// An exception that is delegated is taken in supervisor mode, with the
/// supervisor trap registers in place of the machine ones.
pub proof fn lemma_exception_in_supervisor_mode(c: CpuView, e: Exception)
    requires
        c.wf(),
        c.delegated(MEDELEG, e.code()),
    ensures
        ({
            let r = c.take_exception(e);
            &&& r.wf()
            &&& r.mode == SUPERVISOR
            &&& r.pc == c.csr[STVEC as int] & !3u64
            &&& r.csr[SEPC as int] == c.pc
            &&& r.csr[SCAUSE as int] == e.code()
            &&& r.csr[STVAL as int] == e.value()
            &&& (r.csr[SSTATUS as int] & MASK_SPP) >> 8 == c.mode
            &&& r.csr[SSTATUS as int] & MASK_SIE == 0
            &&& (r.csr[SSTATUS as int] & MASK_SPIE != 0) == (c.csr[SSTATUS as int] & MASK_SIE
                != 0)
            &&& r.x == c.x
        }),
{
    lemma_status_s(c.csr[SSTATUS as int], c.mode);
    lemma_low_bits(0, c.mode);
}

/// The return from machine mode restores what trap entry saved: the hart
/// continues at the saved program counter with its low two bits cleared, so that
/// the next fetch is aligned and reads there; it runs in the saved mode; the
/// interrupt enable is the saved one. The saved enable is set, the saved mode and
/// the modify-privilege bit are cleared.
pub proof fn lemma_mret_restores(c: CpuView, bus: BusView)
    requires
        c.wf(),
    ensures
        ({
            let o = exec_spec(c, bus, Inst::Mret);
            let status = c.csr[MSTATUS as int];
            &&& o == done(c.mret(), bus)
            &&& o.cpu.pc == c.csr[MEPC as int] & !3u64
            &&& o.cpu.pc & 3 == 0
            &&& fetch_spec(o.cpu, bus).result == match bus.load_spec(o.cpu.pc, 32).1 {
                Ok(v) => Ok::<u32, Exception>(low32(v)),
                Err(e) => Err::<u32, Exception>(e),
            }
            &&& o.cpu.mode == (status & MASK_MPP) >> 11
            &&& o.cpu.mode <= 3
            &&& (o.cpu.csr[MSTATUS as int] & MASK_MIE != 0) == (status & MASK_MPIE != 0)
            &&& o.cpu.csr[MSTATUS as int] & MASK_MPIE == MASK_MPIE
            &&& o.cpu.csr[MSTATUS as int] & MASK_MPP == 0
            &&& o.cpu.csr[MSTATUS as int] & MASK_MPRV == 0
            &&& o.cpu.x == c.x
        }),
{
    reveal(system_spec);
    lemma_status_m(c.csr[MSTATUS as int], 0);
    lemma_low_bits(c.csr[MEPC as int], 0);
}

/// The return from supervisor mode restores what trap entry saved, as the
/// return from machine mode does, with the supervisor registers.
pub proof fn lemma_sret_restores(c: CpuView, bus: BusView)
    requires
        c.wf(),
    ensures
        ({
            let o = exec_spec(c, bus, Inst::Sret);
            let status = c.csr[SSTATUS as int];
            &&& o == done(c.sret(), bus)
            &&& o.cpu.pc == c.csr[SEPC as int] & !3u64
            &&& o.cpu.pc & 3 == 0
            &&& fetch_spec(o.cpu, bus).result == match bus.load_spec(o.cpu.pc, 32).1 {
                Ok(v) => Ok::<u32, Exception>(low32(v)),
                Err(e) => Err::<u32, Exception>(e),
            }
            &&& o.cpu.mode == (status & MASK_SPP) >> 8
            &&& o.cpu.mode <= 1
            &&& (o.cpu.csr[SSTATUS as int] & MASK_SIE != 0) == (status & MASK_SPIE != 0)
            &&& o.cpu.csr[SSTATUS as int] & MASK_SPIE == MASK_SPIE
            &&& o.cpu.csr[SSTATUS as int] & MASK_SPP == 0
            &&& o.cpu.x == c.x
        }),
{
    reveal(system_spec);
    lemma_status_s(c.csr[SSTATUS as int], 0);
    lemma_low_bits(c.csr[SEPC as int], 0);
}

/// A trap into machine mode followed by the return from it brings the hart
/// back: to the program counter it had, with the low two bits cleared, to the
/// mode it had, and to the interrupt enable it had.
pub proof fn lemma_machine_trap_round_trip(c: CpuView, e: Exception)
    requires
        c.wf(),
        c.mode <= 3,
        !c.delegated(MEDELEG, e.code()),
    ensures
        ({
            let r = c.take_exception(e).mret();
            &&& r.pc == c.pc & !3u64
            &&& r.mode == c.mode
            &&& r.csr[MSTATUS as int] & MASK_MIE == c.csr[MSTATUS as int] & MASK_MIE
            &&& r.x == c.x
        }),
{
    lemma_status_m(c.csr[MSTATUS as int], c.mode);
    lemma_low_bits(0, c.mode);
}

/// A trap into supervisor mode followed by the return from it brings the hart
/// back, as for machine mode.
pub proof fn lemma_supervisor_trap_round_trip(c: CpuView, e: Exception)
    requires
        c.wf(),
        c.delegated(MEDELEG, e.code()),
    ensures
        ({
            let r = c.take_exception(e).sret();
            &&& r.pc == c.pc & !3u64
            &&& r.mode == c.mode
            &&& r.csr[SSTATUS as int] & MASK_SIE == c.csr[SSTATUS as int] & MASK_SIE
            &&& r.x == c.x
        }),
{
    lemma_status_s(c.csr[SSTATUS as int], c.mode);
    lemma_low_bits(0, c.mode);
}

} // verus!
