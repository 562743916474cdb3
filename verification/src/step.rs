//! What one step of the hart leaves in place: register zero, the program
//! counter of an instruction that does not transfer control, and the whole hart
//! when the step raises an exception.

use vstd::prelude::*;
use crate::alu::add_spec;
use crate::bus::BusView;
use crate::cpu::{
    amo_op, atomic_d_spec, atomic_w_spec, exec_spec, execute_spec, fetch_spec, jump_spec, load_op,
    lr_op, memory_spec, op_32_spec, op_imm_spec, op_spec, sc_op, store_op, system_spec, tick_spec,
    CpuView, Outcome,
};
use crate::decode::{decode_spec, lemma_decode_wf};
use crate::inst::Inst;

verus! {

/// What the instruction `inst`, run on the hart `c`, has left in place in the
/// outcome `o`: the shape of the register files and the zero in `x[0]`; the
/// program counter, where the instruction ended well and is no jump, branch or
/// trap return; the whole hart, where the instruction raised an exception.
pub open spec fn kept(c: CpuView, inst: Inst, o: Outcome<()>) -> bool {
    &&& o.cpu.wf()
    &&& o.cpu.x[0] == 0
    &&& (o.result is Ok && !inst.is_control_transfer() ==> o.cpu.pc == c.pc)
    &&& (o.result is Err ==> o.cpu == c)
}

/// What arithmetic with an immediate leave in place.
proof fn lemma_kept_op_imm(c: CpuView, bus: BusView, inst: Inst)
    requires
        c.wf(),
        c.x[0] == 0,
        inst.wf(),
        inst.is_op_imm(),
    ensures
        kept(c, inst, op_imm_spec(c, bus, inst)),
{
    reveal(op_imm_spec);
}

/// What loads and stores leave in place.
proof fn lemma_kept_memory(c: CpuView, bus: BusView, inst: Inst)
    requires
        c.wf(),
        c.x[0] == 0,
        inst.wf(),
        inst.is_memory(),
    ensures
        kept(c, inst, memory_spec(c, bus, inst)),
{
    reveal(memory_spec);
    reveal(load_op);
    reveal(store_op);
}

/// What fences, environment calls, trap returns and status-register instructions leave in place.
proof fn lemma_kept_system(c: CpuView, bus: BusView, inst: Inst)
    requires
        c.wf(),
        c.x[0] == 0,
        inst.wf(),
        inst.is_system(),
    ensures
        kept(c, inst, system_spec(c, bus, inst)),
{
    reveal(system_spec);
}

/// What upper immediates, jumps and branches leave in place.
proof fn lemma_kept_jump(c: CpuView, bus: BusView, inst: Inst)
    requires
        c.wf(),
        c.x[0] == 0,
        inst.wf(),
        inst.is_jump(),
    ensures
        kept(c, inst, jump_spec(c, bus, inst)),
{
    reveal(jump_spec);
}

/// What register arithmetic on the full register leave in place.
proof fn lemma_kept_op(c: CpuView, bus: BusView, inst: Inst)
    requires
        c.wf(),
        c.x[0] == 0,
        inst.wf(),
        inst.is_op(),
    ensures
        kept(c, inst, op_spec(c, bus, inst)),
{
    reveal(op_spec);
}

/// What register arithmetic on the low word leave in place.
proof fn lemma_kept_op_32(c: CpuView, bus: BusView, inst: Inst)
    requires
        c.wf(),
        c.x[0] == 0,
        inst.wf(),
        inst.is_op_32(),
    ensures
        kept(c, inst, op_32_spec(c, bus, inst)),
{
    reveal(op_32_spec);
}

/// What atomic operations on a word leave in place.
proof fn lemma_kept_atomic_w(c: CpuView, bus: BusView, inst: Inst)
    requires
        c.wf(),
        c.x[0] == 0,
        inst.wf(),
        inst.is_atomic_w(),
    ensures
        kept(c, inst, atomic_w_spec(c, bus, inst)),
{
    reveal(atomic_w_spec);
    reveal(lr_op);
    reveal(sc_op);
    reveal(amo_op);
}

/// What atomic operations on a doubleword leave in place.
proof fn lemma_kept_atomic_d(c: CpuView, bus: BusView, inst: Inst)
    requires
        c.wf(),
        c.x[0] == 0,
        inst.wf(),
        inst.is_atomic_d(),
    ensures
        kept(c, inst, atomic_d_spec(c, bus, inst)),
{
    reveal(atomic_d_spec);
    reveal(lr_op);
    reveal(sc_op);
    reveal(amo_op);
}

/// A well-formed instruction, run on a hart whose `x[0]` is zero, leaves
/// `x[0]` zero; leaves the program counter where it was unless it is a jump, a
/// branch or a trap return; and leaves the hart as it was where it raises an
/// exception.
pub proof fn lemma_exec_keeps(c: CpuView, bus: BusView, inst: Inst)
    requires
        c.wf(),
        c.x[0] == 0,
        inst.wf(),
    ensures
        kept(c, inst, exec_spec(c, bus, inst)),
{
    if inst.is_op_imm() {
        lemma_kept_op_imm(c, bus, inst);
    }
    if inst.is_memory() {
        lemma_kept_memory(c, bus, inst);
    }
    if inst.is_system() {
        lemma_kept_system(c, bus, inst);
    }
    if inst.is_jump() {
        lemma_kept_jump(c, bus, inst);
    }
    if inst.is_op() {
        lemma_kept_op(c, bus, inst);
    }
    if inst.is_op_32() {
        lemma_kept_op_32(c, bus, inst);
    }
    if inst.is_atomic_w() {
        lemma_kept_atomic_w(c, bus, inst);
    }
    if inst.is_atomic_d() {
        lemma_kept_atomic_d(c, bus, inst);
    }
}

/// After a step of the hart `x[0]` is zero. A step that raises an exception
/// changes nothing else of the hart. A step that retires an instruction that
/// is no jump, branch or trap return moves the program counter on by four.
pub proof fn lemma_step_keeps(c: CpuView, bus: BusView)
    requires
        c.wf(),
    ensures
        ({
            let o = tick_spec(c, bus);
            &&& o.cpu.wf()
            &&& o.cpu.x[0] == 0
            &&& (o.result is Err ==> o.cpu == c.zero_x0())
            &&& (o.result is Ok ==> o.result->Ok_0.wf())
            &&& (o.result is Ok && !o.result->Ok_0.is_control_transfer() ==> o.cpu.pc == add_spec(
                c.pc,
                4,
            ))
        }),
{
    let f = fetch_spec(c.zero_x0(), bus);
    if f.result is Ok {
        let word = f.result->Ok_0;
        lemma_decode_wf(word);
        if decode_spec(word) is Ok {
            lemma_exec_keeps(f.cpu.zero_x0(), f.bus, decode_spec(word)->Ok_0);
            assert(f.cpu.zero_x0() == f.cpu);
        }
        let o = execute_spec(f.cpu, f.bus, word);
        if o.result is Err {
            assert(o.cpu.jump(c.pc) == c.zero_x0());
        }
    }
}

} // verus!
