//! The machine: the hart, the bus, and the tick that drives them.

use vstd::prelude::*;
use crate::alu::{add_spec, plus};
use crate::bus::{Bus, BusView, MemIntf, RAM_BASE};
use crate::clint::Clint;
use crate::cpu::{pending_spec, tick_spec, Cpu, CpuView};
use crate::csrs::MASK_MTIP;
use crate::exceptions::Exception;
use crate::plic::Plic;
use crate::step::lemma_step_keeps;
use crate::uart::UartView;

verus! {

/// The hart and the bus it runs on.
pub struct VM<M: MemIntf> {
    pub cpu: Cpu,
    pub bus: Bus<M>,
}

/// The state of the machine.
#[verifier::ext_equal]
pub struct VmView {
    pub cpu: CpuView,
    pub bus: BusView,
}

impl<M: MemIntf> View for VM<M> {
    type V = VmView;

    open spec fn view(&self) -> VmView {
        VmView { cpu: self.cpu@, bus: self.bus@ }
    }
}

impl VmView {
    /// The hart at the start of a run on `ram_len` bytes of guest memory: reset,
    /// with the stack pointer `x[2]` at the end of guest memory and the program
    /// counter at its base.
    pub open spec fn boot_cpu(ram_len: u64) -> CpuView {
        CpuView {
            x: CpuView::initial().x.update(2, add_spec(RAM_BASE, ram_len)),
            pc: RAM_BASE,
            ..CpuView::initial()
        }
    }

    /// The machine after the first phase of a tick, and the exception that ends
    /// the tick there, if any: the hart takes one step, and enters the trap
    /// handler where the step raised an exception. A fatal exception ends the
    /// tick.
    pub open spec fn step_phase(self) -> (VmView, Option<Exception>) {
        let o = tick_spec(self.cpu, self.bus);
        match o.result {
            Ok(_) => (VmView { cpu: o.cpu, bus: o.bus }, None),
            Err(e) => (
                VmView { cpu: o.cpu.take_exception(e), bus: o.bus },
                if e.is_fatal() {
                    Some(e)
                } else {
                    None
                },
            ),
        }
    }

    /// The machine after the timer has advanced by one: where the timer has
    /// reached its compare value, the machine timer interrupt is posted.
    pub open spec fn timer_phase(self) -> VmView {
        let clint = self.bus.clint.tick_spec();
        VmView {
            cpu: if clint.timer_pending() {
                self.cpu.post(MASK_MTIP)
            } else {
                self.cpu
            },
            bus: BusView { clint, ..self.bus },
        }
    }

    /// The machine after the hart has looked for a pending interrupt and entered
    /// the handler of the one it found.
    pub open spec fn interrupt_phase(self) -> VmView {
        let (cpu, bus, i) = pending_spec(self.cpu, self.bus);
        VmView {
            cpu: match i {
                Some(i) => cpu.take_interrupt(i),
                None => cpu,
            },
            bus,
        }
    }

    /// The machine after one tick in which the host offers `char_in`, and what
    /// the tick returns.
    ///
    /// The hart takes a step. Unless a fatal exception ends the tick, the timer
    /// advances and a pending interrupt is taken. A hart that has arrived at
    /// address zero ends the tick with a breakpoint there: no handler was set up
    /// for the trap it took. Else the serial port exchanges bytes with the host,
    /// and the tick returns the byte that the guest sent, if any.
    pub open spec fn tick_spec(self, char_in: Option<char>) -> (
        VmView,
        Result<Option<char>, Exception>,
    ) {
        let (stepped, fatal) = self.step_phase();
        match fatal {
            Some(e) => (stepped, Err(e)),
            None => {
                let v = stepped.timer_phase().interrupt_phase();
                if v.cpu.pc == 0 {
                    (v, Err(Exception::Breakpoint(0)))
                } else {
                    let (uart, tx) = v.bus.uart.tick_spec(char_in);
                    (VmView { bus: BusView { uart, ..v.bus }, ..v }, Ok(tx))
                }
            },
        }
    }

    /// The machine after reset: the hart as at the start of a run, guest memory
    /// zeroed, every device in its reset state.
    pub open spec fn reset_spec(self) -> VmView {
        VmView { cpu: Self::boot_cpu(self.bus.ram_size), bus: self.bus.reset_spec() }
    }
}

/// After every tick `x[0]` is zero.
pub proof fn lemma_tick_keeps_x0(v: VmView, char_in: Option<char>)
    requires
        v.cpu.wf(),
    ensures
        v.tick_spec(char_in).0.cpu.wf(),
        v.tick_spec(char_in).0.cpu.x[0] == 0,
{
    lemma_step_keeps(v.cpu, v.bus);
}

/// After a tick in which the hart retires an instruction that is no jump,
/// branch or trap return, and takes no interrupt, the program counter has moved
/// on by four.
pub proof fn lemma_tick_advances_pc(v: VmView, char_in: Option<char>)
    requires
        v.cpu.wf(),
        tick_spec(v.cpu, v.bus).result is Ok,
        !tick_spec(v.cpu, v.bus).result->Ok_0.is_control_transfer(),
        ({
            let t = v.step_phase().0.timer_phase();
            pending_spec(t.cpu, t.bus).2 is None
        }),
    ensures
        v.tick_spec(char_in).0.cpu.pc == add_spec(v.cpu.pc, 4),
{
    lemma_step_keeps(v.cpu, v.bus);
}

impl<M: MemIntf> VM<M> {
    /// A machine over the given store, of which `ram_len` bytes are mapped as
    /// guest memory.
    pub fn new(ram_intf: M, ram_len: u64) -> (r: Self)
        ensures
            r@.cpu == VmView::boot_cpu(ram_len),
            r@.bus.ram == ram_intf.bytes(),
            r@.bus.ram_size == ram_len,
            r@.bus.plic == Plic::initial(),
            r@.bus.clint == (Clint { mtime: 0, mtimecmp: 0 }),
            r@.bus.uart == UartView::initial(),
            r@.bus.uart.wf(),
    {
        let bus = Bus::new(ram_intf, ram_len);
        let mut cpu = Cpu::new();
        cpu.x[2] = plus(RAM_BASE, ram_len);
        cpu.pc = RAM_BASE;
        VM { bus, cpu }
    }

    /// Runs one instruction, services interrupts, and exchanges bytes with the
    /// host through the serial port.
    ///
    /// After the tick `x[0]` is zero.
    pub fn tick(&mut self, char_in: Option<char>) -> (r: Result<Option<char>, Exception>)
        ensures
            (final(self)@, r) == old(self)@.tick_spec(char_in),
            final(self).cpu.x[0] == 0,
            old(self)@.bus.uart.wf() ==> final(self)@.bus.uart.wf(),
    {
        match self.cpu.tick(&mut self.bus) {
            Ok(_inst) => {},
            Err(e) => {
                self.cpu.handle_exception(e);
                if e.is_fatal() {
                    return Err(e);
                }
            },
        }
        self.bus.clint.tick();
        if self.bus.clint.is_interrupting() {
            self.cpu.post_timer_interrupt();
        }
        match self.cpu.check_pending_interrupt(&mut self.bus) {
            Ok(Some(interrupt)) => self.cpu.handle_interrupt(interrupt),
            Ok(None) => {},
            Err(e) => {
                return Err(e);
            },
        }
        if self.cpu.pc == 0 {
            Err(Exception::Breakpoint(self.cpu.pc))
        } else {
            Ok(self.bus.uart.tick(char_in))
        }
    }

    /// Restores the state that the machine started with.
    pub fn reset(&mut self)
        ensures
            final(self)@ == old(self)@.reset_spec(),
            final(self)@.bus.uart.wf(),
    {
        self.cpu.reset();
        self.cpu.x[2] = plus(RAM_BASE, self.bus.ram_size);
        self.cpu.pc = RAM_BASE;
        self.bus.reset();
    }
}

} // verus!
