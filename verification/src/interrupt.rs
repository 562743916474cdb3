//! Asynchronous traps and their cause codes.

use vstd::prelude::*;

verus! {

/// The top bit of a cause value marks an interrupt.
pub const MASK_INTERRUPT_BIT: u64 = 0x8000_0000_0000_0000;

/// An interrupt the hart can take.
#[derive(Debug, Clone, Copy, PartialEq, Eq, Structural)]
pub enum Interrupt {
    SupervisorSoftwareInterrupt,
    MachineSoftwareInterrupt,
    SupervisorTimerInterrupt,
    MachineTimerInterrupt,
    SupervisorExternalInterrupt,
    MachineExternalInterrupt,
}

impl Interrupt {
    /// The interrupt's number: its bit position in the pending and enable registers.
    pub open spec fn number_spec(&self) -> u64 {
        match self {
            Interrupt::SupervisorSoftwareInterrupt => 1,
            Interrupt::MachineSoftwareInterrupt => 3,
            Interrupt::SupervisorTimerInterrupt => 5,
            Interrupt::MachineTimerInterrupt => 7,
            Interrupt::SupervisorExternalInterrupt => 9,
            Interrupt::MachineExternalInterrupt => 11,
        }
    }

    /// The value written to the cause register: the number with the top bit set.
    pub open spec fn code_spec(&self) -> u64 {
        (self.number_spec() + MASK_INTERRUPT_BIT) as u64
    }

    #[verifier::when_used_as_spec(number_spec)]
    pub fn number(&self) -> (r: u64)
        ensures
            r == self.number_spec(),
            1 <= r <= 11,
    {
        match self {
            Interrupt::SupervisorSoftwareInterrupt => 1,
            Interrupt::MachineSoftwareInterrupt => 3,
            Interrupt::SupervisorTimerInterrupt => 5,
            Interrupt::MachineTimerInterrupt => 7,
            Interrupt::SupervisorExternalInterrupt => 9,
            Interrupt::MachineExternalInterrupt => 11,
        }
    }

    #[verifier::when_used_as_spec(code_spec)]
    pub fn code(&self) -> (r: u64)
        ensures
            r == self.code_spec(),
            r >= MASK_INTERRUPT_BIT,
    {
        self.number() + MASK_INTERRUPT_BIT
    }
}

} // verus!
