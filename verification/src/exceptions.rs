//! Synchronous traps: their cause codes, trap values, and which of them end a run.

use vstd::prelude::*;

verus! {

/// A synchronous trap raised while fetching, decoding or executing an instruction.
#[derive(Debug, Clone, Copy, PartialEq, Eq, Structural)]
pub enum Exception {
    InstructionAddressMisaligned,
    InstructionAccessFault,
    /// Carries the raw instruction word.
    IllegalInstruction(u64),
    /// Carries the address of the breakpoint instruction.
    Breakpoint(u64),
    LoadAddressMisaligned,
    /// Carries the faulting bus address.
    LoadAccessFault(u64),
    StoreAddressMisaligned,
    /// Carries the faulting bus address.
    StoreAMOAccessFault(u64),
    EnvironmentCallFromUMode,
    EnvironmentCallFromSMode,
    EnvironmentCallFromMMode,
}

impl Exception {
    /// The exception code written to the cause register on trap entry.
    pub open spec fn code_spec(&self) -> u64 {
        match self {
            Exception::InstructionAddressMisaligned => 0,
            Exception::InstructionAccessFault => 1,
            Exception::IllegalInstruction(_) => 2,
            Exception::Breakpoint(_) => 3,
            Exception::LoadAddressMisaligned => 4,
            Exception::LoadAccessFault(_) => 5,
            Exception::StoreAddressMisaligned => 6,
            Exception::StoreAMOAccessFault(_) => 7,
            Exception::EnvironmentCallFromUMode => 8,
            Exception::EnvironmentCallFromSMode => 9,
            Exception::EnvironmentCallFromMMode => 11,
        }
    }

    /// The value written to the trap-value register on trap entry: the raw
    /// instruction word, the faulting address, or zero.
    pub open spec fn value_spec(&self) -> u64 {
        match self {
            Exception::IllegalInstruction(word) => *word,
            Exception::Breakpoint(pc) => *pc,
            Exception::LoadAccessFault(addr) => *addr,
            Exception::StoreAMOAccessFault(addr) => *addr,
            _ => 0,
        }
    }

    /// Only an instruction access fault ends the run by itself; every other
    /// exception is left to the guest's trap handler.
    pub open spec fn is_fatal_spec(&self) -> bool {
        self is InstructionAccessFault
    }

    #[verifier::when_used_as_spec(code_spec)]
    pub fn code(&self) -> (r: u64)
        ensures
            r == self.code_spec(),
            r <= 11,
    {
        match self {
            Exception::InstructionAddressMisaligned => 0,
            Exception::InstructionAccessFault => 1,
            Exception::IllegalInstruction(_) => 2,
            Exception::Breakpoint(_) => 3,
            Exception::LoadAddressMisaligned => 4,
            Exception::LoadAccessFault(_) => 5,
            Exception::StoreAddressMisaligned => 6,
            Exception::StoreAMOAccessFault(_) => 7,
            Exception::EnvironmentCallFromUMode => 8,
            Exception::EnvironmentCallFromSMode => 9,
            Exception::EnvironmentCallFromMMode => 11,
        }
    }

    #[verifier::when_used_as_spec(value_spec)]
    pub fn value(&self) -> (r: u64)
        ensures
            r == self.value_spec(),
    {
        match self {
            Exception::IllegalInstruction(word) => *word,
            Exception::Breakpoint(pc) => *pc,
            Exception::LoadAccessFault(addr) => *addr,
            Exception::StoreAMOAccessFault(addr) => *addr,
            _ => 0,
        }
    }

    #[verifier::when_used_as_spec(is_fatal_spec)]
    pub fn is_fatal(&self) -> (r: bool)
        ensures
            r == self.is_fatal_spec(),
    {
        match self {
            Exception::InstructionAccessFault => true,
            _ => false,
        }
    }
}

} // verus!
