//! The failures that the machine reports to its caller.

use vstd::prelude::*;

verus! {

/// Why a tick, or one of its steps, was refused.
#[derive(Debug, Copy, Clone, PartialEq, Eq, Structural)]
pub enum VmError {
    /// The instruction word matches no instruction.
    MalformedOp,
    /// `0NNN` other than `00E0` and `00EE`: machine-language subroutines
    /// are not available.
    UnsupportedMachineSubroutine,
    /// `00EE` with an empty call stack.
    ReturnWithoutCall,
    /// `2NNN` with a full call stack.
    StackOverflow,
    /// A jump or call whose target lies below the start of the program.
    JumpBeforeProgram,
    /// A memory access, or a value of `PC` or `I`, beyond the last address.
    OutOfAddressSpace,
}

impl VmError {
    /// A short description of the failure.
    pub fn as_str(&self) -> (text: &'static str)
        ensures
            text@ == self.message(),
    {
        match self {
            VmError::MalformedOp => "Unknown operation code",
            VmError::UnsupportedMachineSubroutine => "Machine code subroutines not supported",
            VmError::ReturnWithoutCall => "Can't return. Not in subroutine",
            VmError::StackOverflow => "Cannot enter subroutine, stack is full",
            VmError::JumpBeforeProgram => "Attempted to jump out of program's address space",
            VmError::OutOfAddressSpace => "Attempted to leave the address space",
        }
    }

    /// The text that [`VmError::as_str`] returns.
    pub open spec fn message(&self) -> Seq<char> {
        match self {
            VmError::MalformedOp => "Unknown operation code"@,
            VmError::UnsupportedMachineSubroutine => "Machine code subroutines not supported"@,
            VmError::ReturnWithoutCall => "Can't return. Not in subroutine"@,
            VmError::StackOverflow => "Cannot enter subroutine, stack is full"@,
            VmError::JumpBeforeProgram => "Attempted to jump out of program's address space"@,
            VmError::OutOfAddressSpace => "Attempted to leave the address space"@,
        }
    }
}

} // verus!
