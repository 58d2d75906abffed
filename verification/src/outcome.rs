//! How a step of the machine can end.

use vstd::prelude::*;

verus! {

/// A structural failure. Each one ends the run at once, and none is retried.
#[derive(Debug, Clone, Copy, PartialEq, Eq, Structural)]
pub enum CpuError {
    /// The instruction word matches no defined pattern. Carries the word.
    UnimplementedInstruction(u16),
    /// A call whose target lies in the reserved region below the program base.
    ReservedMemoryCall,
    /// A call with the call stack already full.
    StackOverflow,
    /// A return with the call stack empty.
    StackUnderflow,
    /// The program counter, or the byte after it, lies outside memory.
    FetchOutOfBounds,
}

/// What the machine does after an instruction that did not fail.
#[derive(Debug, Clone, Copy, PartialEq, Eq, Structural)]
pub enum Flow {
    /// Go on with the instruction at the program counter.
    Continue,
    /// The halt instruction was executed: the run is over.
    Halt,
}

} // verus!
