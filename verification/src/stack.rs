//! The bounded stack of return addresses.

use crate::outcome::CpuError;
use vstd::prelude::*;

verus! {

/// Number of return addresses that the call stack can hold.
pub const STACK_CAPACITY: usize = 32;

/// A stack of at most [`STACK_CAPACITY`] return addresses.
///
/// Its view is the sequence of the addresses it holds, oldest first. The
/// stack pointer of the machine is the length of that sequence: the index of
/// the next free slot.
pub struct CallStack {
    slots: [u16; STACK_CAPACITY],
    pointer: usize,
}

impl View for CallStack {
    type V = Seq<u16>;

    closed spec fn view(&self) -> Seq<u16> {
        self.slots@.take(self.pointer as int)
    }
}

impl CallStack {
    #[verifier::type_invariant]
    spec fn pointer_in_bounds(self) -> bool {
        self.pointer <= STACK_CAPACITY
    }

    /// An empty stack.
    pub fn new() -> (stack: CallStack)
        ensures
            stack@ == Seq::<u16>::empty(),
    {
        CallStack { slots: [0; STACK_CAPACITY], pointer: 0 }
    }

    /// The number of return addresses on the stack.
    pub fn depth(&self) -> (depth: usize)
        ensures
            depth == self@.len(),
            depth <= STACK_CAPACITY,
    {
        proof {
            use_type_invariant(self);
        }
        self.pointer
    }

    /// Pushes `addr`, unless the stack is full: then it fails with a stack
    /// overflow and the stack stays as it is.
    pub fn push(&mut self, addr: u16) -> (result: Result<(), CpuError>)
        ensures
            old(self)@.len() < STACK_CAPACITY ==> result == Ok::<(), CpuError>(()),
            old(self)@.len() < STACK_CAPACITY ==> final(self)@ == old(self)@.push(addr),
            old(self)@.len() >= STACK_CAPACITY ==> result == Err::<(), CpuError>(
                CpuError::StackOverflow,
            ),
            old(self)@.len() >= STACK_CAPACITY ==> final(self)@ == old(self)@,
    {
        proof {
            use_type_invariant(&*self);
        }
        if self.pointer >= STACK_CAPACITY {
            return Err(CpuError::StackOverflow);
        }
        self.slots[self.pointer] = addr;
        self.pointer += 1;
        Ok(())
    }

    /// Pops the address pushed last, unless the stack is empty: then it fails
    /// with a stack underflow and the stack stays as it is.
    pub fn pop(&mut self) -> (result: Result<u16, CpuError>)
        ensures
            old(self)@.len() > 0 ==> result == Ok::<u16, CpuError>(old(self)@.last()),
            old(self)@.len() > 0 ==> final(self)@ == old(self)@.drop_last(),
            old(self)@.len() == 0 ==> result == Err::<u16, CpuError>(CpuError::StackUnderflow),
            old(self)@.len() == 0 ==> final(self)@ == old(self)@,
    {
        proof {
            use_type_invariant(&*self);
        }
        if self.pointer == 0 {
            return Err(CpuError::StackUnderflow);
        }
        self.pointer -= 1;
        let addr: u16 = self.slots[self.pointer];
        Ok(addr)
    }
}

} // verus!
