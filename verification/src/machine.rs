//! The mathematical model of the machine: its state as plain sequences, and
//! the meaning of every instruction as a function from state to state.

use crate::instruction::{decode_word, Instruction};
use crate::outcome::{CpuError, Flow};
use crate::stack::STACK_CAPACITY;
use vstd::prelude::*;

verus! {

/// Number of bytes of addressable memory.
pub const MEMORY_SIZE: usize = 4096;

/// Number of general-purpose registers.
pub const REGISTER_COUNT: usize = 16;

/// The first address at which a program may reside. Everything below it is
/// reserved for the system.
pub const PROGRAM_START: u16 = 0x200;

/// Index of the register that receives the carry, the borrow or the bit
/// shifted out as a side effect of arithmetic and shift instructions.
pub const FLAG_REGISTER: usize = 0xF;

/// Width of an instruction in bytes.
pub const INSTRUCTION_WIDTH: usize = 2;

/// The 16-bit word made of two consecutive bytes, the first one high.
pub open spec fn instruction_word(high: u8, low: u8) -> u16 {
    (high as int * 0x100 + low as int) as u16
}

/// `a + b` reduced to eight bits.
pub open spec fn wrapping_sum(a: u8, b: u8) -> u8 {
    ((a + b) % 0x100) as u8
}

/// 1 if `a + b` does not fit in eight bits, else 0.
pub open spec fn carry(a: u8, b: u8) -> u8 {
    if a + b >= 0x100 {
        1
    } else {
        0
    }
}

/// `a - b` reduced to eight bits.
pub open spec fn wrapping_difference(a: u8, b: u8) -> u8 {
    ((a - b) % 0x100) as u8
}

/// 1 if `a - b` needs no borrow, that is if `a >= b`, else 0.
pub open spec fn no_borrow(a: u8, b: u8) -> u8 {
    if a >= b {
        1
    } else {
        0
    }
}

/// Bit 0 of `a`.
pub open spec fn lowest_bit(a: u8) -> u8 {
    a % 2
}

/// Bit 7 of `a`.
pub open spec fn highest_bit(a: u8) -> u8 {
    a / 0x80
}

/// `a` shifted right by one bit.
pub open spec fn halved(a: u8) -> u8 {
    a / 2
}

/// `a` shifted left by one bit, the low eight bits kept.
pub open spec fn doubled(a: u8) -> u8 {
    ((a * 2) % 0x100) as u8
}

/// The state of the machine.
pub struct Machine {
    /// Address of the next instruction.
    pub pc: nat,
    /// The register file. Register [`FLAG_REGISTER`] is the flag.
    pub registers: Seq<u8>,
    /// The addressable memory.
    pub memory: Seq<u8>,
    /// The return addresses of the calls in progress, oldest first. Its
    /// length is the stack pointer.
    pub stack: Seq<u16>,
}

impl Machine {
    /// The state has the fixed sizes of the machine, and the stack is within
    /// its capacity.
    pub open spec fn wf(self) -> bool {
        &&& self.registers.len() == REGISTER_COUNT
        &&& self.memory.len() == MEMORY_SIZE
        &&& self.stack.len() <= STACK_CAPACITY
    }

    /// The state of a new machine: everything zero, the stack empty and the
    /// program counter at the program base.
    pub open spec fn initial() -> Machine {
        Machine {
            pc: PROGRAM_START as nat,
            registers: Seq::new(REGISTER_COUNT as nat, |i: int| 0u8),
            memory: Seq::new(MEMORY_SIZE as nat, |i: int| 0u8),
            stack: Seq::empty(),
        }
    }

    /// The instruction word at the program counter. Fails if the program
    /// counter or the byte after it lies outside memory.
    pub open spec fn fetch(self) -> Result<u16, CpuError> {
        if self.pc + 1 < self.memory.len() {
            Ok(instruction_word(self.memory[self.pc as int], self.memory[self.pc as int + 1]))
        } else {
            Err(CpuError::FetchOutOfBounds)
        }
    }

    /// The program counter moved past one instruction.
    pub open spec fn advance(self) -> Machine {
        Machine { pc: self.pc + INSTRUCTION_WIDTH as nat, ..self }
    }

    /// The program counter set to `addr`.
    pub open spec fn jump(self, addr: u16) -> Machine {
        Machine { pc: addr as nat, ..self }
    }

    /// The next instruction skipped if `condition` holds.
    pub open spec fn skip_if(self, condition: bool) -> Machine {
        if condition {
            self.advance()
        } else {
            self
        }
    }

    /// Register `x` set to `value`.
    pub open spec fn load(self, x: u8, value: u8) -> Machine {
        Machine { registers: self.registers.update(x as int, value), ..self }
    }

    /// Register `x` set to `value`, and then the flag register to `flag`:
    /// where `x` is the flag register itself, the flag stays.
    pub open spec fn load_then_flag(self, x: u8, value: u8, flag: u8) -> Machine {
        Machine {
            registers: self.registers.update(x as int, value).update(FLAG_REGISTER as int, flag),
            ..self
        }
    }

    /// The flag register set to `flag`, and then register `x` to `value`:
    /// where `x` is the flag register itself, the value stays.
    pub open spec fn flag_then_load(self, x: u8, value: u8, flag: u8) -> Machine {
        Machine {
            registers: self.registers.update(FLAG_REGISTER as int, flag).update(x as int, value),
            ..self
        }
    }

    /// `operand` added to register `x`, wrapping; the flag is the carry.
    pub open spec fn add_to(self, x: u8, operand: u8) -> Machine {
        let a = self.registers[x as int];
        self.load_then_flag(x, wrapping_sum(a, operand), carry(a, operand))
    }

    /// Register `y` subtracted from register `x`, wrapping; the flag is 1 if
    /// no borrow occurred.
    pub open spec fn subtract(self, x: u8, y: u8) -> Machine {
        let a = self.registers[x as int];
        let b = self.registers[y as int];
        self.load_then_flag(x, wrapping_difference(a, b), no_borrow(a, b))
    }

    /// Register `x` set to register `y` minus register `x`, wrapping; the
    /// flag is 1 if no borrow occurred.
    pub open spec fn subtract_reverse(self, x: u8, y: u8) -> Machine {
        let a = self.registers[x as int];
        let b = self.registers[y as int];
        self.load_then_flag(x, wrapping_difference(b, a), no_borrow(b, a))
    }

    /// Register `x` shifted right by one bit; the flag is the bit shifted
    /// out, taken before the shift.
    pub open spec fn shift_right(self, x: u8) -> Machine {
        let a = self.registers[x as int];
        self.flag_then_load(x, halved(a), lowest_bit(a))
    }

    /// Register `x` shifted left by one bit; the flag is the bit shifted
    /// out, taken before the shift.
    pub open spec fn shift_left(self, x: u8) -> Machine {
        let a = self.registers[x as int];
        self.flag_then_load(x, doubled(a), highest_bit(a))
    }

    /// A call of the subroutine at `addr`: the program counter is pushed and
    /// then set to `addr`. A target below the program base is refused first,
    /// a full stack second; either way the state stays as it is.
    pub open spec fn call(self, addr: u16) -> (Machine, Result<(), CpuError>) {
        if addr < PROGRAM_START {
            (self, Err(CpuError::ReservedMemoryCall))
        } else if self.stack.len() >= STACK_CAPACITY {
            (self, Err(CpuError::StackOverflow))
        } else {
            (Machine { pc: addr as nat, stack: self.stack.push(self.pc as u16), ..self }, Ok(()))
        }
    }

    /// A return: the address pushed last is popped into the program counter.
    /// With an empty stack it fails, and the state stays as it is.
    pub open spec fn ret(self) -> (Machine, Result<(), CpuError>) {
        if self.stack.len() == 0 {
            (self, Err(CpuError::StackUnderflow))
        } else {
            (Machine { pc: self.stack.last() as nat, stack: self.stack.drop_last(), ..self }, Ok(()))
        }
    }

    /// The effect of one decoded instruction on a state whose program counter
    /// has already been moved past it.
    pub open spec fn execute(self, instruction: Instruction) -> (Machine, Result<Flow, CpuError>) {
        let go_on = Ok(Flow::Continue);
        match instruction {
            Instruction::Halt => (self, Ok(Flow::Halt)),
            Instruction::Return => {
                let (next, result) = self.ret();
                (next, flow_of(result))
            },
            Instruction::Jump { addr } => (self.jump(addr), go_on),
            Instruction::Call { addr } => {
                let (next, result) = self.call(addr);
                (next, flow_of(result))
            },
            Instruction::SkipEqual { x, kk } => (self.skip_if(self.registers[x as int] == kk), go_on),
            Instruction::SkipNotEqual { x, kk } => (
                self.skip_if(self.registers[x as int] != kk),
                go_on,
            ),
            Instruction::SkipEqualRegister { x, y } => (
                self.skip_if(self.registers[x as int] == self.registers[y as int]),
                go_on,
            ),
            Instruction::Load { x, kk } => (self.load(x, kk), go_on),
            Instruction::AddImmediate { x, kk } => (self.add_to(x, kk), go_on),
            Instruction::Move { x, y } => (self.load(x, self.registers[y as int]), go_on),
            Instruction::Or { x, y } => (
                self.load(x, self.registers[x as int] | self.registers[y as int]),
                go_on,
            ),
            Instruction::And { x, y } => (
                self.load(x, self.registers[x as int] & self.registers[y as int]),
                go_on,
            ),
            Instruction::Xor { x, y } => (
                self.load(x, self.registers[x as int] ^ self.registers[y as int]),
                go_on,
            ),
            Instruction::Add { x, y } => (self.add_to(x, self.registers[y as int]), go_on),
            Instruction::Subtract { x, y } => (self.subtract(x, y), go_on),
            Instruction::ShiftRight { x, .. } => (self.shift_right(x), go_on),
            Instruction::SubtractReverse { x, y } => (self.subtract_reverse(x, y), go_on),
            Instruction::ShiftLeft { x, .. } => (self.shift_left(x), go_on),
            Instruction::SkipNotEqualRegister { x, y } => (
                self.skip_if(self.registers[x as int] != self.registers[y as int]),
                go_on,
            ),
        }
    }

    /// One fetch-decode-execute cycle. A failed fetch leaves the state as it
    /// is. Otherwise the program counter is moved past the instruction before
    /// anything else happens, so that a jump, call or return has the last
    /// word on it, and a skip adds to it.
    pub open spec fn step(self) -> (Machine, Result<Flow, CpuError>) {
        match self.fetch() {
            Err(e) => (self, Err(e)),
            Ok(word) => match decode_word(word) {
                Err(e) => (self.advance(), Err(e)),
                Ok(instruction) => self.advance().execute(instruction),
            },
        }
    }

    /// At most `n` cycles, stopping early at the halt instruction or at a
    /// failure. The result is `Ok(Flow::Continue)` exactly if all `n` cycles
    /// were taken and none of them halted or failed.
    pub open spec fn run_for(self, n: nat) -> (Machine, Result<Flow, CpuError>)
        decreases n,
    {
        if n == 0 {
            (self, Ok(Flow::Continue))
        } else {
            let (next, result) = self.step();
            if result == Ok::<Flow, CpuError>(Flow::Continue) {
                next.run_for((n - 1) as nat)
            } else {
                (next, result)
            }
        }
    }

    /// The run from this state reaches the halt instruction or a failure.
    pub open spec fn terminates(self) -> bool {
        exists|n: nat| (#[trigger] self.run_for(n)).1 != Ok::<Flow, CpuError>(Flow::Continue)
    }
}

/// The outcome of an instruction that either fails or lets the run go on.
pub open spec fn flow_of(result: Result<(), CpuError>) -> Result<Flow, CpuError> {
    match result {
        Ok(()) => Ok(Flow::Continue),
        Err(e) => Err(e),
    }
}

/// What a run that has ended reports: success at the halt instruction, or
/// the failure that ended it.
pub open spec fn report_of(end: Result<Flow, CpuError>) -> Result<(), CpuError> {
    match end {
        Ok(_) => Ok(()),
        Err(e) => Err(e),
    }
}

} // verus!
