//! The executable machine.

use crate::instruction::{decode, Instruction};
use crate::laws::{end_of_run_is_unique, run_for_one_more};
use crate::machine::{
    report_of, Machine, FLAG_REGISTER, INSTRUCTION_WIDTH, MEMORY_SIZE, PROGRAM_START,
    REGISTER_COUNT,
};
use crate::outcome::{CpuError, Flow};
use crate::stack::CallStack;
use vstd::prelude::*;

verus! {

/// The interpreter: a program counter, sixteen 8-bit registers, 4096 bytes of
/// memory and a call stack.
///
/// A caller loads a program into `memory`, as big-endian instruction words
/// from [`PROGRAM_START`] on, sets `registers` as it likes, calls
/// [`CPU::run`] and reads the registers afterwards.
pub struct CPU {
    /// Address of the next instruction.
    pub program_counter: usize,
    /// The register file. Register 0xF is the flag.
    pub registers: [u8; REGISTER_COUNT],
    /// The addressable memory.
    pub memory: [u8; MEMORY_SIZE],
    /// The return addresses of the calls in progress.
    pub stack: CallStack,
}

impl View for CPU {
    type V = Machine;

    open spec fn view(&self) -> Machine {
        Machine {
            pc: self.program_counter as nat,
            registers: self.registers@,
            memory: self.memory@,
            stack: self.stack@,
        }
    }
}

impl CPU {
    /// A machine in its initial state: registers, memory and stack zeroed,
    /// the program counter at [`PROGRAM_START`].
    pub fn new() -> (cpu: CPU)
        ensures
            cpu@ == Machine::initial(),
    {
        let cpu = CPU {
            program_counter: PROGRAM_START as usize,
            registers: [0; REGISTER_COUNT],
            memory: [0; MEMORY_SIZE],
            stack: CallStack::new(),
        };
        assert(cpu@.registers =~= Machine::initial().registers);
        assert(cpu@.memory =~= Machine::initial().memory);
        cpu
    }

    /// Reads the instruction word at the program counter: two bytes, the
    /// first one high.
    fn read_opcode(&self) -> (result: Result<u16, CpuError>)
        ensures
            result == self@.fetch(),
    {
        if self.program_counter >= MEMORY_SIZE - 1 {
            return Err(CpuError::FetchOutOfBounds);
        }
        let op_byte1: u16 = self.memory[self.program_counter] as u16;
        let op_byte2: u16 = self.memory[self.program_counter + 1] as u16;
        assert(op_byte1 << 8 | op_byte2 == op_byte1 * 0x100 + op_byte2) by (bit_vector)
            requires
                op_byte1 < 0x100,
                op_byte2 < 0x100,
        ;
        Ok(op_byte1 << 8 | op_byte2)
    }

    /// Executes one instruction: fetch, decode, move the program counter
    /// past the instruction, dispatch.
    pub fn step(&mut self) -> (result: Result<Flow, CpuError>)
        ensures
            (final(self)@, result) == old(self)@.step(),
    {
        let opcode: u16 = match self.read_opcode() {
            Ok(word) => word,
            Err(e) => {
                return Err(e);
            },
        };
        self.program_counter += INSTRUCTION_WIDTH;
        match decode(opcode) {
            Ok(instruction) => self.execute(instruction),
            Err(e) => Err(e),
        }
    }

    /// Runs from the current program counter until the halt instruction, which
    /// gives `Ok`, or until an instruction fails, which gives its error.
    ///
    /// There is no instruction budget: a program that never halts and never
    /// fails runs forever. The contract is about the programs that end.
    pub fn run(&mut self) -> (result: Result<(), CpuError>)
        requires
            old(self)@.terminates(),
        ensures
            forall|n: nat|
                (#[trigger] old(self)@.run_for(n)).1 != Ok::<Flow, CpuError>(Flow::Continue)
                    ==> final(self)@ == old(self)@.run_for(n).0 && result == report_of(
                    old(self)@.run_for(n).1,
                ),
    {
        let ghost start = self@;
        let ghost mut taken: nat = 0;
        let ghost mut left: nat = choose|n: nat|
            (#[trigger] self@.run_for(n)).1 != Ok::<Flow, CpuError>(Flow::Continue);
        loop
            invariant
                start == old(self)@,
                start.run_for(taken) == (self@, Ok::<Flow, CpuError>(Flow::Continue)),
                self@.run_for(left).1 != Ok::<Flow, CpuError>(Flow::Continue),
            decreases left,
        {
            let outcome = self.step();
            proof {
                run_for_one_more(start, taken);
                if outcome == Ok::<Flow, CpuError>(Flow::Continue) {
                    taken = taken + 1;
                    left = (left - 1) as nat;
                } else {
                    assert forall|n: nat|
                        (#[trigger] start.run_for(n)).1 != Ok::<Flow, CpuError>(
                            Flow::Continue,
                        ) implies start.run_for(n) == (self@, outcome) by {
                        end_of_run_is_unique(start, n, taken + 1);
                    }
                }
            }
            match outcome {
                Ok(Flow::Continue) => {},
                Ok(Flow::Halt) => {
                    return Ok(());
                },
                Err(e) => {
                    return Err(e);
                },
            }
        }
    }

    /// Carries out a decoded instruction. The program counter has already
    /// been moved past it.
    fn execute(&mut self, instruction: Instruction) -> (result: Result<Flow, CpuError>)
        requires
            instruction.wf(),
            old(self).program_counter <= MEMORY_SIZE,
        ensures
            (final(self)@, result) == old(self)@.execute(instruction),
    {
        match instruction {
            Instruction::Halt => {
                return Ok(Flow::Halt);
            },
            Instruction::Return => {
                if let Err(e) = self.ret() {
                    return Err(e);
                }
            },
            Instruction::Jump { addr } => self.jmp(addr),
            Instruction::Call { addr } => {
                if let Err(e) = self.call(addr) {
                    return Err(e);
                }
            },
            Instruction::SkipEqual { x, kk } => self.se(x, kk),
            Instruction::SkipNotEqual { x, kk } => self.sne(x, kk),
            Instruction::SkipEqualRegister { x, y } => self.se(x, self.registers[y as usize]),
            Instruction::Load { x, kk } => self.ld(x, kk),
            Instruction::AddImmediate { x, kk } => self.add(x, kk),
            Instruction::Move { x, y } => self.ld(x, self.registers[y as usize]),
            Instruction::Or { x, y } => self.or_xy(x, y),
            Instruction::And { x, y } => self.and_xy(x, y),
            Instruction::Xor { x, y } => self.xor_xy(x, y),
            Instruction::Add { x, y } => self.add(x, self.registers[y as usize]),
            Instruction::Subtract { x, y } => self.sub_xy(x, y),
            Instruction::ShiftRight { x, y } => self.shr_xy(x, y),
            Instruction::SubtractReverse { x, y } => self.subn_xy(x, y),
            Instruction::ShiftLeft { x, y } => self.shl_xy(x, y),
            Instruction::SkipNotEqualRegister { x, y } => self.sne(x, self.registers[y as usize]),
        }
        Ok(Flow::Continue)
    }

    /// `8xy8`: sets the flag to the most significant bit of register `vx`,
    /// then shifts the register left by one bit.
    fn shl_xy(&mut self, vx: u8, _vy: u8)
        requires
            vx < 16,
        ensures
            final(self)@ == old(self)@.shift_left(vx),
    {
        let x: u8 = self.registers[vx as usize];
        assert((x & 0x80) >> 7 == x / 0x80) by (bit_vector);
        assert(x << 1 == (x * 2) % 0x100) by (bit_vector);
        self.registers[FLAG_REGISTER] = (x & 0x80) >> 7;
        self.registers[vx as usize] = x << 1;
    }

    /// `8xy7`: sets register `vx` to register `vy` minus register `vx`, and
    /// the flag to 1 if that took no borrow, else to 0.
    fn subn_xy(&mut self, vx: u8, vy: u8)
        requires
            vx < 16,
            vy < 16,
        ensures
            final(self)@ == old(self)@.subtract_reverse(vx, vy),
    {
        let x: u8 = self.registers[vx as usize];
        let y: u8 = self.registers[vy as usize];

        let val: u8 = y.wrapping_sub(x);

        self.registers[vx as usize] = val;

        if y >= x {
            self.registers[FLAG_REGISTER] = 1;
        } else {
            self.registers[FLAG_REGISTER] = 0;
        }
    }

    /// `8xy6`: sets the flag to the least significant bit of register `vx`,
    /// then shifts the register right by one bit.
    fn shr_xy(&mut self, vx: u8, _vy: u8)
        requires
            vx < 16,
        ensures
            final(self)@ == old(self)@.shift_right(vx),
    {
        let x: u8 = self.registers[vx as usize];
        assert(x & 0x01 == x % 2) by (bit_vector);
        assert(x >> 1 == x / 2) by (bit_vector);
        self.registers[FLAG_REGISTER] = x & 0x01;
        self.registers[vx as usize] = x >> 1;
    }

    /// `8xy5`: subtracts register `vy` from register `vx`, and sets the flag
    /// to 1 if that took no borrow, else to 0.
    fn sub_xy(&mut self, vx: u8, vy: u8)
        requires
            vx < 16,
            vy < 16,
        ensures
            final(self)@ == old(self)@.subtract(vx, vy),
    {
        let x: u8 = self.registers[vx as usize];
        let y: u8 = self.registers[vy as usize];

        let val: u8 = x.wrapping_sub(y);

        self.registers[vx as usize] = val;

        if x >= y {
            self.registers[FLAG_REGISTER] = 1;
        } else {
            self.registers[FLAG_REGISTER] = 0;
        }
    }

    /// `8xy3`: stores the bitwise XOR of registers `vx` and `vy` in `vx`.
    fn xor_xy(&mut self, vx: u8, vy: u8)
        requires
            vx < 16,
            vy < 16,
        ensures
            final(self)@ == old(self)@.load(
                vx,
                old(self)@.registers[vx as int] ^ old(self)@.registers[vy as int],
            ),
    {
        let x: u8 = self.registers[vx as usize];
        let y: u8 = self.registers[vy as usize];

        self.registers[vx as usize] = x ^ y;
    }

    /// `8xy1`: stores the bitwise OR of registers `vx` and `vy` in `vx`.
    fn or_xy(&mut self, vx: u8, vy: u8)
        requires
            vx < 16,
            vy < 16,
        ensures
            final(self)@ == old(self)@.load(
                vx,
                old(self)@.registers[vx as int] | old(self)@.registers[vy as int],
            ),
    {
        let x: u8 = self.registers[vx as usize];
        let y: u8 = self.registers[vy as usize];

        self.registers[vx as usize] = x | y;
    }

    /// `8xy2`: stores the bitwise AND of registers `vx` and `vy` in `vx`.
    fn and_xy(&mut self, vx: u8, vy: u8)
        requires
            vx < 16,
            vy < 16,
        ensures
            final(self)@ == old(self)@.load(
                vx,
                old(self)@.registers[vx as int] & old(self)@.registers[vy as int],
            ),
    {
        let x: u8 = self.registers[vx as usize];
        let y: u8 = self.registers[vy as usize];

        self.registers[vx as usize] = x & y;
    }

    /// `1nnn`: sets the program counter to `addr`.
    fn jmp(&mut self, addr: u16)
        ensures
            final(self)@ == old(self)@.jump(addr),
    {
        self.program_counter = addr as usize;
    }

    /// `3xkk`, `5xy0`: skips the next instruction if register `vx` equals
    /// `kk`.
    fn se(&mut self, vx: u8, kk: u8)
        requires
            vx < 16,
            old(self).program_counter <= usize::MAX - INSTRUCTION_WIDTH,
        ensures
            final(self)@ == old(self)@.skip_if(old(self)@.registers[vx as int] == kk),
    {
        if self.registers[vx as usize] == kk {
            self.program_counter += INSTRUCTION_WIDTH;
        }
    }

    /// `4xkk`, `9xy0`: skips the next instruction if register `vx` differs
    /// from `kk`.
    fn sne(&mut self, vx: u8, kk: u8)
        requires
            vx < 16,
            old(self).program_counter <= usize::MAX - INSTRUCTION_WIDTH,
        ensures
            final(self)@ == old(self)@.skip_if(old(self)@.registers[vx as int] != kk),
    {
        if self.registers[vx as usize] != kk {
            self.program_counter += INSTRUCTION_WIDTH;
        }
    }

    /// `6xkk`, `8xy0`: puts `kk` into register `vx`.
    fn ld(&mut self, vx: u8, kk: u8)
        requires
            vx < 16,
        ensures
            final(self)@ == old(self)@.load(vx, kk),
    {
        self.registers[vx as usize] = kk;
    }

    /// `7xkk`, `8xy4`: adds `kk` to register `vx`, and sets the flag to 1 if
    /// the sum did not fit in eight bits, else to 0.
    fn add(&mut self, vx: u8, kk: u8)
        requires
            vx < 16,
        ensures
            final(self)@ == old(self)@.add_to(vx, kk),
    {
        let x: u8 = self.registers[vx as usize];
        let val: u8 = x.wrapping_add(kk);
        let is_overflown: bool = x.checked_add(kk).is_none();

        self.registers[vx as usize] = val;

        if is_overflown {
            self.registers[FLAG_REGISTER] = 1;
        } else {
            self.registers[FLAG_REGISTER] = 0;
        }
    }

    /// `2nnn`: pushes the program counter and sets it to `addr`.
    ///
    /// Fails, and changes nothing, if `addr` lies in the reserved memory
    /// below [`PROGRAM_START`], or else if the stack is full.
    fn call(&mut self, addr: u16) -> (result: Result<(), CpuError>)
        requires
            old(self).program_counter <= u16::MAX,
        ensures
            (final(self)@, result) == old(self)@.call(addr),
    {
        if addr < PROGRAM_START {
            return Err(CpuError::ReservedMemoryCall);
        }
        let return_addr: u16 = self.program_counter as u16;
        match self.stack.push(return_addr) {
            Ok(()) => {
                self.program_counter = addr as usize;
                Ok(())
            },
            Err(e) => Err(e),
        }
    }

    /// `00EE`: pops the address on top of the stack into the program counter.
    ///
    /// Fails, and changes nothing, if the stack is empty.
    fn ret(&mut self) -> (result: Result<(), CpuError>)
        ensures
            (final(self)@, result) == old(self)@.ret(),
    {
        match self.stack.pop() {
            Ok(call_addr) => {
                self.program_counter = call_addr as usize;
                Ok(())
            },
            Err(e) => Err(e),
        }
    }

    /// Puts the machine back into its initial state, whatever state it is in.
    pub fn reset(&mut self)
        ensures
            final(self)@ == Machine::initial(),
    {
        *self = Self::new();
    }
}

impl Default for CPU {
    fn default() -> (cpu: Self)
        ensures
            cpu@ == Machine::initial(),
    {
        Self::new()
    }
}

} // verus!
