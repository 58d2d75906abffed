//! Laws of the machine, proved of the model.

use crate::instruction::{decode_word, Instruction};
use crate::machine::{
    doubled, halved, highest_bit, instruction_word, lowest_bit, Machine, FLAG_REGISTER,
    MEMORY_SIZE, PROGRAM_START, REGISTER_COUNT,
};
use crate::outcome::{CpuError, Flow};
use crate::stack::STACK_CAPACITY;
use vstd::prelude::*;

verus! {

/// A run of `n + 1` cycles that has not ended after `n` of them is the run
/// of `n` cycles followed by one cycle more.
pub proof fn run_for_one_more(m: Machine, n: nat)
    requires
        m.run_for(n).1 == Ok::<Flow, CpuError>(Flow::Continue),
    ensures
        m.run_for(n + 1) == m.run_for(n).0.step(),
    decreases n,
{
    reveal_with_fuel(Machine::run_for, 2);
    if n > 0 {
        run_for_one_more(m.step().0, (n - 1) as nat);
    }
}

/// Once a run has ended, at the halt instruction or at a failure, allowing it
/// more cycles changes nothing: the end of a run is unique.
pub proof fn run_for_is_stable(m: Machine, n: nat, more: nat)
    requires
        m.run_for(n).1 != Ok::<Flow, CpuError>(Flow::Continue),
        n <= more,
    ensures
        m.run_for(more) == m.run_for(n),
    decreases n,
{
    if n > 0 {
        let (next, result) = m.step();
        if result == Ok::<Flow, CpuError>(Flow::Continue) {
            run_for_is_stable(next, (n - 1) as nat, (more - 1) as nat);
        }
    }
}

/// A run ends in one way only: whatever numbers of cycles are enough for it
/// to end, it ends in the same state and with the same outcome.
pub proof fn end_of_run_is_unique(m: Machine, a: nat, b: nat)
    requires
        m.run_for(a).1 != Ok::<Flow, CpuError>(Flow::Continue),
        m.run_for(b).1 != Ok::<Flow, CpuError>(Flow::Continue),
    ensures
        m.run_for(a) == m.run_for(b),
{
    if a <= b {
        run_for_is_stable(m, a, b);
    } else {
        run_for_is_stable(m, b, a);
    }
}

/// The initial state is well formed: the program counter is at the program
/// base, every register and every byte of memory is zero, and the stack is
/// empty.
pub proof fn initial_state_is_zeroed()
    ensures
        Machine::initial().wf(),
        Machine::initial().pc == PROGRAM_START,
        forall|i: int| 0 <= i < REGISTER_COUNT ==> Machine::initial().registers[i] == 0,
        forall|i: int| 0 <= i < MEMORY_SIZE ==> Machine::initial().memory[i] == 0,
        Machine::initial().stack.len() == 0,
{
}

/// A cycle keeps a well-formed state well formed: the sizes of the register
/// file and of memory never change, memory itself is never written, and the
/// stack pointer stays between zero and the capacity.
pub proof fn step_preserves_wf(m: Machine)
    requires
        m.wf(),
    ensures
        m.step().0.wf(),
        m.step().0.memory == m.memory,
{
}

/// A run keeps a well-formed state well formed, and never writes memory.
pub proof fn run_for_preserves_wf(m: Machine, n: nat)
    requires
        m.wf(),
    ensures
        m.run_for(n).0.wf(),
        m.run_for(n).0.memory == m.memory,
    decreases n,
{
    if n > 0 {
        step_preserves_wf(m);
        run_for_preserves_wf(m.step().0, (n - 1) as nat);
    }
}

/// The instruction word is the first byte shifted left by eight bits, with
/// the second byte in the low bits.
pub proof fn instruction_word_by_bits(high: u8, low: u8)
    ensures
        instruction_word(high, low) == ((high as u16) << 8) | (low as u16),
{
    let h: u16 = high as u16;
    let l: u16 = low as u16;
    assert(h << 8 | l == h * 0x100 + l) by (bit_vector)
        requires
            h < 0x100,
            l < 0x100,
    ;
}

/// Adding register `y` to register `x` leaves the flag at 1 if and only if
/// the sum of the two does not fit in eight bits, and at 0 otherwise. Unless
/// `x` is the flag register itself, register `x` then holds the sum modulo
/// 256. No other register changes, and the run goes on.
pub proof fn add_wraps_and_sets_carry(m: Machine, x: u8, y: u8)
    requires
        m.wf(),
        x < REGISTER_COUNT,
        y < REGISTER_COUNT,
    ensures
        ({
            let a = m.registers[x as int];
            let b = m.registers[y as int];
            let (next, result) = m.execute(Instruction::Add { x, y });
            &&& result == Ok::<Flow, CpuError>(Flow::Continue)
            &&& next.registers[FLAG_REGISTER as int] == 1 <==> a + b >= 256
            &&& next.registers[FLAG_REGISTER as int] == 0 <==> a + b < 256
            &&& x != FLAG_REGISTER ==> next.registers[x as int] == (a + b) % 256
            &&& forall|i: int|
                0 <= i < REGISTER_COUNT && i != x && i != FLAG_REGISTER ==> next.registers[i]
                    == m.registers[i]
            &&& next.registers.len() == REGISTER_COUNT
            &&& next.pc == m.pc
            &&& next.memory == m.memory
            &&& next.stack == m.stack
        }),
{
}

/// Adding the immediate byte `kk` to register `x` behaves as adding a
/// register that holds `kk`.
pub proof fn add_immediate_wraps_and_sets_carry(m: Machine, x: u8, kk: u8)
    requires
        m.wf(),
        x < REGISTER_COUNT,
    ensures
        ({
            let a = m.registers[x as int];
            let (next, result) = m.execute(Instruction::AddImmediate { x, kk });
            &&& result == Ok::<Flow, CpuError>(Flow::Continue)
            &&& next.registers[FLAG_REGISTER as int] == 1 <==> a + kk >= 256
            &&& next.registers[FLAG_REGISTER as int] == 0 <==> a + kk < 256
            &&& x != FLAG_REGISTER ==> next.registers[x as int] == (a + kk) % 256
            &&& forall|i: int|
                0 <= i < REGISTER_COUNT && i != x && i != FLAG_REGISTER ==> next.registers[i]
                    == m.registers[i]
            &&& next.registers.len() == REGISTER_COUNT
            &&& next.pc == m.pc
            &&& next.memory == m.memory
            &&& next.stack == m.stack
        }),
{
}

/// Subtracting register `y` from register `x` leaves the flag at 1 if and
/// only if no borrow occurred, that is if register `x` was at least register
/// `y`, and at 0 otherwise. Unless `x` is the flag register itself, register
/// `x` then holds the difference modulo 256. No other register changes, and
/// the run goes on.
pub proof fn subtract_wraps_and_sets_no_borrow(m: Machine, x: u8, y: u8)
    requires
        m.wf(),
        x < REGISTER_COUNT,
        y < REGISTER_COUNT,
    ensures
        ({
            let a = m.registers[x as int];
            let b = m.registers[y as int];
            let (next, result) = m.execute(Instruction::Subtract { x, y });
            &&& result == Ok::<Flow, CpuError>(Flow::Continue)
            &&& next.registers[FLAG_REGISTER as int] == 1 <==> a >= b
            &&& next.registers[FLAG_REGISTER as int] == 0 <==> a < b
            &&& x != FLAG_REGISTER ==> next.registers[x as int] == (a - b) % 256
            &&& forall|i: int|
                0 <= i < REGISTER_COUNT && i != x && i != FLAG_REGISTER ==> next.registers[i]
                    == m.registers[i]
            &&& next.registers.len() == REGISTER_COUNT
            &&& next.pc == m.pc
            &&& next.memory == m.memory
            &&& next.stack == m.stack
        }),
{
}

/// The reverse subtraction stores register `y` minus register `x` in
/// register `x`: the flag is left at 1 if and only if register `y` was at
/// least register `x`, and at 0 otherwise. Unless `x` is the flag register
/// itself, register `x` then holds the difference modulo 256.
pub proof fn subtract_reverse_wraps_and_sets_no_borrow(m: Machine, x: u8, y: u8)
    requires
        m.wf(),
        x < REGISTER_COUNT,
        y < REGISTER_COUNT,
    ensures
        ({
            let a = m.registers[x as int];
            let b = m.registers[y as int];
            let (next, result) = m.execute(Instruction::SubtractReverse { x, y });
            &&& result == Ok::<Flow, CpuError>(Flow::Continue)
            &&& next.registers[FLAG_REGISTER as int] == 1 <==> b >= a
            &&& next.registers[FLAG_REGISTER as int] == 0 <==> b < a
            &&& x != FLAG_REGISTER ==> next.registers[x as int] == (b - a) % 256
            &&& forall|i: int|
                0 <= i < REGISTER_COUNT && i != x && i != FLAG_REGISTER ==> next.registers[i]
                    == m.registers[i]
            &&& next.registers.len() == REGISTER_COUNT
            &&& next.pc == m.pc
            &&& next.memory == m.memory
            &&& next.stack == m.stack
        }),
{
}

/// The bits that the shifts move: the lowest bit of a byte is its remainder
/// modulo two and the highest its quotient by 128; shifting right by one bit
/// halves the byte, and shifting left by one bit doubles it modulo 256.
pub proof fn shifts_by_bits(a: u8)
    ensures
        lowest_bit(a) == a & 0x01,
        highest_bit(a) == (a & 0x80) >> 7,
        halved(a) == a >> 1,
        doubled(a) == a << 1,
        lowest_bit(a) <= 1,
        highest_bit(a) <= 1,
{
    assert(a & 0x01 == a % 2) by (bit_vector);
    assert((a & 0x80) >> 7 == a / 0x80) by (bit_vector);
    assert(a >> 1 == a / 2) by (bit_vector);
    assert(a << 1 == (a * 2) % 0x100) by (bit_vector);
}

/// Shifting register `x` right halves it. Unless `x` is the flag register
/// itself, the flag is left at bit 0 of the value that the register held
/// before the shift. No other register changes, and the run goes on.
pub proof fn shift_right_halves_and_sets_flag(m: Machine, x: u8, y: u8)
    requires
        m.wf(),
        x < REGISTER_COUNT,
    ensures
        ({
            let a = m.registers[x as int];
            let (next, result) = m.execute(Instruction::ShiftRight { x, y });
            &&& result == Ok::<Flow, CpuError>(Flow::Continue)
            &&& next.registers[x as int] == a / 2
            &&& next.registers[x as int] == a >> 1
            &&& x != FLAG_REGISTER ==> next.registers[FLAG_REGISTER as int] == a % 2
            &&& x != FLAG_REGISTER ==> next.registers[FLAG_REGISTER as int] == a & 0x01
            &&& forall|i: int|
                0 <= i < REGISTER_COUNT && i != x && i != FLAG_REGISTER ==> next.registers[i]
                    == m.registers[i]
            &&& next.registers.len() == REGISTER_COUNT
            &&& next.pc == m.pc
            &&& next.memory == m.memory
            &&& next.stack == m.stack
        }),
{
    shifts_by_bits(m.registers[x as int]);
}

/// Shifting register `x` left doubles it modulo 256. Unless `x` is the flag
/// register itself, the flag is left at bit 7 of the value that the register
/// held before the shift. No other register changes, and the run goes on.
pub proof fn shift_left_doubles_and_sets_flag(m: Machine, x: u8, y: u8)
    requires
        m.wf(),
        x < REGISTER_COUNT,
    ensures
        ({
            let a = m.registers[x as int];
            let (next, result) = m.execute(Instruction::ShiftLeft { x, y });
            &&& result == Ok::<Flow, CpuError>(Flow::Continue)
            &&& next.registers[x as int] == (a * 2) % 256
            &&& next.registers[x as int] == a << 1
            &&& x != FLAG_REGISTER ==> next.registers[FLAG_REGISTER as int] == a / 128
            &&& x != FLAG_REGISTER ==> next.registers[FLAG_REGISTER as int] == (a & 0x80) >> 7
            &&& forall|i: int|
                0 <= i < REGISTER_COUNT && i != x && i != FLAG_REGISTER ==> next.registers[i]
                    == m.registers[i]
            &&& next.registers.len() == REGISTER_COUNT
            &&& next.pc == m.pc
            &&& next.memory == m.memory
            &&& next.stack == m.stack
        }),
{
    shifts_by_bits(m.registers[x as int]);
}

/// A call to an address in the program region, made with room on the stack,
/// succeeds, and a return right after it gives back the state from before
/// the call: the program counter is the one that was pushed, and the stack is
/// as deep as it was. This holds at every depth below the capacity.
pub proof fn call_then_return_restores(m: Machine, addr: u16)
    requires
        m.pc <= u16::MAX,
        addr >= PROGRAM_START,
        m.stack.len() < STACK_CAPACITY,
    ensures
        m.call(addr).1 == Ok::<(), CpuError>(()),
        m.call(addr).0.pc == addr,
        m.call(addr).0.stack.len() == m.stack.len() + 1,
        m.call(addr).0.ret() == (m, Ok::<(), CpuError>(())),
{
    assert(m.call(addr).0.stack.drop_last() =~= m.stack);
}

/// The state after the subroutines at `addrs` were called one inside the
/// other, each call being the first thing that the subroutine before it does.
pub open spec fn after_calls(m: Machine, addrs: Seq<u16>) -> Machine
    decreases addrs.len(),
{
    if addrs.len() == 0 {
        m
    } else {
        after_calls(m, addrs.drop_last()).call(addrs.last()).0
    }
}

/// The state after `count` returns in a row.
pub open spec fn after_returns(m: Machine, count: nat) -> Machine
    decreases count,
{
    if count == 0 {
        m
    } else {
        after_returns(m.ret().0, (count - 1) as nat)
    }
}

/// Calls nested as deep as the stack has room succeed one and all, and as
/// many returns then unwind them: the machine is back in the state from
/// before the outermost call.
pub proof fn nested_calls_then_returns_restore(m: Machine, addrs: Seq<u16>)
    requires
        m.pc <= u16::MAX,
        forall|i: int| 0 <= i < addrs.len() ==> addrs[i] >= PROGRAM_START,
        m.stack.len() + addrs.len() <= STACK_CAPACITY,
    ensures
        after_calls(m, addrs).stack.len() == m.stack.len() + addrs.len(),
        after_calls(m, addrs).pc <= u16::MAX,
        forall|k: int|
            0 <= k < addrs.len() ==> (#[trigger] after_calls(m, addrs.take(k))).call(addrs[k]).1
                == Ok::<(), CpuError>(()),
        after_returns(after_calls(m, addrs), addrs.len()) == m,
    decreases addrs.len(),
{
    if addrs.len() > 0 {
        let outer = addrs.drop_last();
        nested_calls_then_returns_restore(m, outer);
        call_then_return_restores(after_calls(m, outer), addrs.last());
        assert forall|k: int| 0 <= k < addrs.len() implies (#[trigger] after_calls(
            m,
            addrs.take(k),
        )).call(addrs[k]).1 == Ok::<(), CpuError>(()) by {
            if k < outer.len() {
                assert(addrs.take(k) =~= outer.take(k));
            } else {
                assert(addrs.take(k) =~= outer);
            }
        }
    }
}

/// The same at the level of instructions: where the word at the program
/// counter is a call to `addr`, and the word at `addr` is a return, two
/// cycles leave the machine at the instruction that follows the call, with
/// nothing else changed.
pub proof fn call_and_return_instructions(m: Machine, addr: u16)
    requires
        m.wf(),
        m.fetch() matches Ok(word) && decode_word(word) == Ok::<Instruction, CpuError>(
            Instruction::Call { addr },
        ),
        addr >= PROGRAM_START,
        m.stack.len() < STACK_CAPACITY,
        m.jump(addr).fetch() matches Ok(word) && decode_word(word) == Ok::<Instruction, CpuError>(
            Instruction::Return,
        ),
    ensures
        m.run_for(2) == (m.advance(), Ok::<Flow, CpuError>(Flow::Continue)),
{
    call_then_return_restores(m.advance(), addr);
    reveal_with_fuel(Machine::run_for, 3);
}

/// A call with the stack at its capacity fails with a stack overflow and
/// changes nothing.
pub proof fn call_on_full_stack_overflows(m: Machine, addr: u16)
    requires
        addr >= PROGRAM_START,
        m.stack.len() == STACK_CAPACITY,
    ensures
        m.call(addr) == (m, Err::<(), CpuError>(CpuError::StackOverflow)),
{
}

/// One call more than the stack can hold: after calls nested from an empty
/// stack up to its capacity, the next call fails with a stack overflow and
/// changes nothing.
pub proof fn call_beyond_capacity_overflows(m: Machine, addrs: Seq<u16>, addr: u16)
    requires
        m.pc <= u16::MAX,
        m.stack.len() == 0,
        addrs.len() == STACK_CAPACITY,
        forall|i: int| 0 <= i < addrs.len() ==> addrs[i] >= PROGRAM_START,
        addr >= PROGRAM_START,
    ensures
        after_calls(m, addrs).call(addr) == (
            after_calls(m, addrs),
            Err::<(), CpuError>(CpuError::StackOverflow),
        ),
{
    nested_calls_then_returns_restore(m, addrs);
}

/// A return with an empty stack fails with a stack underflow and changes
/// nothing.
pub proof fn return_on_empty_stack_underflows(m: Machine)
    requires
        m.stack.len() == 0,
    ensures
        m.ret() == (m, Err::<(), CpuError>(CpuError::StackUnderflow)),
{
}

/// A call to any address in the reserved region fails with a reserved-memory
/// violation, whatever the stack holds, and changes nothing: the stack
/// pointer in particular stays where it was.
pub proof fn call_into_reserved_memory_is_refused(m: Machine, addr: u16)
    requires
        addr < PROGRAM_START,
    ensures
        m.call(addr) == (m, Err::<(), CpuError>(CpuError::ReservedMemoryCall)),
        m.execute(Instruction::Call { addr }) == (
            m,
            Err::<Flow, CpuError>(CpuError::ReservedMemoryCall),
        ),
{
}

/// The same for the call instruction in a program: a cycle that fetches a
/// call into the reserved region fails, with the program counter moved past
/// the instruction and the stack untouched.
pub proof fn call_instruction_into_reserved_memory_is_refused(m: Machine, addr: u16)
    requires
        m.fetch() matches Ok(word) && decode_word(word) == Ok::<Instruction, CpuError>(
            Instruction::Call { addr },
        ),
        addr < PROGRAM_START,
    ensures
        m.step() == (m.advance(), Err::<Flow, CpuError>(CpuError::ReservedMemoryCall)),
        m.step().0.stack == m.stack,
{
}

} // verus!
