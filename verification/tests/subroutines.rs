use chip_8_toy::{CallStack, CpuError, Flow, CPU};

/// Writes `words` into memory as big-endian instruction words from `addr` on.
fn store(cpu: &mut CPU, addr: usize, words: &[u16]) {
    for (i, word) in words.iter().enumerate() {
        cpu.memory[addr + 2 * i] = (word >> 8) as u8;
        cpu.memory[addr + 2 * i + 1] = (word & 0xFF) as u8;
    }
}

#[test]
fn call_pushes_the_address_after_the_call() {
    let mut cpu = CPU::new();
    store(&mut cpu, 0x200, &[0x6001, 0x2400, 0x6002]);
    store(&mut cpu, 0x400, &[0x00EE]);
    assert_eq!(cpu.step(), Ok(Flow::Continue));
    assert_eq!(cpu.step(), Ok(Flow::Continue));
    assert_eq!(cpu.program_counter, 0x400);
    assert_eq!(cpu.stack.depth(), 1);
    assert_eq!(cpu.step(), Ok(Flow::Continue));
    // Back at the instruction that follows the call.
    assert_eq!(cpu.program_counter, 0x204);
    assert_eq!(cpu.stack.depth(), 0);
    assert_eq!(cpu.step(), Ok(Flow::Continue));
    assert_eq!(cpu.registers[0], 2);
}

#[test]
fn subroutine_doubles_a_register_on_each_call() {
    let mut cpu = CPU::new();
    cpu.registers[0] = 5;
    // The subroutine adds register 0 to itself.
    store(&mut cpu, 0x400, &[0x8004, 0x00EE]);
    store(&mut cpu, 0x200, &[0x2400, 0x2400, 0x0000]);
    assert_eq!(cpu.registers[0], 5);
    for _ in 0..3 {
        assert_eq!(cpu.step(), Ok(Flow::Continue));
    }
    assert_eq!(cpu.registers[0], 10);
    assert_eq!(cpu.program_counter, 0x202);
    for _ in 0..3 {
        assert_eq!(cpu.step(), Ok(Flow::Continue));
    }
    assert_eq!(cpu.registers[0], 20);
    assert_eq!(cpu.program_counter, 0x204);
    assert_eq!(cpu.step(), Ok(Flow::Halt));
    assert_eq!(cpu.registers[0], 20);
    assert_eq!(cpu.registers[0xF], 0);

    cpu.reset();
    cpu.registers[0] = 5;
    store(&mut cpu, 0x400, &[0x8004, 0x00EE]);
    store(&mut cpu, 0x200, &[0x2400, 0x2400, 0x0000]);
    assert_eq!(cpu.run(), Ok(()));
    assert_eq!(cpu.registers[0], 20);
}

#[test]
fn calls_nest_up_to_the_capacity_and_unwind() {
    let mut cpu = CPU::new();
    // Subroutine k, at 0x300 + 4k, calls subroutine k + 1 and returns; the
    // innermost one only returns. With the call from the program there are
    // 32 calls in progress at the innermost point.
    for k in 0..31usize {
        let next = 0x300 + 4 * (k as u16 + 1);
        store(&mut cpu, 0x300 + 4 * k, &[0x2000 | next, 0x00EE]);
    }
    store(&mut cpu, 0x300 + 4 * 31, &[0x00EE]);
    store(&mut cpu, 0x200, &[0x2300, 0x6001, 0x0000]);

    for depth in 1..=32usize {
        assert_eq!(cpu.step(), Ok(Flow::Continue));
        assert_eq!(cpu.stack.depth(), depth);
        assert_eq!(cpu.program_counter, 0x300 + 4 * (depth - 1));
    }
    for depth in (0..32usize).rev() {
        assert_eq!(cpu.step(), Ok(Flow::Continue));
        assert_eq!(cpu.stack.depth(), depth);
    }
    assert_eq!(cpu.program_counter, 0x202);
    assert_eq!(cpu.run(), Ok(()));
    assert_eq!(cpu.registers[0], 1);
}

#[test]
fn one_call_beyond_the_capacity_overflows() {
    let mut cpu = CPU::new();
    // A subroutine that calls itself for ever.
    store(&mut cpu, 0x200, &[0x2300]);
    store(&mut cpu, 0x300, &[0x2300]);
    for depth in 1..=32usize {
        assert_eq!(cpu.step(), Ok(Flow::Continue));
        assert_eq!(cpu.stack.depth(), depth);
    }
    assert_eq!(cpu.step(), Err(CpuError::StackOverflow));
    assert_eq!(cpu.stack.depth(), 32);
    // The failed call did not jump: the counter is past the call word.
    assert_eq!(cpu.program_counter, 0x302);

    cpu.reset();
    store(&mut cpu, 0x200, &[0x2300]);
    store(&mut cpu, 0x300, &[0x2300]);
    assert_eq!(cpu.run(), Err(CpuError::StackOverflow));
    assert_eq!(cpu.stack.depth(), 32);
}

#[test]
fn return_on_an_empty_stack_underflows() {
    let mut cpu = CPU::new();
    store(&mut cpu, 0x200, &[0x00EE]);
    assert_eq!(cpu.run(), Err(CpuError::StackUnderflow));
    assert_eq!(cpu.stack.depth(), 0);
    assert_eq!(cpu.program_counter, 0x202);
}

#[test]
fn call_into_reserved_memory_is_refused() {
    for target in [0x000u16, 0x001, 0x100, 0x1FE, 0x1FF] {
        let mut cpu = CPU::new();
        store(&mut cpu, 0x200, &[0x2000 | target]);
        assert_eq!(cpu.run(), Err(CpuError::ReservedMemoryCall));
        assert_eq!(cpu.stack.depth(), 0);
        assert_eq!(cpu.program_counter, 0x202);
    }
    // The first address of the program region is a legal target.
    let mut cpu = CPU::new();
    store(&mut cpu, 0x200, &[0x2200]);
    assert_eq!(cpu.step(), Ok(Flow::Continue));
    assert_eq!(cpu.stack.depth(), 1);
    assert_eq!(cpu.program_counter, 0x200);
}

#[test]
fn call_into_reserved_memory_is_refused_before_the_stack_is_looked_at() {
    let mut cpu = CPU::new();
    store(&mut cpu, 0x200, &[0x2300]);
    store(&mut cpu, 0x300, &[0x2300]);
    for _ in 0..32 {
        assert_eq!(cpu.step(), Ok(Flow::Continue));
    }
    assert_eq!(cpu.stack.depth(), 32);
    store(&mut cpu, 0x300, &[0x2100]);
    assert_eq!(cpu.step(), Err(CpuError::ReservedMemoryCall));
    assert_eq!(cpu.stack.depth(), 32);
}

#[test]
fn stack_is_last_in_first_out() {
    let mut stack = CallStack::new();
    assert_eq!(stack.depth(), 0);
    assert_eq!(stack.pop(), Err(CpuError::StackUnderflow));
    assert_eq!(stack.push(0x202), Ok(()));
    assert_eq!(stack.push(0x404), Ok(()));
    assert_eq!(stack.depth(), 2);
    assert_eq!(stack.pop(), Ok(0x404));
    assert_eq!(stack.pop(), Ok(0x202));
    assert_eq!(stack.depth(), 0);
    assert_eq!(stack.pop(), Err(CpuError::StackUnderflow));
    assert_eq!(stack.depth(), 0);
}

#[test]
fn stack_holds_thirty_two_addresses() {
    let mut stack = CallStack::new();
    for i in 0..32u16 {
        assert_eq!(stack.push(0x200 + i), Ok(()));
    }
    assert_eq!(stack.depth(), 32);
    assert_eq!(stack.push(0xFFF), Err(CpuError::StackOverflow));
    assert_eq!(stack.depth(), 32);
    for i in (0..32u16).rev() {
        assert_eq!(stack.pop(), Ok(0x200 + i));
    }
    assert_eq!(stack.depth(), 0);
}
