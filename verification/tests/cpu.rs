use chip_8_toy::{CpuError, Flow, CPU};

#[test]
fn addition() {
    let mut cpu = CPU::new();

    cpu.registers[0] = 5;
    cpu.registers[1] = 10;
    cpu.registers[2] = 10;
    cpu.registers[3] = 10;

    let mem = &mut cpu.memory;

    // 8 - operation involves two registers
    // 0 - maps to cpu.registers[0]
    // 1 - maps to cpu.registers[1]
    // 4 - indicates addition
    mem[512] = 0x80;
    mem[513] = 0x14;

    mem[514] = 0x80;
    mem[515] = 0x24;

    mem[516] = 0x80;
    mem[517] = 0x34;

    assert_eq!(cpu.run(), Ok(()));

    assert_eq!(cpu.registers[0], 35);
}

#[test]
fn call_and_return() {
    let mut cpu = CPU::new();

    cpu.registers[0] = 5;
    cpu.registers[1] = 10;

    let mem = &mut cpu.memory;

    // Add twice function at address 0x400
    mem[0x400] = 0x80;
    mem[0x401] = 0x14;
    mem[0x402] = 0x80;
    mem[0x403] = 0x14;
    mem[0x404] = 0x00;
    mem[0x405] = 0xEE;

    // Call function twice
    mem[0x200] = 0x24;
    mem[0x201] = 0x00;
    mem[0x202] = 0x24;
    mem[0x203] = 0x00;
    // End program
    mem[0x204] = 0x00;
    mem[0x205] = 0x00;

    assert_eq!(cpu.run(), Ok(()));

    assert_eq!(cpu.registers[0], 45);
}

#[test]
fn shr_xy() {
    let mut cpu = CPU::new();
    cpu.registers[0] = 5;

    let mem = &mut cpu.memory;

    mem[0x200] = 0x80;
    mem[0x201] = 0x16;

    assert_eq!(cpu.run(), Ok(()));

    assert_eq!(2, cpu.registers[0]);
    assert_eq!(1, cpu.registers[0xF]);

    cpu.reset();
    cpu.registers[0] = 4;

    let mem = &mut cpu.memory;

    mem[0x200] = 0x80;
    mem[0x201] = 0x16;

    assert_eq!(cpu.run(), Ok(()));

    assert_eq!(2, cpu.registers[0]);
    assert_eq!(0, cpu.registers[0xF]);
}

#[test]
fn shl_xy() {
    let mut cpu = CPU::new();
    cpu.registers[0] = 0x81;

    let mem = &mut cpu.memory;

    mem[0x200] = 0x80;
    mem[0x201] = 0x18;

    assert_eq!(cpu.run(), Ok(()));

    assert_eq!(2, cpu.registers[0]);
    assert_eq!(1, cpu.registers[0xF]);

    cpu.reset();
    cpu.registers[0] = 0x01;

    let mem = &mut cpu.memory;

    mem[0x200] = 0x80;
    mem[0x201] = 0x18;

    assert_eq!(cpu.run(), Ok(()));

    assert_eq!(2, cpu.registers[0]);
    assert_eq!(0, cpu.registers[0xF]);
}

#[test]
fn step_reports_flow() {
    let mut cpu = CPU::new();
    cpu.memory[0x200] = 0x60;
    cpu.memory[0x201] = 0x2A;
    assert_eq!(cpu.step(), Ok(Flow::Continue));
    assert_eq!(cpu.registers[0], 0x2A);
    assert_eq!(cpu.step(), Ok(Flow::Halt));
    assert_eq!(cpu.step(), Ok(Flow::Halt));
    assert_eq!(cpu.program_counter, 0x206);
    cpu.memory[0x206] = 0xF0;
    assert_eq!(cpu.step(), Err(CpuError::UnimplementedInstruction(0xF000)));
}
