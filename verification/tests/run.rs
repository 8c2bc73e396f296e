use fake6502::backplane::Backplane;
use fake6502::cpu::CPU;
use fake6502::dispatch::{AddrMode, Operation};
use fake6502::run::MAX_INSTRUCTION_CYCLES;
use fake6502::system::{TestSystem, TEST_START_ADDR};

const BASE_CYCLES: [u32; 256] = [
    7, 6, 2, 8, 3, 3, 5, 5, 3, 2, 2, 2, 4, 4, 6, 6,
    2, 5, 2, 8, 4, 4, 6, 6, 2, 4, 2, 7, 4, 4, 7, 7,
    6, 6, 2, 8, 3, 3, 5, 5, 4, 2, 2, 2, 4, 4, 6, 6,
    2, 5, 2, 8, 4, 4, 6, 6, 2, 4, 2, 7, 4, 4, 7, 7,
    6, 6, 2, 8, 3, 3, 5, 5, 3, 2, 2, 2, 3, 4, 6, 6,
    2, 5, 2, 8, 4, 4, 6, 6, 2, 4, 2, 7, 4, 4, 7, 7,
    6, 6, 2, 8, 3, 3, 5, 5, 4, 2, 2, 2, 5, 4, 6, 6,
    2, 5, 2, 8, 4, 4, 6, 6, 2, 4, 2, 7, 4, 4, 7, 7,
    2, 6, 2, 6, 3, 3, 3, 3, 2, 2, 2, 2, 4, 4, 4, 4,
    2, 6, 2, 6, 4, 4, 4, 4, 2, 5, 2, 5, 5, 5, 5, 5,
    2, 6, 2, 6, 3, 3, 3, 3, 2, 2, 2, 2, 4, 4, 4, 4,
    2, 5, 2, 5, 4, 4, 4, 4, 2, 4, 2, 4, 4, 4, 4, 4,
    2, 6, 2, 8, 3, 3, 5, 5, 2, 2, 2, 2, 4, 4, 6, 6,
    2, 5, 2, 8, 4, 4, 6, 6, 2, 4, 2, 7, 4, 4, 7, 7,
    2, 6, 2, 8, 3, 3, 5, 5, 2, 2, 2, 2, 4, 4, 6, 6,
    2, 5, 2, 8, 4, 4, 6, 6, 2, 4, 2, 7, 4, 4, 7, 7,
];

fn loaded(pc: u16, bytes: &[u8]) -> (CPU, TestSystem) {
    let mut sys = TestSystem::new();
    for (i, b) in bytes.iter().enumerate() {
        sys.write(pc.wrapping_add(i as u16), *b);
    }
    let mut cpu = CPU::new();
    cpu.pc = pc;
    (cpu, sys)
}

fn operand_bytes(opcode: u8) -> u16 {
    match opcode & 0x1F {
        0x00 => {
            if opcode == 0x20 {
                2
            } else if opcode == 0x00 || opcode == 0x40 || opcode == 0x60 {
                0
            } else {
                1
            }
        }
        0x02 => {
            if opcode >= 0x80 {
                1
            } else {
                0
            }
        }
        0x01 | 0x03 | 0x04 | 0x05 | 0x06 | 0x07 | 0x09 | 0x0B => 1,
        0x10 | 0x11 | 0x13 | 0x14 | 0x15 | 0x16 | 0x17 => 1,
        0x0C | 0x0D | 0x0E | 0x0F | 0x19 | 0x1B | 0x1C | 0x1D | 0x1E | 0x1F => 2,
        _ => 0,
    }
}

#[test]
fn every_opcode_takes_its_base_cycles() {
    for opcode in 0..=255u8 {
        let (mut cpu, mut sys) = loaded(0x0200, &[opcode, 0x00, 0x00]);
        cpu.do_callback = false;
        // With only Constant set, BPL, BVC, BCC and BNE are taken, to the
        // next instruction.
        let taken = matches!(opcode, 0x10 | 0x50 | 0x90 | 0xD0);
        cpu.step(&mut sys);
        let expected = BASE_CYCLES[opcode as usize] + if taken { 1 } else { 0 };
        assert_eq!(cpu.clockticks, expected, "opcode {:#04x}", opcode);
        assert_eq!(cpu.opcode, opcode);
        assert_eq!(cpu.instructions_ran, 1);
        assert_eq!(cpu.clockgoal, cpu.clockticks);
        assert!(cpu.clockticks >= 2 && cpu.clockticks <= MAX_INSTRUCTION_CYCLES);
    }
}

#[test]
fn every_opcode_skips_its_operand() {
    for opcode in 0..=255u8 {
        // Jumps, calls, returns and BRK set the program counter themselves.
        if matches!(opcode, 0x00 | 0x20 | 0x40 | 0x4C | 0x60 | 0x6C) {
            continue;
        }
        let (mut cpu, mut sys) = loaded(0x0200, &[opcode, 0x00, 0x00]);
        cpu.do_callback = false;
        cpu.step(&mut sys);
        assert_eq!(cpu.pc, 0x0201 + operand_bytes(opcode), "opcode {:#04x}", opcode);
    }
}

#[test]
fn table_types_are_plain_values() {
    assert_eq!(AddrMode::IndirectY, AddrMode::IndirectY);
    assert_ne!(Operation::Adc, Operation::Sbc);
}

#[test]
fn exec_runs_until_the_goal_is_reached() {
    // LDA #1; ADC #1; JMP $0200: 2 + 2 + 3 cycles a round
    let (mut cpu, mut sys) = loaded(0x0200, &[0xA9, 0x01, 0x69, 0x01, 0x4C, 0x00, 0x02]);
    cpu.do_callback = false;
    cpu.exec(&mut sys, 20);
    assert_eq!(cpu.clockgoal, 20);
    assert_eq!(cpu.clockticks, 21);
    assert_eq!(cpu.instructions_ran, 9);
    assert_eq!(cpu.pc, 0x0200);
    assert_eq!(cpu.a, 0x02);
    cpu.exec(&mut sys, 1);
    assert_eq!(cpu.clockgoal, 21);
    assert_eq!(cpu.clockticks, 21);
    assert_eq!(cpu.instructions_ran, 9);
    cpu.exec(&mut sys, 1);
    assert_eq!(cpu.clockgoal, 22);
    assert_eq!(cpu.clockticks, 23);
    assert_eq!(cpu.instructions_ran, 10);
    assert_eq!(cpu.pc, 0x0202);
}

#[test]
fn exec_with_no_budget_executes_nothing() {
    let (mut cpu, mut sys) = loaded(0x0200, &[0xA9, 0x01]);
    cpu.exec(&mut sys, 0);
    assert_eq!(cpu.pc, 0x0200);
    assert_eq!(cpu.clockticks, 0);
    assert_eq!(cpu.instructions_ran, 0);
}

#[test]
fn step_sets_the_goal_to_the_cycles_consumed() {
    let (mut cpu, mut sys) = loaded(0x0200, &[0xA9, 0x01, 0xAD, 0x00, 0x02]);
    cpu.do_callback = false;
    cpu.clockgoal = 100;
    assert!(cpu.step(&mut sys));
    assert_eq!(cpu.clockticks, 2);
    assert_eq!(cpu.clockgoal, 2);
    assert!(cpu.step(&mut sys));
    assert_eq!(cpu.a, 0xA9);
    assert_eq!(cpu.clockticks, 6);
    assert_eq!(cpu.clockgoal, 6);
    assert_eq!(cpu.instructions_ran, 2);
}

#[test]
fn instruction_counter_wraps() {
    let (mut cpu, mut sys) = loaded(0x0200, &[0xEA]);
    cpu.do_callback = false;
    cpu.instructions_ran = u32::MAX;
    cpu.step(&mut sys);
    assert_eq!(cpu.instructions_ran, 0);
}

#[test]
fn hook_stops_a_run_when_the_program_loops_on_the_spot() {
    // LDA #5; JMP $0402
    let (mut cpu, mut sys) = loaded(TEST_START_ADDR, &[0xA9, 0x05, 0x4C, 0x02, 0x04]);
    cpu.exec(&mut sys, 1000);
    assert!(sys.in_trap);
    assert_eq!(cpu.pc, 0x0402);
    assert_eq!(cpu.clockticks, 5);
    assert_eq!(cpu.instructions_ran, 2);
    assert_eq!(cpu.clockgoal, 1000);
}

#[test]
fn hook_stops_a_run_when_the_program_returns_to_its_start() {
    // NOP; JMP $0400
    let (mut cpu, mut sys) = loaded(TEST_START_ADDR, &[0xEA, 0x4C, 0x00, 0x04]);
    cpu.exec(&mut sys, 1000);
    assert!(sys.in_trap);
    assert_eq!(cpu.pc, 0x0400);
    assert_eq!(cpu.clockticks, 5);
}

#[test]
fn disabled_hook_is_not_called() {
    let (mut cpu, mut sys) = loaded(TEST_START_ADDR, &[0xEA, 0x4C, 0x00, 0x04]);
    cpu.do_callback = false;
    cpu.exec(&mut sys, 12);
    assert!(!sys.in_trap);
    assert_eq!(sys.last_addr, TEST_START_ADDR);
    assert_eq!(cpu.clockticks, 12);
}

#[test]
fn step_reports_the_hook() {
    let (mut cpu, mut sys) = loaded(TEST_START_ADDR, &[0xEA, 0x4C, 0x00, 0x04]);
    assert!(cpu.step(&mut sys));
    assert!(!sys.in_trap);
    assert_eq!(sys.last_addr, 0x0401);
    assert!(!cpu.step(&mut sys));
    assert!(sys.in_trap);
}

#[test]
fn test_system_starts_empty() {
    let sys = TestSystem::new();
    assert_eq!(sys.start_addr, 0x0400);
    assert_eq!(sys.last_addr, 0x0400);
    assert!(!sys.in_trap);
    assert!(sys.mem.iter().all(|b| *b == 0));
    assert_eq!(sys.read(0xFFFF), 0);
}

#[test]
fn test_system_keeps_what_is_written() {
    let mut sys = TestSystem::new();
    sys.write(0x0000, 0x11);
    sys.write(0xFFFF, 0x22);
    sys.write(0x0000, 0x33);
    assert_eq!(sys.read(0x0000), 0x33);
    assert_eq!(sys.read(0xFFFF), 0x22);
    assert_eq!(sys.read(0x0001), 0x00);
}

#[test]
fn irq_pushes_state_and_loads_the_vector() {
    let mut sys = TestSystem::new();
    sys.write(0xFFFE, 0x00);
    sys.write(0xFFFF, 0x80);
    let mut cpu = CPU::new();
    cpu.pc = 0x1234;
    cpu.status = 0x21;
    cpu.irq(&mut sys);
    assert_eq!(cpu.pc, 0x8000);
    assert_eq!(cpu.status, 0x25);
    assert_eq!(cpu.sp, 0xFA);
    assert_eq!(sys.read(0x01FD), 0x12);
    assert_eq!(sys.read(0x01FC), 0x34);
    assert_eq!(sys.read(0x01FB), 0x21);
    assert_eq!(cpu.clockticks, 0);
}

#[test]
fn nmi_uses_its_own_vector() {
    let mut sys = TestSystem::new();
    sys.write(0xFFFA, 0x00);
    sys.write(0xFFFB, 0x90);
    sys.write(0xFFFE, 0x00);
    sys.write(0xFFFF, 0x80);
    let mut cpu = CPU::new();
    cpu.pc = 0x1234;
    cpu.status = 0x24;
    cpu.nmi(&mut sys);
    assert_eq!(cpu.pc, 0x9000);
    assert_eq!(cpu.status, 0x24);
    assert_eq!(sys.read(0x01FB), 0x24);
    assert_eq!(cpu.sp, 0xFA);
}

#[test]
fn interrupt_handler_returns_with_rti() {
    // main: NOP at $0200; handler: RTI at $8000
    let (mut cpu, mut sys) = loaded(0x0200, &[0xEA, 0xEA]);
    sys.write(0xFFFE, 0x00);
    sys.write(0xFFFF, 0x80);
    sys.write(0x8000, 0x40);
    cpu.do_callback = false;
    cpu.step(&mut sys);
    cpu.irq(&mut sys);
    assert_eq!(cpu.pc, 0x8000);
    cpu.step(&mut sys);
    assert_eq!(cpu.pc, 0x0201);
    assert_eq!(cpu.status, 0x20);
    assert_eq!(cpu.sp, 0xFD);
}

#[test]
fn small_program_sums_a_table() {
    // LDX #0; LDA #0; CLC; loop: ADC $0300,X; INX; CPX #4; BNE loop; STA $10; JMP *
    let code = [
        0xA2, 0x00, 0xA9, 0x00, 0x18, 0x7D, 0x00, 0x03, 0xE8, 0xE0, 0x04, 0xD0, 0xF8, 0x85,
        0x10, 0x4C, 0x0F, 0x04,
    ];
    let (mut cpu, mut sys) = loaded(TEST_START_ADDR, &code);
    for (i, v) in [10u8, 20, 30, 40].iter().enumerate() {
        sys.write(0x0300 + i as u16, *v);
    }
    let mut rounds = 0;
    while !sys.in_trap && rounds < 100 {
        cpu.exec(&mut sys, 20);
        rounds += 1;
    }
    assert!(sys.in_trap);
    assert_eq!(sys.read(0x0010), 100);
    assert_eq!(cpu.pc, 0x040F);
    assert_eq!(cpu.x, 4);
}
