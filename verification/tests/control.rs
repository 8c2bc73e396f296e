use fake6502::backplane::Backplane;
use fake6502::cpu::CPU;
use fake6502::system::TestSystem;

fn program_at(pc: u16, bytes: &[u8]) -> (CPU, TestSystem) {
    let mut sys = TestSystem::new();
    for (i, b) in bytes.iter().enumerate() {
        sys.write(pc.wrapping_add(i as u16), *b);
    }
    let mut cpu = CPU::new();
    cpu.pc = pc;
    cpu.do_callback = false;
    (cpu, sys)
}

#[test]
fn branch_not_taken_costs_the_base_cycles() {
    let (mut cpu, mut sys) = program_at(0x0200, &[0xD0, 0x05]);
    cpu.status = 0x22;
    cpu.step(&mut sys);
    assert_eq!(cpu.pc, 0x0202);
    assert_eq!(cpu.clockticks, 2);
}

#[test]
fn branch_taken_within_the_page_costs_one_more() {
    let (mut cpu, mut sys) = program_at(0x0200, &[0xD0, 0x05]);
    cpu.step(&mut sys);
    assert_eq!(cpu.pc, 0x0207);
    assert_eq!(cpu.oldpc, 0x0202);
    assert_eq!(cpu.clockticks, 3);
}

#[test]
fn branch_taken_across_a_page_costs_two_more() {
    let (mut cpu, mut sys) = program_at(0x02F0, &[0xD0, 0x20]);
    cpu.step(&mut sys);
    assert_eq!(cpu.pc, 0x0312);
    assert_eq!(cpu.clockticks, 4);
}

#[test]
fn branch_backwards_across_a_page_costs_two_more() {
    let (mut cpu, mut sys) = program_at(0x0300, &[0xD0, 0xFC]);
    cpu.step(&mut sys);
    assert_eq!(cpu.pc, 0x02FE);
    assert_eq!(cpu.clockticks, 4);
}

#[test]
fn branch_backwards_within_the_page_costs_one_more() {
    let (mut cpu, mut sys) = program_at(0x0210, &[0xD0, 0xFE]);
    cpu.step(&mut sys);
    assert_eq!(cpu.pc, 0x0210);
    assert_eq!(cpu.clockticks, 3);
}

#[test]
fn every_branch_tests_its_flag() {
    // opcode, flag, taken when the flag is set
    let branches: [(u8, u8, bool); 8] = [
        (0x90, 0x01, false),
        (0xB0, 0x01, true),
        (0xF0, 0x02, true),
        (0xD0, 0x02, false),
        (0x30, 0x80, true),
        (0x10, 0x80, false),
        (0x50, 0x40, false),
        (0x70, 0x40, true),
    ];
    for &(opcode, flag, taken_when_set) in branches.iter() {
        for &set in &[false, true] {
            let (mut cpu, mut sys) = program_at(0x0200, &[opcode, 0x10]);
            cpu.status = if set { 0x20 | flag } else { 0x20 };
            cpu.step(&mut sys);
            if set == taken_when_set {
                assert_eq!(cpu.pc, 0x0212);
                assert_eq!(cpu.clockticks, 3);
            } else {
                assert_eq!(cpu.pc, 0x0202);
                assert_eq!(cpu.clockticks, 2);
            }
        }
    }
}

#[test]
fn branch_handlers_charge_cycles_directly() {
    let mut sys = TestSystem::new();
    let mut cpu = CPU::new();
    cpu.pc = 0x02FF;
    cpu.reladdr = 0x0001;
    cpu.inst_bcc(&mut sys);
    assert_eq!(cpu.pc, 0x0300);
    assert_eq!(cpu.clockticks, 2);
    cpu.reladdr = 0xFFFF;
    cpu.inst_bpl(&mut sys);
    assert_eq!(cpu.pc, 0x02FF);
    assert_eq!(cpu.clockticks, 4);
    cpu.reladdr = 0x0000;
    cpu.inst_bne(&mut sys);
    assert_eq!(cpu.clockticks, 5);
    cpu.inst_bvc(&mut sys);
    assert_eq!(cpu.clockticks, 6);
    cpu.inst_bcs(&mut sys);
    cpu.inst_beq(&mut sys);
    cpu.inst_bmi(&mut sys);
    cpu.inst_bvs(&mut sys);
    assert_eq!(cpu.clockticks, 6);
}

#[test]
fn jmp_absolute_and_indirect() {
    let (mut cpu, mut sys) = program_at(0x0200, &[0x4C, 0x00, 0x30]);
    cpu.step(&mut sys);
    assert_eq!(cpu.pc, 0x3000);
    assert_eq!(cpu.clockticks, 3);
    let (mut cpu, mut sys) = program_at(0x0200, &[0x6C, 0xFF, 0x10]);
    sys.write(0x10FF, 0x00);
    sys.write(0x1000, 0x40);
    sys.write(0x1100, 0x50);
    cpu.step(&mut sys);
    assert_eq!(cpu.pc, 0x4000);
    assert_eq!(cpu.clockticks, 5);
}

#[test]
fn jsr_pushes_the_return_address_and_rts_comes_back() {
    let (mut cpu, mut sys) = program_at(0x0200, &[0x20, 0x00, 0x30]);
    sys.write(0x3000, 0x60);
    cpu.step(&mut sys);
    assert_eq!(cpu.pc, 0x3000);
    assert_eq!(cpu.sp, 0xFB);
    assert_eq!(sys.read(0x01FD), 0x02);
    assert_eq!(sys.read(0x01FC), 0x02);
    assert_eq!(cpu.clockticks, 6);
    cpu.step(&mut sys);
    assert_eq!(cpu.pc, 0x0203);
    assert_eq!(cpu.sp, 0xFD);
    assert_eq!(cpu.clockticks, 12);
}

#[test]
fn brk_enters_the_handler_and_rti_returns() {
    let (mut cpu, mut sys) = program_at(0x0200, &[0x00, 0xEA]);
    sys.write(0xFFFE, 0x00);
    sys.write(0xFFFF, 0x40);
    sys.write(0x4000, 0x40);
    cpu.status = 0x21;
    cpu.step(&mut sys);
    assert_eq!(cpu.pc, 0x4000);
    assert_eq!(cpu.status, 0x25);
    assert_eq!(cpu.sp, 0xFA);
    assert_eq!(sys.read(0x01FD), 0x02);
    assert_eq!(sys.read(0x01FC), 0x02);
    assert_eq!(sys.read(0x01FB), 0x31);
    assert_eq!(cpu.clockticks, 7);
    cpu.step(&mut sys);
    assert_eq!(cpu.pc, 0x0202);
    assert_eq!(cpu.status, 0x31);
    assert_eq!(cpu.sp, 0xFD);
    assert_eq!(cpu.clockticks, 13);
}

#[test]
fn rti_takes_the_status_as_pushed() {
    let (mut cpu, mut sys) = program_at(0x0200, &[0x40]);
    cpu.sp = 0xFA;
    sys.write(0x01FB, 0x00);
    sys.write(0x01FC, 0x34);
    sys.write(0x01FD, 0x12);
    cpu.step(&mut sys);
    assert_eq!(cpu.status, 0x00);
    assert_eq!(cpu.pc, 0x1234);
}

#[test]
fn nop_does_nothing() {
    let (mut cpu, mut sys) = program_at(0x0200, &[0xEA]);
    cpu.a = 1;
    cpu.x = 2;
    cpu.y = 3;
    cpu.step(&mut sys);
    assert_eq!((cpu.a, cpu.x, cpu.y, cpu.sp, cpu.status), (1, 2, 3, 0xFD, 0x20));
    assert_eq!(cpu.pc, 0x0201);
    assert_eq!(cpu.clockticks, 2);
}

#[test]
fn six_nops_pay_for_a_page_crossing() {
    for &opcode in &[0x1Cu8, 0x3C, 0x5C, 0x7C, 0xDC, 0xFC] {
        let (mut cpu, mut sys) = program_at(0x0200, &[opcode, 0xF0, 0x12]);
        cpu.x = 0x10;
        cpu.step(&mut sys);
        assert_eq!(cpu.clockticks, 5);
        assert_eq!(cpu.pc, 0x0203);
        let (mut cpu, mut sys) = program_at(0x0200, &[opcode, 0xF0, 0x12]);
        cpu.x = 0x0F;
        cpu.step(&mut sys);
        assert_eq!(cpu.clockticks, 4);
    }
}

#[test]
fn other_nops_do_not_pay_for_a_page_crossing() {
    let (mut cpu, mut sys) = program_at(0x0200, &[0x9C, 0xF0, 0x12]);
    cpu.x = 0x10;
    cpu.step(&mut sys);
    assert_eq!(cpu.clockticks, 5);
    let (mut cpu, mut sys) = program_at(0x0200, &[0x13, 0x40]);
    sys.write(0x0040, 0xF0);
    sys.write(0x0041, 0x20);
    cpu.y = 0x10;
    cpu.step(&mut sys);
    assert_eq!(cpu.clockticks, 8);
}

#[test]
fn undocumented_opcodes_act_as_nop() {
    // LAX zp, SAX zp, DCP zp, ISB zp, SLO zp, RLA zp, SRE zp, RRA zp
    let cases: [(u8, u32); 8] = [
        (0xA7, 3),
        (0x87, 3),
        (0xC7, 5),
        (0xE7, 5),
        (0x07, 5),
        (0x27, 5),
        (0x47, 5),
        (0x67, 5),
    ];
    for &(opcode, cycles) in cases.iter() {
        let (mut cpu, mut sys) = program_at(0x0200, &[opcode, 0x40]);
        sys.write(0x0040, 0x81);
        cpu.a = 0x0F;
        cpu.x = 0xF0;
        cpu.status = 0x21;
        cpu.step(&mut sys);
        assert_eq!(cpu.a, 0x0F);
        assert_eq!(cpu.x, 0xF0);
        assert_eq!(cpu.status, 0x21);
        assert_eq!(sys.read(0x0040), 0x81);
        assert_eq!(cpu.pc, 0x0202);
        assert_eq!(cpu.clockticks, cycles);
    }
}

#[test]
fn undocumented_handlers_change_nothing() {
    let mut sys = TestSystem::new();
    let mut cpu = CPU::new();
    cpu.opcode = 0xA7;
    cpu.ea = 0x0040;
    let before = cpu;
    cpu.inst_lax(&mut sys);
    cpu.inst_sax(&mut sys);
    cpu.inst_dcp(&mut sys);
    cpu.inst_isb(&mut sys);
    cpu.inst_slo(&mut sys);
    cpu.inst_rla(&mut sys);
    cpu.inst_sre(&mut sys);
    cpu.inst_rra(&mut sys);
    cpu.inst_nop(&mut sys);
    assert_eq!(cpu, before);
    assert_eq!(sys.read(0x0040), 0x00);
}

#[test]
fn load_pays_for_a_page_crossing_and_store_does_not() {
    let (mut cpu, mut sys) = program_at(0x0200, &[0xBD, 0xF0, 0x12]);
    sys.write(0x1300, 0x77);
    cpu.x = 0x10;
    cpu.step(&mut sys);
    assert_eq!(cpu.a, 0x77);
    assert_eq!(cpu.clockticks, 5);
    let (mut cpu, mut sys) = program_at(0x0200, &[0xBD, 0xF0, 0x12]);
    cpu.x = 0x0F;
    cpu.step(&mut sys);
    assert_eq!(cpu.clockticks, 4);
    let (mut cpu, mut sys) = program_at(0x0200, &[0x9D, 0xF0, 0x12]);
    cpu.x = 0x10;
    cpu.a = 0x66;
    cpu.step(&mut sys);
    assert_eq!(sys.read(0x1300), 0x66);
    assert_eq!(cpu.clockticks, 5);
}

#[test]
fn accumulator_mode_shifts_the_accumulator() {
    let (mut cpu, mut sys) = program_at(0x0200, &[0x0A, 0x4A, 0x2A, 0x6A]);
    cpu.a = 0x41;
    cpu.step(&mut sys);
    assert_eq!(cpu.a, 0x82);
    assert_eq!(cpu.clockticks, 2);
    cpu.step(&mut sys);
    assert_eq!(cpu.a, 0x41);
    cpu.step(&mut sys);
    assert_eq!(cpu.a, 0x82);
    cpu.step(&mut sys);
    assert_eq!(cpu.a, 0x41);
    assert_eq!(cpu.pc, 0x0204);
    assert_eq!(cpu.clockticks, 8);
}

#[test]
fn fetch_sets_the_constant_flag() {
    let (mut cpu, mut sys) = program_at(0x0200, &[0xEA]);
    cpu.status = 0x00;
    cpu.step(&mut sys);
    assert_eq!(cpu.status, 0x20);
}
