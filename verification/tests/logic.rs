use fake6502::backplane::Backplane;
use fake6502::cpu::CPU;
use fake6502::system::TestSystem;

fn logic_machine(a: u8, status: u8, operand: u8) -> (CPU, TestSystem) {
    let mut sys = TestSystem::new();
    sys.write(0x0020, operand);
    let mut cpu = CPU::new();
    cpu.a = a;
    cpu.status = status;
    cpu.ea = 0x0020;
    (cpu, sys)
}

#[test]
fn and_keeps_common_bits() {
    let (mut cpu, mut sys) = logic_machine(0xF0, 0x20, 0x3C);
    cpu.inst_and(&mut sys);
    assert_eq!(cpu.a, 0x30);
    assert_eq!(cpu.status, 0x20);
    assert!(cpu.penaltyop);
    let (mut cpu, mut sys) = logic_machine(0xF0, 0x20, 0x0F);
    cpu.inst_and(&mut sys);
    assert_eq!(cpu.a, 0x00);
    assert_eq!(cpu.status, 0x22);
}

#[test]
fn ora_joins_bits() {
    let (mut cpu, mut sys) = logic_machine(0x80, 0x20, 0x01);
    cpu.inst_ora(&mut sys);
    assert_eq!(cpu.a, 0x81);
    assert_eq!(cpu.status, 0xA0);
}

#[test]
fn eor_flips_bits() {
    let (mut cpu, mut sys) = logic_machine(0xFF, 0x20, 0xFF);
    cpu.inst_eor(&mut sys);
    assert_eq!(cpu.a, 0x00);
    assert_eq!(cpu.status, 0x22);
    let (mut cpu, mut sys) = logic_machine(0x0F, 0x20, 0xF0);
    cpu.inst_eor(&mut sys);
    assert_eq!(cpu.a, 0xFF);
    assert_eq!(cpu.status, 0xA0);
}

#[test]
fn bit_copies_the_top_bits_and_tests_the_mask() {
    let (mut cpu, mut sys) = logic_machine(0x01, 0x20, 0xC0);
    cpu.inst_bit(&mut sys);
    assert_eq!(cpu.a, 0x01);
    assert_eq!(cpu.status, 0xE2);
    let (mut cpu, mut sys) = logic_machine(0xFF, 0xA0, 0x41);
    cpu.inst_bit(&mut sys);
    assert_eq!(cpu.status, 0x60);
    assert!(!cpu.penaltyop);
}

#[test]
fn asl_shifts_the_accumulator() {
    let (mut cpu, mut sys) = logic_machine(0x81, 0x20, 0x00);
    cpu.addr_acc = true;
    cpu.inst_asl(&mut sys);
    assert_eq!(cpu.a, 0x02);
    assert_eq!(cpu.status, 0x21);
    assert_eq!(sys.read(0x0020), 0x00);
}

#[test]
fn asl_shifts_memory() {
    let (mut cpu, mut sys) = logic_machine(0x11, 0x21, 0x40);
    cpu.inst_asl(&mut sys);
    assert_eq!(sys.read(0x0020), 0x80);
    assert_eq!(cpu.a, 0x11);
    assert_eq!(cpu.status, 0xA0);
}

#[test]
fn lsr_shifts_right() {
    let (mut cpu, mut sys) = logic_machine(0x01, 0xA0, 0x00);
    cpu.addr_acc = true;
    cpu.inst_lsr(&mut sys);
    assert_eq!(cpu.a, 0x00);
    assert_eq!(cpu.status, 0x23);
    let (mut cpu, mut sys) = logic_machine(0x00, 0x21, 0xFE);
    cpu.inst_lsr(&mut sys);
    assert_eq!(sys.read(0x0020), 0x7F);
    assert_eq!(cpu.status, 0x20);
}

#[test]
fn rol_rotates_through_carry() {
    let (mut cpu, mut sys) = logic_machine(0x80, 0x21, 0x00);
    cpu.addr_acc = true;
    cpu.inst_rol(&mut sys);
    assert_eq!(cpu.a, 0x01);
    assert_eq!(cpu.status, 0x21);
    let (mut cpu, mut sys) = logic_machine(0x40, 0x20, 0x00);
    cpu.addr_acc = true;
    cpu.inst_rol(&mut sys);
    assert_eq!(cpu.a, 0x80);
    assert_eq!(cpu.status, 0xA0);
}

#[test]
fn ror_rotates_through_carry() {
    let (mut cpu, mut sys) = logic_machine(0x01, 0x21, 0x00);
    cpu.addr_acc = true;
    cpu.inst_ror(&mut sys);
    assert_eq!(cpu.a, 0x80);
    assert_eq!(cpu.status, 0xA1);
    let (mut cpu, mut sys) = logic_machine(0x00, 0x20, 0x02);
    cpu.inst_ror(&mut sys);
    assert_eq!(sys.read(0x0020), 0x01);
    assert_eq!(cpu.status, 0x20);
}

#[test]
fn loads_set_zero_and_sign() {
    let (mut cpu, mut sys) = logic_machine(0x55, 0x20, 0x00);
    cpu.inst_lda(&mut sys);
    assert_eq!(cpu.a, 0x00);
    assert_eq!(cpu.status, 0x22);
    assert!(cpu.penaltyop);
    sys.write(0x0020, 0x90);
    cpu.inst_ldx(&mut sys);
    assert_eq!(cpu.x, 0x90);
    assert_eq!(cpu.status, 0xA0);
    sys.write(0x0020, 0x01);
    cpu.inst_ldy(&mut sys);
    assert_eq!(cpu.y, 0x01);
    assert_eq!(cpu.status, 0x20);
}

#[test]
fn stores_write_registers_and_keep_flags() {
    let (mut cpu, mut sys) = logic_machine(0x00, 0x22, 0x55);
    cpu.inst_sta(&mut sys);
    assert_eq!(sys.read(0x0020), 0x00);
    cpu.x = 0x81;
    cpu.inst_stx(&mut sys);
    assert_eq!(sys.read(0x0020), 0x81);
    cpu.y = 0x7E;
    cpu.inst_sty(&mut sys);
    assert_eq!(sys.read(0x0020), 0x7E);
    assert_eq!(cpu.status, 0x22);
}

#[test]
fn transfers_copy_registers() {
    let mut sys = TestSystem::new();
    let mut cpu = CPU::new();
    cpu.a = 0x80;
    cpu.inst_tax(&mut sys);
    assert_eq!(cpu.x, 0x80);
    assert_eq!(cpu.status, 0xA0);
    cpu.a = 0x00;
    cpu.inst_tay(&mut sys);
    assert_eq!(cpu.y, 0x00);
    assert_eq!(cpu.status, 0x22);
    cpu.inst_tsx(&mut sys);
    assert_eq!(cpu.x, 0xFD);
    assert_eq!(cpu.status, 0xA0);
    cpu.x = 0x10;
    cpu.inst_txa(&mut sys);
    assert_eq!(cpu.a, 0x10);
    assert_eq!(cpu.status, 0x20);
    cpu.x = 0x00;
    cpu.inst_txs(&mut sys);
    assert_eq!(cpu.sp, 0x00);
    assert_eq!(cpu.status, 0x20);
    cpu.y = 0xFF;
    cpu.inst_tya(&mut sys);
    assert_eq!(cpu.a, 0xFF);
    assert_eq!(cpu.status, 0xA0);
}

#[test]
fn flag_instructions_touch_one_bit() {
    let mut sys = TestSystem::new();
    let mut cpu = CPU::new();
    cpu.inst_sec(&mut sys);
    assert_eq!(cpu.status, 0x21);
    cpu.inst_sed(&mut sys);
    assert_eq!(cpu.status, 0x29);
    cpu.inst_sei(&mut sys);
    assert_eq!(cpu.status, 0x2D);
    cpu.status = 0xFF;
    cpu.inst_clc(&mut sys);
    assert_eq!(cpu.status, 0xFE);
    cpu.inst_cld(&mut sys);
    assert_eq!(cpu.status, 0xF6);
    cpu.inst_cli(&mut sys);
    assert_eq!(cpu.status, 0xF2);
    cpu.inst_clv(&mut sys);
    assert_eq!(cpu.status, 0xB2);
}

#[test]
fn stack_instructions_push_and_pull() {
    let mut sys = TestSystem::new();
    let mut cpu = CPU::new();
    cpu.a = 0x99;
    cpu.inst_pha(&mut sys);
    assert_eq!(sys.read(0x01FD), 0x99);
    cpu.status = 0x23;
    cpu.inst_php(&mut sys);
    assert_eq!(sys.read(0x01FC), 0x33);
    assert_eq!(cpu.status, 0x23);
    assert_eq!(cpu.sp, 0xFB);
    sys.write(0x01FC, 0xC1);
    cpu.inst_plp(&mut sys);
    assert_eq!(cpu.status, 0xE1);
    cpu.a = 0;
    cpu.inst_pla(&mut sys);
    assert_eq!(cpu.a, 0x99);
    assert_eq!(cpu.status, 0xE1);
    assert_eq!(cpu.sp, 0xFD);
    sys.write(0x01FE, 0x00);
    cpu.inst_pla(&mut sys);
    assert_eq!(cpu.a, 0x00);
    assert_eq!(cpu.status, 0x63);
}
