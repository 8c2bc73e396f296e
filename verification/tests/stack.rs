use fake6502::backplane::Backplane;
use fake6502::cpu::CPU;
use fake6502::system::TestSystem;

#[test]
fn push16_then_pull16_returns_the_word() {
    for &v in &[0x0000u16, 0x0001, 0x00FF, 0x0100, 0x1234, 0xBEEF, 0xFF00, 0xFFFF] {
        let mut sys = TestSystem::new();
        let mut cpu = CPU::new();
        let sp = cpu.sp;
        cpu.push16(&mut sys, v);
        assert_eq!(cpu.sp, sp.wrapping_sub(2));
        assert_eq!(cpu.pull16(&sys), v);
        assert_eq!(cpu.sp, sp);
    }
}

#[test]
fn push16_then_pull16_for_every_stack_pointer() {
    for sp in 0..=255u8 {
        let mut sys = TestSystem::new();
        let mut cpu = CPU::new();
        cpu.sp = sp;
        cpu.push16(&mut sys, 0xA55A);
        assert_eq!(cpu.pull16(&sys), 0xA55A);
        assert_eq!(cpu.sp, sp);
    }
}

#[test]
fn push8_then_pull8_returns_the_byte() {
    for v in 0..=255u8 {
        let mut sys = TestSystem::new();
        let mut cpu = CPU::new();
        cpu.push8(&mut sys, v);
        assert_eq!(cpu.sp, 0xFC);
        assert_eq!(cpu.pull8(&sys), v);
        assert_eq!(cpu.sp, 0xFD);
    }
}

#[test]
fn push8_stores_at_the_stack_pointer_and_moves_down() {
    let mut sys = TestSystem::new();
    let mut cpu = CPU::new();
    cpu.push8(&mut sys, 0x42);
    assert_eq!(sys.read(0x01FD), 0x42);
    assert_eq!(cpu.sp, 0xFC);
}

#[test]
fn push16_stores_high_byte_first() {
    let mut sys = TestSystem::new();
    let mut cpu = CPU::new();
    cpu.push16(&mut sys, 0x1234);
    assert_eq!(sys.read(0x01FD), 0x12);
    assert_eq!(sys.read(0x01FC), 0x34);
    assert_eq!(cpu.sp, 0xFB);
}

#[test]
fn stack_pointer_wraps_within_the_stack_page() {
    let mut sys = TestSystem::new();
    let mut cpu = CPU::new();
    cpu.sp = 0x00;
    cpu.push16(&mut sys, 0xCAFE);
    assert_eq!(sys.read(0x0100), 0xCA);
    assert_eq!(sys.read(0x01FF), 0xFE);
    assert_eq!(cpu.sp, 0xFE);
    assert_eq!(cpu.pull16(&sys), 0xCAFE);
    assert_eq!(cpu.sp, 0x00);
}

#[test]
fn pull8_moves_up_before_reading() {
    let mut sys = TestSystem::new();
    let mut cpu = CPU::new();
    cpu.sp = 0xFF;
    sys.write(0x0100, 0x77);
    assert_eq!(cpu.pull8(&sys), 0x77);
    assert_eq!(cpu.sp, 0x00);
}

#[test]
fn new_cpu_has_power_on_defaults() {
    let cpu = CPU::new();
    assert_eq!(cpu.pc, 0);
    assert_eq!(cpu.sp, 0xFD);
    assert_eq!(cpu.a, 0);
    assert_eq!(cpu.x, 0);
    assert_eq!(cpu.y, 0);
    assert_eq!(cpu.status, 0x20);
    assert_eq!(cpu.clockticks, 0);
    assert_eq!(cpu.clockgoal, 0);
    assert_eq!(cpu.instructions_ran, 0);
    assert!(cpu.do_callback);
}

#[test]
fn reset_loads_the_vector_and_clears_registers() {
    let mut sys = TestSystem::new();
    sys.write(0xFFFC, 0x34);
    sys.write(0xFFFD, 0x12);
    let mut cpu = CPU::new();
    cpu.a = 1;
    cpu.x = 2;
    cpu.y = 3;
    cpu.sp = 0x10;
    cpu.status = 0xC3;
    cpu.clockticks = 99;
    cpu.reset(&sys);
    assert_eq!(cpu.pc, 0x1234);
    assert_eq!(cpu.a, 0);
    assert_eq!(cpu.x, 0);
    assert_eq!(cpu.y, 0);
    assert_eq!(cpu.sp, 0xFD);
    assert_eq!(cpu.status, 0xE3);
    assert_eq!(cpu.clockticks, 99);
}

#[test]
fn flag_helpers_set_and_clear_bits() {
    let mut cpu = CPU::new();
    cpu.flagset(0x01);
    assert_eq!(cpu.status, 0x21);
    assert!(cpu.flag(0x01));
    cpu.flagset(0xC0);
    assert_eq!(cpu.status, 0xE1);
    cpu.flagclear(0x01);
    assert_eq!(cpu.status, 0xE0);
    assert!(!cpu.flag(0x01));
    cpu.flagcalc_zero(0x0100);
    assert_eq!(cpu.status, 0xE2);
    cpu.flagcalc_zero(0x0001);
    assert_eq!(cpu.status, 0xE0);
    cpu.flagcalc_sign(0x007F);
    assert_eq!(cpu.status, 0x60);
    cpu.flagcalc_sign(0x0180);
    assert_eq!(cpu.status, 0xE0);
    cpu.flagcalc_carry(0x0100);
    assert_eq!(cpu.status, 0xE1);
    cpu.flagcalc_carry(0x00FF);
    assert_eq!(cpu.status, 0xE0);
    cpu.flagcalc_overflow(0x0080, 0x40, 0x0040);
    assert_eq!(cpu.status, 0xE0);
    cpu.flagcalc_overflow(0x0080, 0x40, 0x00C0);
    assert_eq!(cpu.status, 0xA0);
    cpu.save_accumulator(0x01AB);
    assert_eq!(cpu.a, 0xAB);
}

#[test]
fn getvalue_and_putvalue_follow_the_accumulator_mark() {
    let mut sys = TestSystem::new();
    let mut cpu = CPU::new();
    cpu.ea = 0x2000;
    sys.write(0x2000, 0x5A);
    sys.write(0x2001, 0xA5);
    cpu.a = 0x11;
    assert_eq!(cpu.getvalue(&sys), 0x5A);
    assert_eq!(cpu.getvalue_16(&sys), 0xA55A);
    cpu.putvalue(&mut sys, 0x0133);
    assert_eq!(sys.read(0x2000), 0x33);
    assert_eq!(cpu.a, 0x11);
    cpu.addr_acc = true;
    assert_eq!(cpu.getvalue(&sys), 0x11);
    cpu.putvalue(&mut sys, 0x0244);
    assert_eq!(cpu.a, 0x44);
    assert_eq!(sys.read(0x2000), 0x33);
}

#[test]
fn getvalue_16_wraps_at_the_top_of_memory() {
    let mut sys = TestSystem::new();
    let mut cpu = CPU::new();
    cpu.ea = 0xFFFF;
    sys.write(0xFFFF, 0x34);
    sys.write(0x0000, 0x12);
    assert_eq!(cpu.getvalue_16(&sys), 0x1234);
}
