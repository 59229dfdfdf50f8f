use dmg_core::cpu::CPU;
use dmg_core::cpu::instructions::BitPosition;
use dmg_core::memory_bus::MemoryBus;

fn make_cpu() -> CPU {
    CPU::new(MemoryBus::new(vec![0; 256], vec![0; 0x8000]))
}

#[test]
fn add_boundary_flags() {
    let mut cpu = make_cpu();
    cpu.registers.a = 0x3A;
    let r = cpu.add(0xC6);
    assert_eq!(r, 0x00);
    assert!(cpu.registers.f.zero);
    assert!(!cpu.registers.f.subtract);
    assert!(cpu.registers.f.half_carry);
    assert!(cpu.registers.f.carry);
}

#[test]
fn add_no_carries() {
    let mut cpu = make_cpu();
    cpu.registers.a = 0x12;
    let r = cpu.add(0x34);
    assert_eq!(r, 0x46);
    assert!(!cpu.registers.f.zero);
    assert!(!cpu.registers.f.subtract);
    assert!(!cpu.registers.f.half_carry);
    assert!(!cpu.registers.f.carry);
}

#[test]
fn adc_includes_incoming_carry() {
    let mut cpu = make_cpu();
    cpu.registers.a = 0xFF;
    cpu.registers.f.carry = true;
    let r = cpu.adc(0x00);
    assert_eq!(r, 0x00);
    assert!(cpu.registers.f.zero);
    assert!(cpu.registers.f.half_carry);
    assert!(cpu.registers.f.carry);
}

#[test]
fn sub_borrow_flags() {
    let mut cpu = make_cpu();
    cpu.registers.a = 0x10;
    let r = cpu.sub(0x01);
    assert_eq!(r, 0x0F);
    assert!(!cpu.registers.f.zero);
    assert!(cpu.registers.f.subtract);
    assert!(cpu.registers.f.half_carry);
    assert!(!cpu.registers.f.carry);

    cpu.registers.a = 0x01;
    let r = cpu.sub(0x02);
    assert_eq!(r, 0xFF);
    assert!(cpu.registers.f.carry);
}

#[test]
fn sbc_includes_incoming_borrow() {
    let mut cpu = make_cpu();
    cpu.registers.a = 0x10;
    cpu.registers.f.carry = true;
    let r = cpu.sbc(0x0F);
    assert_eq!(r, 0x00);
    assert!(cpu.registers.f.zero);
    assert!(cpu.registers.f.subtract);
    assert!(cpu.registers.f.half_carry);
    assert!(!cpu.registers.f.carry);
}

#[test]
fn and_sets_half_carry_only() {
    let mut cpu = make_cpu();
    cpu.registers.a = 0b1010_1010;
    let r = cpu.and(0b0101_0101);
    assert_eq!(r, 0);
    assert!(cpu.registers.f.zero);
    assert!(cpu.registers.f.half_carry);
    assert!(!cpu.registers.f.carry);
    assert!(!cpu.registers.f.subtract);
}

#[test]
fn or_and_xor_clear_other_flags() {
    let mut cpu = make_cpu();
    cpu.registers.a = 0xF0;
    let r = cpu.or(0x0F);
    assert_eq!(r, 0xFF);
    assert!(!cpu.registers.f.zero);
    assert!(!cpu.registers.f.half_carry);
    cpu.registers.a = 0xFF;
    let r = cpu.xor(0xFF);
    assert_eq!(r, 0x00);
    assert!(cpu.registers.f.zero);
}

#[test]
fn cp_leaves_accumulator() {
    let mut cpu = make_cpu();
    cpu.registers.a = 0x42;
    cpu.cp(0x42);
    assert_eq!(cpu.registers.a, 0x42);
    assert!(cpu.registers.f.zero);
    assert!(cpu.registers.f.subtract);
    cpu.cp(0x50);
    assert!(!cpu.registers.f.zero);
    assert!(cpu.registers.f.carry);
}

#[test]
fn inc_dec_never_touch_carry() {
    let mut cpu = make_cpu();
    cpu.registers.f.carry = true;
    let r = cpu.inc(0x0F);
    assert_eq!(r, 0x10);
    assert!(cpu.registers.f.half_carry);
    assert!(cpu.registers.f.carry);
    let r = cpu.inc(0xFF);
    assert_eq!(r, 0x00);
    assert!(cpu.registers.f.zero);
    assert!(cpu.registers.f.carry);
    let r = cpu.dec(0x10);
    assert_eq!(r, 0x0F);
    assert!(cpu.registers.f.half_carry);
    assert!(cpu.registers.f.subtract);
    assert!(cpu.registers.f.carry);
    let r = cpu.dec(0x01);
    assert_eq!(r, 0x00);
    assert!(cpu.registers.f.zero);
}

#[test]
fn inc16_dec16_wrap_and_keep_flags() {
    let mut cpu = make_cpu();
    cpu.registers.f.zero = true;
    cpu.registers.f.carry = true;
    assert_eq!(cpu.inc16(0xFFFF), 0x0000);
    assert_eq!(cpu.dec16(0x0000), 0xFFFF);
    assert!(cpu.registers.f.zero);
    assert!(cpu.registers.f.carry);
}

#[test]
fn add_hl_uses_bit_12_and_16_boundaries() {
    let mut cpu = make_cpu();
    cpu.registers.f.zero = true;
    cpu.registers.set_hl(0x0FFF);
    let r = cpu.add_hl(0x0001);
    assert_eq!(r, 0x1000);
    assert!(cpu.registers.f.half_carry);
    assert!(!cpu.registers.f.carry);
    assert!(cpu.registers.f.zero);

    cpu.registers.set_hl(0xFFFF);
    let r = cpu.add_hl(0x0001);
    assert_eq!(r, 0x0000);
    assert!(cpu.registers.f.carry);
}

#[test]
fn accumulator_rotates_never_set_zero() {
    let mut cpu = make_cpu();
    let r = cpu.rotate_l(0x00, false);
    assert_eq!(r, 0x00);
    assert!(!cpu.registers.f.zero);
    let r = cpu.rotate_r(0x00, false);
    assert_eq!(r, 0x00);
    assert!(!cpu.registers.f.zero);
}

#[test]
fn escaped_rotates_do_set_zero() {
    let mut cpu = make_cpu();
    let r = cpu.rotate_l(0x00, true);
    assert_eq!(r, 0x00);
    assert!(cpu.registers.f.zero);
    cpu.registers.f.carry = false;
    let r = cpu.rotate_r_flag(0x01, true);
    assert_eq!(r, 0x00);
    assert!(cpu.registers.f.zero);
    assert!(cpu.registers.f.carry);
}

#[test]
fn rotate_values() {
    let mut cpu = make_cpu();
    let r = cpu.rotate_l(0x85, true);
    assert_eq!(r, 0x0B);
    assert!(cpu.registers.f.carry);
    let r = cpu.rotate_r(0x01, true);
    assert_eq!(r, 0x80);
    assert!(cpu.registers.f.carry);
    cpu.registers.f.carry = true;
    let r = cpu.rotate_l_flag(0x00, true);
    assert_eq!(r, 0x01);
    assert!(!cpu.registers.f.carry);
}

#[test]
fn shift_values() {
    let mut cpu = make_cpu();
    let r = cpu.shift_l(0x81);
    assert_eq!(r, 0x02);
    assert!(cpu.registers.f.carry);
    let r = cpu.shift_r(0x81);
    assert_eq!(r, 0xC0);
    assert!(cpu.registers.f.carry);
    let r = cpu.shift_r_logical(0x81);
    assert_eq!(r, 0x40);
    assert!(cpu.registers.f.carry);
}

#[test]
fn swap_exchanges_nibbles() {
    let mut cpu = make_cpu();
    let r = cpu.swap(0xAB);
    assert_eq!(r, 0xBA);
    assert!(!cpu.registers.f.zero);
    let r = cpu.swap(0x00);
    assert_eq!(r, 0x00);
    assert!(cpu.registers.f.zero);
}

#[test]
fn bit_test_set_reset() {
    let mut cpu = make_cpu();
    cpu.registers.f.carry = true;
    cpu.bit_test(0b0100_0000, BitPosition::B6);
    assert!(!cpu.registers.f.zero);
    assert!(cpu.registers.f.half_carry);
    assert!(cpu.registers.f.carry);
    cpu.bit_test(0b1011_1111, BitPosition::B6);
    assert!(cpu.registers.f.zero);
    assert_eq!(cpu.bit_set(0x00, BitPosition::B3), 0x08);
    assert_eq!(cpu.bit_reset(0xFF, BitPosition::B3), 0xF7);
}

#[test]
fn ccf_scf_cpl() {
    let mut cpu = make_cpu();
    cpu.scf();
    assert!(cpu.registers.f.carry);
    cpu.ccf();
    assert!(!cpu.registers.f.carry);
    cpu.registers.a = 0x35;
    cpu.cpl();
    assert_eq!(cpu.registers.a, 0xCA);
    assert!(cpu.registers.f.subtract);
    assert!(cpu.registers.f.half_carry);
}

#[test]
fn decimal_adjust_after_add() {
    let mut cpu = make_cpu();
    // 0x15 + 0x27 = 0x3C; the BCD result of 15 + 27 is 42.
    cpu.registers.a = 0x15;
    let sum = cpu.add(0x27);
    cpu.registers.a = sum;
    let adjusted = cpu.decimal_adjust(sum);
    assert_eq!(adjusted, 0x42);
    assert!(!cpu.registers.f.carry);
    assert!(!cpu.registers.f.half_carry);
}

#[test]
fn decimal_adjust_sets_carry_past_99() {
    let mut cpu = make_cpu();
    // 0x90 + 0x20 = 0xB0; BCD 90 + 20 = 110, kept as 0x10 with carry.
    cpu.registers.a = 0x90;
    let sum = cpu.add(0x20);
    cpu.registers.a = sum;
    let adjusted = cpu.decimal_adjust(sum);
    assert_eq!(adjusted, 0x10);
    assert!(cpu.registers.f.carry);
}

#[test]
fn decimal_adjust_after_subtract() {
    let mut cpu = make_cpu();
    // 0x42 - 0x15 = 0x2D; BCD 42 - 15 = 27.
    cpu.registers.a = 0x42;
    let diff = cpu.sub(0x15);
    cpu.registers.a = diff;
    let adjusted = cpu.decimal_adjust(diff);
    assert_eq!(adjusted, 0x27);
}

#[test]
fn register_pairs_compose_big_endian() {
    let mut cpu = make_cpu();
    cpu.registers.set_bc(0x1234);
    assert_eq!(cpu.registers.b, 0x12);
    assert_eq!(cpu.registers.c, 0x34);
    assert_eq!(cpu.registers.get_bc(), 0x1234);
    cpu.registers.set_de(0xABCD);
    assert_eq!(cpu.registers.get_de(), 0xABCD);
    cpu.registers.set_hl(0xFFFE);
    assert_eq!(cpu.registers.get_hl(), 0xFFFE);
}

#[test]
fn af_low_nibble_reads_zero() {
    let mut cpu = make_cpu();
    cpu.registers.set_af(0x12FF);
    assert_eq!(cpu.registers.a, 0x12);
    assert!(cpu.registers.f.zero);
    assert!(cpu.registers.f.subtract);
    assert!(cpu.registers.f.half_carry);
    assert!(cpu.registers.f.carry);
    assert_eq!(cpu.registers.get_af(), 0x12F0);
}
