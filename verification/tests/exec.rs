use dmg_core::cpu::CPU;
use dmg_core::memory_bus::MemoryBus;

fn boot_cpu(program: &[u8]) -> CPU {
    let mut boot = vec![0u8; 256];
    boot[..program.len()].copy_from_slice(program);
    CPU::new(MemoryBus::new(boot, vec![0; 0x8000]))
}

#[test]
fn add_register_through_step() {
    let mut cpu = boot_cpu(&[0x80]);
    cpu.registers.a = 0x3A;
    cpu.registers.b = 0xC6;
    cpu.step();
    assert_eq!(cpu.registers.a, 0x00);
    assert!(cpu.registers.f.zero);
    assert!(cpu.registers.f.half_carry);
    assert!(cpu.registers.f.carry);
    assert_eq!(cpu.pc, 1);
}

#[test]
fn add_immediate_through_step() {
    let mut cpu = boot_cpu(&[0xC6, 0x05]);
    cpu.registers.a = 0x10;
    cpu.step();
    assert_eq!(cpu.registers.a, 0x15);
    assert_eq!(cpu.pc, 2);
}

#[test]
fn add_memory_operand_through_step() {
    let mut cpu = boot_cpu(&[0x86]);
    cpu.registers.a = 0x01;
    cpu.registers.set_hl(0xC050);
    cpu.bus.write_byte(0xC050, 0x41);
    cpu.step();
    assert_eq!(cpu.registers.a, 0x42);
}

#[test]
fn adc_chains_carry_through_step() {
    // ADC A,B twice: the first leaves a carry the second consumes.
    let mut cpu = boot_cpu(&[0x88, 0x88]);
    cpu.registers.a = 0xF0;
    cpu.registers.b = 0x20;
    cpu.step();
    assert_eq!(cpu.registers.a, 0x10);
    assert!(cpu.registers.f.carry);
    cpu.step();
    assert_eq!(cpu.registers.a, 0x31);
    assert!(!cpu.registers.f.carry);
}

#[test]
fn sub_and_cp_through_step() {
    let mut cpu = boot_cpu(&[0x90, 0xB8]);
    cpu.registers.a = 0x20;
    cpu.registers.b = 0x05;
    cpu.step();
    assert_eq!(cpu.registers.a, 0x1B);
    cpu.step();
    assert_eq!(cpu.registers.a, 0x1B);
    assert!(!cpu.registers.f.zero);
    assert!(cpu.registers.f.subtract);
}

#[test]
fn add_hl_pair_through_step() {
    let mut cpu = boot_cpu(&[0x09]);
    cpu.registers.set_hl(0x0FFF);
    cpu.registers.set_bc(0x0001);
    cpu.step();
    assert_eq!(cpu.registers.get_hl(), 0x1000);
    assert!(cpu.registers.f.half_carry);
}

#[test]
fn inc_dec_registers_and_pairs_through_step() {
    let mut cpu = boot_cpu(&[0x04, 0x0B, 0x33, 0x3D]);
    cpu.registers.b = 0xFF;
    cpu.registers.set_bc(0xFF00);
    cpu.registers.a = 0x01;
    cpu.sp = 0xFFFF;
    cpu.step();
    assert_eq!(cpu.registers.b, 0x00);
    assert!(cpu.registers.f.zero);
    cpu.step();
    assert_eq!(cpu.registers.get_bc(), 0xFFFF);
    cpu.step();
    assert_eq!(cpu.sp, 0x0000);
    cpu.step();
    assert_eq!(cpu.registers.a, 0x00);
    assert!(cpu.registers.f.zero);
}

#[test]
fn register_to_register_load_through_step() {
    let mut cpu = boot_cpu(&[0x78]);
    cpu.registers.b = 0x42;
    cpu.step();
    assert_eq!(cpu.registers.a, 0x42);
    assert_eq!(cpu.pc, 1);
}

#[test]
fn load_to_memory_through_step() {
    // LD (HL),D.
    let mut cpu = boot_cpu(&[0x72]);
    cpu.registers.d = 0x77;
    cpu.registers.set_hl(0xC400);
    cpu.step();
    assert_eq!(cpu.bus.read_byte(0xC400), 0x77);
}

#[test]
fn load_a_from_word_address_through_step() {
    let mut cpu = boot_cpu(&[0xFA, 0x00, 0xC5]);
    cpu.bus.write_byte(0xC500, 0x3C);
    cpu.step();
    assert_eq!(cpu.registers.a, 0x3C);
    assert_eq!(cpu.pc, 3);
}

#[test]
fn load_word_address_from_a_through_step() {
    let mut cpu = boot_cpu(&[0xEA, 0x10, 0xC5]);
    cpu.registers.a = 0x88;
    cpu.step();
    assert_eq!(cpu.bus.read_byte(0xC510), 0x88);
}

#[test]
fn last_byte_indirect_loads_through_step() {
    // LD (0xFF00+C),A then LD A,(0xFF00+C).
    let mut cpu = boot_cpu(&[0xE2, 0xF2]);
    cpu.registers.a = 0x5D;
    cpu.registers.c = 0x81;
    cpu.step();
    assert_eq!(cpu.bus.read_byte(0xFF81), 0x5D);
    cpu.registers.a = 0x00;
    cpu.step();
    assert_eq!(cpu.registers.a, 0x5D);
}

#[test]
fn a_from_byte_address_through_step() {
    let mut cpu = boot_cpu(&[0xF0, 0x90]);
    cpu.bus.write_byte(0xFF90, 0x17);
    cpu.step();
    assert_eq!(cpu.registers.a, 0x17);
    assert_eq!(cpu.pc, 2);
}

#[test]
fn hl_minus_indirect_decrements_hl() {
    // LD (HL-),A.
    let mut cpu = boot_cpu(&[0x32]);
    cpu.registers.a = 0x99;
    cpu.registers.set_hl(0xC700);
    cpu.step();
    assert_eq!(cpu.bus.read_byte(0xC700), 0x99);
    assert_eq!(cpu.registers.get_hl(), 0xC6FF);
}

#[test]
fn conditional_relative_jump_through_step() {
    let mut cpu = boot_cpu(&[0x28, 0x10]);
    cpu.registers.f.zero = false;
    cpu.step();
    assert_eq!(cpu.pc, 2);
    let mut cpu = boot_cpu(&[0x28, 0x10]);
    cpu.registers.f.zero = true;
    cpu.step();
    assert_eq!(cpu.pc, 0x12);
}

#[test]
fn conditional_return_through_step() {
    let mut boot = vec![0u8; 256];
    boot[0] = 0xD0;
    let mut cpu = CPU::new(MemoryBus::new(boot, vec![0; 0x8000]));
    cpu.sp = 0xDFF0;
    cpu.bus.write_byte(0xDFF0, 0x34);
    cpu.bus.write_byte(0xDFF1, 0x12);
    // RET NC with carry set falls through.
    cpu.registers.f.carry = true;
    cpu.step();
    assert_eq!(cpu.pc, 1);
    assert_eq!(cpu.sp, 0xDFF0);
    // Taken, it pops the return address.
    cpu.pc = 0;
    cpu.registers.f.carry = false;
    cpu.step();
    assert_eq!(cpu.pc, 0x1234);
    assert_eq!(cpu.sp, 0xDFF2);
}

#[test]
fn conditional_call_not_taken_through_step() {
    let mut cpu = boot_cpu(&[0xC4, 0x00, 0x10]);
    cpu.sp = 0xDFF0;
    cpu.registers.f.zero = true;
    cpu.step();
    assert_eq!(cpu.pc, 3);
    assert_eq!(cpu.sp, 0xDFF0);
}

#[test]
fn escaped_rotate_register_through_step() {
    // Escape byte, RL C with carry in.
    let mut cpu = boot_cpu(&[0xCB, 0x11]);
    cpu.registers.c = 0x80;
    cpu.registers.f.carry = true;
    cpu.step();
    assert_eq!(cpu.registers.c, 0x01);
    assert!(cpu.registers.f.carry);
    assert_eq!(cpu.pc, 2);
}

#[test]
fn escaped_swap_memory_through_step() {
    let mut cpu = boot_cpu(&[0xCB, 0x36]);
    cpu.registers.set_hl(0xC800);
    cpu.bus.write_byte(0xC800, 0xF1);
    cpu.step();
    assert_eq!(cpu.bus.read_byte(0xC800), 0x1F);
}

#[test]
fn escaped_srl_memory_through_step() {
    let mut cpu = boot_cpu(&[0xCB, 0x3E]);
    cpu.registers.set_hl(0xC900);
    cpu.bus.write_byte(0xC900, 0x03);
    cpu.step();
    assert_eq!(cpu.bus.read_byte(0xC900), 0x01);
    assert!(cpu.registers.f.carry);
}

#[test]
fn escaped_bit_test_memory_through_step() {
    let mut cpu = boot_cpu(&[0xCB, 0x7E]);
    cpu.registers.set_hl(0xCA00);
    cpu.bus.write_byte(0xCA00, 0x80);
    cpu.step();
    assert!(!cpu.registers.f.zero);
    assert!(cpu.registers.f.half_carry);
}

#[test]
fn escaped_res_register_through_step() {
    let mut cpu = boot_cpu(&[0xCB, 0xBF]);
    cpu.registers.a = 0xFF;
    cpu.step();
    assert_eq!(cpu.registers.a, 0x7F);
}

#[test]
fn rotate_accumulator_forms_through_step() {
    let mut cpu = boot_cpu(&[0x07, 0x0F, 0x17, 0x1F]);
    cpu.registers.a = 0x81;
    cpu.step();
    assert_eq!(cpu.registers.a, 0x03);
    assert!(cpu.registers.f.carry);
    cpu.step();
    assert_eq!(cpu.registers.a, 0x81);
    assert!(cpu.registers.f.carry);
    cpu.step();
    assert_eq!(cpu.registers.a, 0x03);
    assert!(cpu.registers.f.carry);
    cpu.step();
    assert_eq!(cpu.registers.a, 0x81);
    assert!(cpu.registers.f.carry);
}

#[test]
fn scf_ccf_cpl_through_step() {
    let mut cpu = boot_cpu(&[0x37, 0x3F, 0x2F]);
    cpu.registers.a = 0x0F;
    cpu.step();
    assert!(cpu.registers.f.carry);
    cpu.step();
    assert!(!cpu.registers.f.carry);
    cpu.step();
    assert_eq!(cpu.registers.a, 0xF0);
}

#[test]
fn dec_memory_through_step() {
    let mut cpu = boot_cpu(&[0x0B]);
    cpu.registers.set_bc(0x0000);
    cpu.step();
    assert_eq!(cpu.registers.get_bc(), 0xFFFF);
}

#[test]
fn step_returns_total_elapsed_ticks() {
    // A taken call elapses 24 ticks, a not-taken conditional call 12.
    let mut cpu = boot_cpu(&[0xCD, 0x40, 0x00]);
    cpu.sp = 0xDFF0;
    assert_eq!(cpu.step(), 24);
    let mut cpu = boot_cpu(&[0xC4, 0x40, 0x00]);
    cpu.registers.f.zero = true;
    assert_eq!(cpu.step(), 12);
    // A taken relative jump elapses 12, a not-taken one 8, and a
    // not-taken conditional return still pays its condition check.
    let mut cpu = boot_cpu(&[0x28, 0x02]);
    cpu.registers.f.zero = true;
    assert_eq!(cpu.step(), 12);
    let mut cpu = boot_cpu(&[0x28, 0x02]);
    assert_eq!(cpu.step(), 8);
    let mut cpu = boot_cpu(&[0xC0]);
    cpu.registers.f.zero = true;
    assert_eq!(cpu.step(), 8);
    // Memory operands cost an extra M-cycle.
    let mut cpu = boot_cpu(&[0x86]);
    cpu.registers.set_hl(0xC000);
    assert_eq!(cpu.step(), 8);
    // An escaped read-modify-write at HL elapses 16.
    let mut cpu = boot_cpu(&[0xCB, 0xFE]);
    cpu.registers.set_hl(0xC000);
    assert_eq!(cpu.step(), 16);
}

#[test]
fn dec_at_hl_address_through_step() {
    let mut cpu = boot_cpu(&[0x35]);
    cpu.registers.set_hl(0xC210);
    cpu.bus.write_byte(0xC210, 0x10);
    let cycles = cpu.step();
    assert_eq!(cpu.bus.read_byte(0xC210), 0x0F);
    assert!(cpu.registers.f.subtract);
    assert_eq!(cycles, 12);
}
