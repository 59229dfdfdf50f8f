use dmg_core::cpu::CPU;
use dmg_core::memory_bus::MemoryBus;

fn cpu_with_boot(program: &[u8]) -> CPU {
    let mut boot = vec![0u8; 256];
    boot[..program.len()].copy_from_slice(program);
    CPU::new(MemoryBus::new(boot, vec![0; 0x8000]))
}

#[test]
fn nop_advances_pc_and_costs_four_cycles() {
    let mut cpu = cpu_with_boot(&[0x00]);
    let cycles = cpu.step();
    assert_eq!(cycles, 4);
    assert_eq!(cpu.pc, 1);
}

#[test]
fn push_pop_round_trip() {
    // PUSH BC; POP BC leaves the pair unchanged and the stack pointer
    // back where it started.
    let mut cpu = cpu_with_boot(&[0xC5, 0xC1]);
    cpu.sp = 0xDFF0;
    cpu.registers.set_bc(0x1234);
    cpu.step();
    assert_eq!(cpu.sp, 0xDFEE);
    assert_eq!(cpu.bus.read_byte(0xDFEF), 0x12);
    assert_eq!(cpu.bus.read_byte(0xDFEE), 0x34);
    cpu.registers.set_bc(0x0000);
    cpu.step();
    assert_eq!(cpu.registers.get_bc(), 0x1234);
    assert_eq!(cpu.sp, 0xDFF0);
}

#[test]
fn push_pop_af_masks_low_nibble() {
    let mut cpu = cpu_with_boot(&[0xF5, 0xF1]);
    cpu.sp = 0xFFF0;
    cpu.registers.a = 0x9C;
    cpu.registers.f.zero = true;
    cpu.registers.f.carry = true;
    cpu.step();
    cpu.step();
    assert_eq!(cpu.registers.get_af(), 0x9C90);
}

#[test]
fn relative_jump_wraps_modulo_65536() {
    // JR -8 from address 0: the target is 2 - 8 taken modulo 65536.
    let mut cpu = cpu_with_boot(&[0x18, 0xF8]);
    cpu.step();
    assert_eq!(cpu.pc, 0xFFFA);
}

#[test]
fn stack_pointer_wraps_modulo_65536() {
    let mut cpu = cpu_with_boot(&[0xC5]);
    cpu.sp = 0x0001;
    cpu.registers.set_bc(0xAA55);
    cpu.step();
    assert_eq!(cpu.sp, 0xFFFF);
}

#[test]
fn absolute_jump_taken_and_not_taken() {
    let mut cpu = cpu_with_boot(&[0xC3, 0x34, 0x12]);
    cpu.step();
    assert_eq!(cpu.pc, 0x1234);

    let mut cpu = cpu_with_boot(&[0xC2, 0x34, 0x12]);
    cpu.registers.f.zero = true;
    cpu.step();
    assert_eq!(cpu.pc, 0x0003);
}

#[test]
fn call_pushes_return_address_and_ret_pops_it() {
    // CALL 0x0040, with a RET waiting at the call target.
    let mut boot = vec![0u8; 256];
    boot[0] = 0xCD;
    boot[1] = 0x40;
    boot[2] = 0x00;
    boot[0x40] = 0xC9;
    let mut cpu = CPU::new(MemoryBus::new(boot, vec![0; 0x8000]));
    cpu.sp = 0xDFF0;
    cpu.step();
    assert_eq!(cpu.pc, 0x0040);
    assert_eq!(cpu.sp, 0xDFEE);
    assert_eq!(cpu.bus.read_byte(0xDFEE), 0x03);
    assert_eq!(cpu.bus.read_byte(0xDFEF), 0x00);
    cpu.step();
    assert_eq!(cpu.pc, 0x0003);
    assert_eq!(cpu.sp, 0xDFF0);
}

#[test]
fn jpi_jumps_to_hl() {
    let mut cpu = cpu_with_boot(&[0xE9]);
    cpu.registers.set_hl(0xBEEF);
    cpu.step();
    assert_eq!(cpu.pc, 0xBEEF);
}

#[test]
fn ld_immediate_byte_and_word() {
    let mut cpu = cpu_with_boot(&[0x3E, 0x7F, 0x31, 0xCD, 0xAB]);
    cpu.step();
    assert_eq!(cpu.registers.a, 0x7F);
    assert_eq!(cpu.pc, 2);
    cpu.step();
    assert_eq!(cpu.sp, 0xABCD);
    assert_eq!(cpu.pc, 5);
}

#[test]
fn ld_indirect_from_a_and_back() {
    // LD (HL+),A then LD A,(BC).
    let mut cpu = cpu_with_boot(&[0x22, 0x0A]);
    cpu.registers.a = 0x5A;
    cpu.registers.set_hl(0xC123);
    cpu.registers.set_bc(0xC123);
    cpu.step();
    assert_eq!(cpu.bus.read_byte(0xC123), 0x5A);
    assert_eq!(cpu.registers.get_hl(), 0xC124);
    cpu.registers.a = 0x00;
    cpu.step();
    assert_eq!(cpu.registers.a, 0x5A);
}

#[test]
fn ld_byte_address_from_a() {
    // LDH (0x80),A writes to fast RAM at 0xFF80.
    let mut cpu = cpu_with_boot(&[0xE0, 0x80]);
    cpu.registers.a = 0x66;
    cpu.step();
    assert_eq!(cpu.bus.read_byte(0xFF80), 0x66);
    assert_eq!(cpu.pc, 2);
}

#[test]
fn inc_at_hl_address_writes_memory() {
    let mut cpu = cpu_with_boot(&[0x34]);
    cpu.registers.set_hl(0xC200);
    cpu.bus.write_byte(0xC200, 0x0F);
    cpu.step();
    assert_eq!(cpu.bus.read_byte(0xC200), 0x10);
    assert!(cpu.registers.f.half_carry);
}

#[test]
fn escaped_set_at_hl_address() {
    // Escape byte, then SET 7,(HL).
    let mut cpu = cpu_with_boot(&[0xCB, 0xFE]);
    cpu.registers.set_hl(0xC300);
    cpu.step();
    assert_eq!(cpu.bus.read_byte(0xC300), 0x80);
    assert_eq!(cpu.pc, 2);
}

#[test]
fn halt_stops_fetching_until_interrupt_pending() {
    let mut cpu = cpu_with_boot(&[0x76, 0x00]);
    cpu.step();
    assert!(cpu.is_halted);
    assert_eq!(cpu.pc, 1);
    // Halted with nothing pending: the program counter stays put and
    // one idle M-cycle is consumed.
    let cycles = cpu.step();
    assert_eq!(cycles, 4);
    assert_eq!(cpu.pc, 1);
    assert!(cpu.is_halted);
    // An enabled pending source wakes the engine even with the master
    // flag off.
    cpu.bus.interrupt_enable.timer = true;
    cpu.bus.interrupt_flag.timer = true;
    cpu.step();
    assert!(!cpu.is_halted);
    assert_eq!(cpu.pc, 1);
}

#[test]
fn interrupt_priority_video_blank_first_then_timer() {
    // Video-blank, timer and input all pending and enabled: one step
    // services video-blank alone; the next services the timer.
    let mut cpu = cpu_with_boot(&[0x00]);
    cpu.sp = 0xDFF0;
    cpu.ime = true;
    cpu.bus.interrupt_enable.vblank = true;
    cpu.bus.interrupt_enable.timer = true;
    cpu.bus.interrupt_enable.joypad = true;
    cpu.bus.interrupt_flag.vblank = true;
    cpu.bus.interrupt_flag.timer = true;
    cpu.bus.interrupt_flag.joypad = true;

    let cycles = cpu.step();
    assert_eq!(cycles, 24);
    assert_eq!(cpu.pc, 0x40);
    assert!(!cpu.ime);
    assert!(!cpu.bus.interrupt_flag.vblank);
    assert!(cpu.bus.interrupt_flag.timer);
    assert!(cpu.bus.interrupt_flag.joypad);

    cpu.ime = true;
    cpu.step();
    assert_eq!(cpu.pc, 0x50);
    assert!(!cpu.bus.interrupt_flag.timer);
    assert!(cpu.bus.interrupt_flag.joypad);
}

#[test]
fn interrupt_pushes_program_counter() {
    let mut cpu = cpu_with_boot(&[0x00]);
    cpu.sp = 0xDFF0;
    cpu.ime = true;
    cpu.bus.interrupt_enable.serial = true;
    cpu.bus.interrupt_flag.serial = true;
    cpu.step();
    assert_eq!(cpu.pc, 0x58);
    assert_eq!(cpu.sp, 0xDFEE);
    assert_eq!(cpu.bus.read_byte(0xDFEE), 0x01);
    assert_eq!(cpu.bus.read_byte(0xDFEF), 0x00);
}

#[test]
fn master_flag_off_services_nothing() {
    let mut cpu = cpu_with_boot(&[0x00]);
    cpu.bus.interrupt_enable.vblank = true;
    cpu.bus.interrupt_flag.vblank = true;
    let cycles = cpu.step();
    assert_eq!(cycles, 4);
    assert_eq!(cpu.pc, 1);
    assert!(cpu.bus.interrupt_flag.vblank);
}

#[test]
fn boot_rom_read_until_disable_write() {
    let mut boot = vec![0u8; 256];
    boot[0x50] = 0xAB;
    let mut game = vec![0u8; 0x8000];
    game[0x50] = 0xCD;
    let mut bus = MemoryBus::new(boot, game);
    assert_eq!(bus.read_byte(0x0050), 0xAB);
    bus.write_byte(0xFF50, 0x01);
    assert_eq!(bus.read_byte(0x0050), 0xCD);
    // The mapping never comes back.
    bus.write_byte(0xFF50, 0x00);
    assert_eq!(bus.read_byte(0x0050), 0xCD);
}

#[test]
fn working_ram_echoes() {
    let mut bus = MemoryBus::new(vec![0; 256], vec![0; 0x8000]);
    bus.write_byte(0xC123, 0x99);
    assert_eq!(bus.read_byte(0xE123), 0x99);
    bus.write_byte(0xFDFF, 0x45);
    assert_eq!(bus.read_byte(0xDDFF), 0x45);
}

#[test]
fn unused_region_reads_zero_and_discards_writes() {
    let mut bus = MemoryBus::new(vec![0; 256], vec![0; 0x8000]);
    bus.write_byte(0xFEA5, 0x77);
    assert_eq!(bus.read_byte(0xFEA5), 0x00);
}

#[test]
fn video_ram_stores_bytes() {
    let mut bus = MemoryBus::new(vec![0; 256], vec![0; 0x8000]);
    bus.write_byte(0x8ABC, 0x3C);
    assert_eq!(bus.read_byte(0x8ABC), 0x3C);
}

#[test]
fn display_line_register_stub_reads_0x90() {
    let bus = MemoryBus::new(vec![0; 256], vec![0; 0x8000]);
    assert_eq!(bus.read_byte(0xFF44), 0x90);
}

#[test]
fn timer_registers_route_to_the_timer() {
    let mut bus = MemoryBus::new(vec![0; 256], vec![0; 0x8000]);
    bus.write_byte(0xFF07, 0b101);
    assert_eq!(bus.timer.tac, 0b101);
    assert_eq!(bus.read_byte(0xFF07), 0b101);
    bus.write_byte(0xFF06, 0x42);
    assert_eq!(bus.timer.tma, 0x42);
    bus.write_byte(0xFF05, 0x13);
    assert_eq!(bus.timer.tima, 0x13);
    assert_eq!(bus.read_byte(0xFF05), 0x13);
    for _ in 0..0x500 {
        bus.timer.tick();
    }
    assert_eq!(bus.read_byte(0xFF04), 0x05);
    bus.write_byte(0xFF04, 0xFF);
    assert_eq!(bus.read_byte(0xFF04), 0x00);
}

#[test]
fn interrupt_bytes_round_trip_with_high_nibble() {
    let mut bus = MemoryBus::new(vec![0; 256], vec![0; 0x8000]);
    bus.write_byte(0xFF0F, 0xA5);
    assert_eq!(bus.read_byte(0xFF0F), 0xA5);
    assert!(bus.interrupt_flag.vblank);
    assert!(bus.interrupt_flag.timer);
    bus.write_byte(0xFFFF, 0x1B);
    assert_eq!(bus.read_byte(0xFFFF), 0x1B);
    assert!(bus.interrupted());
}

#[test]
fn interrupted_needs_enable_and_pending() {
    let mut bus = MemoryBus::new(vec![0; 256], vec![0; 0x8000]);
    assert!(!bus.interrupted());
    bus.interrupt_flag.joypad = true;
    assert!(!bus.interrupted());
    bus.interrupt_enable.joypad = true;
    assert!(bus.interrupted());
}

#[test]
fn cartridge_image_splits_at_bank_boundary() {
    let mut game = vec![0u8; 0x8000];
    game[0x1234] = 0x11;
    game[0x4567] = 0x22;
    let bus = MemoryBus::new(vec![0; 256], game);
    assert_eq!(bus.read_byte(0x1234), 0x11);
    assert_eq!(bus.read_byte(0x4567), 0x22);
}

#[test]
fn short_cartridge_image_reads_zero_past_its_end() {
    let bus = MemoryBus::new(vec![0; 256], vec![0x77; 0x100]);
    assert_eq!(bus.read_byte(0x00FF), 0x00);
    assert_eq!(bus.read_byte(0x2000), 0x00);
    assert_eq!(bus.read_byte(0x4000), 0x00);
}

#[test]
fn mid_instruction_ticks_advance_the_timer() {
    // LD A,d8 performs one extra memory access, so the divider moves
    // by 4 ticks during the step.
    let mut cpu = cpu_with_boot(&[0x3E, 0x07]);
    cpu.step();
    assert_eq!(cpu.bus.timer.div, 4);
    // NOP performs none.
    let mut cpu = cpu_with_boot(&[0x00]);
    cpu.step();
    assert_eq!(cpu.bus.timer.div, 0);
}

#[test]
fn can_step_reports_undecodable_opcodes() {
    let mut cpu = cpu_with_boot(&[0xD3]);
    assert!(!cpu.can_step());
    cpu.pc = 1;
    assert!(cpu.can_step());
    cpu.is_halted = true;
    cpu.pc = 0;
    assert!(cpu.can_step());
}
