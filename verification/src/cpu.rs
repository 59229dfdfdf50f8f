//! The execution engine: fetch, decode, execute and interrupt
//! dispatch, together with the arithmetic/logic operations and their
//! flag rules.
//!
//! Every memory access an instruction performs advances the timer by
//! one hardware tick at the moment of the access, so that a timer
//! interrupt raised mid-instruction is observed at the correct tick
//! boundary by the post-step interrupt check.

pub mod flags_register;
pub mod instructions;
pub mod registers;

use vstd::prelude::*;
use crate::interrupt_flag::InterruptFlag;
use crate::memory_bus::BusState;
use crate::memory_bus::MemoryBus;
use crate::memory_bus::bus_inv;
use crate::memory_bus::lemma_wf_preserved;
use crate::memory_bus::spec_interrupted;
use crate::memory_bus::spec_read;
use crate::memory_bus::spec_write;
use crate::timer::spec_tick;
use self::flags_register::FlagsRegister;
use self::flags_register::spec_flags_from_byte;
use self::instructions::ADDHLTarget;
use self::instructions::ArithmeticTarget;
use self::instructions::BitPosition;
use self::instructions::IncDecTarget;
use self::instructions::Indirect;
use self::instructions::Instruction;
use self::instructions::JumpTest;
use self::instructions::LoadByteSource;
use self::instructions::LoadByteTarget;
use self::instructions::LoadType;
use self::instructions::LoadWordTarget;
use self::instructions::PrefixTarget;
use self::instructions::StackTarget;
use self::instructions::spec_from_byte_not_prefixed;
use self::instructions::spec_from_byte_prefixed;
use self::registers::Registers;
use self::registers::spec_word;
use self::registers::lemma_word_from_bytes;

verus! {

/// Interrupt vector of the video-blank source.
pub const VBLANK: u16 = 0x40;

/// Interrupt vector of the display-status source.
pub const STAT: u16 = 0x48;

/// Interrupt vector of the timer source.
pub const TIMER: u16 = 0x50;

/// Interrupt vector of the serial source.
pub const SERIAL: u16 = 0x58;

/// Interrupt vector of the input source.
pub const JOYPAD: u16 = 0x60;

/// One hardware tick as the bus sees it: the timer advances, and if
/// its delayed overflow completed on this tick the timer interrupt
/// becomes pending.
#[verifier::opaque]
pub open spec fn spec_tick_once(s: BusState) -> BusState {
    let (t, irq) = spec_tick(s.timer);
    BusState {
        timer: t,
        interrupt_flag: if irq {
            InterruptFlag { timer: true, ..s.interrupt_flag }
        } else {
            s.interrupt_flag
        },
        ..s
    }
}

/// Four hardware ticks: one M-cycle, the unit charged per bus access.
pub open spec fn spec_tick4(s: BusState) -> BusState {
    spec_tick_once(spec_tick_once(spec_tick_once(spec_tick_once(s))))
}

/// Two M-cycles.
pub open spec fn spec_tick8(s: BusState) -> BusState {
    spec_tick4(spec_tick4(s))
}

/// The bus after pushing a 16-bit value: the high byte goes to the
/// address one below the stack pointer, the low byte one below that.
pub open spec fn spec_push_state(s: BusState, sp: u16, value: u16) -> BusState {
    spec_write(
        spec_write(s, sp.wrapping_sub(1), ((value & 0xFF00) >> 8) as u8),
        sp.wrapping_sub(2),
        (value & 0xFF) as u8,
    )
}

/// The 16-bit operand stored after an opcode: low byte at `pc + 1`,
/// high byte at `pc + 2`.
pub open spec fn spec_next_word(s: BusState, pc: u16) -> u16 {
    spec_word(spec_read(s, pc.wrapping_add(2)), spec_read(s, pc.wrapping_add(1)))
}

/// A byte operand reinterpreted as a signed offset and sign-extended
/// to 16 bits.
pub open spec fn spec_signed_word(byte: u8) -> u16 {
    (byte as i8) as u16
}

/// The operand an 8-bit arithmetic instruction reads, as a function
/// of the state before the instruction: a register, the byte at HL,
/// or the immediate byte (the memory operands are read after the
/// M-cycle their access charges).
pub open spec fn spec_arith_operand(c: CpuState, target: ArithmeticTarget) -> u8 {
    match target {
        ArithmeticTarget::A => c.registers.a,
        ArithmeticTarget::B => c.registers.b,
        ArithmeticTarget::C => c.registers.c,
        ArithmeticTarget::D => c.registers.d,
        ArithmeticTarget::E => c.registers.e,
        ArithmeticTarget::H => c.registers.h,
        ArithmeticTarget::L => c.registers.l,
        ArithmeticTarget::HL => spec_read(spec_tick4(c.bus), c.registers.spec_hl()),
        ArithmeticTarget::D8 => spec_read(spec_tick4(c.bus), c.pc.wrapping_add(1)),
    }
}

/// The byte width of an 8-bit arithmetic instruction: two with an
/// immediate operand, one otherwise.
pub open spec fn spec_arith_width(target: ArithmeticTarget) -> u16 {
    if target is D8 {
        2
    } else {
        1
    }
}

/// The elapsed tick total of an 8-bit arithmetic instruction: two
/// M-cycles with a memory or immediate operand, one otherwise.
pub open spec fn spec_arith_cycles(target: ArithmeticTarget) -> u8 {
    if target is HL || target is D8 {
        8
    } else {
        4
    }
}

/// The elapsed tick total of an increment or decrement: one M-cycle
/// on a register, two on a 16-bit pair or the stack pointer, three on
/// the byte at HL.
pub open spec fn spec_incdec_cycles(target: IncDecTarget) -> u8 {
    match target {
        IncDecTarget::BC => 8,
        IncDecTarget::DE => 8,
        IncDecTarget::HL => 8,
        IncDecTarget::SP => 8,
        IncDecTarget::HLI => 12,
        _ => 4,
    }
}

/// The elapsed tick total of a load: one M-cycle for the opcode, one
/// per memory or immediate access.
pub open spec fn spec_ld_cycles(load_type: LoadType) -> u8 {
    match load_type {
        LoadType::Byte(target, source) => ((4 + (match source {
            LoadByteSource::HL => 4int,
            LoadByteSource::D8 => 4int,
            _ => 0int,
        }) + (match target {
            LoadByteTarget::HL => 4int,
            _ => 0int,
        })) as u8),
        LoadType::Word(_) => 12,
        LoadType::AFromIndirect(source) => if source is WordIndirect {
            16
        } else {
            8
        },
        LoadType::IndirectFromA(target) => if target is WordIndirect {
            16
        } else {
            8
        },
        LoadType::AFromByteAddress => 12,
        LoadType::ByteAddressFromA => 12,
    }
}

/// The bus after an 8-bit arithmetic instruction: ticked one M-cycle
/// when the operand came from memory or the immediate byte.
pub open spec fn spec_arith_bus(c: CpuState, target: ArithmeticTarget) -> BusState {
    if target is HL || target is D8 {
        spec_tick4(c.bus)
    } else {
        c.bus
    }
}

/// The effect of 8-bit add into the accumulator against an operand selector.
#[verifier::opaque]
pub open spec fn spec_exec_add(c: CpuState, target: ArithmeticTarget) -> (CpuState, (u16, u8)) {
    let v = spec_arith_operand(c, target);
    let a = c.registers.a;
    let r = a.wrapping_add(v);
    let f = FlagsRegister {
        zero: r == 0,
        subtract: false,
        half_carry: (a & 0xF) + (v & 0xF) > 0xF,
        carry: a + v > 0xFF,
    };
    (
        CpuState { registers: (Registers { a: r, f: f, ..c.registers }), bus: spec_arith_bus(c, target), ..c },
        (c.pc.wrapping_add(spec_arith_width(target)), spec_arith_cycles(target)),
    )
}

/// The effect of add with carry into the accumulator against an operand selector.
#[verifier::opaque]
pub open spec fn spec_exec_adc(c: CpuState, target: ArithmeticTarget) -> (CpuState, (u16, u8)) {
    let v = spec_arith_operand(c, target);
    let a = c.registers.a;
    let ci: u8 = if c.registers.f.carry { 1 } else { 0 };
    let r = a.wrapping_add(v).wrapping_add(ci);
    let f = FlagsRegister {
        zero: r == 0,
        subtract: false,
        half_carry: (a & 0xF) + (v & 0xF) + ci > 0xF,
        carry: a + v + ci > 0xFF,
    };
    (
        CpuState { registers: (Registers { a: r, f: f, ..c.registers }), bus: spec_arith_bus(c, target), ..c },
        (c.pc.wrapping_add(spec_arith_width(target)), spec_arith_cycles(target)),
    )
}

/// The effect of 8-bit subtract from the accumulator against an operand selector.
#[verifier::opaque]
pub open spec fn spec_exec_sub(c: CpuState, target: ArithmeticTarget) -> (CpuState, (u16, u8)) {
    let v = spec_arith_operand(c, target);
    let a = c.registers.a;
    let r = a.wrapping_sub(v);
    let f = FlagsRegister {
        zero: r == 0,
        subtract: true,
        half_carry: (a & 0xF) < (v & 0xF),
        carry: a < v,
    };
    (
        CpuState { registers: (Registers { a: r, f: f, ..c.registers }), bus: spec_arith_bus(c, target), ..c },
        (c.pc.wrapping_add(spec_arith_width(target)), spec_arith_cycles(target)),
    )
}

/// The effect of subtract with carry from the accumulator against an operand selector.
#[verifier::opaque]
pub open spec fn spec_exec_sbc(c: CpuState, target: ArithmeticTarget) -> (CpuState, (u16, u8)) {
    let v = spec_arith_operand(c, target);
    let a = c.registers.a;
    let ci: u8 = if c.registers.f.carry { 1 } else { 0 };
    let r = a.wrapping_sub(v).wrapping_sub(ci);
    let f = FlagsRegister {
        zero: r == 0,
        subtract: true,
        half_carry: (a & 0xF) < (v & 0xF) + ci,
        carry: a < v + ci,
    };
    (
        CpuState { registers: (Registers { a: r, f: f, ..c.registers }), bus: spec_arith_bus(c, target), ..c },
        (c.pc.wrapping_add(spec_arith_width(target)), spec_arith_cycles(target)),
    )
}

/// The effect of bitwise and into the accumulator against an operand selector.
#[verifier::opaque]
pub open spec fn spec_exec_and(c: CpuState, target: ArithmeticTarget) -> (CpuState, (u16, u8)) {
    let v = spec_arith_operand(c, target);
    let a = c.registers.a;
    let r = (a & v) as u8;
    let f = FlagsRegister { zero: r == 0, subtract: false, half_carry: true, carry: false };
    (
        CpuState { registers: (Registers { a: r, f: f, ..c.registers }), bus: spec_arith_bus(c, target), ..c },
        (c.pc.wrapping_add(spec_arith_width(target)), spec_arith_cycles(target)),
    )
}

/// The effect of bitwise or into the accumulator against an operand selector.
#[verifier::opaque]
pub open spec fn spec_exec_or(c: CpuState, target: ArithmeticTarget) -> (CpuState, (u16, u8)) {
    let v = spec_arith_operand(c, target);
    let a = c.registers.a;
    let r = (a | v) as u8;
    let f = FlagsRegister { zero: r == 0, subtract: false, half_carry: false, carry: false };
    (
        CpuState { registers: (Registers { a: r, f: f, ..c.registers }), bus: spec_arith_bus(c, target), ..c },
        (c.pc.wrapping_add(spec_arith_width(target)), spec_arith_cycles(target)),
    )
}

/// The effect of bitwise exclusive-or into the accumulator against an operand selector.
#[verifier::opaque]
pub open spec fn spec_exec_xor(c: CpuState, target: ArithmeticTarget) -> (CpuState, (u16, u8)) {
    let v = spec_arith_operand(c, target);
    let a = c.registers.a;
    let r = (a ^ v) as u8;
    let f = FlagsRegister { zero: r == 0, subtract: false, half_carry: false, carry: false };
    (
        CpuState { registers: (Registers { a: r, f: f, ..c.registers }), bus: spec_arith_bus(c, target), ..c },
        (c.pc.wrapping_add(spec_arith_width(target)), spec_arith_cycles(target)),
    )
}

/// The effect of compare, leaving the accumulator against an operand selector.
#[verifier::opaque]
pub open spec fn spec_exec_cp(c: CpuState, target: ArithmeticTarget) -> (CpuState, (u16, u8)) {
    let v = spec_arith_operand(c, target);
    let a = c.registers.a;
    let f = FlagsRegister {
        zero: a == v,
        subtract: true,
        half_carry: (a & 0xF) < (v & 0xF),
        carry: a < v,
    };
    (
        CpuState { registers: (Registers { f: f, ..c.registers }), bus: spec_arith_bus(c, target), ..c },
        (c.pc.wrapping_add(spec_arith_width(target)), spec_arith_cycles(target)),
    )
}

/// Three M-cycles.
pub open spec fn spec_tick12(s: BusState) -> BusState {
    spec_tick4(spec_tick8(s))
}

/// The flags after an 8-bit increment of `v`: Carry is never touched.
pub open spec fn spec_inc_flags(f: FlagsRegister, v: u8) -> FlagsRegister {
    FlagsRegister {
        zero: v.wrapping_add(1) == 0,
        subtract: false,
        half_carry: (v & 0xF) == 0xF,
        carry: f.carry,
    }
}

/// The flags after an 8-bit decrement of `v`: Carry is never touched.
pub open spec fn spec_dec_flags(f: FlagsRegister, v: u8) -> FlagsRegister {
    FlagsRegister {
        zero: v.wrapping_sub(1) == 0,
        subtract: true,
        half_carry: (v & 0xF) == 0,
        carry: f.carry,
    }
}

/// The effect of an increment on a register, a pair, the stack
/// pointer, or the byte at HL.
#[verifier::opaque]
pub open spec fn spec_exec_inc(c: CpuState, target: IncDecTarget) -> (CpuState, (u16, u8)) {
    let np = c.pc.wrapping_add(1);
    match target {
        IncDecTarget::A => (CpuState { registers: Registers { a: c.registers.a.wrapping_add(1), f: spec_inc_flags(c.registers.f, c.registers.a), ..c.registers }, ..c }, (np, 4u8)),
        IncDecTarget::B => (CpuState { registers: Registers { b: c.registers.b.wrapping_add(1), f: spec_inc_flags(c.registers.f, c.registers.b), ..c.registers }, ..c }, (np, 4u8)),
        IncDecTarget::C => (CpuState { registers: Registers { c: c.registers.c.wrapping_add(1), f: spec_inc_flags(c.registers.f, c.registers.c), ..c.registers }, ..c }, (np, 4u8)),
        IncDecTarget::D => (CpuState { registers: Registers { d: c.registers.d.wrapping_add(1), f: spec_inc_flags(c.registers.f, c.registers.d), ..c.registers }, ..c }, (np, 4u8)),
        IncDecTarget::E => (CpuState { registers: Registers { e: c.registers.e.wrapping_add(1), f: spec_inc_flags(c.registers.f, c.registers.e), ..c.registers }, ..c }, (np, 4u8)),
        IncDecTarget::H => (CpuState { registers: Registers { h: c.registers.h.wrapping_add(1), f: spec_inc_flags(c.registers.f, c.registers.h), ..c.registers }, ..c }, (np, 4u8)),
        IncDecTarget::L => (CpuState { registers: Registers { l: c.registers.l.wrapping_add(1), f: spec_inc_flags(c.registers.f, c.registers.l), ..c.registers }, ..c }, (np, 4u8)),
        IncDecTarget::BC => ({
            let v = c.registers.spec_bc().wrapping_add(1);
            (CpuState { registers: Registers { b: (v >> 8) as u8, c: (v & 0xFF) as u8, ..c.registers }, bus: spec_tick4(c.bus), ..c }, (np, 8u8))
        }),
        IncDecTarget::DE => ({
            let v = c.registers.spec_de().wrapping_add(1);
            (CpuState { registers: Registers { d: (v >> 8) as u8, e: (v & 0xFF) as u8, ..c.registers }, bus: spec_tick4(c.bus), ..c }, (np, 8u8))
        }),
        IncDecTarget::HL => ({
            let v = c.registers.spec_hl().wrapping_add(1);
            (CpuState { registers: Registers { h: (v >> 8) as u8, l: (v & 0xFF) as u8, ..c.registers }, bus: spec_tick4(c.bus), ..c }, (np, 8u8))
        }),
        IncDecTarget::SP => (CpuState { sp: c.sp.wrapping_add(1), bus: spec_tick4(c.bus), ..c }, (np, 8u8)),
        IncDecTarget::HLI => ({
            let hl = c.registers.spec_hl();
            let v = spec_read(spec_tick4(c.bus), hl);
            (CpuState {
                registers: Registers { f: spec_inc_flags(c.registers.f, v), ..c.registers },
                bus: spec_write(spec_tick8(c.bus), hl, v.wrapping_add(1)),
                ..c
            }, (np, 12u8))
        }),
    }
}

/// The effect of a decrement on a register, a pair, the stack
/// pointer, or the byte at HL.
#[verifier::opaque]
pub open spec fn spec_exec_dec(c: CpuState, target: IncDecTarget) -> (CpuState, (u16, u8)) {
    let np = c.pc.wrapping_add(1);
    match target {
        IncDecTarget::A => (CpuState { registers: Registers { a: c.registers.a.wrapping_sub(1), f: spec_dec_flags(c.registers.f, c.registers.a), ..c.registers }, ..c }, (np, 4u8)),
        IncDecTarget::B => (CpuState { registers: Registers { b: c.registers.b.wrapping_sub(1), f: spec_dec_flags(c.registers.f, c.registers.b), ..c.registers }, ..c }, (np, 4u8)),
        IncDecTarget::C => (CpuState { registers: Registers { c: c.registers.c.wrapping_sub(1), f: spec_dec_flags(c.registers.f, c.registers.c), ..c.registers }, ..c }, (np, 4u8)),
        IncDecTarget::D => (CpuState { registers: Registers { d: c.registers.d.wrapping_sub(1), f: spec_dec_flags(c.registers.f, c.registers.d), ..c.registers }, ..c }, (np, 4u8)),
        IncDecTarget::E => (CpuState { registers: Registers { e: c.registers.e.wrapping_sub(1), f: spec_dec_flags(c.registers.f, c.registers.e), ..c.registers }, ..c }, (np, 4u8)),
        IncDecTarget::H => (CpuState { registers: Registers { h: c.registers.h.wrapping_sub(1), f: spec_dec_flags(c.registers.f, c.registers.h), ..c.registers }, ..c }, (np, 4u8)),
        IncDecTarget::L => (CpuState { registers: Registers { l: c.registers.l.wrapping_sub(1), f: spec_dec_flags(c.registers.f, c.registers.l), ..c.registers }, ..c }, (np, 4u8)),
        IncDecTarget::BC => ({
            let v = c.registers.spec_bc().wrapping_sub(1);
            (CpuState { registers: Registers { b: (v >> 8) as u8, c: (v & 0xFF) as u8, ..c.registers }, bus: spec_tick4(c.bus), ..c }, (np, 8u8))
        }),
        IncDecTarget::DE => ({
            let v = c.registers.spec_de().wrapping_sub(1);
            (CpuState { registers: Registers { d: (v >> 8) as u8, e: (v & 0xFF) as u8, ..c.registers }, bus: spec_tick4(c.bus), ..c }, (np, 8u8))
        }),
        IncDecTarget::HL => ({
            let v = c.registers.spec_hl().wrapping_sub(1);
            (CpuState { registers: Registers { h: (v >> 8) as u8, l: (v & 0xFF) as u8, ..c.registers }, bus: spec_tick4(c.bus), ..c }, (np, 8u8))
        }),
        IncDecTarget::SP => (CpuState { sp: c.sp.wrapping_sub(1), bus: spec_tick4(c.bus), ..c }, (np, 8u8)),
        IncDecTarget::HLI => ({
            let hl = c.registers.spec_hl();
            let v = spec_read(spec_tick4(c.bus), hl);
            (CpuState {
                registers: Registers { f: spec_dec_flags(c.registers.f, v), ..c.registers },
                bus: spec_write(spec_tick8(c.bus), hl, v.wrapping_sub(1)),
                ..c
            }, (np, 12u8))
        }),
    }
}

/// The operand of a 16-bit add into HL.
pub open spec fn spec_addhl_operand(c: CpuState, target: ADDHLTarget) -> u16 {
    match target {
        ADDHLTarget::BC => c.registers.spec_bc(),
        ADDHLTarget::DE => c.registers.spec_de(),
        ADDHLTarget::HL => c.registers.spec_hl(),
        ADDHLTarget::SP => c.sp,
    }
}

/// The effect of a 16-bit add of a pair or the stack pointer into HL.
#[verifier::opaque]
pub open spec fn spec_exec_add_hl_target(c: CpuState, target: ADDHLTarget) -> (CpuState, (u16, u8)) {
    let v = spec_addhl_operand(c, target);
    let hl = c.registers.spec_hl();
    let r = hl.wrapping_add(v);
    let f = FlagsRegister {
        zero: c.registers.f.zero,
        subtract: false,
        half_carry: (v & 0xFFF) + (hl & 0xFFF) > 0xFFF,
        carry: hl + v > 0xFFFF,
    };
    (
        CpuState {
            registers: Registers { h: (r >> 8) as u8, l: (r & 0xFF) as u8, f: f, ..c.registers },
            bus: spec_tick4(c.bus),
            ..c
        },
        (c.pc.wrapping_add(1), 8u8),
    )
}

/// The effect of a nibble swap on a register or the byte at HL.
#[verifier::opaque]
pub open spec fn spec_exec_swap(c: CpuState, target: PrefixTarget) -> (CpuState, (u16, u8)) {
    let np = c.pc.wrapping_add(2);
    if target is HL {
        let hl = c.registers.spec_hl();
        let v = spec_read(spec_tick4(c.bus), hl);
        let r = (((v & 0xF0) >> 4) | ((v & 0x0F) << 4)) as u8;
        let f = (FlagsRegister { zero: v == 0, subtract: false, half_carry: false, carry: false });
        (
            CpuState {
                registers: Registers { f: f, ..c.registers },
                bus: spec_write(spec_tick12(c.bus), hl, r),
                ..c
            },
            (np, 16u8),
        )
    } else {
        let v = spec_prefix_register(c.registers, target);
        let r = (((v & 0xF0) >> 4) | ((v & 0x0F) << 4)) as u8;
        let f = (FlagsRegister { zero: v == 0, subtract: false, half_carry: false, carry: false });
        (
            CpuState {
                registers: spec_set_prefix_register(
                    Registers { f: f, ..c.registers },
                    target,
                    r,
                ),
                bus: spec_tick4(c.bus),
                ..c
            },
            (np, 8u8),
        )
    }
}

/// The effect of a arithmetic shift left on a register or the byte at HL.
#[verifier::opaque]
pub open spec fn spec_exec_sla(c: CpuState, target: PrefixTarget) -> (CpuState, (u16, u8)) {
    let np = c.pc.wrapping_add(2);
    if target is HL {
        let hl = c.registers.spec_hl();
        let v = spec_read(spec_tick4(c.bus), hl);
        let r = (v << 1) as u8;
        let f = (FlagsRegister { zero: (v << 1) as u8 == 0, subtract: false, half_carry: false, carry: v & 0x80 != 0 });
        (
            CpuState {
                registers: Registers { f: f, ..c.registers },
                bus: spec_write(spec_tick12(c.bus), hl, r),
                ..c
            },
            (np, 16u8),
        )
    } else {
        let v = spec_prefix_register(c.registers, target);
        let r = (v << 1) as u8;
        let f = (FlagsRegister { zero: (v << 1) as u8 == 0, subtract: false, half_carry: false, carry: v & 0x80 != 0 });
        (
            CpuState {
                registers: spec_set_prefix_register(
                    Registers { f: f, ..c.registers },
                    target,
                    r,
                ),
                bus: spec_tick4(c.bus),
                ..c
            },
            (np, 8u8),
        )
    }
}

/// The effect of a arithmetic shift right on a register or the byte at HL.
#[verifier::opaque]
pub open spec fn spec_exec_sra(c: CpuState, target: PrefixTarget) -> (CpuState, (u16, u8)) {
    let np = c.pc.wrapping_add(2);
    if target is HL {
        let hl = c.registers.spec_hl();
        let v = spec_read(spec_tick4(c.bus), hl);
        let r = ((v & 0x80) | (v >> 1)) as u8;
        let f = (FlagsRegister { zero: ((v & 0x80) | (v >> 1)) == 0, subtract: false, half_carry: false, carry: v & 1 != 0 });
        (
            CpuState {
                registers: Registers { f: f, ..c.registers },
                bus: spec_write(spec_tick12(c.bus), hl, r),
                ..c
            },
            (np, 16u8),
        )
    } else {
        let v = spec_prefix_register(c.registers, target);
        let r = ((v & 0x80) | (v >> 1)) as u8;
        let f = (FlagsRegister { zero: ((v & 0x80) | (v >> 1)) == 0, subtract: false, half_carry: false, carry: v & 1 != 0 });
        (
            CpuState {
                registers: spec_set_prefix_register(
                    Registers { f: f, ..c.registers },
                    target,
                    r,
                ),
                bus: spec_tick4(c.bus),
                ..c
            },
            (np, 8u8),
        )
    }
}

/// The effect of a logical shift right on a register or the byte at HL.
#[verifier::opaque]
pub open spec fn spec_exec_srl(c: CpuState, target: PrefixTarget) -> (CpuState, (u16, u8)) {
    let np = c.pc.wrapping_add(2);
    if target is HL {
        let hl = c.registers.spec_hl();
        let v = spec_read(spec_tick4(c.bus), hl);
        let r = (v >> 1) as u8;
        let f = (FlagsRegister { zero: (v >> 1) == 0, subtract: false, half_carry: false, carry: v & 1 == 1 });
        (
            CpuState {
                registers: Registers { f: f, ..c.registers },
                bus: spec_tick4(spec_write(spec_tick8(c.bus), hl, r)),
                ..c
            },
            (np, 16u8),
        )
    } else {
        let v = spec_prefix_register(c.registers, target);
        let r = (v >> 1) as u8;
        let f = (FlagsRegister { zero: (v >> 1) == 0, subtract: false, half_carry: false, carry: v & 1 == 1 });
        (
            CpuState {
                registers: spec_set_prefix_register(
                    Registers { f: f, ..c.registers },
                    target,
                    r,
                ),
                bus: spec_tick4(c.bus),
                ..c
            },
            (np, 8u8),
        )
    }
}

/// The effect of a rotate right through Carry on a register or the byte at HL.
#[verifier::opaque]
pub open spec fn spec_exec_rr(c: CpuState, target: PrefixTarget) -> (CpuState, (u16, u8)) {
    let np = c.pc.wrapping_add(2);
    if target is HL {
        let hl = c.registers.spec_hl();
        let v = spec_read(spec_tick4(c.bus), hl);
        let r = ((if c.registers.f.carry { 0x80u8 } else { 0u8 }) | (v >> 1)) as u8;
        let f = (FlagsRegister { zero: ((if c.registers.f.carry { 0x80u8 } else { 0u8 }) | (v >> 1)) == 0, subtract: false, half_carry: false, carry: v & 1 == 1 });
        (
            CpuState {
                registers: Registers { f: f, ..c.registers },
                bus: spec_write(spec_tick12(c.bus), hl, r),
                ..c
            },
            (np, 16u8),
        )
    } else {
        let v = spec_prefix_register(c.registers, target);
        let r = ((if c.registers.f.carry { 0x80u8 } else { 0u8 }) | (v >> 1)) as u8;
        let f = (FlagsRegister { zero: ((if c.registers.f.carry { 0x80u8 } else { 0u8 }) | (v >> 1)) == 0, subtract: false, half_carry: false, carry: v & 1 == 1 });
        (
            CpuState {
                registers: spec_set_prefix_register(
                    Registers { f: f, ..c.registers },
                    target,
                    r,
                ),
                bus: spec_tick4(c.bus),
                ..c
            },
            (np, 8u8),
        )
    }
}

/// The effect of a rotate left through Carry on a register or the byte at HL.
#[verifier::opaque]
pub open spec fn spec_exec_rl(c: CpuState, target: PrefixTarget) -> (CpuState, (u16, u8)) {
    let np = c.pc.wrapping_add(2);
    if target is HL {
        let hl = c.registers.spec_hl();
        let v = spec_read(spec_tick4(c.bus), hl);
        let r = ((v << 1) | (if c.registers.f.carry { 1u8 } else { 0u8 })) as u8;
        let f = (FlagsRegister { zero: ((v << 1) | (if c.registers.f.carry { 1u8 } else { 0u8 })) == 0, subtract: false, half_carry: false, carry: v & 0x80 == 0x80 });
        (
            CpuState {
                registers: Registers { f: f, ..c.registers },
                bus: spec_write(spec_tick12(c.bus), hl, r),
                ..c
            },
            (np, 16u8),
        )
    } else {
        let v = spec_prefix_register(c.registers, target);
        let r = ((v << 1) | (if c.registers.f.carry { 1u8 } else { 0u8 })) as u8;
        let f = (FlagsRegister { zero: ((v << 1) | (if c.registers.f.carry { 1u8 } else { 0u8 })) == 0, subtract: false, half_carry: false, carry: v & 0x80 == 0x80 });
        (
            CpuState {
                registers: spec_set_prefix_register(
                    Registers { f: f, ..c.registers },
                    target,
                    r,
                ),
                bus: spec_tick4(c.bus),
                ..c
            },
            (np, 8u8),
        )
    }
}

/// The effect of a rotate right on a register or the byte at HL.
#[verifier::opaque]
pub open spec fn spec_exec_rrc(c: CpuState, target: PrefixTarget) -> (CpuState, (u16, u8)) {
    let np = c.pc.wrapping_add(2);
    if target is HL {
        let hl = c.registers.spec_hl();
        let v = spec_read(spec_tick4(c.bus), hl);
        let r = (((v & 1) << 7) | (v >> 1)) as u8;
        let f = (FlagsRegister { zero: (((v & 1) << 7) | (v >> 1)) == 0, subtract: false, half_carry: false, carry: v & 1 != 0 });
        (
            CpuState {
                registers: Registers { f: f, ..c.registers },
                bus: spec_write(spec_tick12(c.bus), hl, r),
                ..c
            },
            (np, 16u8),
        )
    } else {
        let v = spec_prefix_register(c.registers, target);
        let r = (((v & 1) << 7) | (v >> 1)) as u8;
        let f = (FlagsRegister { zero: (((v & 1) << 7) | (v >> 1)) == 0, subtract: false, half_carry: false, carry: v & 1 != 0 });
        (
            CpuState {
                registers: spec_set_prefix_register(
                    Registers { f: f, ..c.registers },
                    target,
                    r,
                ),
                bus: spec_tick4(c.bus),
                ..c
            },
            (np, 8u8),
        )
    }
}

/// The effect of a rotate left on a register or the byte at HL.
#[verifier::opaque]
pub open spec fn spec_exec_rlc(c: CpuState, target: PrefixTarget) -> (CpuState, (u16, u8)) {
    let np = c.pc.wrapping_add(2);
    if target is HL {
        let hl = c.registers.spec_hl();
        let v = spec_read(spec_tick4(c.bus), hl);
        let r = ((v << 1) | ((v & 0x80) >> 7)) as u8;
        let f = (FlagsRegister { zero: ((v << 1) | ((v & 0x80) >> 7)) == 0, subtract: false, half_carry: false, carry: (v & 0x80) >> 7 == 1 });
        (
            CpuState {
                registers: Registers { f: f, ..c.registers },
                bus: spec_write(spec_tick12(c.bus), hl, r),
                ..c
            },
            (np, 16u8),
        )
    } else {
        let v = spec_prefix_register(c.registers, target);
        let r = ((v << 1) | ((v & 0x80) >> 7)) as u8;
        let f = (FlagsRegister { zero: ((v << 1) | ((v & 0x80) >> 7)) == 0, subtract: false, half_carry: false, carry: (v & 0x80) >> 7 == 1 });
        (
            CpuState {
                registers: spec_set_prefix_register(
                    Registers { f: f, ..c.registers },
                    target,
                    r,
                ),
                bus: spec_tick4(c.bus),
                ..c
            },
            (np, 8u8),
        )
    }
}

/// The effect of a bit test on a register or the byte at HL: flags
/// only, Carry untouched.
#[verifier::opaque]
pub open spec fn spec_exec_bit(c: CpuState, target: PrefixTarget, bit_position: BitPosition) -> (CpuState, (u16, u8)) {
    let np = c.pc.wrapping_add(2);
    let v = if target is HL {
        spec_read(spec_tick4(c.bus), c.registers.spec_hl())
    } else {
        spec_prefix_register(c.registers, target)
    };
    let f = FlagsRegister {
        zero: (v >> bit_position.spec_index()) & 1 == 0,
        subtract: false,
        half_carry: true,
        carry: c.registers.f.carry,
    };
    (
        CpuState {
            registers: Registers { f: f, ..c.registers },
            bus: if target is HL {
                spec_tick8(c.bus)
            } else {
                spec_tick4(c.bus)
            },
            ..c
        },
        (np, if target is HL { 12u8 } else { 8u8 }),
    )
}

/// The effect of setting one bit of a register or of the byte at HL;
/// no flag changes.
#[verifier::opaque]
pub open spec fn spec_exec_set(c: CpuState, target: PrefixTarget, bit_position: BitPosition) -> (CpuState, (u16, u8)) {
    let np = c.pc.wrapping_add(2);
    if target is HL {
        let hl = c.registers.spec_hl();
        let v = spec_read(spec_tick4(c.bus), hl);
        let r = v | (1u8 << bit_position.spec_index());
        (CpuState { bus: spec_write(spec_tick12(c.bus), hl, r), ..c }, (np, 16u8))
    } else {
        let v = spec_prefix_register(c.registers, target);
        let r = v | (1u8 << bit_position.spec_index());
        (
            CpuState {
                registers: spec_set_prefix_register(c.registers, target, r),
                bus: spec_tick4(c.bus),
                ..c
            },
            (np, 8u8),
        )
    }
}

/// The effect of clearing one bit of a register or of the byte at HL;
/// no flag changes.
#[verifier::opaque]
pub open spec fn spec_exec_res(c: CpuState, target: PrefixTarget, bit_position: BitPosition) -> (CpuState, (u16, u8)) {
    let np = c.pc.wrapping_add(2);
    if target is HL {
        let hl = c.registers.spec_hl();
        let v = spec_read(spec_tick4(c.bus), hl);
        let r = v & !(1u8 << bit_position.spec_index());
        (CpuState { bus: spec_write(spec_tick12(c.bus), hl, r), ..c }, (np, 16u8))
    } else {
        let v = spec_prefix_register(c.registers, target);
        let r = v & !(1u8 << bit_position.spec_index());
        (
            CpuState {
                registers: spec_set_prefix_register(c.registers, target, r),
                bus: spec_tick4(c.bus),
                ..c
            },
            (np, 8u8),
        )
    }
}

/// The byte a load-source selector reads: a register, or the byte at
/// HL or the immediate byte after the M-cycle their access charges.
pub open spec fn spec_ld_source_value(c: CpuState, source: LoadByteSource) -> u8 {
    match source {
        LoadByteSource::A => c.registers.a,
        LoadByteSource::B => c.registers.b,
        LoadByteSource::C => c.registers.c,
        LoadByteSource::D => c.registers.d,
        LoadByteSource::E => c.registers.e,
        LoadByteSource::H => c.registers.h,
        LoadByteSource::L => c.registers.l,
        LoadByteSource::HL => spec_read(spec_tick4(c.bus), c.registers.spec_hl()),
        LoadByteSource::D8 => spec_read(spec_tick4(c.bus), c.pc.wrapping_add(1)),
    }
}

/// The register file with a load-target register replaced (the memory
/// target is handled separately).
pub open spec fn spec_set_ld_register(regs: Registers, target: LoadByteTarget, v: u8) -> Registers {
    match target {
        LoadByteTarget::A => Registers { a: v, ..regs },
        LoadByteTarget::B => Registers { b: v, ..regs },
        LoadByteTarget::C => Registers { c: v, ..regs },
        LoadByteTarget::D => Registers { d: v, ..regs },
        LoadByteTarget::E => Registers { e: v, ..regs },
        LoadByteTarget::H => Registers { h: v, ..regs },
        LoadByteTarget::L => Registers { l: v, ..regs },
        LoadByteTarget::HL => regs,
    }
}

/// The effect of a load of any kind: which byte or word moves where,
/// which M-cycles its accesses charge, and the instruction's width.
#[verifier::opaque]
pub open spec fn spec_exec_ld(c: CpuState, load_type: LoadType) -> (CpuState, (u16, u8)) {
    match load_type {
        LoadType::Byte(target, source) => ({
            let v = spec_ld_source_value(c, source);
            let fetched = if source is HL || source is D8 {
                spec_tick4(c.bus)
            } else {
                c.bus
            };
            let width: u16 = if source is D8 {
                2
            } else {
                1
            };
            if target is HL {
                (
                    CpuState {
                        bus: spec_write(spec_tick4(fetched), c.registers.spec_hl(), v),
                        ..c
                    },
                    (c.pc.wrapping_add(width), spec_ld_cycles(load_type)),
                )
            } else {
                (
                    CpuState { registers: spec_set_ld_register(c.registers, target, v), bus: fetched, ..c },
                    (c.pc.wrapping_add(width), spec_ld_cycles(load_type)),
                )
            }
        }),
        LoadType::Word(target) => ({
            let w = spec_next_word(spec_tick8(c.bus), c.pc);
            let regs = match target {
                LoadWordTarget::BC => Registers { b: (w >> 8) as u8, c: (w & 0xFF) as u8, ..c.registers },
                LoadWordTarget::DE => Registers { d: (w >> 8) as u8, e: (w & 0xFF) as u8, ..c.registers },
                LoadWordTarget::HL => Registers { h: (w >> 8) as u8, l: (w & 0xFF) as u8, ..c.registers },
                LoadWordTarget::SP => c.registers,
            };
            (
                CpuState {
                    registers: regs,
                    sp: if target is SP {
                        w
                    } else {
                        c.sp
                    },
                    bus: spec_tick8(c.bus),
                    ..c
                },
                (c.pc.wrapping_add(3), 12u8),
            )
        }),
        LoadType::AFromIndirect(source) => ({
            let ticked = spec_tick4(c.bus);
            match source {
                Indirect::BCIndirect => (
                    CpuState {
                        registers: Registers {
                            a: spec_read(ticked, c.registers.spec_bc()),
                            ..c.registers
                        },
                        bus: ticked,
                        ..c
                    },
                    (c.pc.wrapping_add(1), 8u8),
                ),
                Indirect::DEIndirect => (
                    CpuState {
                        registers: Registers {
                            a: spec_read(ticked, c.registers.spec_de()),
                            ..c.registers
                        },
                        bus: ticked,
                        ..c
                    },
                    (c.pc.wrapping_add(1), 8u8),
                ),
                Indirect::HLIndirectMinus => ({
                    let hl = c.registers.spec_hl();
                    let moved = hl.wrapping_sub(1);
                    (
                        CpuState {
                            registers: Registers {
                                a: spec_read(ticked, hl),
                                h: (moved >> 8) as u8,
                                l: (moved & 0xFF) as u8,
                                ..c.registers
                            },
                            bus: ticked,
                            ..c
                        },
                        (c.pc.wrapping_add(1), 8u8),
                    )
                }),
                Indirect::HLIndirectPlus => ({
                    let hl = c.registers.spec_hl();
                    let moved = hl.wrapping_add(1);
                    (
                        CpuState {
                            registers: Registers {
                                a: spec_read(ticked, hl),
                                h: (moved >> 8) as u8,
                                l: (moved & 0xFF) as u8,
                                ..c.registers
                            },
                            bus: ticked,
                            ..c
                        },
                        (c.pc.wrapping_add(1), 8u8),
                    )
                }),
                Indirect::LastByteIndirect => (
                    CpuState {
                        registers: Registers {
                            a: spec_read(ticked, (0xFF00 + c.registers.c) as u16),
                            ..c.registers
                        },
                        bus: ticked,
                        ..c
                    },
                    (c.pc.wrapping_add(1), 8u8),
                ),
                Indirect::WordIndirect => ({
                    let settled = spec_tick12(c.bus);
                    let word = spec_next_word(settled, c.pc);
                    (
                        CpuState {
                            registers: Registers { a: spec_read(settled, word), ..c.registers },
                            bus: settled,
                            ..c
                        },
                        (c.pc.wrapping_add(3), 16u8),
                    )
                }),
            }
        }),
        LoadType::IndirectFromA(target) => ({
            let a = c.registers.a;
            let ticked = spec_tick4(c.bus);
            match target {
                Indirect::BCIndirect => (
                    CpuState { bus: spec_write(ticked, c.registers.spec_bc(), a), ..c },
                    (c.pc.wrapping_add(1), 8u8),
                ),
                Indirect::DEIndirect => (
                    CpuState { bus: spec_write(ticked, c.registers.spec_de(), a), ..c },
                    (c.pc.wrapping_add(1), 8u8),
                ),
                Indirect::HLIndirectMinus => ({
                    let hl = c.registers.spec_hl();
                    let moved = hl.wrapping_sub(1);
                    (
                        CpuState {
                            registers: Registers {
                                h: (moved >> 8) as u8,
                                l: (moved & 0xFF) as u8,
                                ..c.registers
                            },
                            bus: spec_write(ticked, hl, a),
                            ..c
                        },
                        (c.pc.wrapping_add(1), 8u8),
                    )
                }),
                Indirect::HLIndirectPlus => ({
                    let hl = c.registers.spec_hl();
                    let moved = hl.wrapping_add(1);
                    (
                        CpuState {
                            registers: Registers {
                                h: (moved >> 8) as u8,
                                l: (moved & 0xFF) as u8,
                                ..c.registers
                            },
                            bus: spec_write(ticked, hl, a),
                            ..c
                        },
                        (c.pc.wrapping_add(1), 8u8),
                    )
                }),
                Indirect::WordIndirect => ({
                    let settled = spec_tick12(c.bus);
                    let word = spec_next_word(settled, c.pc);
                    (
                        CpuState { bus: spec_write(settled, word, a), ..c },
                        (c.pc.wrapping_add(3), 16u8),
                    )
                }),
                Indirect::LastByteIndirect => (
                    CpuState { bus: spec_write(ticked, (0xFF00 + c.registers.c) as u16, a), ..c },
                    (c.pc.wrapping_add(1), 8u8),
                ),
            }
        }),
        LoadType::AFromByteAddress => ({
            let ticked = spec_tick4(c.bus);
            let offset = spec_read(ticked, c.pc.wrapping_add(1));
            (
                CpuState {
                    registers: Registers {
                        a: spec_read(ticked, (0xFF00 + offset) as u16),
                        ..c.registers
                    },
                    bus: spec_tick8(c.bus),
                    ..c
                },
                (c.pc.wrapping_add(2), 12u8),
            )
        }),
        LoadType::ByteAddressFromA => ({
            let offset = spec_read(spec_tick4(c.bus), c.pc.wrapping_add(1));
            (
                CpuState {
                    bus: spec_write(spec_tick8(c.bus), (0xFF00 + offset) as u16, c.registers.a),
                    ..c
                },
                (c.pc.wrapping_add(2), 12u8),
            )
        }),
    }
}

/// The 16-bit pair a stack instruction names.
pub open spec fn spec_stack_pair(regs: Registers, target: StackTarget) -> u16 {
    match target {
        StackTarget::AF => regs.spec_af(),
        StackTarget::BC => regs.spec_bc(),
        StackTarget::DE => regs.spec_de(),
        StackTarget::HL => regs.spec_hl(),
    }
}

/// The register file with the named 16-bit pair replaced; loading AF
/// drops the low nibble of the flags byte.
pub open spec fn spec_set_stack_pair(regs: Registers, target: StackTarget, value: u16) -> Registers {
    match target {
        StackTarget::AF => Registers {
            a: (value >> 8) as u8,
            f: spec_flags_from_byte((value & 0xFF) as u8),
            ..regs
        },
        StackTarget::BC => Registers { b: (value >> 8) as u8, c: (value & 0xFF) as u8, ..regs },
        StackTarget::DE => Registers { d: (value >> 8) as u8, e: (value & 0xFF) as u8, ..regs },
        StackTarget::HL => Registers { h: (value >> 8) as u8, l: (value & 0xFF) as u8, ..regs },
    }
}

/// The effect of pushing a 16-bit register pair.
#[verifier::opaque]
pub open spec fn spec_exec_push(c: CpuState, target: StackTarget) -> (CpuState, (u16, u8)) {
    (
        CpuState {
            sp: c.sp.wrapping_sub(2),
            bus: spec_push_state(spec_tick8(c.bus), c.sp, spec_stack_pair(c.registers, target)),
            ..c
        },
        (c.pc.wrapping_add(1), 12u8),
    )
}

/// The effect of popping into a 16-bit register pair.
#[verifier::opaque]
pub open spec fn spec_exec_pop(c: CpuState, target: StackTarget) -> (CpuState, (u16, u8)) {
    let ticked = spec_tick4(c.bus);
    let v = spec_word(spec_read(ticked, c.sp.wrapping_add(1)), spec_read(ticked, c.sp));
    (
        CpuState {
            registers: spec_set_stack_pair(c.registers, target, v),
            sp: c.sp.wrapping_add(2),
            bus: spec_tick8(c.bus),
            ..c
        },
        (c.pc.wrapping_add(1), 12u8),
    )
}

/// The effect of an absolute jump under a branch condition.
#[verifier::opaque]
pub open spec fn spec_exec_jp(c: CpuState, test: JumpTest) -> (CpuState, (u16, u8)) {
    if spec_jump_condition(c.registers.f, test) {
        (
            CpuState { bus: spec_tick12(c.bus), ..c },
            (spec_next_word(spec_tick12(c.bus), c.pc), 16u8),
        )
    } else {
        (CpuState { bus: spec_tick8(c.bus), ..c }, (c.pc.wrapping_add(3), 12u8))
    }
}

/// The effect of a relative jump under a branch condition.
#[verifier::opaque]
pub open spec fn spec_exec_jr(c: CpuState, test: JumpTest) -> (CpuState, (u16, u8)) {
    if spec_jump_condition(c.registers.f, test) {
        let ticked = spec_tick8(c.bus);
        (
            CpuState { bus: ticked, ..c },
            (
                c.pc.wrapping_add(2).wrapping_add(
                    spec_signed_word(spec_read(ticked, c.pc.wrapping_add(1))),
                ),
                12u8,
            ),
        )
    } else {
        (CpuState { bus: spec_tick4(c.bus), ..c }, (c.pc.wrapping_add(2), 8u8))
    }
}

/// The effect of a call under a branch condition.
#[verifier::opaque]
pub open spec fn spec_exec_call(c: CpuState, test: JumpTest) -> (CpuState, (u16, u8)) {
    if spec_jump_condition(c.registers.f, test) {
        let pushed = spec_push_state(spec_tick8(c.bus), c.sp, c.pc.wrapping_add(3));
        let settled = spec_tick8(spec_tick4(pushed));
        (
            CpuState { sp: c.sp.wrapping_sub(2), bus: settled, ..c },
            (spec_next_word(settled, c.pc), 24u8),
        )
    } else {
        (CpuState { bus: spec_tick8(c.bus), ..c }, (c.pc.wrapping_add(3), 12u8))
    }
}

/// The effect of a return under a branch condition.
#[verifier::opaque]
pub open spec fn spec_exec_ret(c: CpuState, test: JumpTest) -> (CpuState, (u16, u8)) {
    if test is Always {
        let ticked = spec_tick4(spec_tick8(c.bus));
        (
            CpuState { sp: c.sp.wrapping_add(2), bus: ticked, ..c },
            (
                spec_word(spec_read(ticked, c.sp.wrapping_add(1)), spec_read(ticked, c.sp)),
                16u8,
            ),
        )
    } else if spec_jump_condition(c.registers.f, test) {
        let ticked = spec_tick8(spec_tick8(c.bus));
        (
            CpuState { sp: c.sp.wrapping_add(2), bus: ticked, ..c },
            (
                spec_word(spec_read(ticked, c.sp.wrapping_add(1)), spec_read(ticked, c.sp)),
                20u8,
            ),
        )
    } else {
        (CpuState { bus: spec_tick4(c.bus), ..c }, (c.pc.wrapping_add(1), 8u8))
    }
}

/// The full effect of one instruction on the machine state: the state
/// afterwards, the next program counter, and the total elapsed tick
/// count.
pub open spec fn spec_execute(c: CpuState, instruction: Instruction) -> (CpuState, (u16, u8)) {
    let np1 = c.pc.wrapping_add(1);
    match instruction {
        Instruction::NOP => (c, (np1, 4u8)),
        Instruction::HALT => (CpuState { is_halted: true, ..c }, (np1, 4u8)),
        Instruction::ADD(target) => spec_exec_add(c, target),
        Instruction::ADC(target) => spec_exec_adc(c, target),
        Instruction::SUB(target) => spec_exec_sub(c, target),
        Instruction::SBC(target) => spec_exec_sbc(c, target),
        Instruction::AND(target) => spec_exec_and(c, target),
        Instruction::OR(target) => spec_exec_or(c, target),
        Instruction::XOR(target) => spec_exec_xor(c, target),
        Instruction::CP(target) => spec_exec_cp(c, target),
        Instruction::ADDHL(target) => spec_exec_add_hl_target(c, target),
        Instruction::INC(target) => spec_exec_inc(c, target),
        Instruction::DEC(target) => spec_exec_dec(c, target),
        Instruction::CCF => (
            CpuState {
                registers: Registers {
                    f: FlagsRegister {
                        zero: c.registers.f.zero,
                        subtract: false,
                        half_carry: false,
                        carry: !c.registers.f.carry,
                    },
                    ..c.registers
                },
                ..c
            },
            (np1, 4u8),
        ),
        Instruction::SCF => (
            CpuState {
                registers: Registers {
                    f: FlagsRegister {
                        zero: c.registers.f.zero,
                        subtract: false,
                        half_carry: false,
                        carry: true,
                    },
                    ..c.registers
                },
                ..c
            },
            (np1, 4u8),
        ),
        Instruction::CPL => (
            CpuState {
                registers: Registers {
                    a: !c.registers.a,
                    f: FlagsRegister { subtract: true, half_carry: true, ..c.registers.f },
                    ..c.registers
                },
                ..c
            },
            (np1, 4u8),
        ),
        Instruction::RRA => ({
            let a = c.registers.a;
            let r = ((if c.registers.f.carry { 0x80u8 } else { 0u8 }) | (a >> 1)) as u8;
            (
                CpuState {
                    registers: Registers {
                        a: r,
                        f: FlagsRegister {
                            zero: false,
                            subtract: false,
                            half_carry: false,
                            carry: a & 1 == 1,
                        },
                        ..c.registers
                    },
                    ..c
                },
                (np1, 4u8),
            )
        }),
        Instruction::RLA => ({
            let a = c.registers.a;
            let r = ((a << 1) | (if c.registers.f.carry { 1u8 } else { 0u8 })) as u8;
            (
                CpuState {
                    registers: Registers {
                        a: r,
                        f: FlagsRegister {
                            zero: false,
                            subtract: false,
                            half_carry: false,
                            carry: a & 0x80 == 0x80,
                        },
                        ..c.registers
                    },
                    ..c
                },
                (np1, 4u8),
            )
        }),
        Instruction::RRCA => ({
            let a = c.registers.a;
            let r = (((a & 1) << 7) | (a >> 1)) as u8;
            (
                CpuState {
                    registers: Registers {
                        a: r,
                        f: FlagsRegister {
                            zero: false,
                            subtract: false,
                            half_carry: false,
                            carry: a & 1 != 0,
                        },
                        ..c.registers
                    },
                    ..c
                },
                (np1, 4u8),
            )
        }),
        Instruction::RLCA => ({
            let a = c.registers.a;
            let r = ((a << 1) | ((a & 0x80) >> 7)) as u8;
            (
                CpuState {
                    registers: Registers {
                        a: r,
                        f: FlagsRegister {
                            zero: false,
                            subtract: false,
                            half_carry: false,
                            carry: (a & 0x80) >> 7 == 1,
                        },
                        ..c.registers
                    },
                    ..c
                },
                (np1, 4u8),
            )
        }),
        Instruction::BIT(target, bit_position) => spec_exec_bit(c, target, bit_position),
        Instruction::SET(target, bit_position) => spec_exec_set(c, target, bit_position),
        Instruction::RES(target, bit_position) => spec_exec_res(c, target, bit_position),
        Instruction::SWAP(target) => spec_exec_swap(c, target),
        Instruction::SLA(target) => spec_exec_sla(c, target),
        Instruction::SRA(target) => spec_exec_sra(c, target),
        Instruction::SRL(target) => spec_exec_srl(c, target),
        Instruction::RR(target) => spec_exec_rr(c, target),
        Instruction::RL(target) => spec_exec_rl(c, target),
        Instruction::RRC(target) => spec_exec_rrc(c, target),
        Instruction::RLC(target) => spec_exec_rlc(c, target),
        Instruction::JP(test) => spec_exec_jp(c, test),
        Instruction::JR(test) => spec_exec_jr(c, test),
        Instruction::JPI => (c, (c.registers.spec_hl(), 4u8)),
        Instruction::LD(load_type) => spec_exec_ld(c, load_type),
        Instruction::CALL(test) => spec_exec_call(c, test),
        Instruction::RET(test) => spec_exec_ret(c, test),
        Instruction::PUSH(target) => spec_exec_push(c, target),
        Instruction::POP(target) => spec_exec_pop(c, target),
    }
}

/// The instruction the fetch at the program counter decodes: the
/// escape byte selects the secondary table on the following byte;
/// otherwise the primary table entry (meaningful when the fetch
/// decodes, `spec_fetch_ok`).
pub open spec fn spec_fetched_instruction(c: CpuState) -> Instruction {
    let b = spec_read(c.bus, c.pc);
    if b == 0xCB {
        spec_from_byte_prefixed(spec_read(c.bus, c.pc.wrapping_add(1)))
    } else {
        spec_from_byte_not_prefixed(b)->Some_0
    }
}

/// Servicing the highest-priority enabled and pending interrupt: its
/// pending bit and the master flag clear, the program counter is
/// pushed, and execution continues at the source's vector.
pub open spec fn spec_dispatch_state(c: CpuState) -> CpuState {
    let cleared = BusState { interrupt_flag: spec_clear_dispatched(c.bus), ..c.bus };
    CpuState {
        pc: spec_dispatch_vector(c.bus),
        ime: false,
        sp: c.sp.wrapping_sub(2),
        bus: spec_push_state(cleared, c.sp, c.pc),
        ..c
    }
}

/// One full step of the engine: execute the fetched instruction when
/// running; wake when halted with an enabled source pending; consume
/// one idle M-cycle when halted with nothing pending; then service at
/// most one interrupt, charging 20 extra ticks. The second component
/// is the step's total elapsed tick count.
pub open spec fn spec_step(c: CpuState) -> (CpuState, u8) {
    let executed: (CpuState, (u16, u8)) = if !c.is_halted {
        spec_execute(c, spec_fetched_instruction(c))
    } else {
        (c, (c.pc, 0u8))
    };
    let c1 = executed.0;
    let next_pc = executed.1.0;
    let cycles = executed.1.1;
    let c2 = if spec_interrupted(c1.bus) {
        CpuState { is_halted: false, ..c1 }
    } else {
        c1
    };
    let idle: (CpuState, u8) = if c2.is_halted {
        (CpuState { bus: spec_tick4(c2.bus), ..c2 }, 4u8)
    } else {
        (c2, 0u8)
    };
    let c3 = CpuState { pc: next_pc, ..idle.0 };
    if c3.ime && spec_interrupted(c3.bus) {
        (spec_dispatch_state(c3), (cycles + idle.1 + 20) as u8)
    } else {
        (c3, (cycles + idle.1) as u8)
    }
}

/// Whether a branch condition holds of the current flags.
pub open spec fn spec_jump_condition(f: FlagsRegister, test: JumpTest) -> bool {
    match test {
        JumpTest::NotZero => !f.zero,
        JumpTest::NotCarry => !f.carry,
        JumpTest::Zero => f.zero,
        JumpTest::Carry => f.carry,
        JumpTest::Always => true,
    }
}

/// The vector of the highest-priority interrupt source that is both
/// enabled and pending: video-blank before display-status before timer
/// before serial before input. Zero when none is pending.
pub open spec fn spec_dispatch_vector(s: BusState) -> u16 {
    if s.interrupt_enable.vblank && s.interrupt_flag.vblank {
        VBLANK
    } else if s.interrupt_enable.stat && s.interrupt_flag.stat {
        STAT
    } else if s.interrupt_enable.timer && s.interrupt_flag.timer {
        TIMER
    } else if s.interrupt_enable.serial && s.interrupt_flag.serial {
        SERIAL
    } else if s.interrupt_enable.joypad && s.interrupt_flag.joypad {
        JOYPAD
    } else {
        0
    }
}

/// The pending set with the bit of the highest-priority enabled and
/// pending source cleared.
pub open spec fn spec_clear_dispatched(s: BusState) -> InterruptFlag {
    if s.interrupt_enable.vblank && s.interrupt_flag.vblank {
        InterruptFlag { vblank: false, ..s.interrupt_flag }
    } else if s.interrupt_enable.stat && s.interrupt_flag.stat {
        InterruptFlag { stat: false, ..s.interrupt_flag }
    } else if s.interrupt_enable.timer && s.interrupt_flag.timer {
        InterruptFlag { timer: false, ..s.interrupt_flag }
    } else if s.interrupt_enable.serial && s.interrupt_flag.serial {
        InterruptFlag { serial: false, ..s.interrupt_flag }
    } else if s.interrupt_enable.joypad && s.interrupt_flag.joypad {
        InterruptFlag { joypad: false, ..s.interrupt_flag }
    } else {
        s.interrupt_flag
    }
}

/// The execution engine's state: the register file, program counter,
/// stack pointer, the bus it owns, and the halt and master-interrupt
/// flags.
pub struct CPU {
    pub registers: Registers,
    pub pc: u16,
    pub sp: u16,
    pub bus: MemoryBus,
    pub is_halted: bool,
    pub is_booted: bool,
    pub ime: bool,
}

/// The abstract state of the engine: the same fields as `CPU`, with
/// the bus as its abstract region state. Contracts that relate a whole
/// machine state before and after an operation speak over this view.
#[verifier::ext_equal]
pub struct CpuState {
    pub registers: Registers,
    pub pc: u16,
    pub sp: u16,
    pub bus: BusState,
    pub is_halted: bool,
    pub is_booted: bool,
    pub ime: bool,
}

impl View for CPU {
    type V = CpuState;

    open spec fn view(&self) -> CpuState {
        CpuState {
            registers: self.registers,
            pc: self.pc,
            sp: self.sp,
            bus: self.bus@,
            is_halted: self.is_halted,
            is_booted: self.is_booted,
            ime: self.ime,
        }
    }
}

/// Everything of a CPU value except the bus: used to say that an
/// operation changed the bus (by ticking the timer or writing memory)
/// and nothing else.
pub open spec fn spec_same_but_bus(pre: CPU, post: CPU) -> bool {
    post == (CPU { bus: post.bus, ..pre })
}

/// Everything of a CPU value except the flags: used by the
/// arithmetic/logic operations, which recompute flags and touch
/// nothing else.
pub open spec fn spec_same_but_flags(pre: CPU, post: CPU) -> bool {
    post == (CPU { registers: (Registers { f: post.registers.f, ..pre.registers }), ..pre })
}

impl CPU {
    /// Structural well-formedness: the bus regions have their fixed
    /// sizes.
    pub open spec fn wf(&self) -> bool {
        self.bus.wf()
    }

    /// A fresh engine over a bus: everything zeroed, running, with
    /// the master interrupt flag off.
    pub fn new(bus: MemoryBus) -> (r: CPU)
        requires
            bus.wf(),
        ensures
            r.wf(),
            r.registers == (Registers {
                a: 0,
                b: 0,
                c: 0,
                d: 0,
                e: 0,
                h: 0,
                l: 0,
                f: (FlagsRegister { zero: false, subtract: false, half_carry: false, carry: false }),
            }),
            r.pc == 0 && r.sp == 0,
            r.bus == bus,
            !r.is_halted && !r.is_booted && !r.ime,
    {
        CPU {
            registers: Registers::new(),
            pc: 0x00,
            sp: 0x00,
            bus,
            is_halted: false,
            is_booted: false,
            ime: false,
        }
    }

    /// One hardware tick: advance the timer and raise the pending
    /// timer interrupt if its delayed overflow completed on this tick.
    fn tick_bus_once(&mut self)
        requires
            old(self).wf(),
        ensures
            final(self).wf(),
            spec_same_but_bus(*old(self), *final(self)),
            final(self).bus@ == spec_tick_once(old(self).bus@),
    {
        let ghost s0 = self.bus@;
        if self.bus.timer.tick() {
            self.bus.request_timer_interrupt();
        }
        proof {
            lemma_wf_preserved(&old(self).bus, &self.bus);
            reveal(spec_tick_once);
            assert(self.bus@ =~= spec_tick_once(s0));
        }
    }

    /// One M-cycle: four hardware ticks of the timer, each raising the
    /// pending timer interrupt if its delayed overflow completed.
    fn mid_op_tick(&mut self)
        requires
            old(self).wf(),
        ensures
            final(self).wf(),
            spec_same_but_bus(*old(self), *final(self)),
            final(self).bus@ == spec_tick4(old(self).bus@),
    {
        self.tick_bus_once();
        self.tick_bus_once();
        self.tick_bus_once();
        self.tick_bus_once();
    }

    /// The byte after the opcode.
    pub fn read_next_byte(&self) -> (r: u8)
        requires
            self.wf(),
        ensures
            r == spec_read(self.bus@, self.pc.wrapping_add(1)),
    {
        self.bus.read_byte(self.pc.wrapping_add(1))
    }

    /// The 16-bit operand after the opcode: low byte first.
    pub fn read_next_word(&self) -> (r: u16)
        requires
            self.wf(),
        ensures
            r == spec_next_word(self.bus@, self.pc),
    {
        let hi = self.bus.read_byte(self.pc.wrapping_add(2));
        let lo = self.bus.read_byte(self.pc.wrapping_add(1));
        proof {
            lemma_word_from_bytes(hi, lo);
        }
        ((hi as u16) << 8) | (lo as u16)
    }

    /// Fetch the immediate byte operand, charging one M-cycle.
    fn get_d8(&mut self) -> (r: u8)
        requires
            old(self).wf(),
        ensures
            final(self).wf(),
            spec_same_but_bus(*old(self), *final(self)),
            final(self).bus@ == spec_tick4(old(self).bus@),
            r == spec_read(spec_tick4(old(self).bus@), old(self).pc.wrapping_add(1)),
    {
        self.mid_op_tick();
        self.read_next_byte()
    }

    /// Fetch the byte at the address in HL, charging one M-cycle.
    fn get_hli(&mut self) -> (r: u8)
        requires
            old(self).wf(),
        ensures
            final(self).wf(),
            spec_same_but_bus(*old(self), *final(self)),
            final(self).bus@ == spec_tick4(old(self).bus@),
            r == spec_read(spec_tick4(old(self).bus@), old(self).registers.spec_hl()),
    {
        self.mid_op_tick();
        let hl = self.registers.get_hl();
        self.bus.read_byte(hl)
    }

    /// Fetch the immediate word operand, charging two M-cycles.
    fn get_d16(&mut self) -> (r: u16)
        requires
            old(self).wf(),
        ensures
            final(self).wf(),
            spec_same_but_bus(*old(self), *final(self)),
            final(self).bus@ == spec_tick8(old(self).bus@),
            r == spec_next_word(spec_tick8(old(self).bus@), old(self).pc),
    {
        self.mid_op_tick();
        self.mid_op_tick();
        self.read_next_word()
    }

    /// Push a 16-bit value: the stack pointer decrements before each
    /// of the two byte writes, high byte first.
    fn push(&mut self, value: u16)
        requires
            old(self).wf(),
        ensures
            final(self).wf(),
            final(self).sp == old(self).sp.wrapping_sub(2),
            final(self).bus@ == spec_push_state(old(self).bus@, old(self).sp, value),
            final(self).registers == old(self).registers,
            final(self).pc == old(self).pc,
            final(self).is_halted == old(self).is_halted,
            final(self).is_booted == old(self).is_booted,
            final(self).ime == old(self).ime,
    {
        self.sp = self.sp.wrapping_sub(1);
        self.bus.write_byte(self.sp, ((value & 0xFF00) >> 8) as u8);

        self.sp = self.sp.wrapping_sub(1);
        self.bus.write_byte(self.sp, (value & 0xFF) as u8);
    }

    /// Pop a 16-bit value: the low byte is read at the stack pointer,
    /// the high byte above it, and the stack pointer rises by two.
    fn pop(&mut self) -> (r: u16)
        requires
            old(self).wf(),
        ensures
            final(self).wf(),
            final(self).sp == old(self).sp.wrapping_add(2),
            r == spec_word(
                spec_read(old(self).bus@, old(self).sp.wrapping_add(1)),
                spec_read(old(self).bus@, old(self).sp),
            ),
            final(self).bus == old(self).bus,
            final(self).registers == old(self).registers,
            final(self).pc == old(self).pc,
            final(self).is_halted == old(self).is_halted,
            final(self).is_booted == old(self).is_booted,
            final(self).ime == old(self).ime,
    {
        let least_significant_byte = self.bus.read_byte(self.sp);
        self.sp = self.sp.wrapping_add(1);

        let most_significant_byte = self.bus.read_byte(self.sp);
        self.sp = self.sp.wrapping_add(1);

        proof {
            lemma_word_from_bytes(most_significant_byte, least_significant_byte);
        }
        ((most_significant_byte as u16) << 8) | (least_significant_byte as u16)
    }

    /// A call: the return address is the instruction after the 3-byte
    /// opcode; when taken it is pushed and the immediate word becomes
    /// the next program counter.
    fn call(&mut self, should_jump: bool) -> (r: (u16, u8))
        requires
            old(self).wf(),
        ensures
            final(self).wf(),
            r.1 == (if should_jump { 24u8 } else { 12u8 }),
            final(self).registers == old(self).registers,
            final(self).pc == old(self).pc,
            final(self).is_halted == old(self).is_halted,
            final(self).is_booted == old(self).is_booted,
            final(self).ime == old(self).ime,
            !should_jump ==> {
                &&& final(self).sp == old(self).sp
                &&& final(self).bus@ == spec_tick8(old(self).bus@)
                &&& r.0 == old(self).pc.wrapping_add(3)
            },
            should_jump ==> ({
                let pushed = spec_push_state(
                    spec_tick8(old(self).bus@),
                    old(self).sp,
                    old(self).pc.wrapping_add(3),
                );
                let settled = spec_tick8(spec_tick4(pushed));
                &&& final(self).sp == old(self).sp.wrapping_sub(2)
                &&& final(self).bus@ == settled
                &&& r.0 == spec_next_word(settled, old(self).pc)
            }),
    {
        let next_pc = self.pc.wrapping_add(3);
        self.mid_op_tick();

        if should_jump {
            self.mid_op_tick();
            self.push(next_pc);
            self.mid_op_tick();
            (self.get_d16(), 24)
        } else {
            self.mid_op_tick();
            (next_pc, 12)
        }
    }

    /// A return: when taken, the next program counter is popped from
    /// the stack; a conditional return that is taken charges one more
    /// M-cycle than an unconditional one, and a not-taken one still
    /// charges the condition-check M-cycle.
    fn ret(&mut self, should_jump: bool, always: bool) -> (r: (u16, u8))
        requires
            old(self).wf(),
        ensures
            final(self).wf(),
            r.1 == (if always { 16u8 } else if should_jump { 20u8 } else { 8u8 }),
            final(self).registers == old(self).registers,
            final(self).pc == old(self).pc,
            final(self).is_halted == old(self).is_halted,
            final(self).is_booted == old(self).is_booted,
            final(self).ime == old(self).ime,
            always ==> ({
                let ticked = spec_tick4(spec_tick8(old(self).bus@));
                &&& final(self).sp == old(self).sp.wrapping_add(2)
                &&& final(self).bus@ == ticked
                &&& r.0 == spec_word(
                    spec_read(ticked, old(self).sp.wrapping_add(1)),
                    spec_read(ticked, old(self).sp),
                )
            }),
            !always && should_jump ==> ({
                let ticked = spec_tick8(spec_tick8(old(self).bus@));
                &&& final(self).sp == old(self).sp.wrapping_add(2)
                &&& final(self).bus@ == ticked
                &&& r.0 == spec_word(
                    spec_read(ticked, old(self).sp.wrapping_add(1)),
                    spec_read(ticked, old(self).sp),
                )
            }),
            !always && !should_jump ==> {
                &&& final(self).sp == old(self).sp
                &&& final(self).bus@ == spec_tick4(old(self).bus@)
                &&& r.0 == old(self).pc.wrapping_add(1)
            },
    {
        if always {
            self.mid_op_tick();
            self.mid_op_tick();
            self.mid_op_tick();
            (self.pop(), 16)
        } else if should_jump {
            self.mid_op_tick();
            self.mid_op_tick();
            self.mid_op_tick();
            self.mid_op_tick();
            (self.pop(), 20)
        } else {
            self.mid_op_tick();
            (self.pc.wrapping_add(1), 8)
        }
    }

    /// An absolute jump: when taken, the immediate word becomes the
    /// next program counter; not taken, execution falls through past
    /// the 3-byte instruction.
    pub fn jump(&mut self, should_jump: bool) -> (r: (u16, u8))
        requires
            old(self).wf(),
        ensures
            final(self).wf(),
            r.1 == (if should_jump { 16u8 } else { 12u8 }),
            spec_same_but_bus(*old(self), *final(self)),
            should_jump ==> final(self).bus@ == spec_tick8(spec_tick4(old(self).bus@)) && r.0
                == spec_next_word(spec_tick8(spec_tick4(old(self).bus@)), old(self).pc),
            !should_jump ==> final(self).bus@ == spec_tick4(spec_tick4(old(self).bus@)) && r.0
                == old(self).pc.wrapping_add(3),
    {
        self.mid_op_tick();
        if should_jump {
            let address = self.get_d16();
            (address, 16)
        } else {
            self.mid_op_tick();
            (self.pc.wrapping_add(3), 12)
        }
    }

    /// A relative jump: when taken, the immediate byte is a signed
    /// offset from the instruction after the 2-byte opcode; the
    /// program counter wraps modulo 65536.
    pub fn jump_relative(&mut self, should_jump: bool) -> (r: (u16, u8))
        requires
            old(self).wf(),
        ensures
            final(self).wf(),
            r.1 == (if should_jump { 12u8 } else { 8u8 }),
            spec_same_but_bus(*old(self), *final(self)),
            should_jump ==> ({
                let ticked = spec_tick4(spec_tick4(old(self).bus@));
                &&& final(self).bus@ == ticked
                &&& r.0 == old(self).pc.wrapping_add(2).wrapping_add(
                    spec_signed_word(spec_read(ticked, old(self).pc.wrapping_add(1))),
                )
            }),
            !should_jump ==> final(self).bus@ == spec_tick4(old(self).bus@) && r.0 == old(
                self,
            ).pc.wrapping_add(2),
    {
        let next_pc = self.pc.wrapping_add(2);
        self.mid_op_tick();
        if should_jump {
            let offset = self.get_d8() as i8;
            let nexter_pc = next_pc.wrapping_add(offset as u16);
            (nexter_pc, 12)
        } else {
            (next_pc, 8)
        }
    }

    /// Whether a branch condition holds of the current flags.
    fn jump_condition(&self, test: JumpTest) -> (r: bool)
        ensures
            r == spec_jump_condition(self.registers.f, test),
    {
        match test {
            JumpTest::NotZero => !self.registers.f.zero,
            JumpTest::NotCarry => !self.registers.f.carry,
            JumpTest::Zero => self.registers.f.zero,
            JumpTest::Carry => self.registers.f.carry,
            JumpTest::Always => true,
        }
    }

    /// 8-bit add into the accumulator: returns the wrapped sum and
    /// recomputes all four flags. Zero follows the result byte; Carry
    /// reports overflow past 0xFF; HalfCarry reports the low nibbles
    /// of the original accumulator and operand summing past 0xF.
    pub fn add(&mut self, value: u8) -> (r: u8)
        ensures
            spec_same_but_flags(*old(self), *final(self)),
            r == old(self).registers.a.wrapping_add(value),
            final(self).registers.f.zero == (r == 0),
            !final(self).registers.f.subtract,
            final(self).registers.f.carry == (old(self).registers.a + value > 0xFF),
            final(self).registers.f.half_carry == ((old(self).registers.a & 0xF) + (value & 0xF)
                > 0xF),
    {
        let a = self.registers.a;
        let new_value = a.wrapping_add(value);

        self.registers.f.zero = new_value == 0;
        self.registers.f.subtract = false;
        self.registers.f.carry = (a as u16) + (value as u16) > 0xFF;
        self.registers.f.half_carry = ((a & 0xF) as u16) + ((value & 0xF) as u16) > 0xF;

        new_value
    }

    /// 16-bit add into HL: returns the wrapped sum, clears Subtract,
    /// sets Carry on overflow past 0xFFFF and HalfCarry at the
    /// nibble-12 boundary; Zero is left untouched.
    pub fn add_hl(&mut self, value: u16) -> (r: u16)
        ensures
            spec_same_but_flags(*old(self), *final(self)),
            r == old(self).registers.spec_hl().wrapping_add(value),
            final(self).registers.f.zero == old(self).registers.f.zero,
            !final(self).registers.f.subtract,
            final(self).registers.f.carry == (old(self).registers.spec_hl() + value > 0xFFFF),
            final(self).registers.f.half_carry == ((value & 0xFFF) + (old(
                self,
            ).registers.spec_hl() & 0xFFF) > 0xFFF),
    {
        let hl = self.registers.get_hl();
        let new_value = hl.wrapping_add(value);

        self.registers.f.subtract = false;
        self.registers.f.carry = (hl as u32) + (value as u32) > 0xFFFF;
        self.registers.f.half_carry = ((value & 0xFFF) as u32) + ((hl & 0xFFF) as u32) > 0xFFF;

        new_value
    }

    /// Add with carry: the incoming Carry flag joins the sum, and the
    /// flag rules apply to the three-way sum, with HalfCarry computed
    /// from the original accumulator nibble.
    pub fn adc(&mut self, value: u8) -> (r: u8)
        ensures
            spec_same_but_flags(*old(self), *final(self)),
            r == old(self).registers.a.wrapping_add(value).wrapping_add(
                if old(self).registers.f.carry {
                    1u8
                } else {
                    0u8
                },
            ),
            final(self).registers.f.zero == (r == 0),
            !final(self).registers.f.subtract,
            final(self).registers.f.carry == (old(self).registers.a + value + (
            if old(self).registers.f.carry {
                1int
            } else {
                0int
            }) > 0xFF),
            final(self).registers.f.half_carry == ((old(self).registers.a & 0xF) + (value & 0xF)
                + (if old(self).registers.f.carry {
                1int
            } else {
                0int
            }) > 0xF),
    {
        let a = self.registers.a;
        let carry_in: u8 = if self.registers.f.carry {
            1
        } else {
            0
        };
        let newer_value = a.wrapping_add(value).wrapping_add(carry_in);

        self.registers.f.zero = newer_value == 0;
        self.registers.f.subtract = false;
        self.registers.f.half_carry = ((a & 0xF) as u16) + ((value & 0xF) as u16) + (carry_in
            as u16) > 0xF;
        self.registers.f.carry = (a as u16) + (value as u16) + (carry_in as u16) > 0xFF;

        newer_value
    }

    /// 8-bit subtract from the accumulator: returns the wrapped
    /// difference, sets Subtract, Carry on borrow, and HalfCarry on a
    /// low-nibble borrow from the original accumulator.
    pub fn sub(&mut self, value: u8) -> (r: u8)
        ensures
            spec_same_but_flags(*old(self), *final(self)),
            r == old(self).registers.a.wrapping_sub(value),
            final(self).registers.f.zero == (r == 0),
            final(self).registers.f.subtract,
            final(self).registers.f.carry == (old(self).registers.a < value),
            final(self).registers.f.half_carry == ((old(self).registers.a & 0xF) < (value & 0xF)),
    {
        let a = self.registers.a;
        let new_value = a.wrapping_sub(value);

        self.registers.f.zero = new_value == 0;
        self.registers.f.subtract = true;
        self.registers.f.carry = a < value;
        self.registers.f.half_carry = (a & 0xF) < (value & 0xF);

        new_value
    }

    /// Subtract with carry: the incoming Carry flag joins the borrow,
    /// with HalfCarry computed from the original accumulator nibble.
    pub fn sbc(&mut self, value: u8) -> (r: u8)
        ensures
            spec_same_but_flags(*old(self), *final(self)),
            r == old(self).registers.a.wrapping_sub(value).wrapping_sub(
                if old(self).registers.f.carry {
                    1u8
                } else {
                    0u8
                },
            ),
            final(self).registers.f.zero == (r == 0),
            final(self).registers.f.subtract,
            final(self).registers.f.carry == (old(self).registers.a < value + (
            if old(self).registers.f.carry {
                1int
            } else {
                0int
            })),
            final(self).registers.f.half_carry == ((old(self).registers.a & 0xF) < (value & 0xF)
                + (if old(self).registers.f.carry {
                1int
            } else {
                0int
            })),
    {
        let a = self.registers.a;
        let carry_in: u8 = if self.registers.f.carry {
            1
        } else {
            0
        };
        let newer_value = a.wrapping_sub(value).wrapping_sub(carry_in);

        self.registers.f.zero = newer_value == 0;
        self.registers.f.subtract = true;
        self.registers.f.half_carry = ((a & 0xF) as u16) < ((value & 0xF) as u16) + (carry_in
            as u16);
        self.registers.f.carry = (a as u16) < (value as u16) + (carry_in as u16);

        newer_value
    }

    /// Bitwise and into the accumulator: clears Subtract and Carry and
    /// sets HalfCarry unconditionally.
    pub fn and(&mut self, value: u8) -> (r: u8)
        ensures
            spec_same_but_flags(*old(self), *final(self)),
            r == (old(self).registers.a & value),
            final(self).registers.f.zero == (r == 0),
            !final(self).registers.f.subtract,
            !final(self).registers.f.carry,
            final(self).registers.f.half_carry,
    {
        let new_value = self.registers.a & value;

        self.registers.f.zero = new_value == 0;
        self.registers.f.subtract = false;
        self.registers.f.carry = false;
        self.registers.f.half_carry = true;

        new_value
    }

    /// Bitwise or into the accumulator: clears Subtract, Carry and
    /// HalfCarry.
    pub fn or(&mut self, value: u8) -> (r: u8)
        ensures
            spec_same_but_flags(*old(self), *final(self)),
            r == (old(self).registers.a | value),
            final(self).registers.f.zero == (r == 0),
            !final(self).registers.f.subtract,
            !final(self).registers.f.carry,
            !final(self).registers.f.half_carry,
    {
        let new_value = self.registers.a | value;

        self.registers.f.zero = new_value == 0;
        self.registers.f.subtract = false;
        self.registers.f.carry = false;
        self.registers.f.half_carry = false;

        new_value
    }

    /// Bitwise exclusive-or into the accumulator: clears Subtract,
    /// Carry and HalfCarry.
    pub fn xor(&mut self, value: u8) -> (r: u8)
        ensures
            spec_same_but_flags(*old(self), *final(self)),
            r == (old(self).registers.a ^ value),
            final(self).registers.f.zero == (r == 0),
            !final(self).registers.f.subtract,
            !final(self).registers.f.carry,
            !final(self).registers.f.half_carry,
    {
        let new_value = self.registers.a ^ value;

        self.registers.f.zero = new_value == 0;
        self.registers.f.subtract = false;
        self.registers.f.carry = false;
        self.registers.f.half_carry = false;

        new_value
    }

    /// Compare: the flags of a subtract, with the accumulator left
    /// unchanged.
    pub fn cp(&mut self, value: u8)
        ensures
            spec_same_but_flags(*old(self), *final(self)),
            final(self).registers.f.zero == (old(self).registers.a == value),
            final(self).registers.f.subtract,
            final(self).registers.f.carry == (old(self).registers.a < value),
            final(self).registers.f.half_carry == ((old(self).registers.a & 0xF) < (value & 0xF)),
    {
        self.registers.f.zero = self.registers.a == value;
        self.registers.f.subtract = true;
        self.registers.f.carry = self.registers.a < value;
        self.registers.f.half_carry = (self.registers.a & 0xF) < (value & 0xF);
    }

    /// 8-bit increment: updates Zero, Subtract and HalfCarry only;
    /// Carry is never touched.
    pub fn inc(&mut self, value: u8) -> (r: u8)
        ensures
            spec_same_but_flags(*old(self), *final(self)),
            r == value.wrapping_add(1),
            final(self).registers.f.zero == (r == 0),
            !final(self).registers.f.subtract,
            final(self).registers.f.half_carry == ((value & 0xF) == 0xF),
            final(self).registers.f.carry == old(self).registers.f.carry,
    {
        let new_value = value.wrapping_add(1);

        self.registers.f.zero = new_value == 0;
        self.registers.f.subtract = false;
        self.registers.f.half_carry = value & 0xF == 0xF;

        new_value
    }

    /// 16-bit increment: wraps modulo 65536 and leaves every flag
    /// untouched.
    pub fn inc16(&mut self, value: u16) -> (r: u16)
        ensures
            *final(self) == *old(self),
            r == value.wrapping_add(1),
    {
        value.wrapping_add(1)
    }

    /// 8-bit decrement: updates Zero, Subtract and HalfCarry only;
    /// Carry is never touched.
    pub fn dec(&mut self, value: u8) -> (r: u8)
        ensures
            spec_same_but_flags(*old(self), *final(self)),
            r == value.wrapping_sub(1),
            final(self).registers.f.zero == (r == 0),
            final(self).registers.f.subtract,
            final(self).registers.f.half_carry == ((value & 0xF) == 0),
            final(self).registers.f.carry == old(self).registers.f.carry,
    {
        let new_value = value.wrapping_sub(1);

        self.registers.f.zero = new_value == 0;
        self.registers.f.subtract = true;
        self.registers.f.half_carry = (value & 0xF) == 0x0;

        new_value
    }

    /// 16-bit decrement: wraps modulo 65536 and leaves every flag
    /// untouched.
    pub fn dec16(&mut self, value: u16) -> (r: u16)
        ensures
            *final(self) == *old(self),
            r == value.wrapping_sub(1),
    {
        value.wrapping_sub(1)
    }

    /// Complement the Carry flag; Subtract and HalfCarry clear.
    pub fn ccf(&mut self)
        ensures
            spec_same_but_flags(*old(self), *final(self)),
            final(self).registers.f.zero == old(self).registers.f.zero,
            !final(self).registers.f.subtract,
            !final(self).registers.f.half_carry,
            final(self).registers.f.carry == !old(self).registers.f.carry,
    {
        self.registers.f.subtract = false;
        self.registers.f.half_carry = false;
        self.registers.f.carry = !self.registers.f.carry;
    }

    /// Set the Carry flag; Subtract and HalfCarry clear.
    pub fn scf(&mut self)
        ensures
            spec_same_but_flags(*old(self), *final(self)),
            final(self).registers.f.zero == old(self).registers.f.zero,
            !final(self).registers.f.subtract,
            !final(self).registers.f.half_carry,
            final(self).registers.f.carry,
    {
        self.registers.f.subtract = false;
        self.registers.f.half_carry = false;
        self.registers.f.carry = true;
    }

    /// Complement the accumulator; Subtract and HalfCarry set, Zero
    /// and Carry untouched.
    pub fn cpl(&mut self)
        ensures
            *final(self) == (CPU {
                registers: (Registers {
                    a: !old(self).registers.a,
                    f: (FlagsRegister {
                        subtract: true,
                        half_carry: true,
                        ..old(self).registers.f
                    }),
                    ..old(self).registers
                }),
                ..*old(self)
            }),
    {
        self.registers.a = !self.registers.a;

        self.registers.f.subtract = true;
        self.registers.f.half_carry = true;
    }

    /// Arithmetic shift right (top bit preserved): Carry takes the bit
    /// shifted out; Subtract and HalfCarry clear; Zero follows the
    /// result.
    pub fn shift_r(&mut self, value: u8) -> (r: u8)
        ensures
            spec_same_but_flags(*old(self), *final(self)),
            r == ((value & 0x80) | (value >> 1)),
            final(self).registers.f.zero == (r == 0),
            !final(self).registers.f.subtract,
            !final(self).registers.f.half_carry,
            final(self).registers.f.carry == (value & 1 != 0),
    {
        let b7 = value & 0b10000000;
        let b0 = value & 0b00000001;
        let new_value = b7 | (value >> 1);

        self.registers.f.zero = new_value == 0;
        self.registers.f.subtract = false;
        self.registers.f.half_carry = false;
        self.registers.f.carry = b0 != 0;

        new_value
    }

    /// Arithmetic shift left: Carry takes the bit shifted out;
    /// Subtract and HalfCarry clear; Zero follows the result.
    pub fn shift_l(&mut self, value: u8) -> (r: u8)
        ensures
            spec_same_but_flags(*old(self), *final(self)),
            r == (value << 1),
            final(self).registers.f.zero == (r == 0),
            !final(self).registers.f.subtract,
            !final(self).registers.f.half_carry,
            final(self).registers.f.carry == (value & 0x80 != 0),
    {
        let b7 = value & 0b10000000;
        let new_value = value << 1;

        self.registers.f.zero = new_value == 0;
        self.registers.f.subtract = false;
        self.registers.f.half_carry = false;
        self.registers.f.carry = b7 != 0;

        new_value
    }

    /// Logical shift right (top bit cleared): Carry takes the bit
    /// shifted out; Subtract and HalfCarry clear; Zero follows the
    /// result.
    pub fn shift_r_logical(&mut self, value: u8) -> (r: u8)
        ensures
            spec_same_but_flags(*old(self), *final(self)),
            r == (value >> 1),
            final(self).registers.f.zero == (r == 0),
            !final(self).registers.f.subtract,
            !final(self).registers.f.half_carry,
            final(self).registers.f.carry == (value & 1 == 1),
    {
        let new_value = value >> 1;

        self.registers.f.zero = new_value == 0;
        self.registers.f.subtract = false;
        self.registers.f.half_carry = false;
        self.registers.f.carry = (value & 0b1) == 0b1;

        new_value
    }

    /// Rotate right through the Carry flag: the old Carry enters at
    /// bit 7 and the bit shifted out becomes the new Carry. With
    /// `zero` false (the single-byte accumulator form) Zero is forced
    /// clear even for a zero result; the escaped form passes true and
    /// lets Zero follow the result.
    pub fn rotate_r_flag(&mut self, value: u8, zero: bool) -> (r: u8)
        ensures
            spec_same_but_flags(*old(self), *final(self)),
            r == ((if old(self).registers.f.carry {
                0x80u8
            } else {
                0u8
            }) | (value >> 1)),
            final(self).registers.f.zero == (zero && r == 0),
            !final(self).registers.f.subtract,
            !final(self).registers.f.half_carry,
            final(self).registers.f.carry == (value & 1 == 1),
    {
        let transfer_bit: u8 = if self.registers.f.carry {
            0x80
        } else {
            0
        };
        let new_value = transfer_bit | (value >> 1);

        self.registers.f.zero = zero && new_value == 0;
        self.registers.f.subtract = false;
        self.registers.f.half_carry = false;
        self.registers.f.carry = value & 0b1 == 0b1;

        new_value
    }

    /// Rotate left through the Carry flag: the old Carry enters at bit
    /// 0 and bit 7 becomes the new Carry. The `zero` switch works as
    /// in `rotate_r_flag`.
    pub fn rotate_l_flag(&mut self, value: u8, zero: bool) -> (r: u8)
        ensures
            spec_same_but_flags(*old(self), *final(self)),
            r == ((value << 1) | (if old(self).registers.f.carry {
                1u8
            } else {
                0u8
            })),
            final(self).registers.f.zero == (zero && r == 0),
            !final(self).registers.f.subtract,
            !final(self).registers.f.half_carry,
            final(self).registers.f.carry == (value & 0x80 == 0x80),
    {
        let transfer_bit: u8 = if self.registers.f.carry {
            1
        } else {
            0
        };
        let new_value = (value << 1) | transfer_bit;

        self.registers.f.zero = zero && new_value == 0;
        self.registers.f.subtract = false;
        self.registers.f.half_carry = false;
        self.registers.f.carry = (value & 0x80) == 0x80;

        new_value
    }

    /// Rotate right (bit 0 wraps to bit 7 and becomes Carry). The
    /// `zero` switch works as in `rotate_r_flag`.
    pub fn rotate_r(&mut self, value: u8, zero: bool) -> (r: u8)
        ensures
            spec_same_but_flags(*old(self), *final(self)),
            r == (((value & 1) << 7) | (value >> 1)),
            final(self).registers.f.zero == (zero && r == 0),
            !final(self).registers.f.subtract,
            !final(self).registers.f.half_carry,
            final(self).registers.f.carry == (value & 1 != 0),
    {
        let b0 = value & 0b00000001;
        let transfer_bit = b0 << 7;
        let new_value = transfer_bit | (value >> 1);

        self.registers.f.zero = zero && new_value == 0;
        self.registers.f.subtract = false;
        self.registers.f.half_carry = false;
        self.registers.f.carry = b0 != 0;

        new_value
    }

    /// Rotate left (bit 7 wraps to bit 0 and becomes Carry). The
    /// `zero` switch works as in `rotate_r_flag`.
    pub fn rotate_l(&mut self, value: u8, zero: bool) -> (r: u8)
        ensures
            spec_same_but_flags(*old(self), *final(self)),
            r == ((value << 1) | ((value & 0x80) >> 7)),
            final(self).registers.f.zero == (zero && r == 0),
            !final(self).registers.f.subtract,
            !final(self).registers.f.half_carry,
            final(self).registers.f.carry == ((value & 0x80) >> 7 == 1),
    {
        let b7 = (value & 0x80) >> 7;
        let new_value = (value << 1) | b7;

        self.registers.f.zero = zero && new_value == 0;
        self.registers.f.subtract = false;
        self.registers.f.half_carry = false;
        self.registers.f.carry = b7 == 1;

        new_value
    }

    /// Bit test: Zero becomes the complement of the tested bit;
    /// Subtract clears, HalfCarry sets, Carry is never touched.
    pub fn bit_test(&mut self, value: u8, bit_pos: BitPosition)
        ensures
            spec_same_but_flags(*old(self), *final(self)),
            final(self).registers.f.zero == ((value >> bit_pos.spec_index()) & 1 == 0),
            !final(self).registers.f.subtract,
            final(self).registers.f.half_carry,
            final(self).registers.f.carry == old(self).registers.f.carry,
    {
        let position: u8 = bit_pos.index();
        let bit = (value >> position) & 0b1;

        self.registers.f.zero = bit == 0;
        self.registers.f.subtract = false;
        self.registers.f.half_carry = true;
    }

    /// Set one bit of a byte; no flag changes.
    pub fn bit_set(&mut self, value: u8, bit_pos: BitPosition) -> (r: u8)
        ensures
            *final(self) == *old(self),
            r == (value | (1u8 << bit_pos.spec_index())),
    {
        let position: u8 = bit_pos.index();
        value | (1u8 << position)
    }

    /// Clear one bit of a byte; no flag changes.
    pub fn bit_reset(&mut self, value: u8, bit_pos: BitPosition) -> (r: u8)
        ensures
            *final(self) == *old(self),
            r == (value & !(1u8 << bit_pos.spec_index())),
    {
        let pos: u8 = bit_pos.index();
        value & !(1u8 << pos)
    }

    /// Swap the two nibbles of a byte: Zero follows the value, the
    /// other flags clear.
    pub fn swap(&mut self, value: u8) -> (r: u8)
        ensures
            spec_same_but_flags(*old(self), *final(self)),
            r == (((value & 0xF0) >> 4) | ((value & 0x0F) << 4)),
            final(self).registers.f.zero == (value == 0),
            !final(self).registers.f.subtract,
            !final(self).registers.f.half_carry,
            !final(self).registers.f.carry,
    {
        let upper_nibble = value & 0b11110000;
        let lower_nibble = value & 0b00001111;

        self.registers.f.zero = value == 0;
        self.registers.f.subtract = false;
        self.registers.f.half_carry = false;
        self.registers.f.carry = false;

        (upper_nibble >> 4) | (lower_nibble << 4)
    }

    /// Decimal (BCD) adjust after an 8-bit add or subtract: applies a
    /// +0x06 and/or +0x60 correction chosen from HalfCarry, Carry and
    /// the nibble values, subtracting instead when the prior operation
    /// was a subtract. Carry is set when the high correction applies,
    /// HalfCarry clears, and Zero follows the corrected byte.
    pub fn decimal_adjust(&mut self, value: u8) -> (r: u8)
        ensures
            spec_same_but_flags(*old(self), *final(self)),
            ({
                let f = old(self).registers.f;
                let low = f.half_carry || ((value & 0x0F) > 0x09 && !f.subtract);
                let high = f.carry || (value > 0x99 && !f.subtract);
                let offset = ((if low {
                    0x06u8
                } else {
                    0u8
                }) | (if high {
                    0x60u8
                } else {
                    0u8
                }));
                let adjusted = if f.subtract {
                    value.wrapping_sub(offset)
                } else {
                    value.wrapping_add(offset)
                };
                &&& r == adjusted
                &&& final(self).registers.f.zero == (adjusted == 0)
                &&& final(self).registers.f.subtract == f.subtract
                &&& !final(self).registers.f.half_carry
                &&& final(self).registers.f.carry == (f.carry || high)
            }),
    {
        let f = self.registers.f;
        let low = f.half_carry || ((value & 0x0F) > 0x09 && !f.subtract);
        let high = f.carry || (value > 0x99 && !f.subtract);

        let offset: u8 = (if low {
            0x06u8
        } else {
            0u8
        }) | (if high {
            0x60u8
        } else {
            0u8
        });
        if high {
            self.registers.f.carry = true;
        }

        let new_value: u8 = if self.registers.f.subtract {
            value.wrapping_sub(offset)
        } else {
            value.wrapping_add(offset)
        };

        self.registers.f.zero = new_value == 0;
        self.registers.f.half_carry = false;

        new_value
    }

    /// The value of the 8-bit register an escaped instruction names.
    fn read_single_register(&self, target: PrefixTarget) -> (r: u8)
        requires
            !(target is HL),
        ensures
            r == spec_prefix_register(self.registers, target),
    {
        match target {
            PrefixTarget::A => self.registers.a,
            PrefixTarget::B => self.registers.b,
            PrefixTarget::C => self.registers.c,
            PrefixTarget::D => self.registers.d,
            PrefixTarget::E => self.registers.e,
            PrefixTarget::H => self.registers.h,
            PrefixTarget::L => self.registers.l,
            PrefixTarget::HL => 0,
        }
    }

    /// Store a byte into the 8-bit register an escaped instruction
    /// names; nothing else changes.
    fn write_single_register(&mut self, target: PrefixTarget, value: u8)
        requires
            !(target is HL),
        ensures
            *final(self) == (CPU {
                registers: spec_set_prefix_register(old(self).registers, target, value),
                ..*old(self)
            }),
    {
        match target {
            PrefixTarget::A => self.registers.a = value,
            PrefixTarget::B => self.registers.b = value,
            PrefixTarget::C => self.registers.c = value,
            PrefixTarget::D => self.registers.d = value,
            PrefixTarget::E => self.registers.e = value,
            PrefixTarget::H => self.registers.h = value,
            PrefixTarget::L => self.registers.l = value,
            PrefixTarget::HL => {},
        }
    }

    /// Fetch the operand of an 8-bit arithmetic instruction: a
    /// register byte for free, or the byte at HL or the immediate
    /// byte at the cost of one M-cycle. The second component is the
    /// instruction's width in bytes.
    fn arith_value(&mut self, target: ArithmeticTarget) -> (r: (u8, u16))
        requires
            old(self).wf(),
        ensures
            final(self).wf(),
            spec_same_but_bus(*old(self), *final(self)),
            r.0 == spec_arith_operand(old(self)@, target),
            r.1 == spec_arith_width(target),
            target is HL || target is D8 ==> final(self).bus@ == spec_tick4(old(self).bus@),
            !(target is HL) && !(target is D8) ==> final(self).bus == old(self).bus,
    {
        match target {
            ArithmeticTarget::A => (self.registers.a, 1),
            ArithmeticTarget::B => (self.registers.b, 1),
            ArithmeticTarget::C => (self.registers.c, 1),
            ArithmeticTarget::D => (self.registers.d, 1),
            ArithmeticTarget::E => (self.registers.e, 1),
            ArithmeticTarget::H => (self.registers.h, 1),
            ArithmeticTarget::L => (self.registers.l, 1),
            ArithmeticTarget::HL => (self.get_hli(), 1),
            ArithmeticTarget::D8 => (self.get_d8(), 2),
        }
    }

    /// 16-bit add of a pair or the stack pointer into HL.
    fn exec_add_hl_target(&mut self, target: ADDHLTarget) -> (r: (u16, u8))
        requires
            old(self).wf(),
        ensures
            final(self).wf(),
            final(self)@ == spec_exec_add_hl_target(old(self)@, target).0,
            r == spec_exec_add_hl_target(old(self)@, target).1,
            4 <= r.1 <= 24 && r.1 % 4 == 0,
            final(self).is_booted == old(self).is_booted,
    {
        let value = match target {
            ADDHLTarget::BC => self.registers.get_bc(),
            ADDHLTarget::DE => self.registers.get_de(),
            ADDHLTarget::HL => self.registers.get_hl(),
            ADDHLTarget::SP => self.sp,
        };
        let new_value = self.add_hl(value);
        self.mid_op_tick();
        self.registers.set_hl(new_value);
        proof {
            reveal(spec_exec_add_hl_target);
            assert(self@ =~~= spec_exec_add_hl_target(old(self)@, target).0);
        }
        (self.pc.wrapping_add(1), 8)
    }

    /// Increment a register, pair, the stack pointer, or the byte at HL.
    #[verifier::rlimit(100)]
    fn exec_inc(&mut self, target: IncDecTarget) -> (r: (u16, u8))
        requires
            old(self).wf(),
        ensures
            final(self).wf(),
            final(self)@ == spec_exec_inc(old(self)@, target).0,
            r == spec_exec_inc(old(self)@, target).1,
            4 <= r.1 <= 24 && r.1 % 4 == 0,
            final(self).is_booted == old(self).is_booted,
    {
        let cycles: u8 = match target {
            IncDecTarget::A => {
                let value = self.registers.a;
                let new_value = self.inc(value);
                self.registers.a = new_value;
                4u8
            },
            IncDecTarget::B => {
                let value = self.registers.b;
                let new_value = self.inc(value);
                self.registers.b = new_value;
                4u8
            },
            IncDecTarget::C => {
                let value = self.registers.c;
                let new_value = self.inc(value);
                self.registers.c = new_value;
                4u8
            },
            IncDecTarget::D => {
                let value = self.registers.d;
                let new_value = self.inc(value);
                self.registers.d = new_value;
                4u8
            },
            IncDecTarget::E => {
                let value = self.registers.e;
                let new_value = self.inc(value);
                self.registers.e = new_value;
                4u8
            },
            IncDecTarget::H => {
                let value = self.registers.h;
                let new_value = self.inc(value);
                self.registers.h = new_value;
                4u8
            },
            IncDecTarget::L => {
                let value = self.registers.l;
                let new_value = self.inc(value);
                self.registers.l = new_value;
                4u8
            },
            IncDecTarget::BC => {
                let value = self.registers.get_bc();
                let new_value = self.inc16(value);
                self.mid_op_tick();
                self.registers.set_bc(new_value);
                8u8
            },
            IncDecTarget::DE => {
                let value = self.registers.get_de();
                let new_value = self.inc16(value);
                self.mid_op_tick();
                self.registers.set_de(new_value);
                8u8
            },
            IncDecTarget::HL => {
                let value = self.registers.get_hl();
                let new_value = self.inc16(value);
                self.mid_op_tick();
                self.registers.set_hl(new_value);
                8u8
            },
            IncDecTarget::SP => {
                let value = self.sp;
                let new_value = self.inc16(value);
                self.mid_op_tick();
                self.sp = new_value;
                8u8
            },
            IncDecTarget::HLI => {
                let hl = self.registers.get_hl();
                let value = self.get_hli();
                let new_value = self.inc(value);
                self.mid_op_tick();
                self.bus.write_byte(hl, new_value);
                12u8
            },
        };
        proof {
            reveal(spec_exec_inc);
            assert(self@ =~~= spec_exec_inc(old(self)@, target).0);
        }
        (self.pc.wrapping_add(1), cycles)
    }

    /// Decrement a register, pair, the stack pointer, or the byte at HL.
    #[verifier::rlimit(100)]
    fn exec_dec(&mut self, target: IncDecTarget) -> (r: (u16, u8))
        requires
            old(self).wf(),
        ensures
            final(self).wf(),
            final(self)@ == spec_exec_dec(old(self)@, target).0,
            r == spec_exec_dec(old(self)@, target).1,
            4 <= r.1 <= 24 && r.1 % 4 == 0,
            final(self).is_booted == old(self).is_booted,
    {
        let cycles: u8 = match target {
            IncDecTarget::A => {
                let value = self.registers.a;
                let new_value = self.dec(value);
                self.registers.a = new_value;
                4u8
            },
            IncDecTarget::B => {
                let value = self.registers.b;
                let new_value = self.dec(value);
                self.registers.b = new_value;
                4u8
            },
            IncDecTarget::C => {
                let value = self.registers.c;
                let new_value = self.dec(value);
                self.registers.c = new_value;
                4u8
            },
            IncDecTarget::D => {
                let value = self.registers.d;
                let new_value = self.dec(value);
                self.registers.d = new_value;
                4u8
            },
            IncDecTarget::E => {
                let value = self.registers.e;
                let new_value = self.dec(value);
                self.registers.e = new_value;
                4u8
            },
            IncDecTarget::H => {
                let value = self.registers.h;
                let new_value = self.dec(value);
                self.registers.h = new_value;
                4u8
            },
            IncDecTarget::L => {
                let value = self.registers.l;
                let new_value = self.dec(value);
                self.registers.l = new_value;
                4u8
            },
            IncDecTarget::BC => {
                let value = self.registers.get_bc();
                let new_value = self.dec16(value);
                self.mid_op_tick();
                self.registers.set_bc(new_value);
                8u8
            },
            IncDecTarget::DE => {
                let value = self.registers.get_de();
                let new_value = self.dec16(value);
                self.mid_op_tick();
                self.registers.set_de(new_value);
                8u8
            },
            IncDecTarget::HL => {
                let value = self.registers.get_hl();
                let new_value = self.dec16(value);
                self.mid_op_tick();
                self.registers.set_hl(new_value);
                8u8
            },
            IncDecTarget::SP => {
                let value = self.sp;
                let new_value = self.dec16(value);
                self.mid_op_tick();
                self.sp = new_value;
                8u8
            },
            IncDecTarget::HLI => {
                let hl = self.registers.get_hl();
                let value = self.get_hli();
                let new_value = self.dec(value);
                self.mid_op_tick();
                self.bus.write_byte(hl, new_value);
                12u8
            },
        };
        proof {
            reveal(spec_exec_dec);
            assert(self@ =~~= spec_exec_dec(old(self)@, target).0);
        }
        (self.pc.wrapping_add(1), cycles)
    }

    /// Test one bit of a register or of the byte at HL.
    #[verifier::rlimit(100)]
    fn exec_bit(&mut self, target: PrefixTarget, bit_position: BitPosition) -> (r: (u16, u8))
        requires
            old(self).wf(),
        ensures
            final(self).wf(),
            final(self)@ == spec_exec_bit(old(self)@, target, bit_position).0,
            r == spec_exec_bit(old(self)@, target, bit_position).1,
            4 <= r.1 <= 24 && r.1 % 4 == 0,
            final(self).is_booted == old(self).is_booted,
    {
        let cycles: u8 = match target {
            PrefixTarget::HL => {
                let value = self.get_hli();
                self.mid_op_tick();
                self.bit_test(value, bit_position);
                12u8
            },
            _ => {
                let value = self.read_single_register(target);
                self.mid_op_tick();
                self.bit_test(value, bit_position);
                8u8
            },
        };
        proof {
            reveal(spec_exec_bit);
            assert(self@ =~~= spec_exec_bit(old(self)@, target, bit_position).0);
        }
        (self.pc.wrapping_add(2), cycles)
    }

    /// Set one bit of a register or of the byte at HL.
    #[verifier::rlimit(100)]
    fn exec_set(&mut self, target: PrefixTarget, bit_position: BitPosition) -> (r: (u16, u8))
        requires
            old(self).wf(),
        ensures
            final(self).wf(),
            final(self)@ == spec_exec_set(old(self)@, target, bit_position).0,
            r == spec_exec_set(old(self)@, target, bit_position).1,
            4 <= r.1 <= 24 && r.1 % 4 == 0,
            final(self).is_booted == old(self).is_booted,
    {
        let cycles: u8 = match target {
            PrefixTarget::HL => {
                let value = self.get_hli();
                self.mid_op_tick();
                let new_value = self.bit_set(value, bit_position);
                self.mid_op_tick();
                let hl = self.registers.get_hl();
                self.bus.write_byte(hl, new_value);
                16u8
            },
            _ => {
                let value = self.read_single_register(target);
                self.mid_op_tick();
                let new_value = self.bit_set(value, bit_position);
                self.write_single_register(target, new_value);
                8u8
            },
        };
        proof {
            reveal(spec_exec_set);
            assert(self@ =~~= spec_exec_set(old(self)@, target, bit_position).0);
        }
        (self.pc.wrapping_add(2), cycles)
    }

    /// Clear one bit of a register or of the byte at HL.
    #[verifier::rlimit(100)]
    fn exec_res(&mut self, target: PrefixTarget, bit_position: BitPosition) -> (r: (u16, u8))
        requires
            old(self).wf(),
        ensures
            final(self).wf(),
            final(self)@ == spec_exec_res(old(self)@, target, bit_position).0,
            r == spec_exec_res(old(self)@, target, bit_position).1,
            4 <= r.1 <= 24 && r.1 % 4 == 0,
            final(self).is_booted == old(self).is_booted,
    {
        let cycles: u8 = match target {
            PrefixTarget::HL => {
                let value = self.get_hli();
                self.mid_op_tick();
                let new_value = self.bit_reset(value, bit_position);
                self.mid_op_tick();
                let hl = self.registers.get_hl();
                self.bus.write_byte(hl, new_value);
                16u8
            },
            _ => {
                let value = self.read_single_register(target);
                self.mid_op_tick();
                let new_value = self.bit_reset(value, bit_position);
                self.write_single_register(target, new_value);
                8u8
            },
        };
        proof {
            reveal(spec_exec_res);
            assert(self@ =~~= spec_exec_res(old(self)@, target, bit_position).0);
        }
        (self.pc.wrapping_add(2), cycles)
    }

    /// Swap the nibbles of a register or of the byte at HL.
    #[verifier::rlimit(100)]
    fn exec_swap(&mut self, target: PrefixTarget) -> (r: (u16, u8))
        requires
            old(self).wf(),
        ensures
            final(self).wf(),
            final(self)@ == spec_exec_swap(old(self)@, target).0,
            r == spec_exec_swap(old(self)@, target).1,
            4 <= r.1 <= 24 && r.1 % 4 == 0,
            final(self).is_booted == old(self).is_booted,
    {
        let cycles: u8 = match target {
            PrefixTarget::HL => {
                let hl = self.registers.get_hl();
                let value = self.get_hli();
                self.mid_op_tick();
                let new_value = self.swap(value);
                self.mid_op_tick();
                self.bus.write_byte(hl, new_value);
                16u8
            },
            _ => {
                let value = self.read_single_register(target);
                let new_value = self.swap(value);
                self.mid_op_tick();
                self.write_single_register(target, new_value);
                8u8
            },
        };
        proof {
            reveal(spec_exec_swap);
            assert(self@ =~~= spec_exec_swap(old(self)@, target).0);
        }
        (self.pc.wrapping_add(2), cycles)
    }

    /// Shift left a register or the byte at HL.
    #[verifier::rlimit(100)]
    fn exec_sla(&mut self, target: PrefixTarget) -> (r: (u16, u8))
        requires
            old(self).wf(),
        ensures
            final(self).wf(),
            final(self)@ == spec_exec_sla(old(self)@, target).0,
            r == spec_exec_sla(old(self)@, target).1,
            4 <= r.1 <= 24 && r.1 % 4 == 0,
            final(self).is_booted == old(self).is_booted,
    {
        let cycles: u8 = match target {
            PrefixTarget::HL => {
                let hl = self.registers.get_hl();
                let value = self.get_hli();
                self.mid_op_tick();
                let new_value = self.shift_l(value);
                self.mid_op_tick();
                self.bus.write_byte(hl, new_value);
                16u8
            },
            _ => {
                let value = self.read_single_register(target);
                let new_value = self.shift_l(value);
                self.mid_op_tick();
                self.write_single_register(target, new_value);
                8u8
            },
        };
        proof {
            reveal(spec_exec_sla);
            assert(self@ =~~= spec_exec_sla(old(self)@, target).0);
        }
        (self.pc.wrapping_add(2), cycles)
    }

    /// Arithmetic shift right of a register or the byte at HL.
    #[verifier::rlimit(100)]
    fn exec_sra(&mut self, target: PrefixTarget) -> (r: (u16, u8))
        requires
            old(self).wf(),
        ensures
            final(self).wf(),
            final(self)@ == spec_exec_sra(old(self)@, target).0,
            r == spec_exec_sra(old(self)@, target).1,
            4 <= r.1 <= 24 && r.1 % 4 == 0,
            final(self).is_booted == old(self).is_booted,
    {
        let cycles: u8 = match target {
            PrefixTarget::HL => {
                let hl = self.registers.get_hl();
                let value = self.get_hli();
                self.mid_op_tick();
                let new_value = self.shift_r(value);
                self.mid_op_tick();
                self.bus.write_byte(hl, new_value);
                16u8
            },
            _ => {
                let value = self.read_single_register(target);
                let new_value = self.shift_r(value);
                self.mid_op_tick();
                self.write_single_register(target, new_value);
                8u8
            },
        };
        proof {
            reveal(spec_exec_sra);
            assert(self@ =~~= spec_exec_sra(old(self)@, target).0);
        }
        (self.pc.wrapping_add(2), cycles)
    }

    /// Logical shift right of a register or the byte at HL.
    #[verifier::rlimit(100)]
    fn exec_srl(&mut self, target: PrefixTarget) -> (r: (u16, u8))
        requires
            old(self).wf(),
        ensures
            final(self).wf(),
            final(self)@ == spec_exec_srl(old(self)@, target).0,
            r == spec_exec_srl(old(self)@, target).1,
            4 <= r.1 <= 24 && r.1 % 4 == 0,
            final(self).is_booted == old(self).is_booted,
    {
        let cycles: u8 = match target {
            PrefixTarget::HL => {
                let value = self.get_hli();
                let new_value = self.shift_r_logical(value);
                self.mid_op_tick();
                let hl = self.registers.get_hl();
                self.bus.write_byte(hl, new_value);
                self.mid_op_tick();
                16u8
            },
            _ => {
                let value = self.read_single_register(target);
                let new_value = self.shift_r_logical(value);
                self.mid_op_tick();
                self.write_single_register(target, new_value);
                8u8
            },
        };
        proof {
            reveal(spec_exec_srl);
            assert(self@ =~~= spec_exec_srl(old(self)@, target).0);
        }
        (self.pc.wrapping_add(2), cycles)
    }

    /// Rotate right through Carry a register or the byte at HL.
    #[verifier::rlimit(100)]
    fn exec_rr(&mut self, target: PrefixTarget) -> (r: (u16, u8))
        requires
            old(self).wf(),
        ensures
            final(self).wf(),
            final(self)@ == spec_exec_rr(old(self)@, target).0,
            r == spec_exec_rr(old(self)@, target).1,
            4 <= r.1 <= 24 && r.1 % 4 == 0,
            final(self).is_booted == old(self).is_booted,
    {
        let cycles: u8 = match target {
            PrefixTarget::HL => {
                let value = self.get_hli();
                self.mid_op_tick();
                let new_value = self.rotate_r_flag(value, true);
                self.mid_op_tick();
                let hl = self.registers.get_hl();
                self.bus.write_byte(hl, new_value);
                16u8
            },
            _ => {
                let value = self.read_single_register(target);
                let new_value = self.rotate_r_flag(value, true);
                self.mid_op_tick();
                self.write_single_register(target, new_value);
                8u8
            },
        };
        proof {
            reveal(spec_exec_rr);
            assert(self@ =~~= spec_exec_rr(old(self)@, target).0);
        }
        (self.pc.wrapping_add(2), cycles)
    }

    /// Rotate left through Carry a register or the byte at HL.
    #[verifier::rlimit(100)]
    fn exec_rl(&mut self, target: PrefixTarget) -> (r: (u16, u8))
        requires
            old(self).wf(),
        ensures
            final(self).wf(),
            final(self)@ == spec_exec_rl(old(self)@, target).0,
            r == spec_exec_rl(old(self)@, target).1,
            4 <= r.1 <= 24 && r.1 % 4 == 0,
            final(self).is_booted == old(self).is_booted,
    {
        let cycles: u8 = match target {
            PrefixTarget::HL => {
                let value = self.get_hli();
                self.mid_op_tick();
                let new_value = self.rotate_l_flag(value, true);
                self.mid_op_tick();
                let hl = self.registers.get_hl();
                self.bus.write_byte(hl, new_value);
                16u8
            },
            _ => {
                let value = self.read_single_register(target);
                let new_value = self.rotate_l_flag(value, true);
                self.mid_op_tick();
                self.write_single_register(target, new_value);
                8u8
            },
        };
        proof {
            reveal(spec_exec_rl);
            assert(self@ =~~= spec_exec_rl(old(self)@, target).0);
        }
        (self.pc.wrapping_add(2), cycles)
    }

    /// Rotate right a register or the byte at HL.
    #[verifier::rlimit(100)]
    fn exec_rrc(&mut self, target: PrefixTarget) -> (r: (u16, u8))
        requires
            old(self).wf(),
        ensures
            final(self).wf(),
            final(self)@ == spec_exec_rrc(old(self)@, target).0,
            r == spec_exec_rrc(old(self)@, target).1,
            4 <= r.1 <= 24 && r.1 % 4 == 0,
            final(self).is_booted == old(self).is_booted,
    {
        let cycles: u8 = match target {
            PrefixTarget::HL => {
                let value = self.get_hli();
                self.mid_op_tick();
                let new_value = self.rotate_r(value, true);
                self.mid_op_tick();
                let hl = self.registers.get_hl();
                self.bus.write_byte(hl, new_value);
                16u8
            },
            _ => {
                let value = self.read_single_register(target);
                let new_value = self.rotate_r(value, true);
                self.mid_op_tick();
                self.write_single_register(target, new_value);
                8u8
            },
        };
        proof {
            reveal(spec_exec_rrc);
            assert(self@ =~~= spec_exec_rrc(old(self)@, target).0);
        }
        (self.pc.wrapping_add(2), cycles)
    }

    /// Rotate left a register or the byte at HL.
    #[verifier::rlimit(100)]
    fn exec_rlc(&mut self, target: PrefixTarget) -> (r: (u16, u8))
        requires
            old(self).wf(),
        ensures
            final(self).wf(),
            final(self)@ == spec_exec_rlc(old(self)@, target).0,
            r == spec_exec_rlc(old(self)@, target).1,
            4 <= r.1 <= 24 && r.1 % 4 == 0,
            final(self).is_booted == old(self).is_booted,
    {
        let cycles: u8 = match target {
            PrefixTarget::HL => {
                let value = self.get_hli();
                self.mid_op_tick();
                let new_value = self.rotate_l(value, true);
                self.mid_op_tick();
                let hl = self.registers.get_hl();
                self.bus.write_byte(hl, new_value);
                16u8
            },
            _ => {
                let value = self.read_single_register(target);
                let new_value = self.rotate_l(value, true);
                self.mid_op_tick();
                self.write_single_register(target, new_value);
                8u8
            },
        };
        proof {
            reveal(spec_exec_rlc);
            assert(self@ =~~= spec_exec_rlc(old(self)@, target).0);
        }
        (self.pc.wrapping_add(2), cycles)
    }

    /// Execute a load of any kind.
    #[verifier::rlimit(100)]
    fn exec_ld(&mut self, load_type: LoadType) -> (r: (u16, u8))
        requires
            old(self).wf(),
        ensures
            final(self).wf(),
            final(self)@ == spec_exec_ld(old(self)@, load_type).0,
            r == spec_exec_ld(old(self)@, load_type).1,
            4 <= r.1 <= 24 && r.1 % 4 == 0,
            final(self).is_booted == old(self).is_booted,
    {
        proof {
            reveal(spec_exec_ld);
        }
        match load_type {
            LoadType::Byte(target, source) => {
                let source_value = match source {
                    LoadByteSource::A => self.registers.a,
                    LoadByteSource::B => self.registers.b,
                    LoadByteSource::C => self.registers.c,
                    LoadByteSource::D => self.registers.d,
                    LoadByteSource::E => self.registers.e,
                    LoadByteSource::H => self.registers.h,
                    LoadByteSource::L => self.registers.l,
                    LoadByteSource::HL => self.get_hli(),
                    LoadByteSource::D8 => self.get_d8(),
                };
                match target {
                    LoadByteTarget::A => self.registers.a = source_value,
                    LoadByteTarget::B => self.registers.b = source_value,
                    LoadByteTarget::C => self.registers.c = source_value,
                    LoadByteTarget::D => self.registers.d = source_value,
                    LoadByteTarget::E => self.registers.e = source_value,
                    LoadByteTarget::H => self.registers.h = source_value,
                    LoadByteTarget::L => self.registers.l = source_value,
                    LoadByteTarget::HL => {
                        self.mid_op_tick();
                        let hl = self.registers.get_hl();
                        self.bus.write_byte(hl, source_value);
                    },
                }
                let source_cost: u8 = match source {
                    LoadByteSource::HL => 4,
                    LoadByteSource::D8 => 4,
                    _ => 0,
                };
                let target_cost: u8 = match target {
                    LoadByteTarget::HL => 4,
                    _ => 0,
                };
                match source {
                    LoadByteSource::D8 => (self.pc.wrapping_add(2), 4 + source_cost + target_cost),
                    _ => (self.pc.wrapping_add(1), 4 + source_cost + target_cost),
                }
            },
            LoadType::Word(target) => {
                let word = self.get_d16();
                match target {
                    LoadWordTarget::BC => self.registers.set_bc(word),
                    LoadWordTarget::DE => self.registers.set_de(word),
                    LoadWordTarget::HL => self.registers.set_hl(word),
                    LoadWordTarget::SP => self.sp = word,
                }
                (self.pc.wrapping_add(3), 12)
            },
            LoadType::AFromIndirect(source) => {
                self.mid_op_tick();
                let loaded = match source {
                    Indirect::BCIndirect => {
                        let bc = self.registers.get_bc();
                        self.bus.read_byte(bc)
                    },
                    Indirect::DEIndirect => {
                        let de = self.registers.get_de();
                        self.bus.read_byte(de)
                    },
                    Indirect::HLIndirectMinus => {
                        let hl = self.registers.get_hl();
                        self.registers.set_hl(hl.wrapping_sub(1));
                        self.bus.read_byte(hl)
                    },
                    Indirect::HLIndirectPlus => {
                        let hl = self.registers.get_hl();
                        self.registers.set_hl(hl.wrapping_add(1));
                        self.bus.read_byte(hl)
                    },
                    Indirect::LastByteIndirect => {
                        let c = self.registers.c;
                        self.bus.read_byte(0xFF00 + c as u16)
                    },
                    Indirect::WordIndirect => {
                        let word = self.get_d16();
                        self.bus.read_byte(word)
                    },
                };
                self.registers.a = loaded;
                match source {
                    Indirect::WordIndirect => (self.pc.wrapping_add(3), 16),
                    _ => (self.pc.wrapping_add(1), 8),
                }
            },
            LoadType::IndirectFromA(target) => {
                let a = self.registers.a;
                self.mid_op_tick();
                match target {
                    Indirect::BCIndirect => {
                        let bc = self.registers.get_bc();
                        self.bus.write_byte(bc, a);
                    },
                    Indirect::DEIndirect => {
                        let de = self.registers.get_de();
                        self.bus.write_byte(de, a);
                    },
                    Indirect::HLIndirectMinus => {
                        let hl = self.registers.get_hl();
                        self.registers.set_hl(hl.wrapping_sub(1));
                        self.bus.write_byte(hl, a);
                    },
                    Indirect::HLIndirectPlus => {
                        let hl = self.registers.get_hl();
                        self.registers.set_hl(hl.wrapping_add(1));
                        self.bus.write_byte(hl, a);
                    },
                    Indirect::WordIndirect => {
                        let word = self.get_d16();
                        self.bus.write_byte(word, a);
                    },
                    Indirect::LastByteIndirect => {
                        let c = self.registers.c;
                        self.bus.write_byte(0xFF00 + c as u16, a);
                    },
                }
                match target {
                    Indirect::WordIndirect => (self.pc.wrapping_add(3), 16),
                    _ => (self.pc.wrapping_add(1), 8),
                }
            },
            LoadType::AFromByteAddress => {
                let offset = self.get_d8() as u16;
                let loaded = self.bus.read_byte(0xFF00 + offset);
                self.registers.a = loaded;
                self.mid_op_tick();
                (self.pc.wrapping_add(2), 12)
            },
            LoadType::ByteAddressFromA => {
                let offset = self.get_d8() as u16;
                self.mid_op_tick();
                let a = self.registers.a;
                self.bus.write_byte(0xFF00 + offset, a);
                (self.pc.wrapping_add(2), 12)
            },
        }
    }

    /// Push a 16-bit register pair: after two M-cycles the pair's two
    /// bytes are written below the stack pointer, which drops by two.
    fn exec_push(&mut self, target: StackTarget) -> (r: (u16, u8))
        requires
            old(self).wf(),
        ensures
            final(self).wf(),
            final(self)@ == spec_exec_push(old(self)@, target).0,
            r == spec_exec_push(old(self)@, target).1,
            4 <= r.1 <= 24 && r.1 % 4 == 0,
            final(self).is_booted == old(self).is_booted,
    {
        let value = match target {
            StackTarget::AF => self.registers.get_af(),
            StackTarget::BC => self.registers.get_bc(),
            StackTarget::DE => self.registers.get_de(),
            StackTarget::HL => self.registers.get_hl(),
        };
        self.mid_op_tick();
        self.mid_op_tick();
        self.push(value);
        proof {
            reveal(spec_exec_push);
            assert(self@ =~~= spec_exec_push(old(self)@, target).0);
        }
        (self.pc.wrapping_add(1), 12)
    }

    /// Pop into a 16-bit register pair: the word whose low byte sits
    /// at the stack pointer lands in the pair (AF drops the flags
    /// byte's low nibble) and the stack pointer rises by two.
    fn exec_pop(&mut self, target: StackTarget) -> (r: (u16, u8))
        requires
            old(self).wf(),
        ensures
            final(self).wf(),
            final(self)@ == spec_exec_pop(old(self)@, target).0,
            r == spec_exec_pop(old(self)@, target).1,
            4 <= r.1 <= 24 && r.1 % 4 == 0,
            final(self).is_booted == old(self).is_booted,
    {
        self.mid_op_tick();
        let res = self.pop();
        self.mid_op_tick();
        match target {
            StackTarget::AF => self.registers.set_af(res),
            StackTarget::BC => self.registers.set_bc(res),
            StackTarget::DE => self.registers.set_de(res),
            StackTarget::HL => self.registers.set_hl(res),
        }
        proof {
            reveal(spec_exec_pop);
            assert(self@ =~~= spec_exec_pop(old(self)@, target).0);
        }
        (self.pc.wrapping_add(1), 12)
    }

    /// Accumulator arithmetic against an operand selector: the exact
    /// machine effect of the operation.
    fn exec_add(&mut self, target: ArithmeticTarget) -> (r: (u16, u8))
        requires
            old(self).wf(),
        ensures
            final(self).wf(),
            final(self)@ == spec_exec_add(old(self)@, target).0,
            r == spec_exec_add(old(self)@, target).1,
            4 <= r.1 <= 24 && r.1 % 4 == 0,
            final(self).is_booted == old(self).is_booted,
    {
        let (value, width) = self.arith_value(target);
        let cycles: u8 = match target {
            ArithmeticTarget::HL => 8,
            ArithmeticTarget::D8 => 8,
            _ => 4,
        };
        let new_value = self.add(value);
        self.registers.a = new_value;
        proof {
            reveal(spec_exec_add);
            assert(self@ =~~= spec_exec_add(old(self)@, target).0);
        }
        (self.pc.wrapping_add(width), cycles)
    }

    /// Accumulator arithmetic against an operand selector: the exact
    /// machine effect of the operation.
    fn exec_adc(&mut self, target: ArithmeticTarget) -> (r: (u16, u8))
        requires
            old(self).wf(),
        ensures
            final(self).wf(),
            final(self)@ == spec_exec_adc(old(self)@, target).0,
            r == spec_exec_adc(old(self)@, target).1,
            4 <= r.1 <= 24 && r.1 % 4 == 0,
            final(self).is_booted == old(self).is_booted,
    {
        let (value, width) = self.arith_value(target);
        let cycles: u8 = match target {
            ArithmeticTarget::HL => 8,
            ArithmeticTarget::D8 => 8,
            _ => 4,
        };
        let new_value = self.adc(value);
        self.registers.a = new_value;
        proof {
            reveal(spec_exec_adc);
            assert(self@ =~~= spec_exec_adc(old(self)@, target).0);
        }
        (self.pc.wrapping_add(width), cycles)
    }

    /// Accumulator arithmetic against an operand selector: the exact
    /// machine effect of the operation.
    fn exec_sub(&mut self, target: ArithmeticTarget) -> (r: (u16, u8))
        requires
            old(self).wf(),
        ensures
            final(self).wf(),
            final(self)@ == spec_exec_sub(old(self)@, target).0,
            r == spec_exec_sub(old(self)@, target).1,
            4 <= r.1 <= 24 && r.1 % 4 == 0,
            final(self).is_booted == old(self).is_booted,
    {
        let (value, width) = self.arith_value(target);
        let cycles: u8 = match target {
            ArithmeticTarget::HL => 8,
            ArithmeticTarget::D8 => 8,
            _ => 4,
        };
        let new_value = self.sub(value);
        self.registers.a = new_value;
        proof {
            reveal(spec_exec_sub);
            assert(self@ =~~= spec_exec_sub(old(self)@, target).0);
        }
        (self.pc.wrapping_add(width), cycles)
    }

    /// Accumulator arithmetic against an operand selector: the exact
    /// machine effect of the operation.
    fn exec_sbc(&mut self, target: ArithmeticTarget) -> (r: (u16, u8))
        requires
            old(self).wf(),
        ensures
            final(self).wf(),
            final(self)@ == spec_exec_sbc(old(self)@, target).0,
            r == spec_exec_sbc(old(self)@, target).1,
            4 <= r.1 <= 24 && r.1 % 4 == 0,
            final(self).is_booted == old(self).is_booted,
    {
        let (value, width) = self.arith_value(target);
        let cycles: u8 = match target {
            ArithmeticTarget::HL => 8,
            ArithmeticTarget::D8 => 8,
            _ => 4,
        };
        let new_value = self.sbc(value);
        self.registers.a = new_value;
        proof {
            reveal(spec_exec_sbc);
            assert(self@ =~~= spec_exec_sbc(old(self)@, target).0);
        }
        (self.pc.wrapping_add(width), cycles)
    }

    /// Accumulator arithmetic against an operand selector: the exact
    /// machine effect of the operation.
    fn exec_and(&mut self, target: ArithmeticTarget) -> (r: (u16, u8))
        requires
            old(self).wf(),
        ensures
            final(self).wf(),
            final(self)@ == spec_exec_and(old(self)@, target).0,
            r == spec_exec_and(old(self)@, target).1,
            4 <= r.1 <= 24 && r.1 % 4 == 0,
            final(self).is_booted == old(self).is_booted,
    {
        let (value, width) = self.arith_value(target);
        let cycles: u8 = match target {
            ArithmeticTarget::HL => 8,
            ArithmeticTarget::D8 => 8,
            _ => 4,
        };
        let new_value = self.and(value);
        self.registers.a = new_value;
        proof {
            reveal(spec_exec_and);
            assert(self@ =~~= spec_exec_and(old(self)@, target).0);
        }
        (self.pc.wrapping_add(width), cycles)
    }

    /// Accumulator arithmetic against an operand selector: the exact
    /// machine effect of the operation.
    fn exec_or(&mut self, target: ArithmeticTarget) -> (r: (u16, u8))
        requires
            old(self).wf(),
        ensures
            final(self).wf(),
            final(self)@ == spec_exec_or(old(self)@, target).0,
            r == spec_exec_or(old(self)@, target).1,
            4 <= r.1 <= 24 && r.1 % 4 == 0,
            final(self).is_booted == old(self).is_booted,
    {
        let (value, width) = self.arith_value(target);
        let cycles: u8 = match target {
            ArithmeticTarget::HL => 8,
            ArithmeticTarget::D8 => 8,
            _ => 4,
        };
        let new_value = self.or(value);
        self.registers.a = new_value;
        proof {
            reveal(spec_exec_or);
            assert(self@ =~~= spec_exec_or(old(self)@, target).0);
        }
        (self.pc.wrapping_add(width), cycles)
    }

    /// Accumulator arithmetic against an operand selector: the exact
    /// machine effect of the operation.
    fn exec_xor(&mut self, target: ArithmeticTarget) -> (r: (u16, u8))
        requires
            old(self).wf(),
        ensures
            final(self).wf(),
            final(self)@ == spec_exec_xor(old(self)@, target).0,
            r == spec_exec_xor(old(self)@, target).1,
            4 <= r.1 <= 24 && r.1 % 4 == 0,
            final(self).is_booted == old(self).is_booted,
    {
        let (value, width) = self.arith_value(target);
        let cycles: u8 = match target {
            ArithmeticTarget::HL => 8,
            ArithmeticTarget::D8 => 8,
            _ => 4,
        };
        let new_value = self.xor(value);
        self.registers.a = new_value;
        proof {
            reveal(spec_exec_xor);
            assert(self@ =~~= spec_exec_xor(old(self)@, target).0);
        }
        (self.pc.wrapping_add(width), cycles)
    }

    /// Compare the accumulator against the operand a selector reads.
    fn exec_cp(&mut self, target: ArithmeticTarget) -> (r: (u16, u8))
        requires
            old(self).wf(),
        ensures
            final(self).wf(),
            final(self)@ == spec_exec_cp(old(self)@, target).0,
            r == spec_exec_cp(old(self)@, target).1,
            4 <= r.1 <= 24 && r.1 % 4 == 0,
            final(self).is_booted == old(self).is_booted,
    {
        let (value, width) = self.arith_value(target);
        let cycles: u8 = match target {
            ArithmeticTarget::HL => 8,
            ArithmeticTarget::D8 => 8,
            _ => 4,
        };
        self.cp(value);
        proof {
            reveal(spec_exec_cp);
            assert(self@ =~~= spec_exec_cp(old(self)@, target).0);
        }
        (self.pc.wrapping_add(width), cycles)
    }

    /// Halt: the engine stops fetching until an interrupt pends.
    fn exec_halt(&mut self) -> (r: (u16, u8))
        requires
            old(self).wf(),
        ensures
            final(self).wf(),
            final(self)@ == spec_execute(old(self)@, Instruction::HALT).0,
            r == spec_execute(old(self)@, Instruction::HALT).1,
            4 <= r.1 <= 24 && r.1 % 4 == 0,
            final(self).is_booted == old(self).is_booted,
    {
        self.is_halted = true;
        proof {
            assert(self@ =~~= spec_execute(old(self)@, Instruction::HALT).0);
        }
        (self.pc.wrapping_add(1), 4)
    }

    /// Complement the Carry flag.
    fn exec_ccf(&mut self) -> (r: (u16, u8))
        requires
            old(self).wf(),
        ensures
            final(self).wf(),
            final(self)@ == spec_execute(old(self)@, Instruction::CCF).0,
            r == spec_execute(old(self)@, Instruction::CCF).1,
            4 <= r.1 <= 24 && r.1 % 4 == 0,
            final(self).is_booted == old(self).is_booted,
    {
        self.ccf();
        proof {
            assert(self@ =~~= spec_execute(old(self)@, Instruction::CCF).0);
        }
        (self.pc.wrapping_add(1), 4)
    }

    /// Set the Carry flag.
    fn exec_scf(&mut self) -> (r: (u16, u8))
        requires
            old(self).wf(),
        ensures
            final(self).wf(),
            final(self)@ == spec_execute(old(self)@, Instruction::SCF).0,
            r == spec_execute(old(self)@, Instruction::SCF).1,
            4 <= r.1 <= 24 && r.1 % 4 == 0,
            final(self).is_booted == old(self).is_booted,
    {
        self.scf();
        proof {
            assert(self@ =~~= spec_execute(old(self)@, Instruction::SCF).0);
        }
        (self.pc.wrapping_add(1), 4)
    }

    /// Complement the accumulator.
    fn exec_cpl(&mut self) -> (r: (u16, u8))
        requires
            old(self).wf(),
        ensures
            final(self).wf(),
            final(self)@ == spec_execute(old(self)@, Instruction::CPL).0,
            r == spec_execute(old(self)@, Instruction::CPL).1,
            4 <= r.1 <= 24 && r.1 % 4 == 0,
            final(self).is_booted == old(self).is_booted,
    {
        self.cpl();
        proof {
            assert(self@ =~~= spec_execute(old(self)@, Instruction::CPL).0);
        }
        (self.pc.wrapping_add(1), 4)
    }

    /// Single-byte accumulator rotate: never sets Zero.
    fn exec_rra(&mut self) -> (r: (u16, u8))
        requires
            old(self).wf(),
        ensures
            final(self).wf(),
            final(self)@ == spec_execute(old(self)@, Instruction::RRA).0,
            r == spec_execute(old(self)@, Instruction::RRA).1,
            4 <= r.1 <= 24 && r.1 % 4 == 0,
            final(self).is_booted == old(self).is_booted,
    {
        let a = self.registers.a;
        let new_value = self.rotate_r_flag(a, false);
        self.registers.a = new_value;
        proof {
            assert(self@ =~~= spec_execute(old(self)@, Instruction::RRA).0);
        }
        (self.pc.wrapping_add(1), 4)
    }

    /// Single-byte accumulator rotate: never sets Zero.
    fn exec_rla(&mut self) -> (r: (u16, u8))
        requires
            old(self).wf(),
        ensures
            final(self).wf(),
            final(self)@ == spec_execute(old(self)@, Instruction::RLA).0,
            r == spec_execute(old(self)@, Instruction::RLA).1,
            4 <= r.1 <= 24 && r.1 % 4 == 0,
            final(self).is_booted == old(self).is_booted,
    {
        let a = self.registers.a;
        let new_value = self.rotate_l_flag(a, false);
        self.registers.a = new_value;
        proof {
            assert(self@ =~~= spec_execute(old(self)@, Instruction::RLA).0);
        }
        (self.pc.wrapping_add(1), 4)
    }

    /// Single-byte accumulator rotate: never sets Zero.
    fn exec_rrca(&mut self) -> (r: (u16, u8))
        requires
            old(self).wf(),
        ensures
            final(self).wf(),
            final(self)@ == spec_execute(old(self)@, Instruction::RRCA).0,
            r == spec_execute(old(self)@, Instruction::RRCA).1,
            4 <= r.1 <= 24 && r.1 % 4 == 0,
            final(self).is_booted == old(self).is_booted,
    {
        let a = self.registers.a;
        let new_value = self.rotate_r(a, false);
        self.registers.a = new_value;
        proof {
            assert(self@ =~~= spec_execute(old(self)@, Instruction::RRCA).0);
        }
        (self.pc.wrapping_add(1), 4)
    }

    /// Single-byte accumulator rotate: never sets Zero.
    fn exec_rlca(&mut self) -> (r: (u16, u8))
        requires
            old(self).wf(),
        ensures
            final(self).wf(),
            final(self)@ == spec_execute(old(self)@, Instruction::RLCA).0,
            r == spec_execute(old(self)@, Instruction::RLCA).1,
            4 <= r.1 <= 24 && r.1 % 4 == 0,
            final(self).is_booted == old(self).is_booted,
    {
        let a = self.registers.a;
        let new_value = self.rotate_l(a, false);
        self.registers.a = new_value;
        proof {
            assert(self@ =~~= spec_execute(old(self)@, Instruction::RLCA).0);
        }
        (self.pc.wrapping_add(1), 4)
    }

    /// Execute one decoded instruction against the current state:
    /// dispatches to the operation's logic, charging each memory
    /// access one M-cycle as it happens, and returns the next program
    /// counter together with the instruction's total elapsed tick
    /// count, a positive multiple of 4.
    #[verifier::rlimit(100)]
    fn execute(&mut self, instruction: Instruction) -> (r: (u16, u8))
        requires
            old(self).wf(),
        ensures
            final(self).wf(),
            final(self)@ == spec_execute(old(self)@, instruction).0,
            r == spec_execute(old(self)@, instruction).1,
            4 <= r.1 <= 24 && r.1 % 4 == 0,
            final(self).is_booted == old(self).is_booted,
    {
        match instruction {
            Instruction::NOP => (self.pc.wrapping_add(1), 4),
            Instruction::HALT => self.exec_halt(),
            Instruction::ADD(target) => self.exec_add(target),
            Instruction::ADC(target) => self.exec_adc(target),
            Instruction::SUB(target) => self.exec_sub(target),
            Instruction::SBC(target) => self.exec_sbc(target),
            Instruction::AND(target) => self.exec_and(target),
            Instruction::OR(target) => self.exec_or(target),
            Instruction::XOR(target) => self.exec_xor(target),
            Instruction::CP(target) => self.exec_cp(target),
            Instruction::ADDHL(target) => self.exec_add_hl_target(target),
            Instruction::INC(target) => self.exec_inc(target),
            Instruction::DEC(target) => self.exec_dec(target),
            Instruction::CCF => self.exec_ccf(),
            Instruction::SCF => self.exec_scf(),
            Instruction::CPL => self.exec_cpl(),
            Instruction::RRA => self.exec_rra(),
            Instruction::RLA => self.exec_rla(),
            Instruction::RRCA => self.exec_rrca(),
            Instruction::RLCA => self.exec_rlca(),
            _ => self.execute_extended(instruction),
        }
    }

    /// The second half of the instruction dispatch: the escaped
    /// bit/rotate/shift families, jumps, loads, calls, returns and
    /// the stack instructions. `execute` routes every other variant
    /// before this is reached, so the final arm is never taken.
    #[verifier::rlimit(100)]
    fn execute_extended(&mut self, instruction: Instruction) -> (r: (u16, u8))
        requires
            old(self).wf(),
            instruction is BIT || instruction is SET || instruction is RES || instruction
                is SWAP || instruction is SLA || instruction is SRA || instruction is SRL
                || instruction is RR || instruction is RL || instruction is RRC || instruction
                is RLC || instruction is JP || instruction is JR || instruction is JPI
                || instruction is LD || instruction is CALL || instruction is RET || instruction
                is PUSH || instruction is POP,
        ensures
            final(self).wf(),
            final(self)@ == spec_execute(old(self)@, instruction).0,
            r == spec_execute(old(self)@, instruction).1,
            4 <= r.1 <= 24 && r.1 % 4 == 0,
            final(self).is_booted == old(self).is_booted,
    {
        match instruction {
            Instruction::BIT(target, bit_position) => self.exec_bit(target, bit_position),
            Instruction::SET(target, bit_position) => self.exec_set(target, bit_position),
            Instruction::RES(target, bit_position) => self.exec_res(target, bit_position),
            Instruction::SWAP(target) => self.exec_swap(target),
            Instruction::SLA(target) => self.exec_sla(target),
            Instruction::SRA(target) => self.exec_sra(target),
            Instruction::SRL(target) => self.exec_srl(target),
            Instruction::RR(target) => self.exec_rr(target),
            Instruction::RL(target) => self.exec_rl(target),
            Instruction::RRC(target) => self.exec_rrc(target),
            Instruction::RLC(target) => self.exec_rlc(target),
            _ => self.execute_control(instruction),
        }
    }

    /// The third part of the instruction dispatch: jumps, loads,
    /// calls, returns and the stack instructions. The earlier parts
    /// route every other variant, so the final arm is never taken.
    #[verifier::rlimit(100)]
    fn execute_control(&mut self, instruction: Instruction) -> (r: (u16, u8))
        requires
            old(self).wf(),
            instruction is JP || instruction is JR || instruction is JPI || instruction is LD
                || instruction is CALL || instruction is RET || instruction is PUSH
                || instruction is POP,
        ensures
            final(self).wf(),
            final(self)@ == spec_execute(old(self)@, instruction).0,
            r == spec_execute(old(self)@, instruction).1,
            4 <= r.1 <= 24 && r.1 % 4 == 0,
            final(self).is_booted == old(self).is_booted,
    {
        match instruction {
            Instruction::JP(test) => {
                let jump_condition = self.jump_condition(test);
                let r = self.jump(jump_condition);
                proof {
                    reveal(spec_exec_jp);
                    assert(self@ =~~= spec_execute(old(self)@, instruction).0);
                }
                r
            },
            Instruction::JR(test) => {
                let jump_condition = self.jump_condition(test);
                let r = self.jump_relative(jump_condition);
                proof {
                    reveal(spec_exec_jr);
                    assert(self@ =~~= spec_execute(old(self)@, instruction).0);
                }
                r
            },
            Instruction::JPI => {
                let value = self.registers.get_hl();
                (value, 4)
            },
            Instruction::LD(load_type) => self.exec_ld(load_type),
            Instruction::CALL(test) => {
                let jump_condition = self.jump_condition(test);
                let r = self.call(jump_condition);
                proof {
                    reveal(spec_exec_call);
                    assert(self@ =~~= spec_execute(old(self)@, instruction).0);
                }
                r
            },
            Instruction::RET(test) => {
                let jump_condition = self.jump_condition(test);
                let always = match test {
                    JumpTest::Always => true,
                    _ => false,
                };
                let r = self.ret(jump_condition, always);
                proof {
                    reveal(spec_exec_ret);
                    assert(self@ =~~= spec_execute(old(self)@, instruction).0);
                }
                r
            },
            Instruction::PUSH(target) => self.exec_push(target),
            Instruction::POP(target) => self.exec_pop(target),
            _ => {
                proof {
                    assert(false);
                }
                (self.pc.wrapping_add(1), 4)
            },
        }
    }

    /// Dispatch to an interrupt vector: clear the master flag, push
    /// the current program counter, and continue at the vector.
    fn interrupt(&mut self, location: u16)
        requires
            old(self).wf(),
        ensures
            final(self).wf(),
            !final(self).ime,
            final(self).pc == location,
            final(self).sp == old(self).sp.wrapping_sub(2),
            final(self).bus@ == spec_push_state(old(self).bus@, old(self).sp, old(self).pc),
            final(self).registers == old(self).registers,
            final(self).is_halted == old(self).is_halted,
            final(self).is_booted == old(self).is_booted,
    {
        self.ime = false;
        let pc = self.pc;
        self.push(pc);
        self.pc = location;
        self.bus.step(20);
    }

    /// If the master flag is set and some source is enabled and
    /// pending, service exactly one interrupt, in fixed priority order
    /// video-blank, display-status, timer, serial, input: clear that
    /// one pending bit, clear the master flag, push the program
    /// counter and continue at the source's vector.
    #[verifier::rlimit(100)]
    fn service_interrupts(&mut self) -> (r: bool)
        requires
            old(self).wf(),
        ensures
            final(self).wf(),
            r == (old(self).ime && spec_interrupted(old(self).bus@)),
            !r ==> *final(self) == *old(self),
            r ==> ({
                let cleared = BusState {
                    interrupt_flag: spec_clear_dispatched(old(self).bus@),
                    ..old(self).bus@
                };
                &&& final(self).pc == spec_dispatch_vector(old(self).bus@)
                &&& !final(self).ime
                &&& final(self).sp == old(self).sp.wrapping_sub(2)
                &&& final(self).bus@ == spec_push_state(cleared, old(self).sp, old(self).pc)
                &&& final(self).registers == old(self).registers
                &&& final(self).is_halted == old(self).is_halted
                &&& final(self).is_booted == old(self).is_booted
            }),
    {
        if !(self.ime && self.bus.interrupted()) {
            return false;
        }
        let ghost pre = self.bus@;
        if self.bus.interrupt_enable.vblank && self.bus.interrupt_flag.vblank {
            self.bus.interrupt_flag.vblank = false;
            proof {
                lemma_wf_preserved(&old(self).bus, &self.bus);
                assert(self.bus@ =~= BusState { interrupt_flag: spec_clear_dispatched(pre), ..pre });
            }
            self.interrupt(VBLANK);
        } else if self.bus.interrupt_enable.stat && self.bus.interrupt_flag.stat {
            self.bus.interrupt_flag.stat = false;
            proof {
                lemma_wf_preserved(&old(self).bus, &self.bus);
                assert(self.bus@ =~= BusState { interrupt_flag: spec_clear_dispatched(pre), ..pre });
            }
            self.interrupt(STAT);
        } else if self.bus.interrupt_enable.timer && self.bus.interrupt_flag.timer {
            self.bus.interrupt_flag.timer = false;
            proof {
                lemma_wf_preserved(&old(self).bus, &self.bus);
                assert(self.bus@ =~= BusState { interrupt_flag: spec_clear_dispatched(pre), ..pre });
            }
            self.interrupt(TIMER);
        } else if self.bus.interrupt_enable.serial && self.bus.interrupt_flag.serial {
            self.bus.interrupt_flag.serial = false;
            proof {
                lemma_wf_preserved(&old(self).bus, &self.bus);
                assert(self.bus@ =~= BusState { interrupt_flag: spec_clear_dispatched(pre), ..pre });
            }
            self.interrupt(SERIAL);
        } else {
            self.bus.interrupt_flag.joypad = false;
            proof {
                lemma_wf_preserved(&old(self).bus, &self.bus);
                assert(self.bus@ =~= BusState { interrupt_flag: spec_clear_dispatched(pre), ..pre });
            }
            self.interrupt(JOYPAD);
        }
        true
    }

    /// Whether `step` may be called in the current state: the engine
    /// is halted, or the opcode byte at the program counter decodes
    /// (the escape byte always does, against the secondary table).
    pub fn can_step(&self) -> (r: bool)
        requires
            self.wf(),
        ensures
            r == spec_fetch_ok(self@),
    {
        if self.is_halted {
            true
        } else {
            let byte = self.bus.read_byte(self.pc);
            if byte == 0xCB {
                true
            } else {
                Instruction::from_byte(byte, false).is_some()
            }
        }
    }

    /// One step of the engine. Halted with an enabled source pending
    /// (master flag or not), the engine wakes without fetching;
    /// running, it fetches at the program counter (an escape byte
    /// triggers a second fetch), decodes and executes, charging each
    /// memory access one hardware tick as it happens; halted with
    /// nothing pending it consumes one tick without fetching or moving
    /// the program counter, charging one M-cycle. Afterwards, at most
    /// one interrupt is serviced in fixed priority order, charging 20
    /// extra ticks. The returned count is the step's total elapsed
    /// ticks, a multiple of 4, positive whenever an instruction ran.
    pub fn step(&mut self) -> (cycles: u8)
        requires
            old(self).wf(),
            spec_fetch_ok(old(self)@),
        ensures
            final(self).wf(),
            final(self)@ == spec_step(old(self)@).0,
            cycles == spec_step(old(self)@).1,
            cycles % 4 == 0,
            !old(self).is_halted ==> cycles >= 4,
            final(self).is_booted == old(self).is_booted,
            old(self).is_halted && spec_interrupted(old(self).bus@) ==> !final(self).is_halted,
            old(self).is_halted && spec_interrupted(old(self).bus@) && !old(self).ime
                ==> final(self)@ == (CpuState { is_halted: false, ..old(self)@ }) && cycles == 0,
            old(self).is_halted && !spec_interrupted(old(self).bus@) ==> ({
                let ticked = spec_tick4(old(self).bus@);
                &&& final(self).is_halted
                &&& final(self).registers == old(self).registers
                &&& (!(old(self).ime && spec_interrupted(ticked)) ==> final(self).pc == old(
                    self,
                ).pc && final(self).sp == old(self).sp && final(self).bus@ == ticked && cycles
                    == 4)
            }),
    {
        let mut next_pc = self.pc;
        let mut cycles: u8 = 0;

        if !self.is_halted {
            let mut instruction_byte = self.bus.read_byte(self.pc);
            let prefixed = instruction_byte == 0xCB;
            if prefixed {
                instruction_byte = self.bus.read_byte(self.pc.wrapping_add(1));
            }
            match Instruction::from_byte(instruction_byte, prefixed) {
                Some(instruction) => {
                    proof {
                        assert(instruction == spec_fetched_instruction(old(self)@));
                    }
                    let stepped = self.execute(instruction);
                    next_pc = stepped.0;
                    cycles = stepped.1;
                },
                None => {
                    proof {
                        assert(false);
                    }
                },
            }
        }
        self.bus.step(cycles);

        if self.bus.interrupted() {
            self.is_halted = false;
        }
        if self.is_halted {
            self.mid_op_tick();
            cycles = cycles + 4;
        }
        self.pc = next_pc;

        let dispatched = self.service_interrupts();
        if dispatched {
            cycles = cycles + 20;
        }
        proof {
            assert(self@ =~~= spec_step(old(self)@).0);
        }
        cycles
    }
}

/// Whether the fetch at the program counter will decode: always when
/// halted (nothing is fetched) or when the opcode is the escape byte,
/// otherwise exactly when the primary table assigns the byte.
pub open spec fn spec_fetch_ok(c: CpuState) -> bool {
    !c.is_halted ==> {
        let b = spec_read(c.bus, c.pc);
        b == 0xCB || spec_from_byte_not_prefixed(b) is Some
    }
}

/// The value of the 8-bit register an escaped instruction names (the
/// memory case is handled separately and reads as zero here).
pub open spec fn spec_prefix_register(regs: Registers, target: PrefixTarget) -> u8 {
    match target {
        PrefixTarget::A => regs.a,
        PrefixTarget::B => regs.b,
        PrefixTarget::C => regs.c,
        PrefixTarget::D => regs.d,
        PrefixTarget::E => regs.e,
        PrefixTarget::H => regs.h,
        PrefixTarget::L => regs.l,
        PrefixTarget::HL => 0,
    }
}

/// The register file with the named 8-bit register replaced.
pub open spec fn spec_set_prefix_register(regs: Registers, target: PrefixTarget, value: u8) -> Registers {
    match target {
        PrefixTarget::A => Registers { a: value, ..regs },
        PrefixTarget::B => Registers { b: value, ..regs },
        PrefixTarget::C => Registers { c: value, ..regs },
        PrefixTarget::D => Registers { d: value, ..regs },
        PrefixTarget::E => Registers { e: value, ..regs },
        PrefixTarget::H => Registers { h: value, ..regs },
        PrefixTarget::L => Registers { l: value, ..regs },
        PrefixTarget::HL => regs,
    }
}

/// An address in one of the plain read-write regions, where a bus
/// write stores the byte and a read at the same address returns it
/// unchanged: video RAM, external RAM, working RAM and its echo,
/// object-attribute memory, or fast RAM.
pub open spec fn spec_plain_ram(address: u16) -> bool {
    ||| 0x8000 <= address <= 0x9FFF
    ||| 0xA000 <= address <= 0xBFFF
    ||| 0xC000 <= address <= 0xDFFF
    ||| 0xE000 <= address <= 0xFDFF
    ||| 0xFE00 <= address <= 0xFE9F
    ||| 0xFF80 <= address <= 0xFFFE
}

/// Fixed interrupt priority at the step level: running at a
/// no-operation opcode with video-blank, timer and input all pending
/// and enabled and the master flag on, one step services video-blank
/// alone, charging the 20 extra ticks; timer and input stay pending,
/// and the timer is the next dispatch in line.
pub proof fn lemma_step_services_highest_priority(c: CpuState)
    requires
        bus_inv(c.bus),
        !c.is_halted,
        c.ime,
        spec_read(c.bus, c.pc) == 0x00,
        c.bus.interrupt_enable.vblank && c.bus.interrupt_flag.vblank,
        c.bus.interrupt_enable.timer && c.bus.interrupt_flag.timer,
        c.bus.interrupt_enable.joypad && c.bus.interrupt_flag.joypad,
        !(c.bus.interrupt_enable.stat && c.bus.interrupt_flag.stat),
        !(c.bus.interrupt_enable.serial && c.bus.interrupt_flag.serial),
        spec_plain_ram(c.sp.wrapping_sub(1)),
        spec_plain_ram(c.sp.wrapping_sub(2)),
    ensures
        spec_step(c).1 == 24,
        spec_step(c).0.pc == VBLANK,
        !spec_step(c).0.ime,
        !spec_step(c).0.bus.interrupt_flag.vblank,
        spec_step(c).0.bus.interrupt_flag.timer,
        spec_step(c).0.bus.interrupt_flag.joypad,
        spec_dispatch_vector(spec_step(c).0.bus) == TIMER,
{
    reveal(spec_from_byte_not_prefixed);
    assert(spec_fetched_instruction(c) == Instruction::NOP);
    reveal(spec_write);
}

/// Pushing a 16-bit value and popping it back returns the value
/// unchanged, and the stack pointer after the pop's two increments is
/// back at its value before the push, whenever both stack bytes land
/// in plain RAM.
pub proof fn lemma_push_pop_round_trip(s: BusState, sp: u16, value: u16)
    requires
        bus_inv(s),
        spec_plain_ram(sp.wrapping_sub(1)),
        spec_plain_ram(sp.wrapping_sub(2)),
    ensures
        ({
            let pushed = spec_push_state(s, sp, value);
            let sp_after_push = sp.wrapping_sub(2);
            &&& spec_word(
                spec_read(pushed, sp_after_push.wrapping_add(1)),
                spec_read(pushed, sp_after_push),
            ) == value
            &&& sp_after_push.wrapping_add(2) == sp
        }),
{
    reveal(spec_read);
    reveal(spec_write);
    let a1 = sp.wrapping_sub(1);
    let a2 = sp.wrapping_sub(2);
    assert(a2.wrapping_add(1) == a1 && a2.wrapping_add(2) == sp && a1 != a2) by (bit_vector)
        requires
            a1 == sp.wrapping_sub(1) && a2 == sp.wrapping_sub(2),
    ;
    assert(a2 != 0xFFFF ==> a1 == a2 + 1) by (bit_vector)
        requires
            a1 == sp.wrapping_sub(1) && a2 == sp.wrapping_sub(2),
    ;
    assert(((value & 0xFF00) >> 8) as u8 * 256 + (value & 0xFF) as u8 == value) by (bit_vector);
}

/// Fixed interrupt priority: with video-blank, timer and input all
/// simultaneously pending and enabled, one dispatch picks video-blank
/// alone and leaves the other two pending; on the resulting pending
/// set the next dispatch picks the timer.
pub proof fn lemma_interrupt_priority(s: BusState)
    requires
        s.interrupt_enable.vblank && s.interrupt_flag.vblank,
        s.interrupt_enable.timer && s.interrupt_flag.timer,
        s.interrupt_enable.joypad && s.interrupt_flag.joypad,
        !(s.interrupt_enable.stat && s.interrupt_flag.stat),
        !(s.interrupt_enable.serial && s.interrupt_flag.serial),
    ensures
        spec_dispatch_vector(s) == VBLANK,
        spec_clear_dispatched(s).timer,
        spec_clear_dispatched(s).joypad,
        !spec_clear_dispatched(s).vblank,
        spec_interrupted(BusState { interrupt_flag: spec_clear_dispatched(s), ..s }),
        spec_dispatch_vector(BusState { interrupt_flag: spec_clear_dispatched(s), ..s })
            == TIMER,
{
}

/// Program-counter and stack-pointer arithmetic is taken modulo
/// 65536: the wrapped sum and difference are the mathematical ones
/// reduced into the 16-bit range, so no step leaves it.
pub proof fn lemma_wrap_mod_65536(x: u16, d: u16)
    ensures
        x.wrapping_add(d) == (x + d) % 0x10000,
        x.wrapping_sub(d) == (x - d + 0x10000) % 0x10000,
{
}

} // verus!
