//! The instruction set: a closed tagged-variant type for every decoded
//! operation, and the decoder from opcode bytes to instructions.
//!
//! Decoding is pure: it reads nothing but the opcode byte it is given
//! and never mutates state. A leading escape byte (0xCB) selects the
//! secondary bit/rotate/shift table, in which every byte value is
//! assigned; in the primary table a number of byte values are
//! unassigned and decode to `None`.

use vstd::prelude::*;

verus! {

/// A decoded instruction: one tag per operation family, carrying its
/// operand selectors. Instructions are pure data.
#[allow(non_camel_case_types)]
#[derive(Clone, Copy, PartialEq, Eq, Structural, Debug)]
pub enum Instruction {
    ADD(ArithmeticTarget),
    ADDHL(ADDHLTarget),
    ADC(ArithmeticTarget),
    SUB(ArithmeticTarget),
    SBC(ArithmeticTarget),
    AND(ArithmeticTarget),
    OR(ArithmeticTarget),
    XOR(ArithmeticTarget),
    CP(ArithmeticTarget),
    INC(IncDecTarget),
    DEC(IncDecTarget),
    CCF,
    SCF,
    CPL,
    RLCA,
    RLA,
    RRCA,
    RRA,
    BIT(PrefixTarget, BitPosition),
    RES(PrefixTarget, BitPosition),
    SET(PrefixTarget, BitPosition),
    SRL(PrefixTarget),
    RR(PrefixTarget),
    RL(PrefixTarget),
    RRC(PrefixTarget),
    RLC(PrefixTarget),
    SRA(PrefixTarget),
    SLA(PrefixTarget),
    SWAP(PrefixTarget),
    JP(JumpTest),
    JR(JumpTest),
    JPI,
    LD(LoadType),
    PUSH(StackTarget),
    POP(StackTarget),
    CALL(JumpTest),
    RET(JumpTest),
    HALT,
    NOP,
}

/// Operand of an 8-bit arithmetic or logic instruction: a register,
/// the byte at the address in HL, or an immediate byte.
#[allow(non_camel_case_types)]
#[derive(Clone, Copy, PartialEq, Eq, Structural, Debug)]
pub enum ArithmeticTarget {
    A, B, C, D, E, H, L, HL, D8,
}

/// Operand of a 16-bit add into HL.
#[allow(non_camel_case_types)]
#[derive(Clone, Copy, PartialEq, Eq, Structural, Debug)]
pub enum ADDHLTarget {
    BC, DE, HL, SP,
}

/// Target of an increment or decrement: an 8-bit register, a 16-bit
/// pair, the stack pointer, or the byte at the address in HL (`HLI`).
#[allow(non_camel_case_types)]
#[derive(Clone, Copy, PartialEq, Eq, Structural, Debug)]
pub enum IncDecTarget {
    A, B, C, D, E, H, L, BC, DE, HL, SP, HLI,
}

/// Target of an escaped (bit/rotate/shift) instruction: a register or
/// the byte at the address in HL.
#[allow(non_camel_case_types)]
#[derive(Clone, Copy, PartialEq, Eq, Structural, Debug)]
pub enum PrefixTarget {
    A, B, C, D, E, H, L, HL,
}

/// A bit index 0 through 7 for the bit test/set/reset instructions.
#[allow(non_camel_case_types)]
#[derive(Clone, Copy, PartialEq, Eq, Structural, Debug)]
pub enum BitPosition {
    B0, B1, B2, B3, B4, B5, B6, B7,
}

impl BitPosition {
    /// The index this position names.
    pub open spec fn spec_index(self) -> u8 {
        match self {
            BitPosition::B0 => 0,
            BitPosition::B1 => 1,
            BitPosition::B2 => 2,
            BitPosition::B3 => 3,
            BitPosition::B4 => 4,
            BitPosition::B5 => 5,
            BitPosition::B6 => 6,
            BitPosition::B7 => 7,
        }
    }

    pub fn index(self) -> (r: u8)
        ensures
            r == self.spec_index(),
            r < 8,
    {
        match self {
            BitPosition::B0 => 0,
            BitPosition::B1 => 1,
            BitPosition::B2 => 2,
            BitPosition::B3 => 3,
            BitPosition::B4 => 4,
            BitPosition::B5 => 5,
            BitPosition::B6 => 6,
            BitPosition::B7 => 7,
        }
    }
}

/// Condition of a jump, call or return: always taken, or gated on the
/// Zero or Carry flag.
#[allow(non_camel_case_types)]
#[derive(Clone, Copy, PartialEq, Eq, Structural, Debug)]
pub enum JumpTest {
    NotZero, Zero, NotCarry, Carry, Always,
}

/// Destination of a byte load: a register or the byte at the address
/// in HL.
#[allow(non_camel_case_types)]
#[derive(Clone, Copy, PartialEq, Eq, Structural, Debug)]
pub enum LoadByteTarget {
    A, B, C, D, E, H, L, HL,
}

/// Source of a byte load: a register, an immediate byte, or the byte
/// at the address in HL.
#[allow(non_camel_case_types)]
#[derive(Clone, Copy, PartialEq, Eq, Structural, Debug)]
pub enum LoadByteSource {
    A, B, C, D, E, H, L, D8, HL,
}

/// Destination of a 16-bit immediate load.
#[allow(non_camel_case_types)]
#[derive(Clone, Copy, PartialEq, Eq, Structural, Debug)]
pub enum LoadWordTarget {
    BC, DE, HL, SP,
}

/// Addressing mode of an indirect load to or from the accumulator.
#[allow(non_camel_case_types)]
#[derive(Clone, Copy, PartialEq, Eq, Structural, Debug)]
pub enum Indirect {
    BCIndirect, DEIndirect, HLIndirectMinus, HLIndirectPlus, WordIndirect, LastByteIndirect,
}

/// The kind of a load instruction.
#[allow(non_camel_case_types)]
#[derive(Clone, Copy, PartialEq, Eq, Structural, Debug)]
pub enum LoadType {
    Byte(LoadByteTarget, LoadByteSource),
    Word(LoadWordTarget),
    AFromIndirect(Indirect),
    IndirectFromA(Indirect),
    AFromByteAddress,
    ByteAddressFromA,
}

/// A 16-bit register pair that can be pushed to or popped from the
/// stack.
#[allow(non_camel_case_types)]
#[derive(Clone, Copy, PartialEq, Eq, Structural, Debug)]
pub enum StackTarget {
    AF, BC, DE, HL,
}

/// The register-or-memory column of the escaped opcode table, selected
/// by the opcode's low three bits.
pub open spec fn spec_prefix_target(code: u8) -> PrefixTarget {
    if code == 0 { PrefixTarget::B }
    else if code == 1 { PrefixTarget::C }
    else if code == 2 { PrefixTarget::D }
    else if code == 3 { PrefixTarget::E }
    else if code == 4 { PrefixTarget::H }
    else if code == 5 { PrefixTarget::L }
    else if code == 6 { PrefixTarget::HL }
    else { PrefixTarget::A }
}

/// The bit index of an escaped bit instruction, selected by bits 5..3
/// of the opcode.
pub open spec fn spec_bit_position(code: u8) -> BitPosition {
    if code == 0 { BitPosition::B0 }
    else if code == 1 { BitPosition::B1 }
    else if code == 2 { BitPosition::B2 }
    else if code == 3 { BitPosition::B3 }
    else if code == 4 { BitPosition::B4 }
    else if code == 5 { BitPosition::B5 }
    else if code == 6 { BitPosition::B6 }
    else { BitPosition::B7 }
}

/// The secondary (escaped) opcode table. Every byte value is assigned:
/// the low three bits select the target, bits 5..3 select the rotate or
/// shift operation (rows 0x00..0x3F) or the bit index (rows
/// 0x40..0xFF).
pub open spec fn spec_from_byte_prefixed(byte: u8) -> Instruction {
    let t = spec_prefix_target(byte & 0x07);
    if byte < 0x40 {
        let row = byte >> 3;
        if row == 0 { Instruction::RLC(t) }
        else if row == 1 { Instruction::RRC(t) }
        else if row == 2 { Instruction::RL(t) }
        else if row == 3 { Instruction::RR(t) }
        else if row == 4 { Instruction::SLA(t) }
        else if row == 5 { Instruction::SRA(t) }
        else if row == 6 { Instruction::SWAP(t) }
        else { Instruction::SRL(t) }
    } else {
        let b = spec_bit_position((byte >> 3) & 0x07);
        if byte < 0x80 { Instruction::BIT(t, b) }
        else if byte < 0xC0 { Instruction::RES(t, b) }
        else { Instruction::SET(t, b) }
    }
}

/// The primary opcode table. Unassigned byte values map to `None`.
#[verifier::opaque]
pub open spec fn spec_from_byte_not_prefixed(byte: u8) -> Option<Instruction> {
    match byte {
        0x00u8 => Some(Instruction::NOP),
        0x01u8 => Some(Instruction::LD(LoadType::Word(LoadWordTarget::BC))),
        0x02u8 => Some(Instruction::LD(LoadType::IndirectFromA(Indirect::BCIndirect))),
        0x03u8 => Some(Instruction::INC(IncDecTarget::BC)),
        0x04u8 => Some(Instruction::INC(IncDecTarget::B)),
        0x05u8 => Some(Instruction::DEC(IncDecTarget::B)),
        0x06u8 => Some(Instruction::LD(LoadType::Byte(LoadByteTarget::B, LoadByteSource::D8))),
        0x07u8 => Some(Instruction::RLCA),
        0x09u8 => Some(Instruction::ADDHL(ADDHLTarget::BC)),
        0x0Au8 => Some(Instruction::LD(LoadType::AFromIndirect(Indirect::BCIndirect))),
        0x0Bu8 => Some(Instruction::DEC(IncDecTarget::BC)),
        0x0Cu8 => Some(Instruction::INC(IncDecTarget::C)),
        0x0Du8 => Some(Instruction::DEC(IncDecTarget::C)),
        0x0Eu8 => Some(Instruction::LD(LoadType::Byte(LoadByteTarget::C, LoadByteSource::D8))),
        0x0Fu8 => Some(Instruction::RRCA),
        0x11u8 => Some(Instruction::LD(LoadType::Word(LoadWordTarget::DE))),
        0x12u8 => Some(Instruction::LD(LoadType::IndirectFromA(Indirect::DEIndirect))),
        0x13u8 => Some(Instruction::INC(IncDecTarget::DE)),
        0x14u8 => Some(Instruction::INC(IncDecTarget::D)),
        0x15u8 => Some(Instruction::DEC(IncDecTarget::D)),
        0x16u8 => Some(Instruction::LD(LoadType::Byte(LoadByteTarget::D, LoadByteSource::D8))),
        0x17u8 => Some(Instruction::RLA),
        0x18u8 => Some(Instruction::JR(JumpTest::Always)),
        0x19u8 => Some(Instruction::ADDHL(ADDHLTarget::DE)),
        0x1Au8 => Some(Instruction::LD(LoadType::AFromIndirect(Indirect::DEIndirect))),
        0x1Bu8 => Some(Instruction::DEC(IncDecTarget::DE)),
        0x1Cu8 => Some(Instruction::INC(IncDecTarget::E)),
        0x1Du8 => Some(Instruction::DEC(IncDecTarget::E)),
        0x1Eu8 => Some(Instruction::LD(LoadType::Byte(LoadByteTarget::E, LoadByteSource::D8))),
        0x1Fu8 => Some(Instruction::RRA),
        0x20u8 => Some(Instruction::JR(JumpTest::NotZero)),
        0x21u8 => Some(Instruction::LD(LoadType::Word(LoadWordTarget::HL))),
        0x22u8 => Some(Instruction::LD(LoadType::IndirectFromA(Indirect::HLIndirectPlus))),
        0x23u8 => Some(Instruction::INC(IncDecTarget::HL)),
        0x24u8 => Some(Instruction::INC(IncDecTarget::H)),
        0x25u8 => Some(Instruction::DEC(IncDecTarget::H)),
        0x26u8 => Some(Instruction::LD(LoadType::Byte(LoadByteTarget::H, LoadByteSource::D8))),
        0x28u8 => Some(Instruction::JR(JumpTest::Zero)),
        0x29u8 => Some(Instruction::ADDHL(ADDHLTarget::HL)),
        0x2Au8 => Some(Instruction::LD(LoadType::AFromIndirect(Indirect::HLIndirectPlus))),
        0x2Bu8 => Some(Instruction::DEC(IncDecTarget::HL)),
        0x2Cu8 => Some(Instruction::INC(IncDecTarget::L)),
        0x2Du8 => Some(Instruction::DEC(IncDecTarget::L)),
        0x2Eu8 => Some(Instruction::LD(LoadType::Byte(LoadByteTarget::L, LoadByteSource::D8))),
        0x2Fu8 => Some(Instruction::CPL),
        0x30u8 => Some(Instruction::JR(JumpTest::NotCarry)),
        0x31u8 => Some(Instruction::LD(LoadType::Word(LoadWordTarget::SP))),
        0x32u8 => Some(Instruction::LD(LoadType::IndirectFromA(Indirect::HLIndirectMinus))),
        0x33u8 => Some(Instruction::INC(IncDecTarget::SP)),
        0x34u8 => Some(Instruction::INC(IncDecTarget::HLI)),
        0x35u8 => Some(Instruction::DEC(IncDecTarget::HLI)),
        0x36u8 => Some(Instruction::LD(LoadType::Byte(LoadByteTarget::HL, LoadByteSource::D8))),
        0x37u8 => Some(Instruction::SCF),
        0x38u8 => Some(Instruction::JR(JumpTest::Carry)),
        0x39u8 => Some(Instruction::ADDHL(ADDHLTarget::SP)),
        0x3Au8 => Some(Instruction::LD(LoadType::AFromIndirect(Indirect::HLIndirectMinus))),
        0x3Bu8 => Some(Instruction::DEC(IncDecTarget::SP)),
        0x3Cu8 => Some(Instruction::INC(IncDecTarget::A)),
        0x3Du8 => Some(Instruction::DEC(IncDecTarget::A)),
        0x3Eu8 => Some(Instruction::LD(LoadType::Byte(LoadByteTarget::A, LoadByteSource::D8))),
        0x3Fu8 => Some(Instruction::CCF),
        0x40u8 => Some(Instruction::LD(LoadType::Byte(LoadByteTarget::B, LoadByteSource::B))),
        0x41u8 => Some(Instruction::LD(LoadType::Byte(LoadByteTarget::B, LoadByteSource::C))),
        0x42u8 => Some(Instruction::LD(LoadType::Byte(LoadByteTarget::B, LoadByteSource::D))),
        0x43u8 => Some(Instruction::LD(LoadType::Byte(LoadByteTarget::B, LoadByteSource::E))),
        0x44u8 => Some(Instruction::LD(LoadType::Byte(LoadByteTarget::B, LoadByteSource::H))),
        0x45u8 => Some(Instruction::LD(LoadType::Byte(LoadByteTarget::B, LoadByteSource::L))),
        0x46u8 => Some(Instruction::LD(LoadType::Byte(LoadByteTarget::B, LoadByteSource::HL))),
        0x47u8 => Some(Instruction::LD(LoadType::Byte(LoadByteTarget::B, LoadByteSource::A))),
        0x48u8 => Some(Instruction::LD(LoadType::Byte(LoadByteTarget::C, LoadByteSource::B))),
        0x49u8 => Some(Instruction::LD(LoadType::Byte(LoadByteTarget::C, LoadByteSource::C))),
        0x4Au8 => Some(Instruction::LD(LoadType::Byte(LoadByteTarget::C, LoadByteSource::D))),
        0x4Bu8 => Some(Instruction::LD(LoadType::Byte(LoadByteTarget::C, LoadByteSource::E))),
        0x4Cu8 => Some(Instruction::LD(LoadType::Byte(LoadByteTarget::C, LoadByteSource::H))),
        0x4Du8 => Some(Instruction::LD(LoadType::Byte(LoadByteTarget::C, LoadByteSource::L))),
        0x4Eu8 => Some(Instruction::LD(LoadType::Byte(LoadByteTarget::C, LoadByteSource::HL))),
        0x4Fu8 => Some(Instruction::LD(LoadType::Byte(LoadByteTarget::C, LoadByteSource::A))),
        0x50u8 => Some(Instruction::LD(LoadType::Byte(LoadByteTarget::D, LoadByteSource::B))),
        0x51u8 => Some(Instruction::LD(LoadType::Byte(LoadByteTarget::D, LoadByteSource::C))),
        0x52u8 => Some(Instruction::LD(LoadType::Byte(LoadByteTarget::D, LoadByteSource::D))),
        0x53u8 => Some(Instruction::LD(LoadType::Byte(LoadByteTarget::D, LoadByteSource::E))),
        0x54u8 => Some(Instruction::LD(LoadType::Byte(LoadByteTarget::D, LoadByteSource::H))),
        0x55u8 => Some(Instruction::LD(LoadType::Byte(LoadByteTarget::D, LoadByteSource::L))),
        0x56u8 => Some(Instruction::LD(LoadType::Byte(LoadByteTarget::D, LoadByteSource::HL))),
        0x57u8 => Some(Instruction::LD(LoadType::Byte(LoadByteTarget::D, LoadByteSource::A))),
        0x58u8 => Some(Instruction::LD(LoadType::Byte(LoadByteTarget::E, LoadByteSource::B))),
        0x59u8 => Some(Instruction::LD(LoadType::Byte(LoadByteTarget::E, LoadByteSource::C))),
        0x5Au8 => Some(Instruction::LD(LoadType::Byte(LoadByteTarget::E, LoadByteSource::D))),
        0x5Bu8 => Some(Instruction::LD(LoadType::Byte(LoadByteTarget::E, LoadByteSource::E))),
        0x5Cu8 => Some(Instruction::LD(LoadType::Byte(LoadByteTarget::E, LoadByteSource::H))),
        0x5Du8 => Some(Instruction::LD(LoadType::Byte(LoadByteTarget::E, LoadByteSource::L))),
        0x5Eu8 => Some(Instruction::LD(LoadType::Byte(LoadByteTarget::E, LoadByteSource::HL))),
        0x5Fu8 => Some(Instruction::LD(LoadType::Byte(LoadByteTarget::E, LoadByteSource::A))),
        0x60u8 => Some(Instruction::LD(LoadType::Byte(LoadByteTarget::H, LoadByteSource::B))),
        0x61u8 => Some(Instruction::LD(LoadType::Byte(LoadByteTarget::H, LoadByteSource::C))),
        0x62u8 => Some(Instruction::LD(LoadType::Byte(LoadByteTarget::H, LoadByteSource::D))),
        0x63u8 => Some(Instruction::LD(LoadType::Byte(LoadByteTarget::H, LoadByteSource::E))),
        0x64u8 => Some(Instruction::LD(LoadType::Byte(LoadByteTarget::H, LoadByteSource::H))),
        0x65u8 => Some(Instruction::LD(LoadType::Byte(LoadByteTarget::H, LoadByteSource::L))),
        0x66u8 => Some(Instruction::LD(LoadType::Byte(LoadByteTarget::H, LoadByteSource::HL))),
        0x67u8 => Some(Instruction::LD(LoadType::Byte(LoadByteTarget::H, LoadByteSource::A))),
        0x68u8 => Some(Instruction::LD(LoadType::Byte(LoadByteTarget::L, LoadByteSource::B))),
        0x69u8 => Some(Instruction::LD(LoadType::Byte(LoadByteTarget::L, LoadByteSource::C))),
        0x6Au8 => Some(Instruction::LD(LoadType::Byte(LoadByteTarget::L, LoadByteSource::D))),
        0x6Bu8 => Some(Instruction::LD(LoadType::Byte(LoadByteTarget::L, LoadByteSource::E))),
        0x6Cu8 => Some(Instruction::LD(LoadType::Byte(LoadByteTarget::L, LoadByteSource::H))),
        0x6Du8 => Some(Instruction::LD(LoadType::Byte(LoadByteTarget::L, LoadByteSource::L))),
        0x6Eu8 => Some(Instruction::LD(LoadType::Byte(LoadByteTarget::L, LoadByteSource::HL))),
        0x6Fu8 => Some(Instruction::LD(LoadType::Byte(LoadByteTarget::L, LoadByteSource::A))),
        0x70u8 => Some(Instruction::LD(LoadType::Byte(LoadByteTarget::HL, LoadByteSource::B))),
        0x71u8 => Some(Instruction::LD(LoadType::Byte(LoadByteTarget::HL, LoadByteSource::C))),
        0x72u8 => Some(Instruction::LD(LoadType::Byte(LoadByteTarget::HL, LoadByteSource::D))),
        0x73u8 => Some(Instruction::LD(LoadType::Byte(LoadByteTarget::HL, LoadByteSource::E))),
        0x74u8 => Some(Instruction::LD(LoadType::Byte(LoadByteTarget::HL, LoadByteSource::H))),
        0x75u8 => Some(Instruction::LD(LoadType::Byte(LoadByteTarget::HL, LoadByteSource::L))),
        0x76u8 => Some(Instruction::HALT),
        0x77u8 => Some(Instruction::LD(LoadType::Byte(LoadByteTarget::HL, LoadByteSource::A))),
        0x78u8 => Some(Instruction::LD(LoadType::Byte(LoadByteTarget::A, LoadByteSource::B))),
        0x79u8 => Some(Instruction::LD(LoadType::Byte(LoadByteTarget::A, LoadByteSource::C))),
        0x7Au8 => Some(Instruction::LD(LoadType::Byte(LoadByteTarget::A, LoadByteSource::D))),
        0x7Bu8 => Some(Instruction::LD(LoadType::Byte(LoadByteTarget::A, LoadByteSource::E))),
        0x7Cu8 => Some(Instruction::LD(LoadType::Byte(LoadByteTarget::A, LoadByteSource::H))),
        0x7Du8 => Some(Instruction::LD(LoadType::Byte(LoadByteTarget::A, LoadByteSource::L))),
        0x7Eu8 => Some(Instruction::LD(LoadType::Byte(LoadByteTarget::A, LoadByteSource::HL))),
        0x7Fu8 => Some(Instruction::LD(LoadType::Byte(LoadByteTarget::A, LoadByteSource::A))),
        0x80u8 => Some(Instruction::ADD(ArithmeticTarget::B)),
        0x81u8 => Some(Instruction::ADD(ArithmeticTarget::C)),
        0x82u8 => Some(Instruction::ADD(ArithmeticTarget::D)),
        0x83u8 => Some(Instruction::ADD(ArithmeticTarget::E)),
        0x84u8 => Some(Instruction::ADD(ArithmeticTarget::H)),
        0x85u8 => Some(Instruction::ADD(ArithmeticTarget::L)),
        0x86u8 => Some(Instruction::ADD(ArithmeticTarget::HL)),
        0x87u8 => Some(Instruction::ADD(ArithmeticTarget::A)),
        0x88u8 => Some(Instruction::ADC(ArithmeticTarget::B)),
        0x89u8 => Some(Instruction::ADC(ArithmeticTarget::C)),
        0x8Au8 => Some(Instruction::ADC(ArithmeticTarget::D)),
        0x8Bu8 => Some(Instruction::ADC(ArithmeticTarget::E)),
        0x8Cu8 => Some(Instruction::ADC(ArithmeticTarget::H)),
        0x8Du8 => Some(Instruction::ADC(ArithmeticTarget::L)),
        0x8Eu8 => Some(Instruction::ADC(ArithmeticTarget::HL)),
        0x8Fu8 => Some(Instruction::ADC(ArithmeticTarget::A)),
        0x90u8 => Some(Instruction::SUB(ArithmeticTarget::B)),
        0x91u8 => Some(Instruction::SUB(ArithmeticTarget::C)),
        0x92u8 => Some(Instruction::SUB(ArithmeticTarget::D)),
        0x93u8 => Some(Instruction::SUB(ArithmeticTarget::E)),
        0x94u8 => Some(Instruction::SUB(ArithmeticTarget::H)),
        0x95u8 => Some(Instruction::SUB(ArithmeticTarget::L)),
        0x96u8 => Some(Instruction::SUB(ArithmeticTarget::HL)),
        0x97u8 => Some(Instruction::SUB(ArithmeticTarget::A)),
        0x98u8 => Some(Instruction::SBC(ArithmeticTarget::B)),
        0x99u8 => Some(Instruction::SBC(ArithmeticTarget::C)),
        0x9Au8 => Some(Instruction::SBC(ArithmeticTarget::D)),
        0x9Bu8 => Some(Instruction::SBC(ArithmeticTarget::E)),
        0x9Cu8 => Some(Instruction::SBC(ArithmeticTarget::H)),
        0x9Du8 => Some(Instruction::SBC(ArithmeticTarget::L)),
        0x9Eu8 => Some(Instruction::SBC(ArithmeticTarget::HL)),
        0x9Fu8 => Some(Instruction::SBC(ArithmeticTarget::A)),
        0xA0u8 => Some(Instruction::AND(ArithmeticTarget::B)),
        0xA1u8 => Some(Instruction::AND(ArithmeticTarget::C)),
        0xA2u8 => Some(Instruction::AND(ArithmeticTarget::D)),
        0xA3u8 => Some(Instruction::AND(ArithmeticTarget::E)),
        0xA4u8 => Some(Instruction::AND(ArithmeticTarget::H)),
        0xA5u8 => Some(Instruction::AND(ArithmeticTarget::L)),
        0xA6u8 => Some(Instruction::AND(ArithmeticTarget::HL)),
        0xA7u8 => Some(Instruction::AND(ArithmeticTarget::A)),
        0xA8u8 => Some(Instruction::XOR(ArithmeticTarget::B)),
        0xA9u8 => Some(Instruction::XOR(ArithmeticTarget::C)),
        0xAAu8 => Some(Instruction::XOR(ArithmeticTarget::D)),
        0xABu8 => Some(Instruction::XOR(ArithmeticTarget::E)),
        0xACu8 => Some(Instruction::XOR(ArithmeticTarget::H)),
        0xADu8 => Some(Instruction::XOR(ArithmeticTarget::L)),
        0xAEu8 => Some(Instruction::XOR(ArithmeticTarget::HL)),
        0xAFu8 => Some(Instruction::XOR(ArithmeticTarget::A)),
        0xB0u8 => Some(Instruction::OR(ArithmeticTarget::B)),
        0xB1u8 => Some(Instruction::OR(ArithmeticTarget::C)),
        0xB2u8 => Some(Instruction::OR(ArithmeticTarget::D)),
        0xB3u8 => Some(Instruction::OR(ArithmeticTarget::E)),
        0xB4u8 => Some(Instruction::OR(ArithmeticTarget::H)),
        0xB5u8 => Some(Instruction::OR(ArithmeticTarget::L)),
        0xB6u8 => Some(Instruction::OR(ArithmeticTarget::HL)),
        0xB7u8 => Some(Instruction::OR(ArithmeticTarget::A)),
        0xB8u8 => Some(Instruction::CP(ArithmeticTarget::B)),
        0xB9u8 => Some(Instruction::CP(ArithmeticTarget::C)),
        0xBAu8 => Some(Instruction::CP(ArithmeticTarget::D)),
        0xBBu8 => Some(Instruction::CP(ArithmeticTarget::E)),
        0xBCu8 => Some(Instruction::CP(ArithmeticTarget::H)),
        0xBDu8 => Some(Instruction::CP(ArithmeticTarget::L)),
        0xBEu8 => Some(Instruction::CP(ArithmeticTarget::HL)),
        0xBFu8 => Some(Instruction::CP(ArithmeticTarget::A)),
        0xC0u8 => Some(Instruction::RET(JumpTest::NotZero)),
        0xC1u8 => Some(Instruction::POP(StackTarget::BC)),
        0xC2u8 => Some(Instruction::JP(JumpTest::NotZero)),
        0xC3u8 => Some(Instruction::JP(JumpTest::Always)),
        0xC4u8 => Some(Instruction::CALL(JumpTest::NotZero)),
        0xC5u8 => Some(Instruction::PUSH(StackTarget::BC)),
        0xC6u8 => Some(Instruction::ADD(ArithmeticTarget::D8)),
        0xC8u8 => Some(Instruction::RET(JumpTest::Zero)),
        0xC9u8 => Some(Instruction::RET(JumpTest::Always)),
        0xCAu8 => Some(Instruction::JP(JumpTest::Zero)),
        0xCCu8 => Some(Instruction::CALL(JumpTest::Zero)),
        0xCDu8 => Some(Instruction::CALL(JumpTest::Always)),
        0xCEu8 => Some(Instruction::ADC(ArithmeticTarget::D8)),
        0xD0u8 => Some(Instruction::RET(JumpTest::NotCarry)),
        0xD1u8 => Some(Instruction::POP(StackTarget::DE)),
        0xD2u8 => Some(Instruction::JP(JumpTest::NotCarry)),
        0xD4u8 => Some(Instruction::CALL(JumpTest::NotCarry)),
        0xD5u8 => Some(Instruction::PUSH(StackTarget::DE)),
        0xD6u8 => Some(Instruction::SUB(ArithmeticTarget::D8)),
        0xD8u8 => Some(Instruction::RET(JumpTest::Carry)),
        0xDAu8 => Some(Instruction::JP(JumpTest::Carry)),
        0xDCu8 => Some(Instruction::CALL(JumpTest::Carry)),
        0xDEu8 => Some(Instruction::SBC(ArithmeticTarget::D8)),
        0xE0u8 => Some(Instruction::LD(LoadType::ByteAddressFromA)),
        0xE1u8 => Some(Instruction::POP(StackTarget::HL)),
        0xE2u8 => Some(Instruction::LD(LoadType::IndirectFromA(Indirect::LastByteIndirect))),
        0xE5u8 => Some(Instruction::PUSH(StackTarget::HL)),
        0xE6u8 => Some(Instruction::AND(ArithmeticTarget::D8)),
        0xE9u8 => Some(Instruction::JPI),
        0xEAu8 => Some(Instruction::LD(LoadType::IndirectFromA(Indirect::WordIndirect))),
        0xEEu8 => Some(Instruction::XOR(ArithmeticTarget::D8)),
        0xF0u8 => Some(Instruction::LD(LoadType::AFromByteAddress)),
        0xF1u8 => Some(Instruction::POP(StackTarget::AF)),
        0xF2u8 => Some(Instruction::LD(LoadType::AFromIndirect(Indirect::LastByteIndirect))),
        0xF5u8 => Some(Instruction::PUSH(StackTarget::AF)),
        0xF6u8 => Some(Instruction::OR(ArithmeticTarget::D8)),
        0xFAu8 => Some(Instruction::LD(LoadType::AFromIndirect(Indirect::WordIndirect))),
        0xFEu8 => Some(Instruction::CP(ArithmeticTarget::D8)),
        _ => None,
    }
}

impl Instruction {
    /// Decode an opcode byte: against the secondary table when it
    /// followed the escape byte, against the primary table otherwise.
    pub fn from_byte(byte: u8, prefixed: bool) -> (r: Option<Instruction>)
        ensures
            r == spec_from_byte(byte, prefixed),
    {
        if prefixed {
            Some(Instruction::from_byte_prefixed(byte))
        } else {
            Instruction::from_byte_not_prefixed(byte)
        }
    }

    /// Decode against the secondary (escaped) table, in which every
    /// byte value is assigned.
    pub fn from_byte_prefixed(byte: u8) -> (r: Instruction)
        ensures
            r == spec_from_byte_prefixed(byte),
    {
        let t = prefix_target(byte & 0x07);
        if byte < 0x40 {
            let row = byte >> 3;
            if row == 0 { Instruction::RLC(t) }
            else if row == 1 { Instruction::RRC(t) }
            else if row == 2 { Instruction::RL(t) }
            else if row == 3 { Instruction::RR(t) }
            else if row == 4 { Instruction::SLA(t) }
            else if row == 5 { Instruction::SRA(t) }
            else if row == 6 { Instruction::SWAP(t) }
            else { Instruction::SRL(t) }
        } else {
            let b = bit_position((byte >> 3) & 0x07);
            if byte < 0x80 { Instruction::BIT(t, b) }
            else if byte < 0xC0 { Instruction::RES(t, b) }
            else { Instruction::SET(t, b) }
        }
    }

    /// Decode against the primary table.
    pub fn from_byte_not_prefixed(byte: u8) -> (r: Option<Instruction>)
        ensures
            r == spec_from_byte_not_prefixed(byte),
    {
        proof {
            reveal(spec_from_byte_not_prefixed);
        }
        match byte {
            0x00u8 => Some(Instruction::NOP),
            0x01u8 => Some(Instruction::LD(LoadType::Word(LoadWordTarget::BC))),
            0x02u8 => Some(Instruction::LD(LoadType::IndirectFromA(Indirect::BCIndirect))),
            0x03u8 => Some(Instruction::INC(IncDecTarget::BC)),
            0x04u8 => Some(Instruction::INC(IncDecTarget::B)),
            0x05u8 => Some(Instruction::DEC(IncDecTarget::B)),
            0x06u8 => Some(Instruction::LD(LoadType::Byte(LoadByteTarget::B, LoadByteSource::D8))),
            0x07u8 => Some(Instruction::RLCA),
            0x09u8 => Some(Instruction::ADDHL(ADDHLTarget::BC)),
            0x0Au8 => Some(Instruction::LD(LoadType::AFromIndirect(Indirect::BCIndirect))),
            0x0Bu8 => Some(Instruction::DEC(IncDecTarget::BC)),
            0x0Cu8 => Some(Instruction::INC(IncDecTarget::C)),
            0x0Du8 => Some(Instruction::DEC(IncDecTarget::C)),
            0x0Eu8 => Some(Instruction::LD(LoadType::Byte(LoadByteTarget::C, LoadByteSource::D8))),
            0x0Fu8 => Some(Instruction::RRCA),
            0x11u8 => Some(Instruction::LD(LoadType::Word(LoadWordTarget::DE))),
            0x12u8 => Some(Instruction::LD(LoadType::IndirectFromA(Indirect::DEIndirect))),
            0x13u8 => Some(Instruction::INC(IncDecTarget::DE)),
            0x14u8 => Some(Instruction::INC(IncDecTarget::D)),
            0x15u8 => Some(Instruction::DEC(IncDecTarget::D)),
            0x16u8 => Some(Instruction::LD(LoadType::Byte(LoadByteTarget::D, LoadByteSource::D8))),
            0x17u8 => Some(Instruction::RLA),
            0x18u8 => Some(Instruction::JR(JumpTest::Always)),
            0x19u8 => Some(Instruction::ADDHL(ADDHLTarget::DE)),
            0x1Au8 => Some(Instruction::LD(LoadType::AFromIndirect(Indirect::DEIndirect))),
            0x1Bu8 => Some(Instruction::DEC(IncDecTarget::DE)),
            0x1Cu8 => Some(Instruction::INC(IncDecTarget::E)),
            0x1Du8 => Some(Instruction::DEC(IncDecTarget::E)),
            0x1Eu8 => Some(Instruction::LD(LoadType::Byte(LoadByteTarget::E, LoadByteSource::D8))),
            0x1Fu8 => Some(Instruction::RRA),
            0x20u8 => Some(Instruction::JR(JumpTest::NotZero)),
            0x21u8 => Some(Instruction::LD(LoadType::Word(LoadWordTarget::HL))),
            0x22u8 => Some(Instruction::LD(LoadType::IndirectFromA(Indirect::HLIndirectPlus))),
            0x23u8 => Some(Instruction::INC(IncDecTarget::HL)),
            0x24u8 => Some(Instruction::INC(IncDecTarget::H)),
            0x25u8 => Some(Instruction::DEC(IncDecTarget::H)),
            0x26u8 => Some(Instruction::LD(LoadType::Byte(LoadByteTarget::H, LoadByteSource::D8))),
            0x28u8 => Some(Instruction::JR(JumpTest::Zero)),
            0x29u8 => Some(Instruction::ADDHL(ADDHLTarget::HL)),
            0x2Au8 => Some(Instruction::LD(LoadType::AFromIndirect(Indirect::HLIndirectPlus))),
            0x2Bu8 => Some(Instruction::DEC(IncDecTarget::HL)),
            0x2Cu8 => Some(Instruction::INC(IncDecTarget::L)),
            0x2Du8 => Some(Instruction::DEC(IncDecTarget::L)),
            0x2Eu8 => Some(Instruction::LD(LoadType::Byte(LoadByteTarget::L, LoadByteSource::D8))),
            0x2Fu8 => Some(Instruction::CPL),
            0x30u8 => Some(Instruction::JR(JumpTest::NotCarry)),
            0x31u8 => Some(Instruction::LD(LoadType::Word(LoadWordTarget::SP))),
            0x32u8 => Some(Instruction::LD(LoadType::IndirectFromA(Indirect::HLIndirectMinus))),
            0x33u8 => Some(Instruction::INC(IncDecTarget::SP)),
            0x34u8 => Some(Instruction::INC(IncDecTarget::HLI)),
            0x35u8 => Some(Instruction::DEC(IncDecTarget::HLI)),
            0x36u8 => Some(Instruction::LD(LoadType::Byte(LoadByteTarget::HL, LoadByteSource::D8))),
            0x37u8 => Some(Instruction::SCF),
            0x38u8 => Some(Instruction::JR(JumpTest::Carry)),
            0x39u8 => Some(Instruction::ADDHL(ADDHLTarget::SP)),
            0x3Au8 => Some(Instruction::LD(LoadType::AFromIndirect(Indirect::HLIndirectMinus))),
            0x3Bu8 => Some(Instruction::DEC(IncDecTarget::SP)),
            0x3Cu8 => Some(Instruction::INC(IncDecTarget::A)),
            0x3Du8 => Some(Instruction::DEC(IncDecTarget::A)),
            0x3Eu8 => Some(Instruction::LD(LoadType::Byte(LoadByteTarget::A, LoadByteSource::D8))),
            0x3Fu8 => Some(Instruction::CCF),
            0x40u8 => Some(Instruction::LD(LoadType::Byte(LoadByteTarget::B, LoadByteSource::B))),
            0x41u8 => Some(Instruction::LD(LoadType::Byte(LoadByteTarget::B, LoadByteSource::C))),
            0x42u8 => Some(Instruction::LD(LoadType::Byte(LoadByteTarget::B, LoadByteSource::D))),
            0x43u8 => Some(Instruction::LD(LoadType::Byte(LoadByteTarget::B, LoadByteSource::E))),
            0x44u8 => Some(Instruction::LD(LoadType::Byte(LoadByteTarget::B, LoadByteSource::H))),
            0x45u8 => Some(Instruction::LD(LoadType::Byte(LoadByteTarget::B, LoadByteSource::L))),
            0x46u8 => Some(Instruction::LD(LoadType::Byte(LoadByteTarget::B, LoadByteSource::HL))),
            0x47u8 => Some(Instruction::LD(LoadType::Byte(LoadByteTarget::B, LoadByteSource::A))),
            0x48u8 => Some(Instruction::LD(LoadType::Byte(LoadByteTarget::C, LoadByteSource::B))),
            0x49u8 => Some(Instruction::LD(LoadType::Byte(LoadByteTarget::C, LoadByteSource::C))),
            0x4Au8 => Some(Instruction::LD(LoadType::Byte(LoadByteTarget::C, LoadByteSource::D))),
            0x4Bu8 => Some(Instruction::LD(LoadType::Byte(LoadByteTarget::C, LoadByteSource::E))),
            0x4Cu8 => Some(Instruction::LD(LoadType::Byte(LoadByteTarget::C, LoadByteSource::H))),
            0x4Du8 => Some(Instruction::LD(LoadType::Byte(LoadByteTarget::C, LoadByteSource::L))),
            0x4Eu8 => Some(Instruction::LD(LoadType::Byte(LoadByteTarget::C, LoadByteSource::HL))),
            0x4Fu8 => Some(Instruction::LD(LoadType::Byte(LoadByteTarget::C, LoadByteSource::A))),
            0x50u8 => Some(Instruction::LD(LoadType::Byte(LoadByteTarget::D, LoadByteSource::B))),
            0x51u8 => Some(Instruction::LD(LoadType::Byte(LoadByteTarget::D, LoadByteSource::C))),
            0x52u8 => Some(Instruction::LD(LoadType::Byte(LoadByteTarget::D, LoadByteSource::D))),
            0x53u8 => Some(Instruction::LD(LoadType::Byte(LoadByteTarget::D, LoadByteSource::E))),
            0x54u8 => Some(Instruction::LD(LoadType::Byte(LoadByteTarget::D, LoadByteSource::H))),
            0x55u8 => Some(Instruction::LD(LoadType::Byte(LoadByteTarget::D, LoadByteSource::L))),
            0x56u8 => Some(Instruction::LD(LoadType::Byte(LoadByteTarget::D, LoadByteSource::HL))),
            0x57u8 => Some(Instruction::LD(LoadType::Byte(LoadByteTarget::D, LoadByteSource::A))),
            0x58u8 => Some(Instruction::LD(LoadType::Byte(LoadByteTarget::E, LoadByteSource::B))),
            0x59u8 => Some(Instruction::LD(LoadType::Byte(LoadByteTarget::E, LoadByteSource::C))),
            0x5Au8 => Some(Instruction::LD(LoadType::Byte(LoadByteTarget::E, LoadByteSource::D))),
            0x5Bu8 => Some(Instruction::LD(LoadType::Byte(LoadByteTarget::E, LoadByteSource::E))),
            0x5Cu8 => Some(Instruction::LD(LoadType::Byte(LoadByteTarget::E, LoadByteSource::H))),
            0x5Du8 => Some(Instruction::LD(LoadType::Byte(LoadByteTarget::E, LoadByteSource::L))),
            0x5Eu8 => Some(Instruction::LD(LoadType::Byte(LoadByteTarget::E, LoadByteSource::HL))),
            0x5Fu8 => Some(Instruction::LD(LoadType::Byte(LoadByteTarget::E, LoadByteSource::A))),
            0x60u8 => Some(Instruction::LD(LoadType::Byte(LoadByteTarget::H, LoadByteSource::B))),
            0x61u8 => Some(Instruction::LD(LoadType::Byte(LoadByteTarget::H, LoadByteSource::C))),
            0x62u8 => Some(Instruction::LD(LoadType::Byte(LoadByteTarget::H, LoadByteSource::D))),
            0x63u8 => Some(Instruction::LD(LoadType::Byte(LoadByteTarget::H, LoadByteSource::E))),
            0x64u8 => Some(Instruction::LD(LoadType::Byte(LoadByteTarget::H, LoadByteSource::H))),
            0x65u8 => Some(Instruction::LD(LoadType::Byte(LoadByteTarget::H, LoadByteSource::L))),
            0x66u8 => Some(Instruction::LD(LoadType::Byte(LoadByteTarget::H, LoadByteSource::HL))),
            0x67u8 => Some(Instruction::LD(LoadType::Byte(LoadByteTarget::H, LoadByteSource::A))),
            0x68u8 => Some(Instruction::LD(LoadType::Byte(LoadByteTarget::L, LoadByteSource::B))),
            0x69u8 => Some(Instruction::LD(LoadType::Byte(LoadByteTarget::L, LoadByteSource::C))),
            0x6Au8 => Some(Instruction::LD(LoadType::Byte(LoadByteTarget::L, LoadByteSource::D))),
            0x6Bu8 => Some(Instruction::LD(LoadType::Byte(LoadByteTarget::L, LoadByteSource::E))),
            0x6Cu8 => Some(Instruction::LD(LoadType::Byte(LoadByteTarget::L, LoadByteSource::H))),
            0x6Du8 => Some(Instruction::LD(LoadType::Byte(LoadByteTarget::L, LoadByteSource::L))),
            0x6Eu8 => Some(Instruction::LD(LoadType::Byte(LoadByteTarget::L, LoadByteSource::HL))),
            0x6Fu8 => Some(Instruction::LD(LoadType::Byte(LoadByteTarget::L, LoadByteSource::A))),
            0x70u8 => Some(Instruction::LD(LoadType::Byte(LoadByteTarget::HL, LoadByteSource::B))),
            0x71u8 => Some(Instruction::LD(LoadType::Byte(LoadByteTarget::HL, LoadByteSource::C))),
            0x72u8 => Some(Instruction::LD(LoadType::Byte(LoadByteTarget::HL, LoadByteSource::D))),
            0x73u8 => Some(Instruction::LD(LoadType::Byte(LoadByteTarget::HL, LoadByteSource::E))),
            0x74u8 => Some(Instruction::LD(LoadType::Byte(LoadByteTarget::HL, LoadByteSource::H))),
            0x75u8 => Some(Instruction::LD(LoadType::Byte(LoadByteTarget::HL, LoadByteSource::L))),
            0x76u8 => Some(Instruction::HALT),
            0x77u8 => Some(Instruction::LD(LoadType::Byte(LoadByteTarget::HL, LoadByteSource::A))),
            0x78u8 => Some(Instruction::LD(LoadType::Byte(LoadByteTarget::A, LoadByteSource::B))),
            0x79u8 => Some(Instruction::LD(LoadType::Byte(LoadByteTarget::A, LoadByteSource::C))),
            0x7Au8 => Some(Instruction::LD(LoadType::Byte(LoadByteTarget::A, LoadByteSource::D))),
            0x7Bu8 => Some(Instruction::LD(LoadType::Byte(LoadByteTarget::A, LoadByteSource::E))),
            0x7Cu8 => Some(Instruction::LD(LoadType::Byte(LoadByteTarget::A, LoadByteSource::H))),
            0x7Du8 => Some(Instruction::LD(LoadType::Byte(LoadByteTarget::A, LoadByteSource::L))),
            0x7Eu8 => Some(Instruction::LD(LoadType::Byte(LoadByteTarget::A, LoadByteSource::HL))),
            0x7Fu8 => Some(Instruction::LD(LoadType::Byte(LoadByteTarget::A, LoadByteSource::A))),
            0x80u8 => Some(Instruction::ADD(ArithmeticTarget::B)),
            0x81u8 => Some(Instruction::ADD(ArithmeticTarget::C)),
            0x82u8 => Some(Instruction::ADD(ArithmeticTarget::D)),
            0x83u8 => Some(Instruction::ADD(ArithmeticTarget::E)),
            0x84u8 => Some(Instruction::ADD(ArithmeticTarget::H)),
            0x85u8 => Some(Instruction::ADD(ArithmeticTarget::L)),
            0x86u8 => Some(Instruction::ADD(ArithmeticTarget::HL)),
            0x87u8 => Some(Instruction::ADD(ArithmeticTarget::A)),
            0x88u8 => Some(Instruction::ADC(ArithmeticTarget::B)),
            0x89u8 => Some(Instruction::ADC(ArithmeticTarget::C)),
            0x8Au8 => Some(Instruction::ADC(ArithmeticTarget::D)),
            0x8Bu8 => Some(Instruction::ADC(ArithmeticTarget::E)),
            0x8Cu8 => Some(Instruction::ADC(ArithmeticTarget::H)),
            0x8Du8 => Some(Instruction::ADC(ArithmeticTarget::L)),
            0x8Eu8 => Some(Instruction::ADC(ArithmeticTarget::HL)),
            0x8Fu8 => Some(Instruction::ADC(ArithmeticTarget::A)),
            0x90u8 => Some(Instruction::SUB(ArithmeticTarget::B)),
            0x91u8 => Some(Instruction::SUB(ArithmeticTarget::C)),
            0x92u8 => Some(Instruction::SUB(ArithmeticTarget::D)),
            0x93u8 => Some(Instruction::SUB(ArithmeticTarget::E)),
            0x94u8 => Some(Instruction::SUB(ArithmeticTarget::H)),
            0x95u8 => Some(Instruction::SUB(ArithmeticTarget::L)),
            0x96u8 => Some(Instruction::SUB(ArithmeticTarget::HL)),
            0x97u8 => Some(Instruction::SUB(ArithmeticTarget::A)),
            0x98u8 => Some(Instruction::SBC(ArithmeticTarget::B)),
            0x99u8 => Some(Instruction::SBC(ArithmeticTarget::C)),
            0x9Au8 => Some(Instruction::SBC(ArithmeticTarget::D)),
            0x9Bu8 => Some(Instruction::SBC(ArithmeticTarget::E)),
            0x9Cu8 => Some(Instruction::SBC(ArithmeticTarget::H)),
            0x9Du8 => Some(Instruction::SBC(ArithmeticTarget::L)),
            0x9Eu8 => Some(Instruction::SBC(ArithmeticTarget::HL)),
            0x9Fu8 => Some(Instruction::SBC(ArithmeticTarget::A)),
            0xA0u8 => Some(Instruction::AND(ArithmeticTarget::B)),
            0xA1u8 => Some(Instruction::AND(ArithmeticTarget::C)),
            0xA2u8 => Some(Instruction::AND(ArithmeticTarget::D)),
            0xA3u8 => Some(Instruction::AND(ArithmeticTarget::E)),
            0xA4u8 => Some(Instruction::AND(ArithmeticTarget::H)),
            0xA5u8 => Some(Instruction::AND(ArithmeticTarget::L)),
            0xA6u8 => Some(Instruction::AND(ArithmeticTarget::HL)),
            0xA7u8 => Some(Instruction::AND(ArithmeticTarget::A)),
            0xA8u8 => Some(Instruction::XOR(ArithmeticTarget::B)),
            0xA9u8 => Some(Instruction::XOR(ArithmeticTarget::C)),
            0xAAu8 => Some(Instruction::XOR(ArithmeticTarget::D)),
            0xABu8 => Some(Instruction::XOR(ArithmeticTarget::E)),
            0xACu8 => Some(Instruction::XOR(ArithmeticTarget::H)),
            0xADu8 => Some(Instruction::XOR(ArithmeticTarget::L)),
            0xAEu8 => Some(Instruction::XOR(ArithmeticTarget::HL)),
            0xAFu8 => Some(Instruction::XOR(ArithmeticTarget::A)),
            0xB0u8 => Some(Instruction::OR(ArithmeticTarget::B)),
            0xB1u8 => Some(Instruction::OR(ArithmeticTarget::C)),
            0xB2u8 => Some(Instruction::OR(ArithmeticTarget::D)),
            0xB3u8 => Some(Instruction::OR(ArithmeticTarget::E)),
            0xB4u8 => Some(Instruction::OR(ArithmeticTarget::H)),
            0xB5u8 => Some(Instruction::OR(ArithmeticTarget::L)),
            0xB6u8 => Some(Instruction::OR(ArithmeticTarget::HL)),
            0xB7u8 => Some(Instruction::OR(ArithmeticTarget::A)),
            0xB8u8 => Some(Instruction::CP(ArithmeticTarget::B)),
            0xB9u8 => Some(Instruction::CP(ArithmeticTarget::C)),
            0xBAu8 => Some(Instruction::CP(ArithmeticTarget::D)),
            0xBBu8 => Some(Instruction::CP(ArithmeticTarget::E)),
            0xBCu8 => Some(Instruction::CP(ArithmeticTarget::H)),
            0xBDu8 => Some(Instruction::CP(ArithmeticTarget::L)),
            0xBEu8 => Some(Instruction::CP(ArithmeticTarget::HL)),
            0xBFu8 => Some(Instruction::CP(ArithmeticTarget::A)),
            0xC0u8 => Some(Instruction::RET(JumpTest::NotZero)),
            0xC1u8 => Some(Instruction::POP(StackTarget::BC)),
            0xC2u8 => Some(Instruction::JP(JumpTest::NotZero)),
            0xC3u8 => Some(Instruction::JP(JumpTest::Always)),
            0xC4u8 => Some(Instruction::CALL(JumpTest::NotZero)),
            0xC5u8 => Some(Instruction::PUSH(StackTarget::BC)),
            0xC6u8 => Some(Instruction::ADD(ArithmeticTarget::D8)),
            0xC8u8 => Some(Instruction::RET(JumpTest::Zero)),
            0xC9u8 => Some(Instruction::RET(JumpTest::Always)),
            0xCAu8 => Some(Instruction::JP(JumpTest::Zero)),
            0xCCu8 => Some(Instruction::CALL(JumpTest::Zero)),
            0xCDu8 => Some(Instruction::CALL(JumpTest::Always)),
            0xCEu8 => Some(Instruction::ADC(ArithmeticTarget::D8)),
            0xD0u8 => Some(Instruction::RET(JumpTest::NotCarry)),
            0xD1u8 => Some(Instruction::POP(StackTarget::DE)),
            0xD2u8 => Some(Instruction::JP(JumpTest::NotCarry)),
            0xD4u8 => Some(Instruction::CALL(JumpTest::NotCarry)),
            0xD5u8 => Some(Instruction::PUSH(StackTarget::DE)),
            0xD6u8 => Some(Instruction::SUB(ArithmeticTarget::D8)),
            0xD8u8 => Some(Instruction::RET(JumpTest::Carry)),
            0xDAu8 => Some(Instruction::JP(JumpTest::Carry)),
            0xDCu8 => Some(Instruction::CALL(JumpTest::Carry)),
            0xDEu8 => Some(Instruction::SBC(ArithmeticTarget::D8)),
            0xE0u8 => Some(Instruction::LD(LoadType::ByteAddressFromA)),
            0xE1u8 => Some(Instruction::POP(StackTarget::HL)),
            0xE2u8 => Some(Instruction::LD(LoadType::IndirectFromA(Indirect::LastByteIndirect))),
            0xE5u8 => Some(Instruction::PUSH(StackTarget::HL)),
            0xE6u8 => Some(Instruction::AND(ArithmeticTarget::D8)),
            0xE9u8 => Some(Instruction::JPI),
            0xEAu8 => Some(Instruction::LD(LoadType::IndirectFromA(Indirect::WordIndirect))),
            0xEEu8 => Some(Instruction::XOR(ArithmeticTarget::D8)),
            0xF0u8 => Some(Instruction::LD(LoadType::AFromByteAddress)),
            0xF1u8 => Some(Instruction::POP(StackTarget::AF)),
            0xF2u8 => Some(Instruction::LD(LoadType::AFromIndirect(Indirect::LastByteIndirect))),
            0xF5u8 => Some(Instruction::PUSH(StackTarget::AF)),
            0xF6u8 => Some(Instruction::OR(ArithmeticTarget::D8)),
            0xFAu8 => Some(Instruction::LD(LoadType::AFromIndirect(Indirect::WordIndirect))),
            0xFEu8 => Some(Instruction::CP(ArithmeticTarget::D8)),
            _ => None,
        }
    }
}

/// Decoding selects the secondary table exactly when the opcode
/// followed the escape byte.
pub open spec fn spec_from_byte(byte: u8, prefixed: bool) -> Option<Instruction> {
    if prefixed {
        Some(spec_from_byte_prefixed(byte))
    } else {
        spec_from_byte_not_prefixed(byte)
    }
}

fn prefix_target(code: u8) -> (r: PrefixTarget)
    ensures
        r == spec_prefix_target(code),
{
    if code == 0 { PrefixTarget::B }
    else if code == 1 { PrefixTarget::C }
    else if code == 2 { PrefixTarget::D }
    else if code == 3 { PrefixTarget::E }
    else if code == 4 { PrefixTarget::H }
    else if code == 5 { PrefixTarget::L }
    else if code == 6 { PrefixTarget::HL }
    else { PrefixTarget::A }
}

fn bit_position(code: u8) -> (r: BitPosition)
    ensures
        r == spec_bit_position(code),
{
    if code == 0 { BitPosition::B0 }
    else if code == 1 { BitPosition::B1 }
    else if code == 2 { BitPosition::B2 }
    else if code == 3 { BitPosition::B3 }
    else if code == 4 { BitPosition::B4 }
    else if code == 5 { BitPosition::B5 }
    else if code == 6 { BitPosition::B6 }
    else { BitPosition::B7 }
}

} // verus!
