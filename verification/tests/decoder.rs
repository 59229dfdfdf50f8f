use dmg_core::cpu::instructions::ADDHLTarget;
use dmg_core::cpu::instructions::ArithmeticTarget;
use dmg_core::cpu::instructions::BitPosition;
use dmg_core::cpu::instructions::IncDecTarget;
use dmg_core::cpu::instructions::Instruction;
use dmg_core::cpu::instructions::JumpTest;
use dmg_core::cpu::instructions::LoadByteSource;
use dmg_core::cpu::instructions::LoadByteTarget;
use dmg_core::cpu::instructions::LoadType;
use dmg_core::cpu::instructions::LoadWordTarget;
use dmg_core::cpu::instructions::PrefixTarget;
use dmg_core::cpu::instructions::StackTarget;

#[test]
fn opcode_zero_is_nop() {
    assert_eq!(Instruction::from_byte(0x00, false), Some(Instruction::NOP));
}

#[test]
fn escaped_7c_is_bit_7_h() {
    assert_eq!(
        Instruction::from_byte(0x7C, true),
        Some(Instruction::BIT(PrefixTarget::H, BitPosition::B7))
    );
}

#[test]
fn escape_table_assigns_every_byte() {
    for byte in 0..=255u8 {
        assert!(Instruction::from_byte(byte, true).is_some(), "0x{byte:02X}");
    }
}

#[test]
fn unassigned_primary_opcodes_fail() {
    for byte in [0x08u8, 0x10, 0x27, 0xD3, 0xDB, 0xDD, 0xE3, 0xE4, 0xEC, 0xED, 0xF4, 0xFC, 0xFD] {
        assert!(Instruction::from_byte(byte, false).is_none(), "0x{byte:02X}");
    }
}

#[test]
fn escape_byte_itself_is_unassigned_in_primary_table() {
    assert!(Instruction::from_byte(0xCB, false).is_none());
}

#[test]
fn primary_table_spot_checks() {
    assert_eq!(Instruction::from_byte(0x76, false), Some(Instruction::HALT));
    assert_eq!(
        Instruction::from_byte(0x80, false),
        Some(Instruction::ADD(ArithmeticTarget::B))
    );
    assert_eq!(
        Instruction::from_byte(0xC6, false),
        Some(Instruction::ADD(ArithmeticTarget::D8))
    );
    assert_eq!(
        Instruction::from_byte(0x31, false),
        Some(Instruction::LD(LoadType::Word(LoadWordTarget::SP)))
    );
    assert_eq!(Instruction::from_byte(0xE9, false), Some(Instruction::JPI));
    assert_eq!(
        Instruction::from_byte(0xC9, false),
        Some(Instruction::RET(JumpTest::Always))
    );
    assert_eq!(
        Instruction::from_byte(0xCD, false),
        Some(Instruction::CALL(JumpTest::Always))
    );
    assert_eq!(
        Instruction::from_byte(0xF5, false),
        Some(Instruction::PUSH(StackTarget::AF))
    );
    assert_eq!(
        Instruction::from_byte(0xC1, false),
        Some(Instruction::POP(StackTarget::BC))
    );
    assert_eq!(
        Instruction::from_byte(0x09, false),
        Some(Instruction::ADDHL(ADDHLTarget::BC))
    );
    assert_eq!(
        Instruction::from_byte(0x34, false),
        Some(Instruction::INC(IncDecTarget::HLI))
    );
    assert_eq!(
        Instruction::from_byte(0x35, false),
        Some(Instruction::DEC(IncDecTarget::HLI))
    );
    assert_eq!(
        Instruction::from_byte(0x7E, false),
        Some(Instruction::LD(LoadType::Byte(
            LoadByteTarget::A,
            LoadByteSource::HL
        )))
    );
    assert_eq!(
        Instruction::from_byte(0x20, false),
        Some(Instruction::JR(JumpTest::NotZero))
    );
}

#[test]
fn escape_table_spot_checks() {
    assert_eq!(
        Instruction::from_byte(0x00, true),
        Some(Instruction::RLC(PrefixTarget::B))
    );
    assert_eq!(
        Instruction::from_byte(0x37, true),
        Some(Instruction::SWAP(PrefixTarget::A))
    );
    assert_eq!(
        Instruction::from_byte(0x3E, true),
        Some(Instruction::SRL(PrefixTarget::HL))
    );
    assert_eq!(
        Instruction::from_byte(0x40, true),
        Some(Instruction::BIT(PrefixTarget::B, BitPosition::B0))
    );
    assert_eq!(
        Instruction::from_byte(0x9F, true),
        Some(Instruction::RES(PrefixTarget::A, BitPosition::B3))
    );
    assert_eq!(
        Instruction::from_byte(0xFF, true),
        Some(Instruction::SET(PrefixTarget::A, BitPosition::B7))
    );
    assert_eq!(
        Instruction::from_byte(0x1A, true),
        Some(Instruction::RR(PrefixTarget::D))
    );
}
