use vstd::prelude::*;
use crate::disassembly::{disassembly_of, mode_length, AddressingMode, Mnemonic};

verus! {

/// How the CPU carries out one opcode: the operation, the operand it resolves
/// (`Implied` when it resolves none), whether an indexed resolution that
/// crosses a page costs a cycle, the bytes it occupies and its base cycle count.
#[derive(Debug, Clone, Copy, PartialEq, Eq, Structural)]
pub struct Opcode {
    pub operation: Mnemonic,
    pub mode: AddressingMode,
    pub charge_on_crossing: bool,
    pub length: u16,
    pub cycles: u64,
}

/// The execution table of all 256 opcodes.
pub open spec fn opcode_table(opcode: u8) -> Opcode {
    let e = |operation: Mnemonic, mode: AddressingMode, charge_on_crossing: bool, length: u16, cycles: u64|
        Opcode { operation, mode, charge_on_crossing, length, cycles };
    match opcode {
        0x00u8 => e(Mnemonic::BRK, AddressingMode::Implied, false, 1, 7),
        0x01u8 => e(Mnemonic::ORA, AddressingMode::IndirectX, false, 2, 6),
        0x02u8 => e(Mnemonic::JAM, AddressingMode::Implied, false, 1, 0),
        0x03u8 => e(Mnemonic::SLO, AddressingMode::IndirectX, false, 2, 8),
        0x04u8 => e(Mnemonic::NOP, AddressingMode::Implied, false, 2, 3),
        0x05u8 => e(Mnemonic::ORA, AddressingMode::ZeroPage, false, 2, 3),
        0x06u8 => e(Mnemonic::ASL, AddressingMode::ZeroPage, false, 2, 5),
        0x07u8 => e(Mnemonic::SLO, AddressingMode::ZeroPage, false, 2, 5),
        0x08u8 => e(Mnemonic::PHP, AddressingMode::Implied, false, 1, 3),
        0x09u8 => e(Mnemonic::ORA, AddressingMode::Immediate, false, 2, 2),
        0x0Au8 => e(Mnemonic::ASL, AddressingMode::Accumulator, false, 1, 2),
        0x0Bu8 => e(Mnemonic::ANC, AddressingMode::Immediate, false, 2, 2),
        0x0Cu8 => e(Mnemonic::NOP, AddressingMode::Implied, false, 3, 4),
        0x0Du8 => e(Mnemonic::ORA, AddressingMode::Absolute, false, 3, 4),
        0x0Eu8 => e(Mnemonic::ASL, AddressingMode::Absolute, false, 3, 6),
        0x0Fu8 => e(Mnemonic::SLO, AddressingMode::Absolute, false, 3, 6),
        0x10u8 => e(Mnemonic::BPL, AddressingMode::Relative, false, 2, 2),
        0x11u8 => e(Mnemonic::ORA, AddressingMode::IndirectY, true, 2, 5),
        0x12u8 => e(Mnemonic::JAM, AddressingMode::Implied, false, 1, 0),
        0x13u8 => e(Mnemonic::SLO, AddressingMode::IndirectY, false, 2, 8),
        0x14u8 => e(Mnemonic::NOP, AddressingMode::Implied, false, 2, 4),
        0x15u8 => e(Mnemonic::ORA, AddressingMode::ZeroPageX, false, 2, 4),
        0x16u8 => e(Mnemonic::ASL, AddressingMode::ZeroPageX, false, 2, 6),
        0x17u8 => e(Mnemonic::SLO, AddressingMode::ZeroPageX, false, 2, 6),
        0x18u8 => e(Mnemonic::CLC, AddressingMode::Implied, false, 1, 2),
        0x19u8 => e(Mnemonic::ORA, AddressingMode::AbsoluteY, true, 3, 4),
        0x1Au8 => e(Mnemonic::NOP, AddressingMode::Implied, false, 1, 2),
        0x1Bu8 => e(Mnemonic::SLO, AddressingMode::AbsoluteY, false, 3, 7),
        0x1Cu8 => e(Mnemonic::NOP, AddressingMode::AbsoluteX, true, 3, 4),
        0x1Du8 => e(Mnemonic::ORA, AddressingMode::AbsoluteX, true, 3, 4),
        0x1Eu8 => e(Mnemonic::ASL, AddressingMode::AbsoluteX, false, 3, 7),
        0x1Fu8 => e(Mnemonic::SLO, AddressingMode::AbsoluteX, false, 3, 7),
        0x20u8 => e(Mnemonic::JSR, AddressingMode::Absolute, false, 3, 6),
        0x21u8 => e(Mnemonic::AND, AddressingMode::IndirectX, false, 2, 6),
        0x22u8 => e(Mnemonic::JAM, AddressingMode::Implied, false, 1, 0),
        0x23u8 => e(Mnemonic::RLA, AddressingMode::IndirectX, false, 2, 8),
        0x24u8 => e(Mnemonic::BIT, AddressingMode::ZeroPage, false, 2, 3),
        0x25u8 => e(Mnemonic::AND, AddressingMode::ZeroPage, false, 2, 3),
        0x26u8 => e(Mnemonic::ROL, AddressingMode::ZeroPage, false, 2, 5),
        0x27u8 => e(Mnemonic::RLA, AddressingMode::ZeroPage, false, 2, 5),
        0x28u8 => e(Mnemonic::PLP, AddressingMode::Implied, false, 1, 4),
        0x29u8 => e(Mnemonic::AND, AddressingMode::Immediate, false, 2, 2),
        0x2Au8 => e(Mnemonic::ROL, AddressingMode::Accumulator, false, 1, 2),
        0x2Bu8 => e(Mnemonic::ANC, AddressingMode::Immediate, false, 2, 2),
        0x2Cu8 => e(Mnemonic::BIT, AddressingMode::Absolute, false, 3, 4),
        0x2Du8 => e(Mnemonic::AND, AddressingMode::Absolute, false, 3, 4),
        0x2Eu8 => e(Mnemonic::ROL, AddressingMode::Absolute, false, 3, 6),
        0x2Fu8 => e(Mnemonic::RLA, AddressingMode::Absolute, false, 3, 6),
        0x30u8 => e(Mnemonic::BMI, AddressingMode::Relative, false, 2, 2),
        0x31u8 => e(Mnemonic::AND, AddressingMode::IndirectY, true, 2, 5),
        0x32u8 => e(Mnemonic::JAM, AddressingMode::Implied, false, 1, 0),
        0x33u8 => e(Mnemonic::RLA, AddressingMode::IndirectY, false, 2, 8),
        0x34u8 => e(Mnemonic::NOP, AddressingMode::Implied, false, 2, 4),
        0x35u8 => e(Mnemonic::AND, AddressingMode::ZeroPageX, false, 2, 4),
        0x36u8 => e(Mnemonic::ROL, AddressingMode::ZeroPageX, false, 2, 6),
        0x37u8 => e(Mnemonic::RLA, AddressingMode::ZeroPageX, false, 2, 6),
        0x38u8 => e(Mnemonic::SEC, AddressingMode::Implied, false, 1, 2),
        0x39u8 => e(Mnemonic::AND, AddressingMode::AbsoluteY, true, 3, 4),
        0x3Au8 => e(Mnemonic::NOP, AddressingMode::Implied, false, 1, 2),
        0x3Bu8 => e(Mnemonic::RLA, AddressingMode::AbsoluteY, false, 3, 7),
        0x3Cu8 => e(Mnemonic::NOP, AddressingMode::AbsoluteX, true, 3, 4),
        0x3Du8 => e(Mnemonic::AND, AddressingMode::AbsoluteX, true, 3, 4),
        0x3Eu8 => e(Mnemonic::ROL, AddressingMode::AbsoluteX, false, 3, 7),
        0x3Fu8 => e(Mnemonic::RLA, AddressingMode::AbsoluteX, false, 3, 7),
        0x40u8 => e(Mnemonic::RTI, AddressingMode::Implied, false, 1, 6),
        0x41u8 => e(Mnemonic::EOR, AddressingMode::IndirectX, false, 2, 6),
        0x42u8 => e(Mnemonic::JAM, AddressingMode::Implied, false, 1, 0),
        0x43u8 => e(Mnemonic::SRE, AddressingMode::IndirectX, false, 2, 8),
        0x44u8 => e(Mnemonic::NOP, AddressingMode::Implied, false, 2, 3),
        0x45u8 => e(Mnemonic::EOR, AddressingMode::ZeroPage, false, 2, 3),
        0x46u8 => e(Mnemonic::LSR, AddressingMode::ZeroPage, false, 2, 5),
        0x47u8 => e(Mnemonic::SRE, AddressingMode::ZeroPage, false, 2, 5),
        0x48u8 => e(Mnemonic::PHA, AddressingMode::Implied, false, 1, 3),
        0x49u8 => e(Mnemonic::EOR, AddressingMode::Immediate, false, 2, 2),
        0x4Au8 => e(Mnemonic::LSR, AddressingMode::Accumulator, false, 1, 2),
        0x4Bu8 => e(Mnemonic::ALR, AddressingMode::Immediate, false, 2, 2),
        0x4Cu8 => e(Mnemonic::JMP, AddressingMode::Absolute, false, 3, 3),
        0x4Du8 => e(Mnemonic::EOR, AddressingMode::Absolute, false, 3, 4),
        0x4Eu8 => e(Mnemonic::LSR, AddressingMode::Absolute, false, 3, 6),
        0x4Fu8 => e(Mnemonic::SRE, AddressingMode::Absolute, false, 3, 6),
        0x50u8 => e(Mnemonic::BVC, AddressingMode::Relative, false, 2, 2),
        0x51u8 => e(Mnemonic::EOR, AddressingMode::IndirectY, true, 2, 5),
        0x52u8 => e(Mnemonic::JAM, AddressingMode::Implied, false, 1, 0),
        0x53u8 => e(Mnemonic::SRE, AddressingMode::IndirectY, false, 2, 8),
        0x54u8 => e(Mnemonic::NOP, AddressingMode::Implied, false, 2, 4),
        0x55u8 => e(Mnemonic::EOR, AddressingMode::ZeroPageX, false, 2, 4),
        0x56u8 => e(Mnemonic::LSR, AddressingMode::ZeroPageX, false, 2, 6),
        0x57u8 => e(Mnemonic::SRE, AddressingMode::ZeroPageX, false, 2, 6),
        0x58u8 => e(Mnemonic::CLI, AddressingMode::Implied, false, 1, 2),
        0x59u8 => e(Mnemonic::EOR, AddressingMode::AbsoluteY, true, 3, 4),
        0x5Au8 => e(Mnemonic::NOP, AddressingMode::Implied, false, 1, 2),
        0x5Bu8 => e(Mnemonic::SRE, AddressingMode::AbsoluteY, false, 3, 7),
        0x5Cu8 => e(Mnemonic::NOP, AddressingMode::AbsoluteX, true, 3, 4),
        0x5Du8 => e(Mnemonic::EOR, AddressingMode::AbsoluteX, true, 3, 4),
        0x5Eu8 => e(Mnemonic::LSR, AddressingMode::AbsoluteX, false, 3, 7),
        0x5Fu8 => e(Mnemonic::SRE, AddressingMode::AbsoluteX, false, 3, 7),
        0x60u8 => e(Mnemonic::RTS, AddressingMode::Implied, false, 1, 6),
        0x61u8 => e(Mnemonic::ADC, AddressingMode::IndirectX, false, 2, 6),
        0x62u8 => e(Mnemonic::JAM, AddressingMode::Implied, false, 1, 0),
        0x63u8 => e(Mnemonic::RRA, AddressingMode::IndirectX, false, 2, 8),
        0x64u8 => e(Mnemonic::NOP, AddressingMode::Implied, false, 2, 3),
        0x65u8 => e(Mnemonic::ADC, AddressingMode::ZeroPage, false, 2, 3),
        0x66u8 => e(Mnemonic::ROR, AddressingMode::ZeroPage, false, 2, 5),
        0x67u8 => e(Mnemonic::RRA, AddressingMode::ZeroPage, false, 2, 5),
        0x68u8 => e(Mnemonic::PLA, AddressingMode::Implied, false, 1, 4),
        0x69u8 => e(Mnemonic::ADC, AddressingMode::Immediate, false, 2, 2),
        0x6Au8 => e(Mnemonic::ROR, AddressingMode::Accumulator, false, 1, 2),
        0x6Bu8 => e(Mnemonic::ARR, AddressingMode::Immediate, false, 2, 2),
        0x6Cu8 => e(Mnemonic::JMP, AddressingMode::Indirect, false, 3, 5),
        0x6Du8 => e(Mnemonic::ADC, AddressingMode::Absolute, false, 3, 4),
        0x6Eu8 => e(Mnemonic::ROR, AddressingMode::Absolute, false, 3, 6),
        0x6Fu8 => e(Mnemonic::RRA, AddressingMode::Absolute, false, 3, 6),
        0x70u8 => e(Mnemonic::BVS, AddressingMode::Relative, false, 2, 2),
        0x71u8 => e(Mnemonic::ADC, AddressingMode::IndirectY, true, 2, 5),
        0x72u8 => e(Mnemonic::JAM, AddressingMode::Implied, false, 1, 0),
        0x73u8 => e(Mnemonic::RRA, AddressingMode::IndirectY, false, 2, 8),
        0x74u8 => e(Mnemonic::NOP, AddressingMode::Implied, false, 2, 4),
        0x75u8 => e(Mnemonic::ADC, AddressingMode::ZeroPageX, false, 2, 4),
        0x76u8 => e(Mnemonic::ROR, AddressingMode::ZeroPageX, false, 2, 6),
        0x77u8 => e(Mnemonic::RRA, AddressingMode::ZeroPageX, false, 2, 6),
        0x78u8 => e(Mnemonic::SEI, AddressingMode::Implied, false, 1, 2),
        0x79u8 => e(Mnemonic::ADC, AddressingMode::AbsoluteY, true, 3, 4),
        0x7Au8 => e(Mnemonic::NOP, AddressingMode::Implied, false, 1, 2),
        0x7Bu8 => e(Mnemonic::RRA, AddressingMode::AbsoluteY, false, 3, 7),
        0x7Cu8 => e(Mnemonic::NOP, AddressingMode::AbsoluteX, true, 3, 4),
        0x7Du8 => e(Mnemonic::ADC, AddressingMode::AbsoluteX, true, 3, 4),
        0x7Eu8 => e(Mnemonic::ROR, AddressingMode::AbsoluteX, false, 3, 7),
        0x7Fu8 => e(Mnemonic::RRA, AddressingMode::AbsoluteX, false, 3, 7),
        0x80u8 => e(Mnemonic::NOP, AddressingMode::Implied, false, 2, 2),
        0x81u8 => e(Mnemonic::STA, AddressingMode::IndirectX, false, 2, 6),
        0x82u8 => e(Mnemonic::NOP, AddressingMode::Implied, false, 2, 2),
        0x83u8 => e(Mnemonic::SAX, AddressingMode::IndirectX, false, 2, 6),
        0x84u8 => e(Mnemonic::STY, AddressingMode::ZeroPage, false, 2, 3),
        0x85u8 => e(Mnemonic::STA, AddressingMode::ZeroPage, false, 2, 3),
        0x86u8 => e(Mnemonic::STX, AddressingMode::ZeroPage, false, 2, 3),
        0x87u8 => e(Mnemonic::SAX, AddressingMode::ZeroPage, false, 2, 3),
        0x88u8 => e(Mnemonic::DEY, AddressingMode::Implied, false, 1, 2),
        0x89u8 => e(Mnemonic::NOP, AddressingMode::Implied, false, 2, 2),
        0x8Au8 => e(Mnemonic::TXA, AddressingMode::Implied, false, 1, 2),
        0x8Bu8 => e(Mnemonic::XAA, AddressingMode::Immediate, false, 2, 2),
        0x8Cu8 => e(Mnemonic::STY, AddressingMode::Absolute, false, 3, 4),
        0x8Du8 => e(Mnemonic::STA, AddressingMode::Absolute, false, 3, 4),
        0x8Eu8 => e(Mnemonic::STX, AddressingMode::Absolute, false, 3, 4),
        0x8Fu8 => e(Mnemonic::SAX, AddressingMode::Absolute, false, 3, 4),
        0x90u8 => e(Mnemonic::BCC, AddressingMode::Relative, false, 2, 2),
        0x91u8 => e(Mnemonic::STA, AddressingMode::IndirectY, false, 2, 6),
        0x92u8 => e(Mnemonic::JAM, AddressingMode::Implied, false, 1, 0),
        0x93u8 => e(Mnemonic::SHA, AddressingMode::IndirectY, false, 2, 6),
        0x94u8 => e(Mnemonic::STY, AddressingMode::ZeroPageX, false, 2, 4),
        0x95u8 => e(Mnemonic::STA, AddressingMode::ZeroPageX, false, 2, 4),
        0x96u8 => e(Mnemonic::STX, AddressingMode::ZeroPageY, false, 2, 4),
        0x97u8 => e(Mnemonic::SAX, AddressingMode::ZeroPageY, false, 2, 4),
        0x98u8 => e(Mnemonic::TYA, AddressingMode::Implied, false, 1, 2),
        0x99u8 => e(Mnemonic::STA, AddressingMode::AbsoluteY, false, 3, 5),
        0x9Au8 => e(Mnemonic::TXS, AddressingMode::Implied, false, 1, 2),
        0x9Bu8 => e(Mnemonic::TAS, AddressingMode::AbsoluteY, false, 3, 5),
        0x9Cu8 => e(Mnemonic::SHY, AddressingMode::AbsoluteX, false, 3, 5),
        0x9Du8 => e(Mnemonic::STA, AddressingMode::AbsoluteX, false, 3, 5),
        0x9Eu8 => e(Mnemonic::SHX, AddressingMode::AbsoluteY, false, 3, 5),
        0x9Fu8 => e(Mnemonic::SHA, AddressingMode::AbsoluteY, false, 3, 5),
        0xA0u8 => e(Mnemonic::LDY, AddressingMode::Immediate, false, 2, 2),
        0xA1u8 => e(Mnemonic::LDA, AddressingMode::IndirectX, false, 2, 6),
        0xA2u8 => e(Mnemonic::LDX, AddressingMode::Immediate, false, 2, 2),
        0xA3u8 => e(Mnemonic::LAX, AddressingMode::IndirectX, false, 2, 6),
        0xA4u8 => e(Mnemonic::LDY, AddressingMode::ZeroPage, false, 2, 3),
        0xA5u8 => e(Mnemonic::LDA, AddressingMode::ZeroPage, false, 2, 3),
        0xA6u8 => e(Mnemonic::LDX, AddressingMode::ZeroPage, false, 2, 3),
        0xA7u8 => e(Mnemonic::LAX, AddressingMode::ZeroPage, false, 2, 3),
        0xA8u8 => e(Mnemonic::TAY, AddressingMode::Implied, false, 1, 2),
        0xA9u8 => e(Mnemonic::LDA, AddressingMode::Immediate, false, 2, 2),
        0xAAu8 => e(Mnemonic::TAX, AddressingMode::Implied, false, 1, 2),
        0xABu8 => e(Mnemonic::LXA, AddressingMode::Immediate, false, 2, 2),
        0xACu8 => e(Mnemonic::LDY, AddressingMode::Absolute, false, 3, 4),
        0xADu8 => e(Mnemonic::LDA, AddressingMode::Absolute, false, 3, 4),
        0xAEu8 => e(Mnemonic::LDX, AddressingMode::Absolute, false, 3, 4),
        0xAFu8 => e(Mnemonic::LAX, AddressingMode::Absolute, false, 3, 4),
        0xB0u8 => e(Mnemonic::BCS, AddressingMode::Relative, false, 2, 2),
        0xB1u8 => e(Mnemonic::LDA, AddressingMode::IndirectY, true, 2, 5),
        0xB2u8 => e(Mnemonic::JAM, AddressingMode::Implied, false, 1, 0),
        0xB3u8 => e(Mnemonic::LAX, AddressingMode::IndirectY, true, 2, 5),
        0xB4u8 => e(Mnemonic::LDY, AddressingMode::ZeroPageX, false, 2, 4),
        0xB5u8 => e(Mnemonic::LDA, AddressingMode::ZeroPageX, false, 2, 4),
        0xB6u8 => e(Mnemonic::LDX, AddressingMode::ZeroPageY, false, 2, 4),
        0xB7u8 => e(Mnemonic::LAX, AddressingMode::ZeroPageY, false, 2, 4),
        0xB8u8 => e(Mnemonic::CLV, AddressingMode::Implied, false, 1, 2),
        0xB9u8 => e(Mnemonic::LDA, AddressingMode::AbsoluteY, true, 3, 4),
        0xBAu8 => e(Mnemonic::TSX, AddressingMode::Implied, false, 1, 2),
        0xBBu8 => e(Mnemonic::LAS, AddressingMode::AbsoluteY, true, 3, 4),
        0xBCu8 => e(Mnemonic::LDY, AddressingMode::AbsoluteX, true, 3, 4),
        0xBDu8 => e(Mnemonic::LDA, AddressingMode::AbsoluteX, true, 3, 4),
        0xBEu8 => e(Mnemonic::LDX, AddressingMode::AbsoluteY, true, 3, 4),
        0xBFu8 => e(Mnemonic::LAX, AddressingMode::AbsoluteY, true, 3, 4),
        0xC0u8 => e(Mnemonic::CPY, AddressingMode::Immediate, false, 2, 2),
        0xC1u8 => e(Mnemonic::CMP, AddressingMode::IndirectX, false, 2, 6),
        0xC2u8 => e(Mnemonic::NOP, AddressingMode::Implied, false, 2, 2),
        0xC3u8 => e(Mnemonic::DCP, AddressingMode::IndirectX, false, 2, 8),
        0xC4u8 => e(Mnemonic::CPY, AddressingMode::ZeroPage, false, 2, 3),
        0xC5u8 => e(Mnemonic::CMP, AddressingMode::ZeroPage, false, 2, 3),
        0xC6u8 => e(Mnemonic::DEC, AddressingMode::ZeroPage, false, 2, 5),
        0xC7u8 => e(Mnemonic::DCP, AddressingMode::ZeroPage, false, 2, 5),
        0xC8u8 => e(Mnemonic::INY, AddressingMode::Implied, false, 1, 2),
        0xC9u8 => e(Mnemonic::CMP, AddressingMode::Immediate, false, 2, 2),
        0xCAu8 => e(Mnemonic::DEX, AddressingMode::Implied, false, 1, 2),
        0xCBu8 => e(Mnemonic::SBX, AddressingMode::Immediate, false, 2, 2),
        0xCCu8 => e(Mnemonic::CPY, AddressingMode::Absolute, false, 3, 4),
        0xCDu8 => e(Mnemonic::CMP, AddressingMode::Absolute, false, 3, 4),
        0xCEu8 => e(Mnemonic::DEC, AddressingMode::Absolute, false, 3, 6),
        0xCFu8 => e(Mnemonic::DCP, AddressingMode::Absolute, false, 3, 6),
        0xD0u8 => e(Mnemonic::BNE, AddressingMode::Relative, false, 2, 2),
        0xD1u8 => e(Mnemonic::CMP, AddressingMode::IndirectY, true, 2, 5),
        0xD2u8 => e(Mnemonic::JAM, AddressingMode::Implied, false, 1, 0),
        0xD3u8 => e(Mnemonic::DCP, AddressingMode::IndirectY, false, 2, 8),
        0xD4u8 => e(Mnemonic::NOP, AddressingMode::Implied, false, 2, 4),
        0xD5u8 => e(Mnemonic::CMP, AddressingMode::ZeroPageX, false, 2, 4),
        0xD6u8 => e(Mnemonic::DEC, AddressingMode::ZeroPageX, false, 2, 6),
        0xD7u8 => e(Mnemonic::DCP, AddressingMode::ZeroPageX, false, 2, 6),
        0xD8u8 => e(Mnemonic::CLD, AddressingMode::Implied, false, 1, 2),
        0xD9u8 => e(Mnemonic::CMP, AddressingMode::AbsoluteY, true, 3, 4),
        0xDAu8 => e(Mnemonic::NOP, AddressingMode::Implied, false, 1, 2),
        0xDBu8 => e(Mnemonic::DCP, AddressingMode::AbsoluteY, false, 3, 7),
        0xDCu8 => e(Mnemonic::NOP, AddressingMode::AbsoluteX, true, 3, 4),
        0xDDu8 => e(Mnemonic::CMP, AddressingMode::AbsoluteX, true, 3, 4),
        0xDEu8 => e(Mnemonic::DEC, AddressingMode::AbsoluteX, false, 3, 7),
        0xDFu8 => e(Mnemonic::DCP, AddressingMode::AbsoluteX, false, 3, 7),
        0xE0u8 => e(Mnemonic::CPX, AddressingMode::Immediate, false, 2, 2),
        0xE1u8 => e(Mnemonic::SBC, AddressingMode::IndirectX, false, 2, 6),
        0xE2u8 => e(Mnemonic::NOP, AddressingMode::Implied, false, 2, 2),
        0xE3u8 => e(Mnemonic::ISC, AddressingMode::IndirectX, false, 2, 8),
        0xE4u8 => e(Mnemonic::CPX, AddressingMode::ZeroPage, false, 2, 3),
        0xE5u8 => e(Mnemonic::SBC, AddressingMode::ZeroPage, false, 2, 3),
        0xE6u8 => e(Mnemonic::INC, AddressingMode::ZeroPage, false, 2, 5),
        0xE7u8 => e(Mnemonic::ISC, AddressingMode::ZeroPage, false, 2, 5),
        0xE8u8 => e(Mnemonic::INX, AddressingMode::Implied, false, 1, 2),
        0xE9u8 => e(Mnemonic::SBC, AddressingMode::Immediate, false, 2, 2),
        0xEAu8 => e(Mnemonic::NOP, AddressingMode::Implied, false, 1, 2),
        0xEBu8 => e(Mnemonic::SBC, AddressingMode::Immediate, false, 2, 2),
        0xECu8 => e(Mnemonic::CPX, AddressingMode::Absolute, false, 3, 4),
        0xEDu8 => e(Mnemonic::SBC, AddressingMode::Absolute, false, 3, 4),
        0xEEu8 => e(Mnemonic::INC, AddressingMode::Absolute, false, 3, 6),
        0xEFu8 => e(Mnemonic::ISC, AddressingMode::Absolute, false, 3, 6),
        0xF0u8 => e(Mnemonic::BEQ, AddressingMode::Relative, false, 2, 2),
        0xF1u8 => e(Mnemonic::SBC, AddressingMode::IndirectY, true, 2, 5),
        0xF2u8 => e(Mnemonic::JAM, AddressingMode::Implied, false, 1, 0),
        0xF3u8 => e(Mnemonic::ISC, AddressingMode::IndirectY, false, 2, 8),
        0xF4u8 => e(Mnemonic::NOP, AddressingMode::Implied, false, 2, 4),
        0xF5u8 => e(Mnemonic::SBC, AddressingMode::ZeroPageX, false, 2, 4),
        0xF6u8 => e(Mnemonic::INC, AddressingMode::ZeroPageX, false, 2, 6),
        0xF7u8 => e(Mnemonic::ISC, AddressingMode::ZeroPageX, false, 2, 6),
        0xF8u8 => e(Mnemonic::SED, AddressingMode::Implied, false, 1, 2),
        0xF9u8 => e(Mnemonic::SBC, AddressingMode::AbsoluteY, true, 3, 4),
        0xFAu8 => e(Mnemonic::NOP, AddressingMode::Implied, false, 1, 2),
        0xFBu8 => e(Mnemonic::ISC, AddressingMode::AbsoluteY, false, 3, 7),
        0xFCu8 => e(Mnemonic::NOP, AddressingMode::AbsoluteX, true, 3, 4),
        0xFDu8 => e(Mnemonic::SBC, AddressingMode::AbsoluteX, true, 3, 4),
        0xFEu8 => e(Mnemonic::INC, AddressingMode::AbsoluteX, false, 3, 7),
        0xFFu8 => e(Mnemonic::ISC, AddressingMode::AbsoluteX, false, 3, 7),
    }
}

pub fn decode_opcode(opcode: u8) -> (r: Opcode)
    ensures
        r == opcode_table(opcode),
{
    let e = |operation: Mnemonic, mode: AddressingMode, charge_on_crossing: bool, length: u16, cycles: u64| -> (r: Opcode)
        ensures r == (Opcode { operation, mode, charge_on_crossing, length, cycles })
    { Opcode { operation, mode, charge_on_crossing, length, cycles } };
    match opcode {
        0x00u8 => e(Mnemonic::BRK, AddressingMode::Implied, false, 1, 7),
        0x01u8 => e(Mnemonic::ORA, AddressingMode::IndirectX, false, 2, 6),
        0x02u8 => e(Mnemonic::JAM, AddressingMode::Implied, false, 1, 0),
        0x03u8 => e(Mnemonic::SLO, AddressingMode::IndirectX, false, 2, 8),
        0x04u8 => e(Mnemonic::NOP, AddressingMode::Implied, false, 2, 3),
        0x05u8 => e(Mnemonic::ORA, AddressingMode::ZeroPage, false, 2, 3),
        0x06u8 => e(Mnemonic::ASL, AddressingMode::ZeroPage, false, 2, 5),
        0x07u8 => e(Mnemonic::SLO, AddressingMode::ZeroPage, false, 2, 5),
        0x08u8 => e(Mnemonic::PHP, AddressingMode::Implied, false, 1, 3),
        0x09u8 => e(Mnemonic::ORA, AddressingMode::Immediate, false, 2, 2),
        0x0Au8 => e(Mnemonic::ASL, AddressingMode::Accumulator, false, 1, 2),
        0x0Bu8 => e(Mnemonic::ANC, AddressingMode::Immediate, false, 2, 2),
        0x0Cu8 => e(Mnemonic::NOP, AddressingMode::Implied, false, 3, 4),
        0x0Du8 => e(Mnemonic::ORA, AddressingMode::Absolute, false, 3, 4),
        0x0Eu8 => e(Mnemonic::ASL, AddressingMode::Absolute, false, 3, 6),
        0x0Fu8 => e(Mnemonic::SLO, AddressingMode::Absolute, false, 3, 6),
        0x10u8 => e(Mnemonic::BPL, AddressingMode::Relative, false, 2, 2),
        0x11u8 => e(Mnemonic::ORA, AddressingMode::IndirectY, true, 2, 5),
        0x12u8 => e(Mnemonic::JAM, AddressingMode::Implied, false, 1, 0),
        0x13u8 => e(Mnemonic::SLO, AddressingMode::IndirectY, false, 2, 8),
        0x14u8 => e(Mnemonic::NOP, AddressingMode::Implied, false, 2, 4),
        0x15u8 => e(Mnemonic::ORA, AddressingMode::ZeroPageX, false, 2, 4),
        0x16u8 => e(Mnemonic::ASL, AddressingMode::ZeroPageX, false, 2, 6),
        0x17u8 => e(Mnemonic::SLO, AddressingMode::ZeroPageX, false, 2, 6),
        0x18u8 => e(Mnemonic::CLC, AddressingMode::Implied, false, 1, 2),
        0x19u8 => e(Mnemonic::ORA, AddressingMode::AbsoluteY, true, 3, 4),
        0x1Au8 => e(Mnemonic::NOP, AddressingMode::Implied, false, 1, 2),
        0x1Bu8 => e(Mnemonic::SLO, AddressingMode::AbsoluteY, false, 3, 7),
        0x1Cu8 => e(Mnemonic::NOP, AddressingMode::AbsoluteX, true, 3, 4),
        0x1Du8 => e(Mnemonic::ORA, AddressingMode::AbsoluteX, true, 3, 4),
        0x1Eu8 => e(Mnemonic::ASL, AddressingMode::AbsoluteX, false, 3, 7),
        0x1Fu8 => e(Mnemonic::SLO, AddressingMode::AbsoluteX, false, 3, 7),
        0x20u8 => e(Mnemonic::JSR, AddressingMode::Absolute, false, 3, 6),
        0x21u8 => e(Mnemonic::AND, AddressingMode::IndirectX, false, 2, 6),
        0x22u8 => e(Mnemonic::JAM, AddressingMode::Implied, false, 1, 0),
        0x23u8 => e(Mnemonic::RLA, AddressingMode::IndirectX, false, 2, 8),
        0x24u8 => e(Mnemonic::BIT, AddressingMode::ZeroPage, false, 2, 3),
        0x25u8 => e(Mnemonic::AND, AddressingMode::ZeroPage, false, 2, 3),
        0x26u8 => e(Mnemonic::ROL, AddressingMode::ZeroPage, false, 2, 5),
        0x27u8 => e(Mnemonic::RLA, AddressingMode::ZeroPage, false, 2, 5),
        0x28u8 => e(Mnemonic::PLP, AddressingMode::Implied, false, 1, 4),
        0x29u8 => e(Mnemonic::AND, AddressingMode::Immediate, false, 2, 2),
        0x2Au8 => e(Mnemonic::ROL, AddressingMode::Accumulator, false, 1, 2),
        0x2Bu8 => e(Mnemonic::ANC, AddressingMode::Immediate, false, 2, 2),
        0x2Cu8 => e(Mnemonic::BIT, AddressingMode::Absolute, false, 3, 4),
        0x2Du8 => e(Mnemonic::AND, AddressingMode::Absolute, false, 3, 4),
        0x2Eu8 => e(Mnemonic::ROL, AddressingMode::Absolute, false, 3, 6),
        0x2Fu8 => e(Mnemonic::RLA, AddressingMode::Absolute, false, 3, 6),
        0x30u8 => e(Mnemonic::BMI, AddressingMode::Relative, false, 2, 2),
        0x31u8 => e(Mnemonic::AND, AddressingMode::IndirectY, true, 2, 5),
        0x32u8 => e(Mnemonic::JAM, AddressingMode::Implied, false, 1, 0),
        0x33u8 => e(Mnemonic::RLA, AddressingMode::IndirectY, false, 2, 8),
        0x34u8 => e(Mnemonic::NOP, AddressingMode::Implied, false, 2, 4),
        0x35u8 => e(Mnemonic::AND, AddressingMode::ZeroPageX, false, 2, 4),
        0x36u8 => e(Mnemonic::ROL, AddressingMode::ZeroPageX, false, 2, 6),
        0x37u8 => e(Mnemonic::RLA, AddressingMode::ZeroPageX, false, 2, 6),
        0x38u8 => e(Mnemonic::SEC, AddressingMode::Implied, false, 1, 2),
        0x39u8 => e(Mnemonic::AND, AddressingMode::AbsoluteY, true, 3, 4),
        0x3Au8 => e(Mnemonic::NOP, AddressingMode::Implied, false, 1, 2),
        0x3Bu8 => e(Mnemonic::RLA, AddressingMode::AbsoluteY, false, 3, 7),
        0x3Cu8 => e(Mnemonic::NOP, AddressingMode::AbsoluteX, true, 3, 4),
        0x3Du8 => e(Mnemonic::AND, AddressingMode::AbsoluteX, true, 3, 4),
        0x3Eu8 => e(Mnemonic::ROL, AddressingMode::AbsoluteX, false, 3, 7),
        0x3Fu8 => e(Mnemonic::RLA, AddressingMode::AbsoluteX, false, 3, 7),
        0x40u8 => e(Mnemonic::RTI, AddressingMode::Implied, false, 1, 6),
        0x41u8 => e(Mnemonic::EOR, AddressingMode::IndirectX, false, 2, 6),
        0x42u8 => e(Mnemonic::JAM, AddressingMode::Implied, false, 1, 0),
        0x43u8 => e(Mnemonic::SRE, AddressingMode::IndirectX, false, 2, 8),
        0x44u8 => e(Mnemonic::NOP, AddressingMode::Implied, false, 2, 3),
        0x45u8 => e(Mnemonic::EOR, AddressingMode::ZeroPage, false, 2, 3),
        0x46u8 => e(Mnemonic::LSR, AddressingMode::ZeroPage, false, 2, 5),
        0x47u8 => e(Mnemonic::SRE, AddressingMode::ZeroPage, false, 2, 5),
        0x48u8 => e(Mnemonic::PHA, AddressingMode::Implied, false, 1, 3),
        0x49u8 => e(Mnemonic::EOR, AddressingMode::Immediate, false, 2, 2),
        0x4Au8 => e(Mnemonic::LSR, AddressingMode::Accumulator, false, 1, 2),
        0x4Bu8 => e(Mnemonic::ALR, AddressingMode::Immediate, false, 2, 2),
        0x4Cu8 => e(Mnemonic::JMP, AddressingMode::Absolute, false, 3, 3),
        0x4Du8 => e(Mnemonic::EOR, AddressingMode::Absolute, false, 3, 4),
        0x4Eu8 => e(Mnemonic::LSR, AddressingMode::Absolute, false, 3, 6),
        0x4Fu8 => e(Mnemonic::SRE, AddressingMode::Absolute, false, 3, 6),
        0x50u8 => e(Mnemonic::BVC, AddressingMode::Relative, false, 2, 2),
        0x51u8 => e(Mnemonic::EOR, AddressingMode::IndirectY, true, 2, 5),
        0x52u8 => e(Mnemonic::JAM, AddressingMode::Implied, false, 1, 0),
        0x53u8 => e(Mnemonic::SRE, AddressingMode::IndirectY, false, 2, 8),
        0x54u8 => e(Mnemonic::NOP, AddressingMode::Implied, false, 2, 4),
        0x55u8 => e(Mnemonic::EOR, AddressingMode::ZeroPageX, false, 2, 4),
        0x56u8 => e(Mnemonic::LSR, AddressingMode::ZeroPageX, false, 2, 6),
        0x57u8 => e(Mnemonic::SRE, AddressingMode::ZeroPageX, false, 2, 6),
        0x58u8 => e(Mnemonic::CLI, AddressingMode::Implied, false, 1, 2),
        0x59u8 => e(Mnemonic::EOR, AddressingMode::AbsoluteY, true, 3, 4),
        0x5Au8 => e(Mnemonic::NOP, AddressingMode::Implied, false, 1, 2),
        0x5Bu8 => e(Mnemonic::SRE, AddressingMode::AbsoluteY, false, 3, 7),
        0x5Cu8 => e(Mnemonic::NOP, AddressingMode::AbsoluteX, true, 3, 4),
        0x5Du8 => e(Mnemonic::EOR, AddressingMode::AbsoluteX, true, 3, 4),
        0x5Eu8 => e(Mnemonic::LSR, AddressingMode::AbsoluteX, false, 3, 7),
        0x5Fu8 => e(Mnemonic::SRE, AddressingMode::AbsoluteX, false, 3, 7),
        0x60u8 => e(Mnemonic::RTS, AddressingMode::Implied, false, 1, 6),
        0x61u8 => e(Mnemonic::ADC, AddressingMode::IndirectX, false, 2, 6),
        0x62u8 => e(Mnemonic::JAM, AddressingMode::Implied, false, 1, 0),
        0x63u8 => e(Mnemonic::RRA, AddressingMode::IndirectX, false, 2, 8),
        0x64u8 => e(Mnemonic::NOP, AddressingMode::Implied, false, 2, 3),
        0x65u8 => e(Mnemonic::ADC, AddressingMode::ZeroPage, false, 2, 3),
        0x66u8 => e(Mnemonic::ROR, AddressingMode::ZeroPage, false, 2, 5),
        0x67u8 => e(Mnemonic::RRA, AddressingMode::ZeroPage, false, 2, 5),
        0x68u8 => e(Mnemonic::PLA, AddressingMode::Implied, false, 1, 4),
        0x69u8 => e(Mnemonic::ADC, AddressingMode::Immediate, false, 2, 2),
        0x6Au8 => e(Mnemonic::ROR, AddressingMode::Accumulator, false, 1, 2),
        0x6Bu8 => e(Mnemonic::ARR, AddressingMode::Immediate, false, 2, 2),
        0x6Cu8 => e(Mnemonic::JMP, AddressingMode::Indirect, false, 3, 5),
        0x6Du8 => e(Mnemonic::ADC, AddressingMode::Absolute, false, 3, 4),
        0x6Eu8 => e(Mnemonic::ROR, AddressingMode::Absolute, false, 3, 6),
        0x6Fu8 => e(Mnemonic::RRA, AddressingMode::Absolute, false, 3, 6),
        0x70u8 => e(Mnemonic::BVS, AddressingMode::Relative, false, 2, 2),
        0x71u8 => e(Mnemonic::ADC, AddressingMode::IndirectY, true, 2, 5),
        0x72u8 => e(Mnemonic::JAM, AddressingMode::Implied, false, 1, 0),
        0x73u8 => e(Mnemonic::RRA, AddressingMode::IndirectY, false, 2, 8),
        0x74u8 => e(Mnemonic::NOP, AddressingMode::Implied, false, 2, 4),
        0x75u8 => e(Mnemonic::ADC, AddressingMode::ZeroPageX, false, 2, 4),
        0x76u8 => e(Mnemonic::ROR, AddressingMode::ZeroPageX, false, 2, 6),
        0x77u8 => e(Mnemonic::RRA, AddressingMode::ZeroPageX, false, 2, 6),
        0x78u8 => e(Mnemonic::SEI, AddressingMode::Implied, false, 1, 2),
        0x79u8 => e(Mnemonic::ADC, AddressingMode::AbsoluteY, true, 3, 4),
        0x7Au8 => e(Mnemonic::NOP, AddressingMode::Implied, false, 1, 2),
        0x7Bu8 => e(Mnemonic::RRA, AddressingMode::AbsoluteY, false, 3, 7),
        0x7Cu8 => e(Mnemonic::NOP, AddressingMode::AbsoluteX, true, 3, 4),
        0x7Du8 => e(Mnemonic::ADC, AddressingMode::AbsoluteX, true, 3, 4),
        0x7Eu8 => e(Mnemonic::ROR, AddressingMode::AbsoluteX, false, 3, 7),
        0x7Fu8 => e(Mnemonic::RRA, AddressingMode::AbsoluteX, false, 3, 7),
        0x80u8 => e(Mnemonic::NOP, AddressingMode::Implied, false, 2, 2),
        0x81u8 => e(Mnemonic::STA, AddressingMode::IndirectX, false, 2, 6),
        0x82u8 => e(Mnemonic::NOP, AddressingMode::Implied, false, 2, 2),
        0x83u8 => e(Mnemonic::SAX, AddressingMode::IndirectX, false, 2, 6),
        0x84u8 => e(Mnemonic::STY, AddressingMode::ZeroPage, false, 2, 3),
        0x85u8 => e(Mnemonic::STA, AddressingMode::ZeroPage, false, 2, 3),
        0x86u8 => e(Mnemonic::STX, AddressingMode::ZeroPage, false, 2, 3),
        0x87u8 => e(Mnemonic::SAX, AddressingMode::ZeroPage, false, 2, 3),
        0x88u8 => e(Mnemonic::DEY, AddressingMode::Implied, false, 1, 2),
        0x89u8 => e(Mnemonic::NOP, AddressingMode::Implied, false, 2, 2),
        0x8Au8 => e(Mnemonic::TXA, AddressingMode::Implied, false, 1, 2),
        0x8Bu8 => e(Mnemonic::XAA, AddressingMode::Immediate, false, 2, 2),
        0x8Cu8 => e(Mnemonic::STY, AddressingMode::Absolute, false, 3, 4),
        0x8Du8 => e(Mnemonic::STA, AddressingMode::Absolute, false, 3, 4),
        0x8Eu8 => e(Mnemonic::STX, AddressingMode::Absolute, false, 3, 4),
        0x8Fu8 => e(Mnemonic::SAX, AddressingMode::Absolute, false, 3, 4),
        0x90u8 => e(Mnemonic::BCC, AddressingMode::Relative, false, 2, 2),
        0x91u8 => e(Mnemonic::STA, AddressingMode::IndirectY, false, 2, 6),
        0x92u8 => e(Mnemonic::JAM, AddressingMode::Implied, false, 1, 0),
        0x93u8 => e(Mnemonic::SHA, AddressingMode::IndirectY, false, 2, 6),
        0x94u8 => e(Mnemonic::STY, AddressingMode::ZeroPageX, false, 2, 4),
        0x95u8 => e(Mnemonic::STA, AddressingMode::ZeroPageX, false, 2, 4),
        0x96u8 => e(Mnemonic::STX, AddressingMode::ZeroPageY, false, 2, 4),
        0x97u8 => e(Mnemonic::SAX, AddressingMode::ZeroPageY, false, 2, 4),
        0x98u8 => e(Mnemonic::TYA, AddressingMode::Implied, false, 1, 2),
        0x99u8 => e(Mnemonic::STA, AddressingMode::AbsoluteY, false, 3, 5),
        0x9Au8 => e(Mnemonic::TXS, AddressingMode::Implied, false, 1, 2),
        0x9Bu8 => e(Mnemonic::TAS, AddressingMode::AbsoluteY, false, 3, 5),
        0x9Cu8 => e(Mnemonic::SHY, AddressingMode::AbsoluteX, false, 3, 5),
        0x9Du8 => e(Mnemonic::STA, AddressingMode::AbsoluteX, false, 3, 5),
        0x9Eu8 => e(Mnemonic::SHX, AddressingMode::AbsoluteY, false, 3, 5),
        0x9Fu8 => e(Mnemonic::SHA, AddressingMode::AbsoluteY, false, 3, 5),
        0xA0u8 => e(Mnemonic::LDY, AddressingMode::Immediate, false, 2, 2),
        0xA1u8 => e(Mnemonic::LDA, AddressingMode::IndirectX, false, 2, 6),
        0xA2u8 => e(Mnemonic::LDX, AddressingMode::Immediate, false, 2, 2),
        0xA3u8 => e(Mnemonic::LAX, AddressingMode::IndirectX, false, 2, 6),
        0xA4u8 => e(Mnemonic::LDY, AddressingMode::ZeroPage, false, 2, 3),
        0xA5u8 => e(Mnemonic::LDA, AddressingMode::ZeroPage, false, 2, 3),
        0xA6u8 => e(Mnemonic::LDX, AddressingMode::ZeroPage, false, 2, 3),
        0xA7u8 => e(Mnemonic::LAX, AddressingMode::ZeroPage, false, 2, 3),
        0xA8u8 => e(Mnemonic::TAY, AddressingMode::Implied, false, 1, 2),
        0xA9u8 => e(Mnemonic::LDA, AddressingMode::Immediate, false, 2, 2),
        0xAAu8 => e(Mnemonic::TAX, AddressingMode::Implied, false, 1, 2),
        0xABu8 => e(Mnemonic::LXA, AddressingMode::Immediate, false, 2, 2),
        0xACu8 => e(Mnemonic::LDY, AddressingMode::Absolute, false, 3, 4),
        0xADu8 => e(Mnemonic::LDA, AddressingMode::Absolute, false, 3, 4),
        0xAEu8 => e(Mnemonic::LDX, AddressingMode::Absolute, false, 3, 4),
        0xAFu8 => e(Mnemonic::LAX, AddressingMode::Absolute, false, 3, 4),
        0xB0u8 => e(Mnemonic::BCS, AddressingMode::Relative, false, 2, 2),
        0xB1u8 => e(Mnemonic::LDA, AddressingMode::IndirectY, true, 2, 5),
        0xB2u8 => e(Mnemonic::JAM, AddressingMode::Implied, false, 1, 0),
        0xB3u8 => e(Mnemonic::LAX, AddressingMode::IndirectY, true, 2, 5),
        0xB4u8 => e(Mnemonic::LDY, AddressingMode::ZeroPageX, false, 2, 4),
        0xB5u8 => e(Mnemonic::LDA, AddressingMode::ZeroPageX, false, 2, 4),
        0xB6u8 => e(Mnemonic::LDX, AddressingMode::ZeroPageY, false, 2, 4),
        0xB7u8 => e(Mnemonic::LAX, AddressingMode::ZeroPageY, false, 2, 4),
        0xB8u8 => e(Mnemonic::CLV, AddressingMode::Implied, false, 1, 2),
        0xB9u8 => e(Mnemonic::LDA, AddressingMode::AbsoluteY, true, 3, 4),
        0xBAu8 => e(Mnemonic::TSX, AddressingMode::Implied, false, 1, 2),
        0xBBu8 => e(Mnemonic::LAS, AddressingMode::AbsoluteY, true, 3, 4),
        0xBCu8 => e(Mnemonic::LDY, AddressingMode::AbsoluteX, true, 3, 4),
        0xBDu8 => e(Mnemonic::LDA, AddressingMode::AbsoluteX, true, 3, 4),
        0xBEu8 => e(Mnemonic::LDX, AddressingMode::AbsoluteY, true, 3, 4),
        0xBFu8 => e(Mnemonic::LAX, AddressingMode::AbsoluteY, true, 3, 4),
        0xC0u8 => e(Mnemonic::CPY, AddressingMode::Immediate, false, 2, 2),
        0xC1u8 => e(Mnemonic::CMP, AddressingMode::IndirectX, false, 2, 6),
        0xC2u8 => e(Mnemonic::NOP, AddressingMode::Implied, false, 2, 2),
        0xC3u8 => e(Mnemonic::DCP, AddressingMode::IndirectX, false, 2, 8),
        0xC4u8 => e(Mnemonic::CPY, AddressingMode::ZeroPage, false, 2, 3),
        0xC5u8 => e(Mnemonic::CMP, AddressingMode::ZeroPage, false, 2, 3),
        0xC6u8 => e(Mnemonic::DEC, AddressingMode::ZeroPage, false, 2, 5),
        0xC7u8 => e(Mnemonic::DCP, AddressingMode::ZeroPage, false, 2, 5),
        0xC8u8 => e(Mnemonic::INY, AddressingMode::Implied, false, 1, 2),
        0xC9u8 => e(Mnemonic::CMP, AddressingMode::Immediate, false, 2, 2),
        0xCAu8 => e(Mnemonic::DEX, AddressingMode::Implied, false, 1, 2),
        0xCBu8 => e(Mnemonic::SBX, AddressingMode::Immediate, false, 2, 2),
        0xCCu8 => e(Mnemonic::CPY, AddressingMode::Absolute, false, 3, 4),
        0xCDu8 => e(Mnemonic::CMP, AddressingMode::Absolute, false, 3, 4),
        0xCEu8 => e(Mnemonic::DEC, AddressingMode::Absolute, false, 3, 6),
        0xCFu8 => e(Mnemonic::DCP, AddressingMode::Absolute, false, 3, 6),
        0xD0u8 => e(Mnemonic::BNE, AddressingMode::Relative, false, 2, 2),
        0xD1u8 => e(Mnemonic::CMP, AddressingMode::IndirectY, true, 2, 5),
        0xD2u8 => e(Mnemonic::JAM, AddressingMode::Implied, false, 1, 0),
        0xD3u8 => e(Mnemonic::DCP, AddressingMode::IndirectY, false, 2, 8),
        0xD4u8 => e(Mnemonic::NOP, AddressingMode::Implied, false, 2, 4),
        0xD5u8 => e(Mnemonic::CMP, AddressingMode::ZeroPageX, false, 2, 4),
        0xD6u8 => e(Mnemonic::DEC, AddressingMode::ZeroPageX, false, 2, 6),
        0xD7u8 => e(Mnemonic::DCP, AddressingMode::ZeroPageX, false, 2, 6),
        0xD8u8 => e(Mnemonic::CLD, AddressingMode::Implied, false, 1, 2),
        0xD9u8 => e(Mnemonic::CMP, AddressingMode::AbsoluteY, true, 3, 4),
        0xDAu8 => e(Mnemonic::NOP, AddressingMode::Implied, false, 1, 2),
        0xDBu8 => e(Mnemonic::DCP, AddressingMode::AbsoluteY, false, 3, 7),
        0xDCu8 => e(Mnemonic::NOP, AddressingMode::AbsoluteX, true, 3, 4),
        0xDDu8 => e(Mnemonic::CMP, AddressingMode::AbsoluteX, true, 3, 4),
        0xDEu8 => e(Mnemonic::DEC, AddressingMode::AbsoluteX, false, 3, 7),
        0xDFu8 => e(Mnemonic::DCP, AddressingMode::AbsoluteX, false, 3, 7),
        0xE0u8 => e(Mnemonic::CPX, AddressingMode::Immediate, false, 2, 2),
        0xE1u8 => e(Mnemonic::SBC, AddressingMode::IndirectX, false, 2, 6),
        0xE2u8 => e(Mnemonic::NOP, AddressingMode::Implied, false, 2, 2),
        0xE3u8 => e(Mnemonic::ISC, AddressingMode::IndirectX, false, 2, 8),
        0xE4u8 => e(Mnemonic::CPX, AddressingMode::ZeroPage, false, 2, 3),
        0xE5u8 => e(Mnemonic::SBC, AddressingMode::ZeroPage, false, 2, 3),
        0xE6u8 => e(Mnemonic::INC, AddressingMode::ZeroPage, false, 2, 5),
        0xE7u8 => e(Mnemonic::ISC, AddressingMode::ZeroPage, false, 2, 5),
        0xE8u8 => e(Mnemonic::INX, AddressingMode::Implied, false, 1, 2),
        0xE9u8 => e(Mnemonic::SBC, AddressingMode::Immediate, false, 2, 2),
        0xEAu8 => e(Mnemonic::NOP, AddressingMode::Implied, false, 1, 2),
        0xEBu8 => e(Mnemonic::SBC, AddressingMode::Immediate, false, 2, 2),
        0xECu8 => e(Mnemonic::CPX, AddressingMode::Absolute, false, 3, 4),
        0xEDu8 => e(Mnemonic::SBC, AddressingMode::Absolute, false, 3, 4),
        0xEEu8 => e(Mnemonic::INC, AddressingMode::Absolute, false, 3, 6),
        0xEFu8 => e(Mnemonic::ISC, AddressingMode::Absolute, false, 3, 6),
        0xF0u8 => e(Mnemonic::BEQ, AddressingMode::Relative, false, 2, 2),
        0xF1u8 => e(Mnemonic::SBC, AddressingMode::IndirectY, true, 2, 5),
        0xF2u8 => e(Mnemonic::JAM, AddressingMode::Implied, false, 1, 0),
        0xF3u8 => e(Mnemonic::ISC, AddressingMode::IndirectY, false, 2, 8),
        0xF4u8 => e(Mnemonic::NOP, AddressingMode::Implied, false, 2, 4),
        0xF5u8 => e(Mnemonic::SBC, AddressingMode::ZeroPageX, false, 2, 4),
        0xF6u8 => e(Mnemonic::INC, AddressingMode::ZeroPageX, false, 2, 6),
        0xF7u8 => e(Mnemonic::ISC, AddressingMode::ZeroPageX, false, 2, 6),
        0xF8u8 => e(Mnemonic::SED, AddressingMode::Implied, false, 1, 2),
        0xF9u8 => e(Mnemonic::SBC, AddressingMode::AbsoluteY, true, 3, 4),
        0xFAu8 => e(Mnemonic::NOP, AddressingMode::Implied, false, 1, 2),
        0xFBu8 => e(Mnemonic::ISC, AddressingMode::AbsoluteY, false, 3, 7),
        0xFCu8 => e(Mnemonic::NOP, AddressingMode::AbsoluteX, true, 3, 4),
        0xFDu8 => e(Mnemonic::SBC, AddressingMode::AbsoluteX, true, 3, 4),
        0xFEu8 => e(Mnemonic::INC, AddressingMode::AbsoluteX, false, 3, 7),
        0xFFu8 => e(Mnemonic::ISC, AddressingMode::AbsoluteX, false, 3, 7),
    }
}

proof fn lemma_tables_agree_0(opcode: u8)
    requires
        0 <= opcode < 16,
    ensures
        disassembly_of(opcode).mnemonic == opcode_table(opcode).operation,
        !(opcode_table(opcode).operation matches (Mnemonic::JMP | Mnemonic::JSR | Mnemonic::RTS
            | Mnemonic::RTI | Mnemonic::BRK | Mnemonic::JAM)) ==> mode_length(
            disassembly_of(opcode).addressing_mode,
        ) as u16 == opcode_table(opcode).length,
{
}

proof fn lemma_tables_agree_1(opcode: u8)
    requires
        16 <= opcode < 32,
    ensures
        disassembly_of(opcode).mnemonic == opcode_table(opcode).operation,
        !(opcode_table(opcode).operation matches (Mnemonic::JMP | Mnemonic::JSR | Mnemonic::RTS
            | Mnemonic::RTI | Mnemonic::BRK | Mnemonic::JAM)) ==> mode_length(
            disassembly_of(opcode).addressing_mode,
        ) as u16 == opcode_table(opcode).length,
{
}

proof fn lemma_tables_agree_2(opcode: u8)
    requires
        32 <= opcode < 48,
    ensures
        disassembly_of(opcode).mnemonic == opcode_table(opcode).operation,
        !(opcode_table(opcode).operation matches (Mnemonic::JMP | Mnemonic::JSR | Mnemonic::RTS
            | Mnemonic::RTI | Mnemonic::BRK | Mnemonic::JAM)) ==> mode_length(
            disassembly_of(opcode).addressing_mode,
        ) as u16 == opcode_table(opcode).length,
{
}

proof fn lemma_tables_agree_3(opcode: u8)
    requires
        48 <= opcode < 64,
    ensures
        disassembly_of(opcode).mnemonic == opcode_table(opcode).operation,
        !(opcode_table(opcode).operation matches (Mnemonic::JMP | Mnemonic::JSR | Mnemonic::RTS
            | Mnemonic::RTI | Mnemonic::BRK | Mnemonic::JAM)) ==> mode_length(
            disassembly_of(opcode).addressing_mode,
        ) as u16 == opcode_table(opcode).length,
{
}

proof fn lemma_tables_agree_4(opcode: u8)
    requires
        64 <= opcode < 80,
    ensures
        disassembly_of(opcode).mnemonic == opcode_table(opcode).operation,
        !(opcode_table(opcode).operation matches (Mnemonic::JMP | Mnemonic::JSR | Mnemonic::RTS
            | Mnemonic::RTI | Mnemonic::BRK | Mnemonic::JAM)) ==> mode_length(
            disassembly_of(opcode).addressing_mode,
        ) as u16 == opcode_table(opcode).length,
{
}

proof fn lemma_tables_agree_5(opcode: u8)
    requires
        80 <= opcode < 96,
    ensures
        disassembly_of(opcode).mnemonic == opcode_table(opcode).operation,
        !(opcode_table(opcode).operation matches (Mnemonic::JMP | Mnemonic::JSR | Mnemonic::RTS
            | Mnemonic::RTI | Mnemonic::BRK | Mnemonic::JAM)) ==> mode_length(
            disassembly_of(opcode).addressing_mode,
        ) as u16 == opcode_table(opcode).length,
{
}

proof fn lemma_tables_agree_6(opcode: u8)
    requires
        96 <= opcode < 112,
    ensures
        disassembly_of(opcode).mnemonic == opcode_table(opcode).operation,
        !(opcode_table(opcode).operation matches (Mnemonic::JMP | Mnemonic::JSR | Mnemonic::RTS
            | Mnemonic::RTI | Mnemonic::BRK | Mnemonic::JAM)) ==> mode_length(
            disassembly_of(opcode).addressing_mode,
        ) as u16 == opcode_table(opcode).length,
{
}

proof fn lemma_tables_agree_7(opcode: u8)
    requires
        112 <= opcode < 128,
    ensures
        disassembly_of(opcode).mnemonic == opcode_table(opcode).operation,
        !(opcode_table(opcode).operation matches (Mnemonic::JMP | Mnemonic::JSR | Mnemonic::RTS
            | Mnemonic::RTI | Mnemonic::BRK | Mnemonic::JAM)) ==> mode_length(
            disassembly_of(opcode).addressing_mode,
        ) as u16 == opcode_table(opcode).length,
{
}

proof fn lemma_tables_agree_8(opcode: u8)
    requires
        128 <= opcode < 144,
    ensures
        disassembly_of(opcode).mnemonic == opcode_table(opcode).operation,
        !(opcode_table(opcode).operation matches (Mnemonic::JMP | Mnemonic::JSR | Mnemonic::RTS
            | Mnemonic::RTI | Mnemonic::BRK | Mnemonic::JAM)) ==> mode_length(
            disassembly_of(opcode).addressing_mode,
        ) as u16 == opcode_table(opcode).length,
{
}

proof fn lemma_tables_agree_9(opcode: u8)
    requires
        144 <= opcode < 160,
    ensures
        disassembly_of(opcode).mnemonic == opcode_table(opcode).operation,
        !(opcode_table(opcode).operation matches (Mnemonic::JMP | Mnemonic::JSR | Mnemonic::RTS
            | Mnemonic::RTI | Mnemonic::BRK | Mnemonic::JAM)) ==> mode_length(
            disassembly_of(opcode).addressing_mode,
        ) as u16 == opcode_table(opcode).length,
{
}

proof fn lemma_tables_agree_10(opcode: u8)
    requires
        160 <= opcode < 176,
    ensures
        disassembly_of(opcode).mnemonic == opcode_table(opcode).operation,
        !(opcode_table(opcode).operation matches (Mnemonic::JMP | Mnemonic::JSR | Mnemonic::RTS
            | Mnemonic::RTI | Mnemonic::BRK | Mnemonic::JAM)) ==> mode_length(
            disassembly_of(opcode).addressing_mode,
        ) as u16 == opcode_table(opcode).length,
{
}

proof fn lemma_tables_agree_11(opcode: u8)
    requires
        176 <= opcode < 192,
    ensures
        disassembly_of(opcode).mnemonic == opcode_table(opcode).operation,
        !(opcode_table(opcode).operation matches (Mnemonic::JMP | Mnemonic::JSR | Mnemonic::RTS
            | Mnemonic::RTI | Mnemonic::BRK | Mnemonic::JAM)) ==> mode_length(
            disassembly_of(opcode).addressing_mode,
        ) as u16 == opcode_table(opcode).length,
{
}

proof fn lemma_tables_agree_12(opcode: u8)
    requires
        192 <= opcode < 208,
    ensures
        disassembly_of(opcode).mnemonic == opcode_table(opcode).operation,
        !(opcode_table(opcode).operation matches (Mnemonic::JMP | Mnemonic::JSR | Mnemonic::RTS
            | Mnemonic::RTI | Mnemonic::BRK | Mnemonic::JAM)) ==> mode_length(
            disassembly_of(opcode).addressing_mode,
        ) as u16 == opcode_table(opcode).length,
{
}

proof fn lemma_tables_agree_13(opcode: u8)
    requires
        208 <= opcode < 224,
    ensures
        disassembly_of(opcode).mnemonic == opcode_table(opcode).operation,
        !(opcode_table(opcode).operation matches (Mnemonic::JMP | Mnemonic::JSR | Mnemonic::RTS
            | Mnemonic::RTI | Mnemonic::BRK | Mnemonic::JAM)) ==> mode_length(
            disassembly_of(opcode).addressing_mode,
        ) as u16 == opcode_table(opcode).length,
{
}

proof fn lemma_tables_agree_14(opcode: u8)
    requires
        224 <= opcode < 240,
    ensures
        disassembly_of(opcode).mnemonic == opcode_table(opcode).operation,
        !(opcode_table(opcode).operation matches (Mnemonic::JMP | Mnemonic::JSR | Mnemonic::RTS
            | Mnemonic::RTI | Mnemonic::BRK | Mnemonic::JAM)) ==> mode_length(
            disassembly_of(opcode).addressing_mode,
        ) as u16 == opcode_table(opcode).length,
{
}

proof fn lemma_tables_agree_15(opcode: u8)
    requires
        240 <= opcode < 256,
    ensures
        disassembly_of(opcode).mnemonic == opcode_table(opcode).operation,
        !(opcode_table(opcode).operation matches (Mnemonic::JMP | Mnemonic::JSR | Mnemonic::RTS
            | Mnemonic::RTI | Mnemonic::BRK | Mnemonic::JAM)) ==> mode_length(
            disassembly_of(opcode).addressing_mode,
        ) as u16 == opcode_table(opcode).length,
{
}

/// The disassembler and the CPU agree on every opcode: same operation, and,
/// for every operation that advances PC past itself, the same length.
pub proof fn lemma_tables_agree(opcode: u8)
    ensures
        disassembly_of(opcode).mnemonic == opcode_table(opcode).operation,
        !(opcode_table(opcode).operation matches (Mnemonic::JMP | Mnemonic::JSR | Mnemonic::RTS
            | Mnemonic::RTI | Mnemonic::BRK | Mnemonic::JAM)) ==> mode_length(
            disassembly_of(opcode).addressing_mode,
        ) as u16 == opcode_table(opcode).length,
{
    if opcode < 16 {
        lemma_tables_agree_0(opcode);
    } else if opcode < 32 {
        lemma_tables_agree_1(opcode);
    } else if opcode < 48 {
        lemma_tables_agree_2(opcode);
    } else if opcode < 64 {
        lemma_tables_agree_3(opcode);
    } else if opcode < 80 {
        lemma_tables_agree_4(opcode);
    } else if opcode < 96 {
        lemma_tables_agree_5(opcode);
    } else if opcode < 112 {
        lemma_tables_agree_6(opcode);
    } else if opcode < 128 {
        lemma_tables_agree_7(opcode);
    } else if opcode < 144 {
        lemma_tables_agree_8(opcode);
    } else if opcode < 160 {
        lemma_tables_agree_9(opcode);
    } else if opcode < 176 {
        lemma_tables_agree_10(opcode);
    } else if opcode < 192 {
        lemma_tables_agree_11(opcode);
    } else if opcode < 208 {
        lemma_tables_agree_12(opcode);
    } else if opcode < 224 {
        lemma_tables_agree_13(opcode);
    } else if opcode < 240 {
        lemma_tables_agree_14(opcode);
    } else if opcode < 256 {
        lemma_tables_agree_15(opcode);
    }
}

} // verus!
