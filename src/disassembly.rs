use vstd::prelude::*;

verus! {

/// The instruction names of the 6502, including the undocumented ones.
#[allow(non_camel_case_types)]
#[derive(Debug, Clone, Copy, PartialEq, Eq, Structural)]
pub enum Mnemonic {
    ADC,
    ALR,
    ANC,
    AND,
    ARR,
    ASL,
    BCC,
    BCS,
    BEQ,
    BIT,
    BMI,
    BNE,
    BPL,
    BRK,
    BVC,
    BVS,
    CLC,
    CLD,
    CLI,
    CLV,
    CMP,
    CPX,
    CPY,
    DCP,
    DEC,
    DEX,
    DEY,
    EOR,
    INC,
    INX,
    INY,
    ISC,
    JAM,
    JMP,
    JSR,
    LAS,
    LAX,
    LDA,
    LDX,
    LDY,
    LSR,
    LXA,
    NOP,
    ORA,
    PHA,
    PHP,
    PLA,
    PLP,
    RLA,
    ROL,
    ROR,
    RRA,
    RTI,
    RTS,
    SAX,
    SBC,
    SBX,
    SEC,
    SED,
    SEI,
    SHA,
    SHX,
    SHY,
    SLO,
    SRE,
    STA,
    STX,
    STY,
    TAS,
    TAX,
    TAY,
    TSX,
    TXA,
    TXS,
    TYA,
    XAA,
}

/// The thirteen ways an instruction names its operand.
#[derive(Debug, Clone, Copy, PartialEq, Eq, Structural)]
pub enum AddressingMode {
    Implied,
    Accumulator,
    Immediate,
    Absolute,
    AbsoluteX,
    AbsoluteY,
    Indirect,
    IndirectX,
    IndirectY,
    ZeroPage,
    ZeroPageX,
    ZeroPageY,
    Relative,
}

/// What one opcode byte decodes to.
#[derive(Debug, Clone, Copy, PartialEq, Eq, Structural)]
pub struct Disassembly {
    pub mnemonic: Mnemonic,
    pub addressing_mode: AddressingMode,
    pub illegal: bool,
}

/// The decoding of every opcode byte.
pub open spec fn disassembly_of(opcode: u8) -> Disassembly {
    let d = |mnemonic: Mnemonic, addressing_mode: AddressingMode, illegal: bool|
        Disassembly { mnemonic, addressing_mode, illegal };
    match opcode {
        0x00u8 => d(Mnemonic::BRK, AddressingMode::Implied, false),
        0x01u8 => d(Mnemonic::ORA, AddressingMode::IndirectX, false),
        0x02u8 => d(Mnemonic::JAM, AddressingMode::Implied, true),
        0x03u8 => d(Mnemonic::SLO, AddressingMode::IndirectX, true),
        0x04u8 => d(Mnemonic::NOP, AddressingMode::ZeroPage, true),
        0x05u8 => d(Mnemonic::ORA, AddressingMode::ZeroPage, false),
        0x06u8 => d(Mnemonic::ASL, AddressingMode::ZeroPage, false),
        0x07u8 => d(Mnemonic::SLO, AddressingMode::ZeroPage, true),
        0x08u8 => d(Mnemonic::PHP, AddressingMode::Implied, false),
        0x09u8 => d(Mnemonic::ORA, AddressingMode::Immediate, false),
        0x0Au8 => d(Mnemonic::ASL, AddressingMode::Accumulator, false),
        0x0Bu8 => d(Mnemonic::ANC, AddressingMode::Immediate, true),
        0x0Cu8 => d(Mnemonic::NOP, AddressingMode::Absolute, true),
        0x0Du8 => d(Mnemonic::ORA, AddressingMode::Absolute, false),
        0x0Eu8 => d(Mnemonic::ASL, AddressingMode::Absolute, false),
        0x0Fu8 => d(Mnemonic::SLO, AddressingMode::Absolute, true),
        0x10u8 => d(Mnemonic::BPL, AddressingMode::Relative, false),
        0x11u8 => d(Mnemonic::ORA, AddressingMode::IndirectY, false),
        0x12u8 => d(Mnemonic::JAM, AddressingMode::Implied, true),
        0x13u8 => d(Mnemonic::SLO, AddressingMode::IndirectY, true),
        0x14u8 => d(Mnemonic::NOP, AddressingMode::ZeroPageX, true),
        0x15u8 => d(Mnemonic::ORA, AddressingMode::ZeroPageX, false),
        0x16u8 => d(Mnemonic::ASL, AddressingMode::ZeroPageX, false),
        0x17u8 => d(Mnemonic::SLO, AddressingMode::ZeroPageX, true),
        0x18u8 => d(Mnemonic::CLC, AddressingMode::Implied, false),
        0x19u8 => d(Mnemonic::ORA, AddressingMode::AbsoluteY, false),
        0x1Au8 => d(Mnemonic::NOP, AddressingMode::Implied, true),
        0x1Bu8 => d(Mnemonic::SLO, AddressingMode::AbsoluteY, true),
        0x1Cu8 => d(Mnemonic::NOP, AddressingMode::AbsoluteX, true),
        0x1Du8 => d(Mnemonic::ORA, AddressingMode::AbsoluteX, false),
        0x1Eu8 => d(Mnemonic::ASL, AddressingMode::AbsoluteX, false),
        0x1Fu8 => d(Mnemonic::SLO, AddressingMode::AbsoluteX, true),
        0x20u8 => d(Mnemonic::JSR, AddressingMode::Absolute, false),
        0x21u8 => d(Mnemonic::AND, AddressingMode::IndirectX, false),
        0x22u8 => d(Mnemonic::JAM, AddressingMode::Implied, true),
        0x23u8 => d(Mnemonic::RLA, AddressingMode::IndirectX, true),
        0x24u8 => d(Mnemonic::BIT, AddressingMode::ZeroPage, false),
        0x25u8 => d(Mnemonic::AND, AddressingMode::ZeroPage, false),
        0x26u8 => d(Mnemonic::ROL, AddressingMode::ZeroPage, false),
        0x27u8 => d(Mnemonic::RLA, AddressingMode::ZeroPage, true),
        0x28u8 => d(Mnemonic::PLP, AddressingMode::Implied, false),
        0x29u8 => d(Mnemonic::AND, AddressingMode::Immediate, false),
        0x2Au8 => d(Mnemonic::ROL, AddressingMode::Accumulator, false),
        0x2Bu8 => d(Mnemonic::ANC, AddressingMode::Immediate, true),
        0x2Cu8 => d(Mnemonic::BIT, AddressingMode::Absolute, false),
        0x2Du8 => d(Mnemonic::AND, AddressingMode::Absolute, false),
        0x2Eu8 => d(Mnemonic::ROL, AddressingMode::Absolute, false),
        0x2Fu8 => d(Mnemonic::RLA, AddressingMode::Absolute, true),
        0x30u8 => d(Mnemonic::BMI, AddressingMode::Relative, false),
        0x31u8 => d(Mnemonic::AND, AddressingMode::IndirectY, false),
        0x32u8 => d(Mnemonic::JAM, AddressingMode::Implied, true),
        0x33u8 => d(Mnemonic::RLA, AddressingMode::IndirectY, true),
        0x34u8 => d(Mnemonic::NOP, AddressingMode::ZeroPageX, true),
        0x35u8 => d(Mnemonic::AND, AddressingMode::ZeroPageX, false),
        0x36u8 => d(Mnemonic::ROL, AddressingMode::ZeroPageX, false),
        0x37u8 => d(Mnemonic::RLA, AddressingMode::ZeroPageX, true),
        0x38u8 => d(Mnemonic::SEC, AddressingMode::Implied, false),
        0x39u8 => d(Mnemonic::AND, AddressingMode::AbsoluteY, false),
        0x3Au8 => d(Mnemonic::NOP, AddressingMode::Implied, true),
        0x3Bu8 => d(Mnemonic::RLA, AddressingMode::AbsoluteY, true),
        0x3Cu8 => d(Mnemonic::NOP, AddressingMode::AbsoluteX, true),
        0x3Du8 => d(Mnemonic::AND, AddressingMode::AbsoluteX, false),
        0x3Eu8 => d(Mnemonic::ROL, AddressingMode::AbsoluteX, false),
        0x3Fu8 => d(Mnemonic::RLA, AddressingMode::AbsoluteX, true),
        0x40u8 => d(Mnemonic::RTI, AddressingMode::Implied, false),
        0x41u8 => d(Mnemonic::EOR, AddressingMode::IndirectX, false),
        0x42u8 => d(Mnemonic::JAM, AddressingMode::Implied, true),
        0x43u8 => d(Mnemonic::SRE, AddressingMode::IndirectX, true),
        0x44u8 => d(Mnemonic::NOP, AddressingMode::ZeroPage, true),
        0x45u8 => d(Mnemonic::EOR, AddressingMode::ZeroPage, false),
        0x46u8 => d(Mnemonic::LSR, AddressingMode::ZeroPage, false),
        0x47u8 => d(Mnemonic::SRE, AddressingMode::ZeroPage, true),
        0x48u8 => d(Mnemonic::PHA, AddressingMode::Implied, false),
        0x49u8 => d(Mnemonic::EOR, AddressingMode::Immediate, false),
        0x4Au8 => d(Mnemonic::LSR, AddressingMode::Accumulator, false),
        0x4Bu8 => d(Mnemonic::ALR, AddressingMode::Immediate, true),
        0x4Cu8 => d(Mnemonic::JMP, AddressingMode::Absolute, false),
        0x4Du8 => d(Mnemonic::EOR, AddressingMode::Absolute, false),
        0x4Eu8 => d(Mnemonic::LSR, AddressingMode::Absolute, false),
        0x4Fu8 => d(Mnemonic::SRE, AddressingMode::Absolute, true),
        0x50u8 => d(Mnemonic::BVC, AddressingMode::Relative, false),
        0x51u8 => d(Mnemonic::EOR, AddressingMode::IndirectY, false),
        0x52u8 => d(Mnemonic::JAM, AddressingMode::Implied, true),
        0x53u8 => d(Mnemonic::SRE, AddressingMode::IndirectY, true),
        0x54u8 => d(Mnemonic::NOP, AddressingMode::ZeroPageX, true),
        0x55u8 => d(Mnemonic::EOR, AddressingMode::ZeroPageX, false),
        0x56u8 => d(Mnemonic::LSR, AddressingMode::ZeroPageX, false),
        0x57u8 => d(Mnemonic::SRE, AddressingMode::ZeroPageX, true),
        0x58u8 => d(Mnemonic::CLI, AddressingMode::Implied, false),
        0x59u8 => d(Mnemonic::EOR, AddressingMode::AbsoluteY, false),
        0x5Au8 => d(Mnemonic::NOP, AddressingMode::Implied, true),
        0x5Bu8 => d(Mnemonic::SRE, AddressingMode::AbsoluteY, true),
        0x5Cu8 => d(Mnemonic::NOP, AddressingMode::AbsoluteX, true),
        0x5Du8 => d(Mnemonic::EOR, AddressingMode::AbsoluteX, false),
        0x5Eu8 => d(Mnemonic::LSR, AddressingMode::AbsoluteX, false),
        0x5Fu8 => d(Mnemonic::SRE, AddressingMode::AbsoluteX, true),
        0x60u8 => d(Mnemonic::RTS, AddressingMode::Implied, false),
        0x61u8 => d(Mnemonic::ADC, AddressingMode::IndirectX, false),
        0x62u8 => d(Mnemonic::JAM, AddressingMode::Implied, true),
        0x63u8 => d(Mnemonic::RRA, AddressingMode::IndirectX, true),
        0x64u8 => d(Mnemonic::NOP, AddressingMode::ZeroPage, true),
        0x65u8 => d(Mnemonic::ADC, AddressingMode::ZeroPage, false),
        0x66u8 => d(Mnemonic::ROR, AddressingMode::ZeroPage, false),
        0x67u8 => d(Mnemonic::RRA, AddressingMode::ZeroPage, true),
        0x68u8 => d(Mnemonic::PLA, AddressingMode::Implied, false),
        0x69u8 => d(Mnemonic::ADC, AddressingMode::Immediate, false),
        0x6Au8 => d(Mnemonic::ROR, AddressingMode::Accumulator, false),
        0x6Bu8 => d(Mnemonic::ARR, AddressingMode::Immediate, true),
        0x6Cu8 => d(Mnemonic::JMP, AddressingMode::Indirect, false),
        0x6Du8 => d(Mnemonic::ADC, AddressingMode::Absolute, false),
        0x6Eu8 => d(Mnemonic::ROR, AddressingMode::Absolute, false),
        0x6Fu8 => d(Mnemonic::RRA, AddressingMode::Absolute, true),
        0x70u8 => d(Mnemonic::BVS, AddressingMode::Relative, false),
        0x71u8 => d(Mnemonic::ADC, AddressingMode::IndirectY, false),
        0x72u8 => d(Mnemonic::JAM, AddressingMode::Implied, true),
        0x73u8 => d(Mnemonic::RRA, AddressingMode::IndirectY, true),
        0x74u8 => d(Mnemonic::NOP, AddressingMode::ZeroPageX, true),
        0x75u8 => d(Mnemonic::ADC, AddressingMode::ZeroPageX, false),
        0x76u8 => d(Mnemonic::ROR, AddressingMode::ZeroPageX, false),
        0x77u8 => d(Mnemonic::RRA, AddressingMode::ZeroPageX, true),
        0x78u8 => d(Mnemonic::SEI, AddressingMode::Implied, false),
        0x79u8 => d(Mnemonic::ADC, AddressingMode::AbsoluteY, false),
        0x7Au8 => d(Mnemonic::NOP, AddressingMode::Implied, true),
        0x7Bu8 => d(Mnemonic::RRA, AddressingMode::AbsoluteY, true),
        0x7Cu8 => d(Mnemonic::NOP, AddressingMode::AbsoluteX, true),
        0x7Du8 => d(Mnemonic::ADC, AddressingMode::AbsoluteX, false),
        0x7Eu8 => d(Mnemonic::ROR, AddressingMode::AbsoluteX, false),
        0x7Fu8 => d(Mnemonic::RRA, AddressingMode::AbsoluteX, true),
        0x80u8 => d(Mnemonic::NOP, AddressingMode::Immediate, true),
        0x81u8 => d(Mnemonic::STA, AddressingMode::IndirectX, false),
        0x82u8 => d(Mnemonic::NOP, AddressingMode::Immediate, true),
        0x83u8 => d(Mnemonic::SAX, AddressingMode::IndirectX, true),
        0x84u8 => d(Mnemonic::STY, AddressingMode::ZeroPage, false),
        0x85u8 => d(Mnemonic::STA, AddressingMode::ZeroPage, false),
        0x86u8 => d(Mnemonic::STX, AddressingMode::ZeroPage, false),
        0x87u8 => d(Mnemonic::SAX, AddressingMode::ZeroPage, true),
        0x88u8 => d(Mnemonic::DEY, AddressingMode::Implied, false),
        0x89u8 => d(Mnemonic::NOP, AddressingMode::Immediate, true),
        0x8Au8 => d(Mnemonic::TXA, AddressingMode::Implied, false),
        0x8Bu8 => d(Mnemonic::XAA, AddressingMode::Immediate, true),
        0x8Cu8 => d(Mnemonic::STY, AddressingMode::Absolute, false),
        0x8Du8 => d(Mnemonic::STA, AddressingMode::Absolute, false),
        0x8Eu8 => d(Mnemonic::STX, AddressingMode::Absolute, false),
        0x8Fu8 => d(Mnemonic::SAX, AddressingMode::Absolute, true),
        0x90u8 => d(Mnemonic::BCC, AddressingMode::Relative, false),
        0x91u8 => d(Mnemonic::STA, AddressingMode::IndirectY, false),
        0x92u8 => d(Mnemonic::JAM, AddressingMode::Implied, true),
        0x93u8 => d(Mnemonic::SHA, AddressingMode::IndirectY, true),
        0x94u8 => d(Mnemonic::STY, AddressingMode::ZeroPageX, false),
        0x95u8 => d(Mnemonic::STA, AddressingMode::ZeroPageX, false),
        0x96u8 => d(Mnemonic::STX, AddressingMode::ZeroPageY, false),
        0x97u8 => d(Mnemonic::SAX, AddressingMode::ZeroPageY, true),
        0x98u8 => d(Mnemonic::TYA, AddressingMode::Implied, false),
        0x99u8 => d(Mnemonic::STA, AddressingMode::AbsoluteY, false),
        0x9Au8 => d(Mnemonic::TXS, AddressingMode::Implied, false),
        0x9Bu8 => d(Mnemonic::TAS, AddressingMode::AbsoluteY, true),
        0x9Cu8 => d(Mnemonic::SHY, AddressingMode::AbsoluteX, true),
        0x9Du8 => d(Mnemonic::STA, AddressingMode::AbsoluteX, false),
        0x9Eu8 => d(Mnemonic::SHX, AddressingMode::AbsoluteY, true),
        0x9Fu8 => d(Mnemonic::SHA, AddressingMode::AbsoluteY, true),
        0xA0u8 => d(Mnemonic::LDY, AddressingMode::Immediate, false),
        0xA1u8 => d(Mnemonic::LDA, AddressingMode::IndirectX, false),
        0xA2u8 => d(Mnemonic::LDX, AddressingMode::Immediate, false),
        0xA3u8 => d(Mnemonic::LAX, AddressingMode::IndirectX, true),
        0xA4u8 => d(Mnemonic::LDY, AddressingMode::ZeroPage, false),
        0xA5u8 => d(Mnemonic::LDA, AddressingMode::ZeroPage, false),
        0xA6u8 => d(Mnemonic::LDX, AddressingMode::ZeroPage, false),
        0xA7u8 => d(Mnemonic::LAX, AddressingMode::ZeroPage, true),
        0xA8u8 => d(Mnemonic::TAY, AddressingMode::Implied, false),
        0xA9u8 => d(Mnemonic::LDA, AddressingMode::Immediate, false),
        0xAAu8 => d(Mnemonic::TAX, AddressingMode::Implied, false),
        0xABu8 => d(Mnemonic::LXA, AddressingMode::Immediate, true),
        0xACu8 => d(Mnemonic::LDY, AddressingMode::Absolute, false),
        0xADu8 => d(Mnemonic::LDA, AddressingMode::Absolute, false),
        0xAEu8 => d(Mnemonic::LDX, AddressingMode::Absolute, false),
        0xAFu8 => d(Mnemonic::LAX, AddressingMode::Absolute, true),
        0xB0u8 => d(Mnemonic::BCS, AddressingMode::Relative, false),
        0xB1u8 => d(Mnemonic::LDA, AddressingMode::IndirectY, false),
        0xB2u8 => d(Mnemonic::JAM, AddressingMode::Implied, true),
        0xB3u8 => d(Mnemonic::LAX, AddressingMode::IndirectY, true),
        0xB4u8 => d(Mnemonic::LDY, AddressingMode::ZeroPageX, false),
        0xB5u8 => d(Mnemonic::LDA, AddressingMode::ZeroPageX, false),
        0xB6u8 => d(Mnemonic::LDX, AddressingMode::ZeroPageY, false),
        0xB7u8 => d(Mnemonic::LAX, AddressingMode::ZeroPageY, true),
        0xB8u8 => d(Mnemonic::CLV, AddressingMode::Implied, false),
        0xB9u8 => d(Mnemonic::LDA, AddressingMode::AbsoluteY, false),
        0xBAu8 => d(Mnemonic::TSX, AddressingMode::Implied, false),
        0xBBu8 => d(Mnemonic::LAS, AddressingMode::AbsoluteY, true),
        0xBCu8 => d(Mnemonic::LDY, AddressingMode::AbsoluteX, false),
        0xBDu8 => d(Mnemonic::LDA, AddressingMode::AbsoluteX, false),
        0xBEu8 => d(Mnemonic::LDX, AddressingMode::AbsoluteY, false),
        0xBFu8 => d(Mnemonic::LAX, AddressingMode::AbsoluteY, true),
        0xC0u8 => d(Mnemonic::CPY, AddressingMode::Immediate, false),
        0xC1u8 => d(Mnemonic::CMP, AddressingMode::IndirectX, false),
        0xC2u8 => d(Mnemonic::NOP, AddressingMode::Immediate, true),
        0xC3u8 => d(Mnemonic::DCP, AddressingMode::IndirectX, true),
        0xC4u8 => d(Mnemonic::CPY, AddressingMode::ZeroPage, false),
        0xC5u8 => d(Mnemonic::CMP, AddressingMode::ZeroPage, false),
        0xC6u8 => d(Mnemonic::DEC, AddressingMode::ZeroPage, false),
        0xC7u8 => d(Mnemonic::DCP, AddressingMode::ZeroPage, true),
        0xC8u8 => d(Mnemonic::INY, AddressingMode::Implied, false),
        0xC9u8 => d(Mnemonic::CMP, AddressingMode::Immediate, false),
        0xCAu8 => d(Mnemonic::DEX, AddressingMode::Implied, false),
        0xCBu8 => d(Mnemonic::SBX, AddressingMode::Immediate, true),
        0xCCu8 => d(Mnemonic::CPY, AddressingMode::Absolute, false),
        0xCDu8 => d(Mnemonic::CMP, AddressingMode::Absolute, false),
        0xCEu8 => d(Mnemonic::DEC, AddressingMode::Absolute, false),
        0xCFu8 => d(Mnemonic::DCP, AddressingMode::Absolute, true),
        0xD0u8 => d(Mnemonic::BNE, AddressingMode::Relative, false),
        0xD1u8 => d(Mnemonic::CMP, AddressingMode::IndirectY, false),
        0xD2u8 => d(Mnemonic::JAM, AddressingMode::Implied, true),
        0xD3u8 => d(Mnemonic::DCP, AddressingMode::IndirectY, true),
        0xD4u8 => d(Mnemonic::NOP, AddressingMode::ZeroPageX, true),
        0xD5u8 => d(Mnemonic::CMP, AddressingMode::ZeroPageX, false),
        0xD6u8 => d(Mnemonic::DEC, AddressingMode::ZeroPageX, false),
        0xD7u8 => d(Mnemonic::DCP, AddressingMode::ZeroPageX, true),
        0xD8u8 => d(Mnemonic::CLD, AddressingMode::Implied, false),
        0xD9u8 => d(Mnemonic::CMP, AddressingMode::AbsoluteY, false),
        0xDAu8 => d(Mnemonic::NOP, AddressingMode::Implied, true),
        0xDBu8 => d(Mnemonic::DCP, AddressingMode::AbsoluteY, true),
        0xDCu8 => d(Mnemonic::NOP, AddressingMode::AbsoluteX, true),
        0xDDu8 => d(Mnemonic::CMP, AddressingMode::AbsoluteX, false),
        0xDEu8 => d(Mnemonic::DEC, AddressingMode::AbsoluteX, false),
        0xDFu8 => d(Mnemonic::DCP, AddressingMode::AbsoluteX, true),
        0xE0u8 => d(Mnemonic::CPX, AddressingMode::Immediate, false),
        0xE1u8 => d(Mnemonic::SBC, AddressingMode::IndirectX, false),
        0xE2u8 => d(Mnemonic::NOP, AddressingMode::Immediate, true),
        0xE3u8 => d(Mnemonic::ISC, AddressingMode::IndirectX, true),
        0xE4u8 => d(Mnemonic::CPX, AddressingMode::ZeroPage, false),
        0xE5u8 => d(Mnemonic::SBC, AddressingMode::ZeroPage, false),
        0xE6u8 => d(Mnemonic::INC, AddressingMode::ZeroPage, false),
        0xE7u8 => d(Mnemonic::ISC, AddressingMode::ZeroPage, true),
        0xE8u8 => d(Mnemonic::INX, AddressingMode::Implied, false),
        0xE9u8 => d(Mnemonic::SBC, AddressingMode::Immediate, false),
        0xEAu8 => d(Mnemonic::NOP, AddressingMode::Implied, false),
        0xEBu8 => d(Mnemonic::SBC, AddressingMode::Immediate, true),
        0xECu8 => d(Mnemonic::CPX, AddressingMode::Absolute, false),
        0xEDu8 => d(Mnemonic::SBC, AddressingMode::Absolute, false),
        0xEEu8 => d(Mnemonic::INC, AddressingMode::Absolute, false),
        0xEFu8 => d(Mnemonic::ISC, AddressingMode::Absolute, true),
        0xF0u8 => d(Mnemonic::BEQ, AddressingMode::Relative, false),
        0xF1u8 => d(Mnemonic::SBC, AddressingMode::IndirectY, false),
        0xF2u8 => d(Mnemonic::JAM, AddressingMode::Implied, true),
        0xF3u8 => d(Mnemonic::ISC, AddressingMode::IndirectY, true),
        0xF4u8 => d(Mnemonic::NOP, AddressingMode::ZeroPageX, true),
        0xF5u8 => d(Mnemonic::SBC, AddressingMode::ZeroPageX, false),
        0xF6u8 => d(Mnemonic::INC, AddressingMode::ZeroPageX, false),
        0xF7u8 => d(Mnemonic::ISC, AddressingMode::ZeroPageX, true),
        0xF8u8 => d(Mnemonic::SED, AddressingMode::Implied, false),
        0xF9u8 => d(Mnemonic::SBC, AddressingMode::AbsoluteY, false),
        0xFAu8 => d(Mnemonic::NOP, AddressingMode::Implied, true),
        0xFBu8 => d(Mnemonic::ISC, AddressingMode::AbsoluteY, true),
        0xFCu8 => d(Mnemonic::NOP, AddressingMode::AbsoluteX, true),
        0xFDu8 => d(Mnemonic::SBC, AddressingMode::AbsoluteX, false),
        0xFEu8 => d(Mnemonic::INC, AddressingMode::AbsoluteX, false),
        0xFFu8 => d(Mnemonic::ISC, AddressingMode::AbsoluteX, true),
    }
}

/// Number of bytes, opcode included, that an instruction in the given mode occupies.
pub open spec fn mode_length(mode: AddressingMode) -> u8 {
    match mode {
        AddressingMode::Implied | AddressingMode::Accumulator => 1,
        AddressingMode::Absolute | AddressingMode::AbsoluteX | AddressingMode::AbsoluteY
        | AddressingMode::Indirect => 3,
        _ => 2,
    }
}

/// An opcode byte with the two bytes that follow it.
#[derive(Debug, Clone, Copy)]
pub struct Instruction {
    pub opcode: u8,
    pub operand1: u8,
    pub operand2: u8,
}

impl Instruction {
    /// Whether two instructions have the same opcode and the same operand
    /// bytes that the opcode uses.
    pub open spec fn same_as(&self, other: &Instruction) -> bool {
        let n = mode_length(disassembly_of(self.opcode).addressing_mode);
        &&& self.opcode == other.opcode
        &&& n >= 2 ==> self.operand1 == other.operand1
        &&& n == 3 ==> self.operand2 == other.operand2
    }

    pub fn new(opcode: u8, operand1: u8, operand2: u8) -> (r: Instruction)
        ensures
            r.opcode == opcode,
            r.operand1 == operand1,
            r.operand2 == operand2,
    {
        Instruction { opcode, operand1, operand2 }
    }

    pub open spec fn decoded(&self) -> Disassembly {
        disassembly_of(self.opcode)
    }

    /// Decodes the opcode byte.
    pub fn disassemble(&self) -> (r: Disassembly)
        ensures
            r == self.decoded(),
    {
        let d = |mnemonic: Mnemonic, addressing_mode: AddressingMode, illegal: bool| -> (r: Disassembly)
            ensures r == (Disassembly { mnemonic, addressing_mode, illegal })
        { Disassembly { mnemonic, addressing_mode, illegal } };
        match self.opcode {
            0x00u8 => d(Mnemonic::BRK, AddressingMode::Implied, false),
            0x01u8 => d(Mnemonic::ORA, AddressingMode::IndirectX, false),
            0x02u8 => d(Mnemonic::JAM, AddressingMode::Implied, true),
            0x03u8 => d(Mnemonic::SLO, AddressingMode::IndirectX, true),
            0x04u8 => d(Mnemonic::NOP, AddressingMode::ZeroPage, true),
            0x05u8 => d(Mnemonic::ORA, AddressingMode::ZeroPage, false),
            0x06u8 => d(Mnemonic::ASL, AddressingMode::ZeroPage, false),
            0x07u8 => d(Mnemonic::SLO, AddressingMode::ZeroPage, true),
            0x08u8 => d(Mnemonic::PHP, AddressingMode::Implied, false),
            0x09u8 => d(Mnemonic::ORA, AddressingMode::Immediate, false),
            0x0Au8 => d(Mnemonic::ASL, AddressingMode::Accumulator, false),
            0x0Bu8 => d(Mnemonic::ANC, AddressingMode::Immediate, true),
            0x0Cu8 => d(Mnemonic::NOP, AddressingMode::Absolute, true),
            0x0Du8 => d(Mnemonic::ORA, AddressingMode::Absolute, false),
            0x0Eu8 => d(Mnemonic::ASL, AddressingMode::Absolute, false),
            0x0Fu8 => d(Mnemonic::SLO, AddressingMode::Absolute, true),
            0x10u8 => d(Mnemonic::BPL, AddressingMode::Relative, false),
            0x11u8 => d(Mnemonic::ORA, AddressingMode::IndirectY, false),
            0x12u8 => d(Mnemonic::JAM, AddressingMode::Implied, true),
            0x13u8 => d(Mnemonic::SLO, AddressingMode::IndirectY, true),
            0x14u8 => d(Mnemonic::NOP, AddressingMode::ZeroPageX, true),
            0x15u8 => d(Mnemonic::ORA, AddressingMode::ZeroPageX, false),
            0x16u8 => d(Mnemonic::ASL, AddressingMode::ZeroPageX, false),
            0x17u8 => d(Mnemonic::SLO, AddressingMode::ZeroPageX, true),
            0x18u8 => d(Mnemonic::CLC, AddressingMode::Implied, false),
            0x19u8 => d(Mnemonic::ORA, AddressingMode::AbsoluteY, false),
            0x1Au8 => d(Mnemonic::NOP, AddressingMode::Implied, true),
            0x1Bu8 => d(Mnemonic::SLO, AddressingMode::AbsoluteY, true),
            0x1Cu8 => d(Mnemonic::NOP, AddressingMode::AbsoluteX, true),
            0x1Du8 => d(Mnemonic::ORA, AddressingMode::AbsoluteX, false),
            0x1Eu8 => d(Mnemonic::ASL, AddressingMode::AbsoluteX, false),
            0x1Fu8 => d(Mnemonic::SLO, AddressingMode::AbsoluteX, true),
            0x20u8 => d(Mnemonic::JSR, AddressingMode::Absolute, false),
            0x21u8 => d(Mnemonic::AND, AddressingMode::IndirectX, false),
            0x22u8 => d(Mnemonic::JAM, AddressingMode::Implied, true),
            0x23u8 => d(Mnemonic::RLA, AddressingMode::IndirectX, true),
            0x24u8 => d(Mnemonic::BIT, AddressingMode::ZeroPage, false),
            0x25u8 => d(Mnemonic::AND, AddressingMode::ZeroPage, false),
            0x26u8 => d(Mnemonic::ROL, AddressingMode::ZeroPage, false),
            0x27u8 => d(Mnemonic::RLA, AddressingMode::ZeroPage, true),
            0x28u8 => d(Mnemonic::PLP, AddressingMode::Implied, false),
            0x29u8 => d(Mnemonic::AND, AddressingMode::Immediate, false),
            0x2Au8 => d(Mnemonic::ROL, AddressingMode::Accumulator, false),
            0x2Bu8 => d(Mnemonic::ANC, AddressingMode::Immediate, true),
            0x2Cu8 => d(Mnemonic::BIT, AddressingMode::Absolute, false),
            0x2Du8 => d(Mnemonic::AND, AddressingMode::Absolute, false),
            0x2Eu8 => d(Mnemonic::ROL, AddressingMode::Absolute, false),
            0x2Fu8 => d(Mnemonic::RLA, AddressingMode::Absolute, true),
            0x30u8 => d(Mnemonic::BMI, AddressingMode::Relative, false),
            0x31u8 => d(Mnemonic::AND, AddressingMode::IndirectY, false),
            0x32u8 => d(Mnemonic::JAM, AddressingMode::Implied, true),
            0x33u8 => d(Mnemonic::RLA, AddressingMode::IndirectY, true),
            0x34u8 => d(Mnemonic::NOP, AddressingMode::ZeroPageX, true),
            0x35u8 => d(Mnemonic::AND, AddressingMode::ZeroPageX, false),
            0x36u8 => d(Mnemonic::ROL, AddressingMode::ZeroPageX, false),
            0x37u8 => d(Mnemonic::RLA, AddressingMode::ZeroPageX, true),
            0x38u8 => d(Mnemonic::SEC, AddressingMode::Implied, false),
            0x39u8 => d(Mnemonic::AND, AddressingMode::AbsoluteY, false),
            0x3Au8 => d(Mnemonic::NOP, AddressingMode::Implied, true),
            0x3Bu8 => d(Mnemonic::RLA, AddressingMode::AbsoluteY, true),
            0x3Cu8 => d(Mnemonic::NOP, AddressingMode::AbsoluteX, true),
            0x3Du8 => d(Mnemonic::AND, AddressingMode::AbsoluteX, false),
            0x3Eu8 => d(Mnemonic::ROL, AddressingMode::AbsoluteX, false),
            0x3Fu8 => d(Mnemonic::RLA, AddressingMode::AbsoluteX, true),
            0x40u8 => d(Mnemonic::RTI, AddressingMode::Implied, false),
            0x41u8 => d(Mnemonic::EOR, AddressingMode::IndirectX, false),
            0x42u8 => d(Mnemonic::JAM, AddressingMode::Implied, true),
            0x43u8 => d(Mnemonic::SRE, AddressingMode::IndirectX, true),
            0x44u8 => d(Mnemonic::NOP, AddressingMode::ZeroPage, true),
            0x45u8 => d(Mnemonic::EOR, AddressingMode::ZeroPage, false),
            0x46u8 => d(Mnemonic::LSR, AddressingMode::ZeroPage, false),
            0x47u8 => d(Mnemonic::SRE, AddressingMode::ZeroPage, true),
            0x48u8 => d(Mnemonic::PHA, AddressingMode::Implied, false),
            0x49u8 => d(Mnemonic::EOR, AddressingMode::Immediate, false),
            0x4Au8 => d(Mnemonic::LSR, AddressingMode::Accumulator, false),
            0x4Bu8 => d(Mnemonic::ALR, AddressingMode::Immediate, true),
            0x4Cu8 => d(Mnemonic::JMP, AddressingMode::Absolute, false),
            0x4Du8 => d(Mnemonic::EOR, AddressingMode::Absolute, false),
            0x4Eu8 => d(Mnemonic::LSR, AddressingMode::Absolute, false),
            0x4Fu8 => d(Mnemonic::SRE, AddressingMode::Absolute, true),
            0x50u8 => d(Mnemonic::BVC, AddressingMode::Relative, false),
            0x51u8 => d(Mnemonic::EOR, AddressingMode::IndirectY, false),
            0x52u8 => d(Mnemonic::JAM, AddressingMode::Implied, true),
            0x53u8 => d(Mnemonic::SRE, AddressingMode::IndirectY, true),
            0x54u8 => d(Mnemonic::NOP, AddressingMode::ZeroPageX, true),
            0x55u8 => d(Mnemonic::EOR, AddressingMode::ZeroPageX, false),
            0x56u8 => d(Mnemonic::LSR, AddressingMode::ZeroPageX, false),
            0x57u8 => d(Mnemonic::SRE, AddressingMode::ZeroPageX, true),
            0x58u8 => d(Mnemonic::CLI, AddressingMode::Implied, false),
            0x59u8 => d(Mnemonic::EOR, AddressingMode::AbsoluteY, false),
            0x5Au8 => d(Mnemonic::NOP, AddressingMode::Implied, true),
            0x5Bu8 => d(Mnemonic::SRE, AddressingMode::AbsoluteY, true),
            0x5Cu8 => d(Mnemonic::NOP, AddressingMode::AbsoluteX, true),
            0x5Du8 => d(Mnemonic::EOR, AddressingMode::AbsoluteX, false),
            0x5Eu8 => d(Mnemonic::LSR, AddressingMode::AbsoluteX, false),
            0x5Fu8 => d(Mnemonic::SRE, AddressingMode::AbsoluteX, true),
            0x60u8 => d(Mnemonic::RTS, AddressingMode::Implied, false),
            0x61u8 => d(Mnemonic::ADC, AddressingMode::IndirectX, false),
            0x62u8 => d(Mnemonic::JAM, AddressingMode::Implied, true),
            0x63u8 => d(Mnemonic::RRA, AddressingMode::IndirectX, true),
            0x64u8 => d(Mnemonic::NOP, AddressingMode::ZeroPage, true),
            0x65u8 => d(Mnemonic::ADC, AddressingMode::ZeroPage, false),
            0x66u8 => d(Mnemonic::ROR, AddressingMode::ZeroPage, false),
            0x67u8 => d(Mnemonic::RRA, AddressingMode::ZeroPage, true),
            0x68u8 => d(Mnemonic::PLA, AddressingMode::Implied, false),
            0x69u8 => d(Mnemonic::ADC, AddressingMode::Immediate, false),
            0x6Au8 => d(Mnemonic::ROR, AddressingMode::Accumulator, false),
            0x6Bu8 => d(Mnemonic::ARR, AddressingMode::Immediate, true),
            0x6Cu8 => d(Mnemonic::JMP, AddressingMode::Indirect, false),
            0x6Du8 => d(Mnemonic::ADC, AddressingMode::Absolute, false),
            0x6Eu8 => d(Mnemonic::ROR, AddressingMode::Absolute, false),
            0x6Fu8 => d(Mnemonic::RRA, AddressingMode::Absolute, true),
            0x70u8 => d(Mnemonic::BVS, AddressingMode::Relative, false),
            0x71u8 => d(Mnemonic::ADC, AddressingMode::IndirectY, false),
            0x72u8 => d(Mnemonic::JAM, AddressingMode::Implied, true),
            0x73u8 => d(Mnemonic::RRA, AddressingMode::IndirectY, true),
            0x74u8 => d(Mnemonic::NOP, AddressingMode::ZeroPageX, true),
            0x75u8 => d(Mnemonic::ADC, AddressingMode::ZeroPageX, false),
            0x76u8 => d(Mnemonic::ROR, AddressingMode::ZeroPageX, false),
            0x77u8 => d(Mnemonic::RRA, AddressingMode::ZeroPageX, true),
            0x78u8 => d(Mnemonic::SEI, AddressingMode::Implied, false),
            0x79u8 => d(Mnemonic::ADC, AddressingMode::AbsoluteY, false),
            0x7Au8 => d(Mnemonic::NOP, AddressingMode::Implied, true),
            0x7Bu8 => d(Mnemonic::RRA, AddressingMode::AbsoluteY, true),
            0x7Cu8 => d(Mnemonic::NOP, AddressingMode::AbsoluteX, true),
            0x7Du8 => d(Mnemonic::ADC, AddressingMode::AbsoluteX, false),
            0x7Eu8 => d(Mnemonic::ROR, AddressingMode::AbsoluteX, false),
            0x7Fu8 => d(Mnemonic::RRA, AddressingMode::AbsoluteX, true),
            0x80u8 => d(Mnemonic::NOP, AddressingMode::Immediate, true),
            0x81u8 => d(Mnemonic::STA, AddressingMode::IndirectX, false),
            0x82u8 => d(Mnemonic::NOP, AddressingMode::Immediate, true),
            0x83u8 => d(Mnemonic::SAX, AddressingMode::IndirectX, true),
            0x84u8 => d(Mnemonic::STY, AddressingMode::ZeroPage, false),
            0x85u8 => d(Mnemonic::STA, AddressingMode::ZeroPage, false),
            0x86u8 => d(Mnemonic::STX, AddressingMode::ZeroPage, false),
            0x87u8 => d(Mnemonic::SAX, AddressingMode::ZeroPage, true),
            0x88u8 => d(Mnemonic::DEY, AddressingMode::Implied, false),
            0x89u8 => d(Mnemonic::NOP, AddressingMode::Immediate, true),
            0x8Au8 => d(Mnemonic::TXA, AddressingMode::Implied, false),
            0x8Bu8 => d(Mnemonic::XAA, AddressingMode::Immediate, true),
            0x8Cu8 => d(Mnemonic::STY, AddressingMode::Absolute, false),
            0x8Du8 => d(Mnemonic::STA, AddressingMode::Absolute, false),
            0x8Eu8 => d(Mnemonic::STX, AddressingMode::Absolute, false),
            0x8Fu8 => d(Mnemonic::SAX, AddressingMode::Absolute, true),
            0x90u8 => d(Mnemonic::BCC, AddressingMode::Relative, false),
            0x91u8 => d(Mnemonic::STA, AddressingMode::IndirectY, false),
            0x92u8 => d(Mnemonic::JAM, AddressingMode::Implied, true),
            0x93u8 => d(Mnemonic::SHA, AddressingMode::IndirectY, true),
            0x94u8 => d(Mnemonic::STY, AddressingMode::ZeroPageX, false),
            0x95u8 => d(Mnemonic::STA, AddressingMode::ZeroPageX, false),
            0x96u8 => d(Mnemonic::STX, AddressingMode::ZeroPageY, false),
            0x97u8 => d(Mnemonic::SAX, AddressingMode::ZeroPageY, true),
            0x98u8 => d(Mnemonic::TYA, AddressingMode::Implied, false),
            0x99u8 => d(Mnemonic::STA, AddressingMode::AbsoluteY, false),
            0x9Au8 => d(Mnemonic::TXS, AddressingMode::Implied, false),
            0x9Bu8 => d(Mnemonic::TAS, AddressingMode::AbsoluteY, true),
            0x9Cu8 => d(Mnemonic::SHY, AddressingMode::AbsoluteX, true),
            0x9Du8 => d(Mnemonic::STA, AddressingMode::AbsoluteX, false),
            0x9Eu8 => d(Mnemonic::SHX, AddressingMode::AbsoluteY, true),
            0x9Fu8 => d(Mnemonic::SHA, AddressingMode::AbsoluteY, true),
            0xA0u8 => d(Mnemonic::LDY, AddressingMode::Immediate, false),
            0xA1u8 => d(Mnemonic::LDA, AddressingMode::IndirectX, false),
            0xA2u8 => d(Mnemonic::LDX, AddressingMode::Immediate, false),
            0xA3u8 => d(Mnemonic::LAX, AddressingMode::IndirectX, true),
            0xA4u8 => d(Mnemonic::LDY, AddressingMode::ZeroPage, false),
            0xA5u8 => d(Mnemonic::LDA, AddressingMode::ZeroPage, false),
            0xA6u8 => d(Mnemonic::LDX, AddressingMode::ZeroPage, false),
            0xA7u8 => d(Mnemonic::LAX, AddressingMode::ZeroPage, true),
            0xA8u8 => d(Mnemonic::TAY, AddressingMode::Implied, false),
            0xA9u8 => d(Mnemonic::LDA, AddressingMode::Immediate, false),
            0xAAu8 => d(Mnemonic::TAX, AddressingMode::Implied, false),
            0xABu8 => d(Mnemonic::LXA, AddressingMode::Immediate, true),
            0xACu8 => d(Mnemonic::LDY, AddressingMode::Absolute, false),
            0xADu8 => d(Mnemonic::LDA, AddressingMode::Absolute, false),
            0xAEu8 => d(Mnemonic::LDX, AddressingMode::Absolute, false),
            0xAFu8 => d(Mnemonic::LAX, AddressingMode::Absolute, true),
            0xB0u8 => d(Mnemonic::BCS, AddressingMode::Relative, false),
            0xB1u8 => d(Mnemonic::LDA, AddressingMode::IndirectY, false),
            0xB2u8 => d(Mnemonic::JAM, AddressingMode::Implied, true),
            0xB3u8 => d(Mnemonic::LAX, AddressingMode::IndirectY, true),
            0xB4u8 => d(Mnemonic::LDY, AddressingMode::ZeroPageX, false),
            0xB5u8 => d(Mnemonic::LDA, AddressingMode::ZeroPageX, false),
            0xB6u8 => d(Mnemonic::LDX, AddressingMode::ZeroPageY, false),
            0xB7u8 => d(Mnemonic::LAX, AddressingMode::ZeroPageY, true),
            0xB8u8 => d(Mnemonic::CLV, AddressingMode::Implied, false),
            0xB9u8 => d(Mnemonic::LDA, AddressingMode::AbsoluteY, false),
            0xBAu8 => d(Mnemonic::TSX, AddressingMode::Implied, false),
            0xBBu8 => d(Mnemonic::LAS, AddressingMode::AbsoluteY, true),
            0xBCu8 => d(Mnemonic::LDY, AddressingMode::AbsoluteX, false),
            0xBDu8 => d(Mnemonic::LDA, AddressingMode::AbsoluteX, false),
            0xBEu8 => d(Mnemonic::LDX, AddressingMode::AbsoluteY, false),
            0xBFu8 => d(Mnemonic::LAX, AddressingMode::AbsoluteY, true),
            0xC0u8 => d(Mnemonic::CPY, AddressingMode::Immediate, false),
            0xC1u8 => d(Mnemonic::CMP, AddressingMode::IndirectX, false),
            0xC2u8 => d(Mnemonic::NOP, AddressingMode::Immediate, true),
            0xC3u8 => d(Mnemonic::DCP, AddressingMode::IndirectX, true),
            0xC4u8 => d(Mnemonic::CPY, AddressingMode::ZeroPage, false),
            0xC5u8 => d(Mnemonic::CMP, AddressingMode::ZeroPage, false),
            0xC6u8 => d(Mnemonic::DEC, AddressingMode::ZeroPage, false),
            0xC7u8 => d(Mnemonic::DCP, AddressingMode::ZeroPage, true),
            0xC8u8 => d(Mnemonic::INY, AddressingMode::Implied, false),
            0xC9u8 => d(Mnemonic::CMP, AddressingMode::Immediate, false),
            0xCAu8 => d(Mnemonic::DEX, AddressingMode::Implied, false),
            0xCBu8 => d(Mnemonic::SBX, AddressingMode::Immediate, true),
            0xCCu8 => d(Mnemonic::CPY, AddressingMode::Absolute, false),
            0xCDu8 => d(Mnemonic::CMP, AddressingMode::Absolute, false),
            0xCEu8 => d(Mnemonic::DEC, AddressingMode::Absolute, false),
            0xCFu8 => d(Mnemonic::DCP, AddressingMode::Absolute, true),
            0xD0u8 => d(Mnemonic::BNE, AddressingMode::Relative, false),
            0xD1u8 => d(Mnemonic::CMP, AddressingMode::IndirectY, false),
            0xD2u8 => d(Mnemonic::JAM, AddressingMode::Implied, true),
            0xD3u8 => d(Mnemonic::DCP, AddressingMode::IndirectY, true),
            0xD4u8 => d(Mnemonic::NOP, AddressingMode::ZeroPageX, true),
            0xD5u8 => d(Mnemonic::CMP, AddressingMode::ZeroPageX, false),
            0xD6u8 => d(Mnemonic::DEC, AddressingMode::ZeroPageX, false),
            0xD7u8 => d(Mnemonic::DCP, AddressingMode::ZeroPageX, true),
            0xD8u8 => d(Mnemonic::CLD, AddressingMode::Implied, false),
            0xD9u8 => d(Mnemonic::CMP, AddressingMode::AbsoluteY, false),
            0xDAu8 => d(Mnemonic::NOP, AddressingMode::Implied, true),
            0xDBu8 => d(Mnemonic::DCP, AddressingMode::AbsoluteY, true),
            0xDCu8 => d(Mnemonic::NOP, AddressingMode::AbsoluteX, true),
            0xDDu8 => d(Mnemonic::CMP, AddressingMode::AbsoluteX, false),
            0xDEu8 => d(Mnemonic::DEC, AddressingMode::AbsoluteX, false),
            0xDFu8 => d(Mnemonic::DCP, AddressingMode::AbsoluteX, true),
            0xE0u8 => d(Mnemonic::CPX, AddressingMode::Immediate, false),
            0xE1u8 => d(Mnemonic::SBC, AddressingMode::IndirectX, false),
            0xE2u8 => d(Mnemonic::NOP, AddressingMode::Immediate, true),
            0xE3u8 => d(Mnemonic::ISC, AddressingMode::IndirectX, true),
            0xE4u8 => d(Mnemonic::CPX, AddressingMode::ZeroPage, false),
            0xE5u8 => d(Mnemonic::SBC, AddressingMode::ZeroPage, false),
            0xE6u8 => d(Mnemonic::INC, AddressingMode::ZeroPage, false),
            0xE7u8 => d(Mnemonic::ISC, AddressingMode::ZeroPage, true),
            0xE8u8 => d(Mnemonic::INX, AddressingMode::Implied, false),
            0xE9u8 => d(Mnemonic::SBC, AddressingMode::Immediate, false),
            0xEAu8 => d(Mnemonic::NOP, AddressingMode::Implied, false),
            0xEBu8 => d(Mnemonic::SBC, AddressingMode::Immediate, true),
            0xECu8 => d(Mnemonic::CPX, AddressingMode::Absolute, false),
            0xEDu8 => d(Mnemonic::SBC, AddressingMode::Absolute, false),
            0xEEu8 => d(Mnemonic::INC, AddressingMode::Absolute, false),
            0xEFu8 => d(Mnemonic::ISC, AddressingMode::Absolute, true),
            0xF0u8 => d(Mnemonic::BEQ, AddressingMode::Relative, false),
            0xF1u8 => d(Mnemonic::SBC, AddressingMode::IndirectY, false),
            0xF2u8 => d(Mnemonic::JAM, AddressingMode::Implied, true),
            0xF3u8 => d(Mnemonic::ISC, AddressingMode::IndirectY, true),
            0xF4u8 => d(Mnemonic::NOP, AddressingMode::ZeroPageX, true),
            0xF5u8 => d(Mnemonic::SBC, AddressingMode::ZeroPageX, false),
            0xF6u8 => d(Mnemonic::INC, AddressingMode::ZeroPageX, false),
            0xF7u8 => d(Mnemonic::ISC, AddressingMode::ZeroPageX, true),
            0xF8u8 => d(Mnemonic::SED, AddressingMode::Implied, false),
            0xF9u8 => d(Mnemonic::SBC, AddressingMode::AbsoluteY, false),
            0xFAu8 => d(Mnemonic::NOP, AddressingMode::Implied, true),
            0xFBu8 => d(Mnemonic::ISC, AddressingMode::AbsoluteY, true),
            0xFCu8 => d(Mnemonic::NOP, AddressingMode::AbsoluteX, true),
            0xFDu8 => d(Mnemonic::SBC, AddressingMode::AbsoluteX, false),
            0xFEu8 => d(Mnemonic::INC, AddressingMode::AbsoluteX, false),
            0xFFu8 => d(Mnemonic::ISC, AddressingMode::AbsoluteX, true),
        }
    }

    pub fn length(&self) -> (r: u8)
        ensures
            r == mode_length(self.decoded().addressing_mode),
            1 <= r <= 3,
    {
        match self.disassemble().addressing_mode {
            AddressingMode::Implied | AddressingMode::Accumulator => 1,
            AddressingMode::Absolute | AddressingMode::AbsoluteX | AddressingMode::AbsoluteY
            | AddressingMode::Indirect => 3,
            _ => 2,
        }
    }

    pub fn mnemonic(&self) -> (r: Mnemonic)
        ensures
            r == self.decoded().mnemonic,
    {
        self.disassemble().mnemonic
    }

    pub fn addressing_mode(&self) -> (r: AddressingMode)
        ensures
            r == self.decoded().addressing_mode,
    {
        self.disassemble().addressing_mode
    }

    pub fn illegal(&self) -> (r: bool)
        ensures
            r == self.decoded().illegal,
    {
        self.disassemble().illegal
    }
}

impl PartialEq for Instruction {
    fn eq(&self, other: &Instruction) -> (r: bool) {
        let n = self.length();
        self.opcode == other.opcode && (n < 2 || self.operand1 == other.operand1) && (n < 3
            || self.operand2 == other.operand2)
    }
}

impl vstd::std_specs::cmp::PartialEqSpecImpl for Instruction {
    open spec fn obeys_eq_spec() -> bool {
        true
    }

    open spec fn eq_spec(&self, other: &Instruction) -> bool {
        self.same_as(other)
    }
}

} // verus!
