use vstd::prelude::*;

use crate::mem::{MAX_MEM, MEM};
use vstd::string::StringSliceAdditionalSpecFns;

verus! {

/// The cycle cost and opcode byte of one decoded table entry.
#[derive(Debug, PartialEq, Eq, Structural, Clone, Copy)]
pub struct AddrCode {
    /// Base cycles the instruction consumes.
    pub cycles: u32,
    /// The opcode byte the entry was decoded from.
    pub opcode: u8,
}

/// The thirteen 6502 addressing modes, each carrying its table entry.
#[derive(Debug, PartialEq, Eq, Structural, Clone, Copy)]
pub enum AddrMode {
    /// The operand is register A.
    Accumulator(AddrCode),
    /// The operand is the next byte.
    Immediate(AddrCode),
    /// The address is the next byte, zero-extended.
    ZeroPage(AddrCode),
    /// The address is the next byte plus X, wrapped within the zero page.
    ZeroPageX(AddrCode),
    /// The address is the next byte plus Y, wrapped within the zero page.
    ZeroPageY(AddrCode),
    /// The address is the next little-endian word.
    Absolute(AddrCode),
    /// The address is the next little-endian word plus X.
    AbsoluteX(AddrCode),
    /// The address is the next little-endian word plus Y.
    AbsoluteY(AddrCode),
    /// The address is the word stored at the next word's address.
    Indirect(AddrCode),
    /// The address is the word at zero-page location (next byte + X) mod 256.
    IndirectX(AddrCode),
    /// The address is the word at the next byte's zero-page location, plus Y.
    IndirectY(AddrCode),
    /// The operand is a signed displacement from the advanced PC.
    Relative(AddrCode),
    /// No operand.
    Implied(AddrCode),
}

impl AddrMode {
    /// The table entry the mode carries.
    pub open spec fn spec_code(&self) -> AddrCode {
        match *self {
            AddrMode::Accumulator(c) => c,
            AddrMode::Immediate(c) => c,
            AddrMode::ZeroPage(c) => c,
            AddrMode::ZeroPageX(c) => c,
            AddrMode::ZeroPageY(c) => c,
            AddrMode::Absolute(c) => c,
            AddrMode::AbsoluteX(c) => c,
            AddrMode::AbsoluteY(c) => c,
            AddrMode::Indirect(c) => c,
            AddrMode::IndirectX(c) => c,
            AddrMode::IndirectY(c) => c,
            AddrMode::Relative(c) => c,
            AddrMode::Implied(c) => c,
        }
    }

    /// Extract the table entry the mode carries.
    pub fn code(&self) -> (r: AddrCode)
        ensures
            r == self.spec_code(),
    {
        match *self {
            AddrMode::Accumulator(c) => c,
            AddrMode::Immediate(c) => c,
            AddrMode::ZeroPage(c) => c,
            AddrMode::ZeroPageX(c) => c,
            AddrMode::ZeroPageY(c) => c,
            AddrMode::Absolute(c) => c,
            AddrMode::AbsoluteX(c) => c,
            AddrMode::AbsoluteY(c) => c,
            AddrMode::Indirect(c) => c,
            AddrMode::IndirectX(c) => c,
            AddrMode::IndirectY(c) => c,
            AddrMode::Relative(c) => c,
            AddrMode::Implied(c) => c,
        }
    }
}


/// A typed, recoverable engine failure.
#[derive(Debug, PartialEq, Eq, Structural, Clone, Copy)]
pub enum EmuError {
    /// The opcode byte has no entry in the documented 6502 table.
    UnknownOpcode(u8),
    /// The decoded mnemonic has no semantic handler for its addressing mode.
    UnsupportedAddressingMode(u8),
    /// A free-running execution accumulated more cycles than the machine's
    /// counter can hold.
    CycleAccountingOverflow,
}

/// The 56 documented 6502 mnemonics, each carrying its addressing mode.
#[derive(Debug, PartialEq, Eq, Structural, Clone, Copy)]
pub enum Instructions {
    /// Add with carry.
    ADC(AddrMode),
    /// Bitwise AND with A.
    AND(AddrMode),
    /// Arithmetic shift left.
    ASL(AddrMode),
    /// Branch if carry clear.
    BCC(AddrMode),
    /// Branch if carry set.
    BCS(AddrMode),
    /// Branch if zero set.
    BEQ(AddrMode),
    /// Bit test.
    BIT(AddrMode),
    /// Branch if negative set.
    BMI(AddrMode),
    /// Branch if zero clear.
    BNE(AddrMode),
    /// Branch if negative clear.
    BPL(AddrMode),
    /// Force break.
    BRK(AddrMode),
    /// Branch if overflow clear.
    BVC(AddrMode),
    /// Branch if overflow set.
    BVS(AddrMode),
    /// Clear carry.
    CLC(AddrMode),
    /// Clear decimal mode.
    CLD(AddrMode),
    /// Clear interrupt disable.
    CLI(AddrMode),
    /// Clear overflow.
    CLV(AddrMode),
    /// Compare with A.
    CMP(AddrMode),
    /// Compare with X.
    CPX(AddrMode),
    /// Compare with Y.
    CPY(AddrMode),
    /// Decrement memory.
    DEC(AddrMode),
    /// Decrement X.
    DEX(AddrMode),
    /// Decrement Y.
    DEY(AddrMode),
    /// Bitwise exclusive OR with A.
    EOR(AddrMode),
    /// Increment memory.
    INC(AddrMode),
    /// Increment X.
    INX(AddrMode),
    /// Increment Y.
    INY(AddrMode),
    /// Jump.
    JMP(AddrMode),
    /// Jump to subroutine.
    JSR(AddrMode),
    /// Load A.
    LDA(AddrMode),
    /// Load X.
    LDX(AddrMode),
    /// Load Y.
    LDY(AddrMode),
    /// Logical shift right.
    LSR(AddrMode),
    /// No operation.
    NOP(AddrMode),
    /// Bitwise OR with A.
    ORA(AddrMode),
    /// Push A.
    PHA(AddrMode),
    /// Push processor status.
    PHP(AddrMode),
    /// Pull A.
    PLA(AddrMode),
    /// Pull processor status.
    PLP(AddrMode),
    /// Rotate left.
    ROL(AddrMode),
    /// Rotate right.
    ROR(AddrMode),
    /// Return from interrupt.
    RTI(AddrMode),
    /// Return from subroutine.
    RTS(AddrMode),
    /// Subtract with carry.
    SBC(AddrMode),
    /// Set carry.
    SEC(AddrMode),
    /// Set decimal mode.
    SED(AddrMode),
    /// Set interrupt disable.
    SEI(AddrMode),
    /// Store A.
    STA(AddrMode),
    /// Store X.
    STX(AddrMode),
    /// Store Y.
    STY(AddrMode),
    /// Transfer A to X.
    TAX(AddrMode),
    /// Transfer A to Y.
    TAY(AddrMode),
    /// Transfer SP to X.
    TSX(AddrMode),
    /// Transfer X to A.
    TXA(AddrMode),
    /// Transfer X to SP.
    TXS(AddrMode),
    /// Transfer Y to A.
    TYA(AddrMode),
}

/// The documented 6502 opcode table: the mnemonic, addressing mode, and
/// base cycle cost of every legal opcode byte, and `None` for the rest.
/// Opaque: reveal it where one concrete entry matters.
#[verifier::opaque]
pub open spec fn spec_resolve(opcode: u8) -> Option<Instructions> {
    match opcode {
        0x00 => Some(Instructions::BRK(AddrMode::Implied(AddrCode { cycles: 7, opcode: 0x00 }))),
        0x01 => Some(Instructions::ORA(AddrMode::IndirectX(AddrCode { cycles: 6, opcode: 0x01 }))),
        0x05 => Some(Instructions::ORA(AddrMode::ZeroPage(AddrCode { cycles: 3, opcode: 0x05 }))),
        0x06 => Some(Instructions::ASL(AddrMode::ZeroPage(AddrCode { cycles: 5, opcode: 0x06 }))),
        0x08 => Some(Instructions::PHP(AddrMode::Implied(AddrCode { cycles: 3, opcode: 0x08 }))),
        0x09 => Some(Instructions::ORA(AddrMode::Immediate(AddrCode { cycles: 2, opcode: 0x09 }))),
        0x0A => Some(Instructions::ASL(AddrMode::Accumulator(AddrCode { cycles: 2, opcode: 0x0A }))),
        0x0D => Some(Instructions::ORA(AddrMode::Absolute(AddrCode { cycles: 4, opcode: 0x0D }))),
        0x0E => Some(Instructions::ASL(AddrMode::Absolute(AddrCode { cycles: 6, opcode: 0x0E }))),
        0x10 => Some(Instructions::BPL(AddrMode::Relative(AddrCode { cycles: 2, opcode: 0x10 }))),
        0x11 => Some(Instructions::ORA(AddrMode::IndirectY(AddrCode { cycles: 5, opcode: 0x11 }))),
        0x15 => Some(Instructions::ORA(AddrMode::ZeroPageX(AddrCode { cycles: 4, opcode: 0x15 }))),
        0x16 => Some(Instructions::ASL(AddrMode::ZeroPageX(AddrCode { cycles: 6, opcode: 0x16 }))),
        0x18 => Some(Instructions::CLC(AddrMode::Implied(AddrCode { cycles: 2, opcode: 0x18 }))),
        0x19 => Some(Instructions::ORA(AddrMode::AbsoluteY(AddrCode { cycles: 4, opcode: 0x19 }))),
        0x1D => Some(Instructions::ORA(AddrMode::AbsoluteX(AddrCode { cycles: 4, opcode: 0x1D }))),
        0x1E => Some(Instructions::ASL(AddrMode::AbsoluteX(AddrCode { cycles: 7, opcode: 0x1E }))),
        0x20 => Some(Instructions::JSR(AddrMode::Absolute(AddrCode { cycles: 6, opcode: 0x20 }))),
        0x21 => Some(Instructions::AND(AddrMode::IndirectX(AddrCode { cycles: 6, opcode: 0x21 }))),
        0x24 => Some(Instructions::BIT(AddrMode::ZeroPage(AddrCode { cycles: 3, opcode: 0x24 }))),
        0x25 => Some(Instructions::AND(AddrMode::ZeroPage(AddrCode { cycles: 3, opcode: 0x25 }))),
        0x26 => Some(Instructions::ROL(AddrMode::ZeroPage(AddrCode { cycles: 5, opcode: 0x26 }))),
        0x28 => Some(Instructions::PLP(AddrMode::Implied(AddrCode { cycles: 4, opcode: 0x28 }))),
        0x29 => Some(Instructions::AND(AddrMode::Immediate(AddrCode { cycles: 2, opcode: 0x29 }))),
        0x2A => Some(Instructions::ROL(AddrMode::Accumulator(AddrCode { cycles: 2, opcode: 0x2A }))),
        0x2C => Some(Instructions::BIT(AddrMode::Absolute(AddrCode { cycles: 4, opcode: 0x2C }))),
        0x2D => Some(Instructions::AND(AddrMode::Absolute(AddrCode { cycles: 4, opcode: 0x2D }))),
        0x2E => Some(Instructions::ROL(AddrMode::Absolute(AddrCode { cycles: 6, opcode: 0x2E }))),
        0x30 => Some(Instructions::BMI(AddrMode::Relative(AddrCode { cycles: 2, opcode: 0x30 }))),
        0x31 => Some(Instructions::AND(AddrMode::IndirectY(AddrCode { cycles: 5, opcode: 0x31 }))),
        0x35 => Some(Instructions::AND(AddrMode::ZeroPageX(AddrCode { cycles: 4, opcode: 0x35 }))),
        0x36 => Some(Instructions::ROL(AddrMode::ZeroPageX(AddrCode { cycles: 6, opcode: 0x36 }))),
        0x38 => Some(Instructions::SEC(AddrMode::Implied(AddrCode { cycles: 2, opcode: 0x38 }))),
        0x39 => Some(Instructions::AND(AddrMode::AbsoluteY(AddrCode { cycles: 4, opcode: 0x39 }))),
        0x3D => Some(Instructions::AND(AddrMode::AbsoluteX(AddrCode { cycles: 4, opcode: 0x3D }))),
        0x3E => Some(Instructions::ROL(AddrMode::AbsoluteX(AddrCode { cycles: 7, opcode: 0x3E }))),
        0x40 => Some(Instructions::RTI(AddrMode::Implied(AddrCode { cycles: 6, opcode: 0x40 }))),
        0x41 => Some(Instructions::EOR(AddrMode::IndirectX(AddrCode { cycles: 6, opcode: 0x41 }))),
        0x45 => Some(Instructions::EOR(AddrMode::ZeroPage(AddrCode { cycles: 3, opcode: 0x45 }))),
        0x46 => Some(Instructions::LSR(AddrMode::ZeroPage(AddrCode { cycles: 5, opcode: 0x46 }))),
        0x48 => Some(Instructions::PHA(AddrMode::Implied(AddrCode { cycles: 3, opcode: 0x48 }))),
        0x49 => Some(Instructions::EOR(AddrMode::Immediate(AddrCode { cycles: 2, opcode: 0x49 }))),
        0x4A => Some(Instructions::LSR(AddrMode::Accumulator(AddrCode { cycles: 2, opcode: 0x4A }))),
        0x4C => Some(Instructions::JMP(AddrMode::Absolute(AddrCode { cycles: 3, opcode: 0x4C }))),
        0x4D => Some(Instructions::EOR(AddrMode::Absolute(AddrCode { cycles: 4, opcode: 0x4D }))),
        0x4E => Some(Instructions::LSR(AddrMode::Absolute(AddrCode { cycles: 6, opcode: 0x4E }))),
        0x50 => Some(Instructions::BVC(AddrMode::Relative(AddrCode { cycles: 2, opcode: 0x50 }))),
        0x51 => Some(Instructions::EOR(AddrMode::IndirectY(AddrCode { cycles: 5, opcode: 0x51 }))),
        0x55 => Some(Instructions::EOR(AddrMode::ZeroPageX(AddrCode { cycles: 4, opcode: 0x55 }))),
        0x56 => Some(Instructions::LSR(AddrMode::ZeroPageX(AddrCode { cycles: 6, opcode: 0x56 }))),
        0x58 => Some(Instructions::CLI(AddrMode::Implied(AddrCode { cycles: 2, opcode: 0x58 }))),
        0x59 => Some(Instructions::EOR(AddrMode::AbsoluteY(AddrCode { cycles: 4, opcode: 0x59 }))),
        0x5D => Some(Instructions::EOR(AddrMode::AbsoluteX(AddrCode { cycles: 4, opcode: 0x5D }))),
        0x5E => Some(Instructions::LSR(AddrMode::AbsoluteX(AddrCode { cycles: 7, opcode: 0x5E }))),
        0x60 => Some(Instructions::RTS(AddrMode::Implied(AddrCode { cycles: 6, opcode: 0x60 }))),
        0x61 => Some(Instructions::ADC(AddrMode::IndirectX(AddrCode { cycles: 6, opcode: 0x61 }))),
        0x65 => Some(Instructions::ADC(AddrMode::ZeroPage(AddrCode { cycles: 3, opcode: 0x65 }))),
        0x66 => Some(Instructions::ROR(AddrMode::ZeroPage(AddrCode { cycles: 5, opcode: 0x66 }))),
        0x68 => Some(Instructions::PLA(AddrMode::Implied(AddrCode { cycles: 4, opcode: 0x68 }))),
        0x69 => Some(Instructions::ADC(AddrMode::Immediate(AddrCode { cycles: 2, opcode: 0x69 }))),
        0x6A => Some(Instructions::ROR(AddrMode::Accumulator(AddrCode { cycles: 2, opcode: 0x6A }))),
        0x6C => Some(Instructions::JMP(AddrMode::Indirect(AddrCode { cycles: 5, opcode: 0x6C }))),
        0x6D => Some(Instructions::ADC(AddrMode::Absolute(AddrCode { cycles: 4, opcode: 0x6D }))),
        0x6E => Some(Instructions::ROR(AddrMode::Absolute(AddrCode { cycles: 6, opcode: 0x6E }))),
        0x70 => Some(Instructions::BVS(AddrMode::Relative(AddrCode { cycles: 2, opcode: 0x70 }))),
        0x71 => Some(Instructions::ADC(AddrMode::IndirectY(AddrCode { cycles: 5, opcode: 0x71 }))),
        0x75 => Some(Instructions::ADC(AddrMode::ZeroPageX(AddrCode { cycles: 4, opcode: 0x75 }))),
        0x76 => Some(Instructions::ROR(AddrMode::ZeroPageX(AddrCode { cycles: 6, opcode: 0x76 }))),
        0x78 => Some(Instructions::SEI(AddrMode::Implied(AddrCode { cycles: 2, opcode: 0x78 }))),
        0x79 => Some(Instructions::ADC(AddrMode::AbsoluteY(AddrCode { cycles: 4, opcode: 0x79 }))),
        0x7D => Some(Instructions::ADC(AddrMode::AbsoluteX(AddrCode { cycles: 4, opcode: 0x7D }))),
        0x7E => Some(Instructions::ROR(AddrMode::AbsoluteX(AddrCode { cycles: 7, opcode: 0x7E }))),
        0x81 => Some(Instructions::STA(AddrMode::IndirectX(AddrCode { cycles: 6, opcode: 0x81 }))),
        0x84 => Some(Instructions::STY(AddrMode::ZeroPage(AddrCode { cycles: 3, opcode: 0x84 }))),
        0x85 => Some(Instructions::STA(AddrMode::ZeroPage(AddrCode { cycles: 3, opcode: 0x85 }))),
        0x86 => Some(Instructions::STX(AddrMode::ZeroPage(AddrCode { cycles: 3, opcode: 0x86 }))),
        0x88 => Some(Instructions::DEY(AddrMode::Implied(AddrCode { cycles: 2, opcode: 0x88 }))),
        0x8A => Some(Instructions::TXA(AddrMode::Implied(AddrCode { cycles: 2, opcode: 0x8A }))),
        0x8C => Some(Instructions::STY(AddrMode::Absolute(AddrCode { cycles: 4, opcode: 0x8C }))),
        0x8D => Some(Instructions::STA(AddrMode::Absolute(AddrCode { cycles: 4, opcode: 0x8D }))),
        0x8E => Some(Instructions::STX(AddrMode::Absolute(AddrCode { cycles: 4, opcode: 0x8E }))),
        0x90 => Some(Instructions::BCC(AddrMode::Relative(AddrCode { cycles: 2, opcode: 0x90 }))),
        0x91 => Some(Instructions::STA(AddrMode::IndirectY(AddrCode { cycles: 6, opcode: 0x91 }))),
        0x94 => Some(Instructions::STY(AddrMode::ZeroPageX(AddrCode { cycles: 4, opcode: 0x94 }))),
        0x95 => Some(Instructions::STA(AddrMode::ZeroPageX(AddrCode { cycles: 4, opcode: 0x95 }))),
        0x96 => Some(Instructions::STX(AddrMode::ZeroPageY(AddrCode { cycles: 4, opcode: 0x96 }))),
        0x98 => Some(Instructions::TYA(AddrMode::Implied(AddrCode { cycles: 2, opcode: 0x98 }))),
        0x99 => Some(Instructions::STA(AddrMode::AbsoluteY(AddrCode { cycles: 5, opcode: 0x99 }))),
        0x9A => Some(Instructions::TXS(AddrMode::Implied(AddrCode { cycles: 2, opcode: 0x9A }))),
        0x9D => Some(Instructions::STA(AddrMode::AbsoluteX(AddrCode { cycles: 5, opcode: 0x9D }))),
        0xA0 => Some(Instructions::LDY(AddrMode::Immediate(AddrCode { cycles: 2, opcode: 0xA0 }))),
        0xA1 => Some(Instructions::LDA(AddrMode::IndirectX(AddrCode { cycles: 6, opcode: 0xA1 }))),
        0xA2 => Some(Instructions::LDX(AddrMode::Immediate(AddrCode { cycles: 2, opcode: 0xA2 }))),
        0xA4 => Some(Instructions::LDY(AddrMode::ZeroPage(AddrCode { cycles: 3, opcode: 0xA4 }))),
        0xA5 => Some(Instructions::LDA(AddrMode::ZeroPage(AddrCode { cycles: 3, opcode: 0xA5 }))),
        0xA6 => Some(Instructions::LDX(AddrMode::ZeroPage(AddrCode { cycles: 3, opcode: 0xA6 }))),
        0xA8 => Some(Instructions::TAY(AddrMode::Implied(AddrCode { cycles: 2, opcode: 0xA8 }))),
        0xA9 => Some(Instructions::LDA(AddrMode::Immediate(AddrCode { cycles: 2, opcode: 0xA9 }))),
        0xAA => Some(Instructions::TAX(AddrMode::Implied(AddrCode { cycles: 2, opcode: 0xAA }))),
        0xAC => Some(Instructions::LDY(AddrMode::Absolute(AddrCode { cycles: 4, opcode: 0xAC }))),
        0xAD => Some(Instructions::LDA(AddrMode::Absolute(AddrCode { cycles: 4, opcode: 0xAD }))),
        0xAE => Some(Instructions::LDX(AddrMode::Absolute(AddrCode { cycles: 4, opcode: 0xAE }))),
        0xB0 => Some(Instructions::BCS(AddrMode::Relative(AddrCode { cycles: 2, opcode: 0xB0 }))),
        0xB1 => Some(Instructions::LDA(AddrMode::IndirectY(AddrCode { cycles: 5, opcode: 0xB1 }))),
        0xB4 => Some(Instructions::LDY(AddrMode::ZeroPageX(AddrCode { cycles: 4, opcode: 0xB4 }))),
        0xB5 => Some(Instructions::LDA(AddrMode::ZeroPageX(AddrCode { cycles: 4, opcode: 0xB5 }))),
        0xB6 => Some(Instructions::LDX(AddrMode::ZeroPageY(AddrCode { cycles: 4, opcode: 0xB6 }))),
        0xB8 => Some(Instructions::CLV(AddrMode::Implied(AddrCode { cycles: 2, opcode: 0xB8 }))),
        0xB9 => Some(Instructions::LDA(AddrMode::AbsoluteY(AddrCode { cycles: 4, opcode: 0xB9 }))),
        0xBA => Some(Instructions::TSX(AddrMode::Implied(AddrCode { cycles: 2, opcode: 0xBA }))),
        0xBC => Some(Instructions::LDY(AddrMode::AbsoluteX(AddrCode { cycles: 4, opcode: 0xBC }))),
        0xBD => Some(Instructions::LDA(AddrMode::AbsoluteX(AddrCode { cycles: 4, opcode: 0xBD }))),
        0xBE => Some(Instructions::LDX(AddrMode::AbsoluteY(AddrCode { cycles: 4, opcode: 0xBE }))),
        0xC0 => Some(Instructions::CPY(AddrMode::Immediate(AddrCode { cycles: 2, opcode: 0xC0 }))),
        0xC1 => Some(Instructions::CMP(AddrMode::IndirectX(AddrCode { cycles: 6, opcode: 0xC1 }))),
        0xC4 => Some(Instructions::CPY(AddrMode::ZeroPage(AddrCode { cycles: 3, opcode: 0xC4 }))),
        0xC5 => Some(Instructions::CMP(AddrMode::ZeroPage(AddrCode { cycles: 3, opcode: 0xC5 }))),
        0xC6 => Some(Instructions::DEC(AddrMode::ZeroPage(AddrCode { cycles: 5, opcode: 0xC6 }))),
        0xC8 => Some(Instructions::INY(AddrMode::Implied(AddrCode { cycles: 2, opcode: 0xC8 }))),
        0xC9 => Some(Instructions::CMP(AddrMode::Immediate(AddrCode { cycles: 2, opcode: 0xC9 }))),
        0xCA => Some(Instructions::DEX(AddrMode::Implied(AddrCode { cycles: 2, opcode: 0xCA }))),
        0xCC => Some(Instructions::CPY(AddrMode::Absolute(AddrCode { cycles: 4, opcode: 0xCC }))),
        0xCD => Some(Instructions::CMP(AddrMode::Absolute(AddrCode { cycles: 4, opcode: 0xCD }))),
        0xCE => Some(Instructions::DEC(AddrMode::Absolute(AddrCode { cycles: 6, opcode: 0xCE }))),
        0xD0 => Some(Instructions::BNE(AddrMode::Relative(AddrCode { cycles: 2, opcode: 0xD0 }))),
        0xD1 => Some(Instructions::CMP(AddrMode::IndirectY(AddrCode { cycles: 5, opcode: 0xD1 }))),
        0xD5 => Some(Instructions::CMP(AddrMode::ZeroPageX(AddrCode { cycles: 4, opcode: 0xD5 }))),
        0xD6 => Some(Instructions::DEC(AddrMode::ZeroPageX(AddrCode { cycles: 6, opcode: 0xD6 }))),
        0xD8 => Some(Instructions::CLD(AddrMode::Implied(AddrCode { cycles: 2, opcode: 0xD8 }))),
        0xD9 => Some(Instructions::CMP(AddrMode::AbsoluteY(AddrCode { cycles: 4, opcode: 0xD9 }))),
        0xDD => Some(Instructions::CMP(AddrMode::AbsoluteX(AddrCode { cycles: 4, opcode: 0xDD }))),
        0xDE => Some(Instructions::DEC(AddrMode::AbsoluteX(AddrCode { cycles: 7, opcode: 0xDE }))),
        0xE0 => Some(Instructions::CPX(AddrMode::Immediate(AddrCode { cycles: 2, opcode: 0xE0 }))),
        0xE1 => Some(Instructions::SBC(AddrMode::IndirectX(AddrCode { cycles: 6, opcode: 0xE1 }))),
        0xE4 => Some(Instructions::CPX(AddrMode::ZeroPage(AddrCode { cycles: 3, opcode: 0xE4 }))),
        0xE5 => Some(Instructions::SBC(AddrMode::ZeroPage(AddrCode { cycles: 3, opcode: 0xE5 }))),
        0xE6 => Some(Instructions::INC(AddrMode::ZeroPage(AddrCode { cycles: 5, opcode: 0xE6 }))),
        0xE8 => Some(Instructions::INX(AddrMode::Implied(AddrCode { cycles: 2, opcode: 0xE8 }))),
        0xE9 => Some(Instructions::SBC(AddrMode::Immediate(AddrCode { cycles: 2, opcode: 0xE9 }))),
        0xEA => Some(Instructions::NOP(AddrMode::Implied(AddrCode { cycles: 2, opcode: 0xEA }))),
        0xEC => Some(Instructions::CPX(AddrMode::Absolute(AddrCode { cycles: 4, opcode: 0xEC }))),
        0xED => Some(Instructions::SBC(AddrMode::Absolute(AddrCode { cycles: 4, opcode: 0xED }))),
        0xEE => Some(Instructions::INC(AddrMode::Absolute(AddrCode { cycles: 6, opcode: 0xEE }))),
        0xF0 => Some(Instructions::BEQ(AddrMode::Relative(AddrCode { cycles: 2, opcode: 0xF0 }))),
        0xF1 => Some(Instructions::SBC(AddrMode::IndirectY(AddrCode { cycles: 5, opcode: 0xF1 }))),
        0xF5 => Some(Instructions::SBC(AddrMode::ZeroPageX(AddrCode { cycles: 4, opcode: 0xF5 }))),
        0xF6 => Some(Instructions::INC(AddrMode::ZeroPageX(AddrCode { cycles: 6, opcode: 0xF6 }))),
        0xF8 => Some(Instructions::SED(AddrMode::Implied(AddrCode { cycles: 2, opcode: 0xF8 }))),
        0xF9 => Some(Instructions::SBC(AddrMode::AbsoluteY(AddrCode { cycles: 4, opcode: 0xF9 }))),
        0xFD => Some(Instructions::SBC(AddrMode::AbsoluteX(AddrCode { cycles: 4, opcode: 0xFD }))),
        0xFE => Some(Instructions::INC(AddrMode::AbsoluteX(AddrCode { cycles: 7, opcode: 0xFE }))),
        _ => None,
    }
}

impl Instructions {
    /// Decode one opcode byte against the documented 6502 table.
    pub fn resolve(opcode: u8) -> (r: Result<Instructions, EmuError>)
        ensures
            match spec_resolve(opcode) {
                Some(ins) => r == Ok::<Instructions, EmuError>(ins),
                None => r == Err::<Instructions, EmuError>(EmuError::UnknownOpcode(opcode)),
            },
    {
        proof {
            reveal(spec_resolve);
        }
        match opcode {
            0x00 => Ok(Instructions::BRK(AddrMode::Implied(AddrCode { cycles: 7, opcode: 0x00 }))),
            0x01 => Ok(Instructions::ORA(AddrMode::IndirectX(AddrCode { cycles: 6, opcode: 0x01 }))),
            0x05 => Ok(Instructions::ORA(AddrMode::ZeroPage(AddrCode { cycles: 3, opcode: 0x05 }))),
            0x06 => Ok(Instructions::ASL(AddrMode::ZeroPage(AddrCode { cycles: 5, opcode: 0x06 }))),
            0x08 => Ok(Instructions::PHP(AddrMode::Implied(AddrCode { cycles: 3, opcode: 0x08 }))),
            0x09 => Ok(Instructions::ORA(AddrMode::Immediate(AddrCode { cycles: 2, opcode: 0x09 }))),
            0x0A => Ok(Instructions::ASL(AddrMode::Accumulator(AddrCode { cycles: 2, opcode: 0x0A }))),
            0x0D => Ok(Instructions::ORA(AddrMode::Absolute(AddrCode { cycles: 4, opcode: 0x0D }))),
            0x0E => Ok(Instructions::ASL(AddrMode::Absolute(AddrCode { cycles: 6, opcode: 0x0E }))),
            0x10 => Ok(Instructions::BPL(AddrMode::Relative(AddrCode { cycles: 2, opcode: 0x10 }))),
            0x11 => Ok(Instructions::ORA(AddrMode::IndirectY(AddrCode { cycles: 5, opcode: 0x11 }))),
            0x15 => Ok(Instructions::ORA(AddrMode::ZeroPageX(AddrCode { cycles: 4, opcode: 0x15 }))),
            0x16 => Ok(Instructions::ASL(AddrMode::ZeroPageX(AddrCode { cycles: 6, opcode: 0x16 }))),
            0x18 => Ok(Instructions::CLC(AddrMode::Implied(AddrCode { cycles: 2, opcode: 0x18 }))),
            0x19 => Ok(Instructions::ORA(AddrMode::AbsoluteY(AddrCode { cycles: 4, opcode: 0x19 }))),
            0x1D => Ok(Instructions::ORA(AddrMode::AbsoluteX(AddrCode { cycles: 4, opcode: 0x1D }))),
            0x1E => Ok(Instructions::ASL(AddrMode::AbsoluteX(AddrCode { cycles: 7, opcode: 0x1E }))),
            0x20 => Ok(Instructions::JSR(AddrMode::Absolute(AddrCode { cycles: 6, opcode: 0x20 }))),
            0x21 => Ok(Instructions::AND(AddrMode::IndirectX(AddrCode { cycles: 6, opcode: 0x21 }))),
            0x24 => Ok(Instructions::BIT(AddrMode::ZeroPage(AddrCode { cycles: 3, opcode: 0x24 }))),
            0x25 => Ok(Instructions::AND(AddrMode::ZeroPage(AddrCode { cycles: 3, opcode: 0x25 }))),
            0x26 => Ok(Instructions::ROL(AddrMode::ZeroPage(AddrCode { cycles: 5, opcode: 0x26 }))),
            0x28 => Ok(Instructions::PLP(AddrMode::Implied(AddrCode { cycles: 4, opcode: 0x28 }))),
            0x29 => Ok(Instructions::AND(AddrMode::Immediate(AddrCode { cycles: 2, opcode: 0x29 }))),
            0x2A => Ok(Instructions::ROL(AddrMode::Accumulator(AddrCode { cycles: 2, opcode: 0x2A }))),
            0x2C => Ok(Instructions::BIT(AddrMode::Absolute(AddrCode { cycles: 4, opcode: 0x2C }))),
            0x2D => Ok(Instructions::AND(AddrMode::Absolute(AddrCode { cycles: 4, opcode: 0x2D }))),
            0x2E => Ok(Instructions::ROL(AddrMode::Absolute(AddrCode { cycles: 6, opcode: 0x2E }))),
            0x30 => Ok(Instructions::BMI(AddrMode::Relative(AddrCode { cycles: 2, opcode: 0x30 }))),
            0x31 => Ok(Instructions::AND(AddrMode::IndirectY(AddrCode { cycles: 5, opcode: 0x31 }))),
            0x35 => Ok(Instructions::AND(AddrMode::ZeroPageX(AddrCode { cycles: 4, opcode: 0x35 }))),
            0x36 => Ok(Instructions::ROL(AddrMode::ZeroPageX(AddrCode { cycles: 6, opcode: 0x36 }))),
            0x38 => Ok(Instructions::SEC(AddrMode::Implied(AddrCode { cycles: 2, opcode: 0x38 }))),
            0x39 => Ok(Instructions::AND(AddrMode::AbsoluteY(AddrCode { cycles: 4, opcode: 0x39 }))),
            0x3D => Ok(Instructions::AND(AddrMode::AbsoluteX(AddrCode { cycles: 4, opcode: 0x3D }))),
            0x3E => Ok(Instructions::ROL(AddrMode::AbsoluteX(AddrCode { cycles: 7, opcode: 0x3E }))),
            0x40 => Ok(Instructions::RTI(AddrMode::Implied(AddrCode { cycles: 6, opcode: 0x40 }))),
            0x41 => Ok(Instructions::EOR(AddrMode::IndirectX(AddrCode { cycles: 6, opcode: 0x41 }))),
            0x45 => Ok(Instructions::EOR(AddrMode::ZeroPage(AddrCode { cycles: 3, opcode: 0x45 }))),
            0x46 => Ok(Instructions::LSR(AddrMode::ZeroPage(AddrCode { cycles: 5, opcode: 0x46 }))),
            0x48 => Ok(Instructions::PHA(AddrMode::Implied(AddrCode { cycles: 3, opcode: 0x48 }))),
            0x49 => Ok(Instructions::EOR(AddrMode::Immediate(AddrCode { cycles: 2, opcode: 0x49 }))),
            0x4A => Ok(Instructions::LSR(AddrMode::Accumulator(AddrCode { cycles: 2, opcode: 0x4A }))),
            0x4C => Ok(Instructions::JMP(AddrMode::Absolute(AddrCode { cycles: 3, opcode: 0x4C }))),
            0x4D => Ok(Instructions::EOR(AddrMode::Absolute(AddrCode { cycles: 4, opcode: 0x4D }))),
            0x4E => Ok(Instructions::LSR(AddrMode::Absolute(AddrCode { cycles: 6, opcode: 0x4E }))),
            0x50 => Ok(Instructions::BVC(AddrMode::Relative(AddrCode { cycles: 2, opcode: 0x50 }))),
            0x51 => Ok(Instructions::EOR(AddrMode::IndirectY(AddrCode { cycles: 5, opcode: 0x51 }))),
            0x55 => Ok(Instructions::EOR(AddrMode::ZeroPageX(AddrCode { cycles: 4, opcode: 0x55 }))),
            0x56 => Ok(Instructions::LSR(AddrMode::ZeroPageX(AddrCode { cycles: 6, opcode: 0x56 }))),
            0x58 => Ok(Instructions::CLI(AddrMode::Implied(AddrCode { cycles: 2, opcode: 0x58 }))),
            0x59 => Ok(Instructions::EOR(AddrMode::AbsoluteY(AddrCode { cycles: 4, opcode: 0x59 }))),
            0x5D => Ok(Instructions::EOR(AddrMode::AbsoluteX(AddrCode { cycles: 4, opcode: 0x5D }))),
            0x5E => Ok(Instructions::LSR(AddrMode::AbsoluteX(AddrCode { cycles: 7, opcode: 0x5E }))),
            0x60 => Ok(Instructions::RTS(AddrMode::Implied(AddrCode { cycles: 6, opcode: 0x60 }))),
            0x61 => Ok(Instructions::ADC(AddrMode::IndirectX(AddrCode { cycles: 6, opcode: 0x61 }))),
            0x65 => Ok(Instructions::ADC(AddrMode::ZeroPage(AddrCode { cycles: 3, opcode: 0x65 }))),
            0x66 => Ok(Instructions::ROR(AddrMode::ZeroPage(AddrCode { cycles: 5, opcode: 0x66 }))),
            0x68 => Ok(Instructions::PLA(AddrMode::Implied(AddrCode { cycles: 4, opcode: 0x68 }))),
            0x69 => Ok(Instructions::ADC(AddrMode::Immediate(AddrCode { cycles: 2, opcode: 0x69 }))),
            0x6A => Ok(Instructions::ROR(AddrMode::Accumulator(AddrCode { cycles: 2, opcode: 0x6A }))),
            0x6C => Ok(Instructions::JMP(AddrMode::Indirect(AddrCode { cycles: 5, opcode: 0x6C }))),
            0x6D => Ok(Instructions::ADC(AddrMode::Absolute(AddrCode { cycles: 4, opcode: 0x6D }))),
            0x6E => Ok(Instructions::ROR(AddrMode::Absolute(AddrCode { cycles: 6, opcode: 0x6E }))),
            0x70 => Ok(Instructions::BVS(AddrMode::Relative(AddrCode { cycles: 2, opcode: 0x70 }))),
            0x71 => Ok(Instructions::ADC(AddrMode::IndirectY(AddrCode { cycles: 5, opcode: 0x71 }))),
            0x75 => Ok(Instructions::ADC(AddrMode::ZeroPageX(AddrCode { cycles: 4, opcode: 0x75 }))),
            0x76 => Ok(Instructions::ROR(AddrMode::ZeroPageX(AddrCode { cycles: 6, opcode: 0x76 }))),
            0x78 => Ok(Instructions::SEI(AddrMode::Implied(AddrCode { cycles: 2, opcode: 0x78 }))),
            0x79 => Ok(Instructions::ADC(AddrMode::AbsoluteY(AddrCode { cycles: 4, opcode: 0x79 }))),
            0x7D => Ok(Instructions::ADC(AddrMode::AbsoluteX(AddrCode { cycles: 4, opcode: 0x7D }))),
            0x7E => Ok(Instructions::ROR(AddrMode::AbsoluteX(AddrCode { cycles: 7, opcode: 0x7E }))),
            0x81 => Ok(Instructions::STA(AddrMode::IndirectX(AddrCode { cycles: 6, opcode: 0x81 }))),
            0x84 => Ok(Instructions::STY(AddrMode::ZeroPage(AddrCode { cycles: 3, opcode: 0x84 }))),
            0x85 => Ok(Instructions::STA(AddrMode::ZeroPage(AddrCode { cycles: 3, opcode: 0x85 }))),
            0x86 => Ok(Instructions::STX(AddrMode::ZeroPage(AddrCode { cycles: 3, opcode: 0x86 }))),
            0x88 => Ok(Instructions::DEY(AddrMode::Implied(AddrCode { cycles: 2, opcode: 0x88 }))),
            0x8A => Ok(Instructions::TXA(AddrMode::Implied(AddrCode { cycles: 2, opcode: 0x8A }))),
            0x8C => Ok(Instructions::STY(AddrMode::Absolute(AddrCode { cycles: 4, opcode: 0x8C }))),
            0x8D => Ok(Instructions::STA(AddrMode::Absolute(AddrCode { cycles: 4, opcode: 0x8D }))),
            0x8E => Ok(Instructions::STX(AddrMode::Absolute(AddrCode { cycles: 4, opcode: 0x8E }))),
            0x90 => Ok(Instructions::BCC(AddrMode::Relative(AddrCode { cycles: 2, opcode: 0x90 }))),
            0x91 => Ok(Instructions::STA(AddrMode::IndirectY(AddrCode { cycles: 6, opcode: 0x91 }))),
            0x94 => Ok(Instructions::STY(AddrMode::ZeroPageX(AddrCode { cycles: 4, opcode: 0x94 }))),
            0x95 => Ok(Instructions::STA(AddrMode::ZeroPageX(AddrCode { cycles: 4, opcode: 0x95 }))),
            0x96 => Ok(Instructions::STX(AddrMode::ZeroPageY(AddrCode { cycles: 4, opcode: 0x96 }))),
            0x98 => Ok(Instructions::TYA(AddrMode::Implied(AddrCode { cycles: 2, opcode: 0x98 }))),
            0x99 => Ok(Instructions::STA(AddrMode::AbsoluteY(AddrCode { cycles: 5, opcode: 0x99 }))),
            0x9A => Ok(Instructions::TXS(AddrMode::Implied(AddrCode { cycles: 2, opcode: 0x9A }))),
            0x9D => Ok(Instructions::STA(AddrMode::AbsoluteX(AddrCode { cycles: 5, opcode: 0x9D }))),
            0xA0 => Ok(Instructions::LDY(AddrMode::Immediate(AddrCode { cycles: 2, opcode: 0xA0 }))),
            0xA1 => Ok(Instructions::LDA(AddrMode::IndirectX(AddrCode { cycles: 6, opcode: 0xA1 }))),
            0xA2 => Ok(Instructions::LDX(AddrMode::Immediate(AddrCode { cycles: 2, opcode: 0xA2 }))),
            0xA4 => Ok(Instructions::LDY(AddrMode::ZeroPage(AddrCode { cycles: 3, opcode: 0xA4 }))),
            0xA5 => Ok(Instructions::LDA(AddrMode::ZeroPage(AddrCode { cycles: 3, opcode: 0xA5 }))),
            0xA6 => Ok(Instructions::LDX(AddrMode::ZeroPage(AddrCode { cycles: 3, opcode: 0xA6 }))),
            0xA8 => Ok(Instructions::TAY(AddrMode::Implied(AddrCode { cycles: 2, opcode: 0xA8 }))),
            0xA9 => Ok(Instructions::LDA(AddrMode::Immediate(AddrCode { cycles: 2, opcode: 0xA9 }))),
            0xAA => Ok(Instructions::TAX(AddrMode::Implied(AddrCode { cycles: 2, opcode: 0xAA }))),
            0xAC => Ok(Instructions::LDY(AddrMode::Absolute(AddrCode { cycles: 4, opcode: 0xAC }))),
            0xAD => Ok(Instructions::LDA(AddrMode::Absolute(AddrCode { cycles: 4, opcode: 0xAD }))),
            0xAE => Ok(Instructions::LDX(AddrMode::Absolute(AddrCode { cycles: 4, opcode: 0xAE }))),
            0xB0 => Ok(Instructions::BCS(AddrMode::Relative(AddrCode { cycles: 2, opcode: 0xB0 }))),
            0xB1 => Ok(Instructions::LDA(AddrMode::IndirectY(AddrCode { cycles: 5, opcode: 0xB1 }))),
            0xB4 => Ok(Instructions::LDY(AddrMode::ZeroPageX(AddrCode { cycles: 4, opcode: 0xB4 }))),
            0xB5 => Ok(Instructions::LDA(AddrMode::ZeroPageX(AddrCode { cycles: 4, opcode: 0xB5 }))),
            0xB6 => Ok(Instructions::LDX(AddrMode::ZeroPageY(AddrCode { cycles: 4, opcode: 0xB6 }))),
            0xB8 => Ok(Instructions::CLV(AddrMode::Implied(AddrCode { cycles: 2, opcode: 0xB8 }))),
            0xB9 => Ok(Instructions::LDA(AddrMode::AbsoluteY(AddrCode { cycles: 4, opcode: 0xB9 }))),
            0xBA => Ok(Instructions::TSX(AddrMode::Implied(AddrCode { cycles: 2, opcode: 0xBA }))),
            0xBC => Ok(Instructions::LDY(AddrMode::AbsoluteX(AddrCode { cycles: 4, opcode: 0xBC }))),
            0xBD => Ok(Instructions::LDA(AddrMode::AbsoluteX(AddrCode { cycles: 4, opcode: 0xBD }))),
            0xBE => Ok(Instructions::LDX(AddrMode::AbsoluteY(AddrCode { cycles: 4, opcode: 0xBE }))),
            0xC0 => Ok(Instructions::CPY(AddrMode::Immediate(AddrCode { cycles: 2, opcode: 0xC0 }))),
            0xC1 => Ok(Instructions::CMP(AddrMode::IndirectX(AddrCode { cycles: 6, opcode: 0xC1 }))),
            0xC4 => Ok(Instructions::CPY(AddrMode::ZeroPage(AddrCode { cycles: 3, opcode: 0xC4 }))),
            0xC5 => Ok(Instructions::CMP(AddrMode::ZeroPage(AddrCode { cycles: 3, opcode: 0xC5 }))),
            0xC6 => Ok(Instructions::DEC(AddrMode::ZeroPage(AddrCode { cycles: 5, opcode: 0xC6 }))),
            0xC8 => Ok(Instructions::INY(AddrMode::Implied(AddrCode { cycles: 2, opcode: 0xC8 }))),
            0xC9 => Ok(Instructions::CMP(AddrMode::Immediate(AddrCode { cycles: 2, opcode: 0xC9 }))),
            0xCA => Ok(Instructions::DEX(AddrMode::Implied(AddrCode { cycles: 2, opcode: 0xCA }))),
            0xCC => Ok(Instructions::CPY(AddrMode::Absolute(AddrCode { cycles: 4, opcode: 0xCC }))),
            0xCD => Ok(Instructions::CMP(AddrMode::Absolute(AddrCode { cycles: 4, opcode: 0xCD }))),
            0xCE => Ok(Instructions::DEC(AddrMode::Absolute(AddrCode { cycles: 6, opcode: 0xCE }))),
            0xD0 => Ok(Instructions::BNE(AddrMode::Relative(AddrCode { cycles: 2, opcode: 0xD0 }))),
            0xD1 => Ok(Instructions::CMP(AddrMode::IndirectY(AddrCode { cycles: 5, opcode: 0xD1 }))),
            0xD5 => Ok(Instructions::CMP(AddrMode::ZeroPageX(AddrCode { cycles: 4, opcode: 0xD5 }))),
            0xD6 => Ok(Instructions::DEC(AddrMode::ZeroPageX(AddrCode { cycles: 6, opcode: 0xD6 }))),
            0xD8 => Ok(Instructions::CLD(AddrMode::Implied(AddrCode { cycles: 2, opcode: 0xD8 }))),
            0xD9 => Ok(Instructions::CMP(AddrMode::AbsoluteY(AddrCode { cycles: 4, opcode: 0xD9 }))),
            0xDD => Ok(Instructions::CMP(AddrMode::AbsoluteX(AddrCode { cycles: 4, opcode: 0xDD }))),
            0xDE => Ok(Instructions::DEC(AddrMode::AbsoluteX(AddrCode { cycles: 7, opcode: 0xDE }))),
            0xE0 => Ok(Instructions::CPX(AddrMode::Immediate(AddrCode { cycles: 2, opcode: 0xE0 }))),
            0xE1 => Ok(Instructions::SBC(AddrMode::IndirectX(AddrCode { cycles: 6, opcode: 0xE1 }))),
            0xE4 => Ok(Instructions::CPX(AddrMode::ZeroPage(AddrCode { cycles: 3, opcode: 0xE4 }))),
            0xE5 => Ok(Instructions::SBC(AddrMode::ZeroPage(AddrCode { cycles: 3, opcode: 0xE5 }))),
            0xE6 => Ok(Instructions::INC(AddrMode::ZeroPage(AddrCode { cycles: 5, opcode: 0xE6 }))),
            0xE8 => Ok(Instructions::INX(AddrMode::Implied(AddrCode { cycles: 2, opcode: 0xE8 }))),
            0xE9 => Ok(Instructions::SBC(AddrMode::Immediate(AddrCode { cycles: 2, opcode: 0xE9 }))),
            0xEA => Ok(Instructions::NOP(AddrMode::Implied(AddrCode { cycles: 2, opcode: 0xEA }))),
            0xEC => Ok(Instructions::CPX(AddrMode::Absolute(AddrCode { cycles: 4, opcode: 0xEC }))),
            0xED => Ok(Instructions::SBC(AddrMode::Absolute(AddrCode { cycles: 4, opcode: 0xED }))),
            0xEE => Ok(Instructions::INC(AddrMode::Absolute(AddrCode { cycles: 6, opcode: 0xEE }))),
            0xF0 => Ok(Instructions::BEQ(AddrMode::Relative(AddrCode { cycles: 2, opcode: 0xF0 }))),
            0xF1 => Ok(Instructions::SBC(AddrMode::IndirectY(AddrCode { cycles: 5, opcode: 0xF1 }))),
            0xF5 => Ok(Instructions::SBC(AddrMode::ZeroPageX(AddrCode { cycles: 4, opcode: 0xF5 }))),
            0xF6 => Ok(Instructions::INC(AddrMode::ZeroPageX(AddrCode { cycles: 6, opcode: 0xF6 }))),
            0xF8 => Ok(Instructions::SED(AddrMode::Implied(AddrCode { cycles: 2, opcode: 0xF8 }))),
            0xF9 => Ok(Instructions::SBC(AddrMode::AbsoluteY(AddrCode { cycles: 4, opcode: 0xF9 }))),
            0xFD => Ok(Instructions::SBC(AddrMode::AbsoluteX(AddrCode { cycles: 4, opcode: 0xFD }))),
            0xFE => Ok(Instructions::INC(AddrMode::AbsoluteX(AddrCode { cycles: 7, opcode: 0xFE }))),
            _ => Err(EmuError::UnknownOpcode(opcode)),
        }
    }
}

impl Instructions {
    /// The addressing mode the instruction carries.
    pub open spec fn spec_mode(&self) -> AddrMode {
        match *self {
            Instructions::ADC(mode) => mode,
            Instructions::AND(mode) => mode,
            Instructions::ASL(mode) => mode,
            Instructions::BCC(mode) => mode,
            Instructions::BCS(mode) => mode,
            Instructions::BEQ(mode) => mode,
            Instructions::BIT(mode) => mode,
            Instructions::BMI(mode) => mode,
            Instructions::BNE(mode) => mode,
            Instructions::BPL(mode) => mode,
            Instructions::BRK(mode) => mode,
            Instructions::BVC(mode) => mode,
            Instructions::BVS(mode) => mode,
            Instructions::CLC(mode) => mode,
            Instructions::CLD(mode) => mode,
            Instructions::CLI(mode) => mode,
            Instructions::CLV(mode) => mode,
            Instructions::CMP(mode) => mode,
            Instructions::CPX(mode) => mode,
            Instructions::CPY(mode) => mode,
            Instructions::DEC(mode) => mode,
            Instructions::DEX(mode) => mode,
            Instructions::DEY(mode) => mode,
            Instructions::EOR(mode) => mode,
            Instructions::INC(mode) => mode,
            Instructions::INX(mode) => mode,
            Instructions::INY(mode) => mode,
            Instructions::JMP(mode) => mode,
            Instructions::JSR(mode) => mode,
            Instructions::LDA(mode) => mode,
            Instructions::LDX(mode) => mode,
            Instructions::LDY(mode) => mode,
            Instructions::LSR(mode) => mode,
            Instructions::NOP(mode) => mode,
            Instructions::ORA(mode) => mode,
            Instructions::PHA(mode) => mode,
            Instructions::PHP(mode) => mode,
            Instructions::PLA(mode) => mode,
            Instructions::PLP(mode) => mode,
            Instructions::ROL(mode) => mode,
            Instructions::ROR(mode) => mode,
            Instructions::RTI(mode) => mode,
            Instructions::RTS(mode) => mode,
            Instructions::SBC(mode) => mode,
            Instructions::SEC(mode) => mode,
            Instructions::SED(mode) => mode,
            Instructions::SEI(mode) => mode,
            Instructions::STA(mode) => mode,
            Instructions::STX(mode) => mode,
            Instructions::STY(mode) => mode,
            Instructions::TAX(mode) => mode,
            Instructions::TAY(mode) => mode,
            Instructions::TSX(mode) => mode,
            Instructions::TXA(mode) => mode,
            Instructions::TXS(mode) => mode,
            Instructions::TYA(mode) => mode,
        }
    }

    /// Extract the addressing mode the instruction carries.
    pub fn mode(&self) -> (r: AddrMode)
        ensures
            r == self.spec_mode(),
    {
        match *self {
            Instructions::ADC(mode) => mode,
            Instructions::AND(mode) => mode,
            Instructions::ASL(mode) => mode,
            Instructions::BCC(mode) => mode,
            Instructions::BCS(mode) => mode,
            Instructions::BEQ(mode) => mode,
            Instructions::BIT(mode) => mode,
            Instructions::BMI(mode) => mode,
            Instructions::BNE(mode) => mode,
            Instructions::BPL(mode) => mode,
            Instructions::BRK(mode) => mode,
            Instructions::BVC(mode) => mode,
            Instructions::BVS(mode) => mode,
            Instructions::CLC(mode) => mode,
            Instructions::CLD(mode) => mode,
            Instructions::CLI(mode) => mode,
            Instructions::CLV(mode) => mode,
            Instructions::CMP(mode) => mode,
            Instructions::CPX(mode) => mode,
            Instructions::CPY(mode) => mode,
            Instructions::DEC(mode) => mode,
            Instructions::DEX(mode) => mode,
            Instructions::DEY(mode) => mode,
            Instructions::EOR(mode) => mode,
            Instructions::INC(mode) => mode,
            Instructions::INX(mode) => mode,
            Instructions::INY(mode) => mode,
            Instructions::JMP(mode) => mode,
            Instructions::JSR(mode) => mode,
            Instructions::LDA(mode) => mode,
            Instructions::LDX(mode) => mode,
            Instructions::LDY(mode) => mode,
            Instructions::LSR(mode) => mode,
            Instructions::NOP(mode) => mode,
            Instructions::ORA(mode) => mode,
            Instructions::PHA(mode) => mode,
            Instructions::PHP(mode) => mode,
            Instructions::PLA(mode) => mode,
            Instructions::PLP(mode) => mode,
            Instructions::ROL(mode) => mode,
            Instructions::ROR(mode) => mode,
            Instructions::RTI(mode) => mode,
            Instructions::RTS(mode) => mode,
            Instructions::SBC(mode) => mode,
            Instructions::SEC(mode) => mode,
            Instructions::SED(mode) => mode,
            Instructions::SEI(mode) => mode,
            Instructions::STA(mode) => mode,
            Instructions::STX(mode) => mode,
            Instructions::STY(mode) => mode,
            Instructions::TAX(mode) => mode,
            Instructions::TAY(mode) => mode,
            Instructions::TSX(mode) => mode,
            Instructions::TXA(mode) => mode,
            Instructions::TXS(mode) => mode,
            Instructions::TYA(mode) => mode,
        }
    }
}


/// Every entry of the opcode table costs at least two cycles: one for the
/// opcode fetch and at least one more for the instruction's work.
pub proof fn lemma_resolve_cycles(opcode: u8)
    ensures
        match spec_resolve(opcode) {
            Some(ins) => 2 <= ins.spec_mode().spec_code().cycles <= 7,
            None => true,
        },
{
    reveal(spec_resolve);
}

/// A program text token could not be read as a hexadecimal byte.
#[derive(Debug, PartialEq, Eq, Structural, Clone, Copy)]
pub struct ProgramParseError;

/// Whether `ch` is an ASCII hexadecimal digit, either case.
pub open spec fn is_hex_digit(ch: u8) -> bool {
    (48 <= ch <= 57) || (65 <= ch <= 70) || (97 <= ch <= 102)
}

/// The value of the ASCII hexadecimal digit `ch`.
pub open spec fn hex_val(ch: u8) -> u8 {
    if 48 <= ch <= 57 {
        (ch - 48) as u8
    } else if 65 <= ch <= 70 {
        (ch - 55) as u8
    } else {
        (ch - 87) as u8
    }
}

/// The byte sequence a hex program text denotes: tokens of one or two
/// hexadecimal digits, separated by single spaces; `None` when the text
/// is not of that shape (it is empty, a token is empty or longer than a
/// byte, or a character is neither a digit nor a separating space).
pub open spec fn spec_parse_hex(s: Seq<u8>) -> Option<Seq<u8>>
    decreases s.len(),
{
    if s.len() == 0 {
        None
    } else if !is_hex_digit(s[0]) {
        None
    } else if s.len() == 1 {
        Some(seq![hex_val(s[0])])
    } else if s[1] == 32 {
        match spec_parse_hex(s.skip(2)) {
            Some(rest) => Some(seq![hex_val(s[0])] + rest),
            None => None,
        }
    } else if is_hex_digit(s[1]) {
        let v = (16 * hex_val(s[0]) + hex_val(s[1])) as u8;
        if s.len() == 2 {
            Some(seq![v])
        } else if s[2] == 32 {
            match spec_parse_hex(s.skip(3)) {
                Some(rest) => Some(seq![v] + rest),
                None => None,
            }
        } else {
            None
        }
    } else {
        None
    }
}

/// The value of one hexadecimal digit, or `None` when `ch` is not one.
fn hex_digit_value(ch: u8) -> (r: Option<u8>)
    ensures
        match r {
            Some(v) => is_hex_digit(ch) && v == hex_val(ch),
            None => !is_hex_digit(ch),
        },
{
    if 48 <= ch && ch <= 57 {
        Some(ch - 48)
    } else if 65 <= ch && ch <= 70 {
        Some(ch - 55)
    } else if 97 <= ch && ch <= 102 {
        Some(ch - 87)
    } else {
        None
    }
}

/// A transient program builder: a byte sequence and the memory address
/// it loads at.
#[derive(Debug)]
pub struct Program {
    /// The address the first byte loads at.
    pub start_addr: usize,
    /// The assembled bytes.
    pub lines: Vec<u8>,
}

impl Program {
    /// Create an empty program that loads at `start_addr`.
    pub fn new(start_addr: usize) -> (r: Program)
        ensures
            r.start_addr == start_addr,
            r.lines@ == Seq::<u8>::empty(),
    {
        Program { start_addr: start_addr, lines: Vec::new() }
    }

    /// Append one byte to the program.
    pub fn addl(&mut self, instruction: u8) -> (r: &mut Program)
        ensures
            r.start_addr == old(self).start_addr,
            r.lines@ == old(self).lines@.push(instruction),
            *final(self) == *final(r),
    {
        self.lines.push(instruction);
        self
    }

    /// Copy the program's bytes into `ram`, in order, starting at the
    /// program's start address; every other byte is untouched.
    pub fn fill_ram(&self, ram: &mut MEM)
        requires
            old(ram).wf(),
            self.start_addr + self.lines@.len() <= MAX_MEM,
        ensures
            final(ram).wf(),
            forall|i: int|
                0 <= i < self.lines@.len() ==> final(ram)@[self.start_addr + i] == self.lines@[i],
            forall|i: int|
                0 <= i < MAX_MEM && !(self.start_addr <= i < self.start_addr + self.lines@.len())
                    ==> final(ram)@[i] == old(ram)@[i],
    {
        let mut i: usize = 0;
        while i < self.lines.len()
            invariant
                ram.wf(),
                i <= self.lines@.len(),
                self.start_addr + self.lines@.len() <= MAX_MEM,
                forall|j: int| 0 <= j < i ==> ram@[self.start_addr + j] == self.lines@[j],
                forall|j: int|
                    0 <= j < MAX_MEM && !(self.start_addr <= j < self.start_addr + i) ==> ram@[j]
                        == old(ram)@[j],
            decreases self.lines@.len() - i,
        {
            ram.write(self.start_addr + i, self.lines[i]);
            i = i + 1;
        }
    }

    /// Parse `code` as whitespace-separated hexadecimal byte tokens and
    /// append the bytes to the program; a text with an invalid token is
    /// rejected whole, leaving the program untouched.
    pub fn get_from_str(&mut self, code: &str) -> (r: Result<(), ProgramParseError>)
        ensures
            match spec_parse_hex(code.spec_bytes()) {
                Some(bytes) => r == Ok::<(), ProgramParseError>(()) && final(self).start_addr
                    == old(self).start_addr && final(self).lines@ == old(self).lines@ + bytes,
                None => r == Err::<(), ProgramParseError>(ProgramParseError) && *final(self)
                    == *old(self),
            },
    {
        let bytes = code.as_bytes();
        let n = bytes.len();
        if n == 0 {
            return Err(ProgramParseError);
        }
        let mut parsed: Vec<u8> = Vec::new();
        let mut pos: usize = 0;
        proof {
            assert(bytes@.skip(0) =~= bytes@);
            match spec_parse_hex(bytes@) {
                Some(rest) => {
                    assert(parsed@ + rest =~= rest);
                },
                None => {},
            }
        }
        loop
            invariant
                *self == *old(self),
                bytes@ == code.spec_bytes(),
                n == bytes@.len(),
                pos < n,
                ({
                    let whole = spec_parse_hex(bytes@);
                    match spec_parse_hex(bytes@.skip(pos as int)) {
                        Some(rest) => whole == Some(parsed@ + rest),
                        None => whole is None,
                    }
                }),
            decreases n - pos,
        {
            let v0 = match hex_digit_value(bytes[pos]) {
                Some(v) => v,
                None => {
                    proof {
                        assert(bytes@.skip(pos as int)[0] == bytes@[pos as int]);
                        assert(spec_parse_hex(bytes@.skip(pos as int)) is None);
                    }
                    return Err(ProgramParseError);
                },
            };
            if pos + 1 == n {
                parsed.push(v0);
                proof {
                    assert(spec_parse_hex(bytes@) == Some(parsed@));
                }
                self.lines.append(&mut parsed);
                return Ok(());
            }
            if bytes[pos + 1] == 32 {
                parsed.push(v0);
                let ghost p0 = pos as int;
                proof {
                    assert(bytes@.skip(p0).skip(2) =~= bytes@.skip(p0 + 2));
                    assert(bytes@.skip(p0)[0] == bytes@[p0]);
                    assert(bytes@.skip(p0)[1] == bytes@[p0 + 1]);
                }
                pos = pos + 2;
                if pos == n {
                    proof {
                        assert(bytes@.skip(pos as int).len() == 0);
                        assert(spec_parse_hex(bytes@.skip(pos as int)) is None);
                        assert(spec_parse_hex(bytes@.skip(p0)) is None);
                    }
                    return Err(ProgramParseError);
                }
                continue;
            }
            let v1 = match hex_digit_value(bytes[pos + 1]) {
                Some(v) => v,
                None => {
                    proof {
                        assert(bytes@.skip(pos as int)[0] == bytes@[pos as int]);
                        assert(bytes@.skip(pos as int)[1] == bytes@[pos as int + 1]);
                        assert(spec_parse_hex(bytes@.skip(pos as int)) is None);
                    }
                    return Err(ProgramParseError);
                },
            };
            let v = 16 * v0 + v1;
            if pos + 2 == n {
                parsed.push(v);
                proof {
                    assert(spec_parse_hex(bytes@) == Some(parsed@));
                }
                self.lines.append(&mut parsed);
                return Ok(());
            }
            if bytes[pos + 2] == 32 {
                parsed.push(v);
                let ghost p0 = pos as int;
                proof {
                    assert(bytes@.skip(p0).skip(3) =~= bytes@.skip(p0 + 3));
                    assert(bytes@.skip(p0)[0] == bytes@[p0]);
                    assert(bytes@.skip(p0)[1] == bytes@[p0 + 1]);
                    assert(bytes@.skip(p0)[2] == bytes@[p0 + 2]);
                }
                pos = pos + 3;
                if pos == n {
                    proof {
                        assert(bytes@.skip(pos as int).len() == 0);
                        assert(spec_parse_hex(bytes@.skip(pos as int)) is None);
                        assert(spec_parse_hex(bytes@.skip(p0)) is None);
                    }
                    return Err(ProgramParseError);
                }
                continue;
            }
            proof {
                assert(bytes@.skip(pos as int)[0] == bytes@[pos as int]);
                assert(bytes@.skip(pos as int)[1] == bytes@[pos as int + 1]);
                assert(bytes@.skip(pos as int)[2] == bytes@[pos as int + 2]);
                assert(spec_parse_hex(bytes@.skip(pos as int)) is None);
            }
            return Err(ProgramParseError);
        }
    }
}

impl AddrMode {
    /// The mode's name, as the characters of its text rendering.
    pub open spec fn spec_text(&self) -> Seq<char> {
        match *self {
            AddrMode::Accumulator(_) => "Accumulator"@,
            AddrMode::Immediate(_) => "Immediate"@,
            AddrMode::ZeroPage(_) => "ZeroPage"@,
            AddrMode::ZeroPageX(_) => "ZeroPageX"@,
            AddrMode::ZeroPageY(_) => "ZeroPageY"@,
            AddrMode::Absolute(_) => "Absolute"@,
            AddrMode::AbsoluteX(_) => "AbsoluteX"@,
            AddrMode::AbsoluteY(_) => "AbsoluteY"@,
            AddrMode::Indirect(_) => "Indirect"@,
            AddrMode::IndirectX(_) => "IndirectX"@,
            AddrMode::IndirectY(_) => "IndirectY"@,
            AddrMode::Relative(_) => "Relative"@,
            AddrMode::Implied(_) => "Implied"@,
        }
    }

    /// Render the mode's name.
    pub fn as_text(&self) -> (r: String)
        ensures
            r@ == self.spec_text(),
    {
        match *self {
            AddrMode::Accumulator(_) => String::from_str("Accumulator"),
            AddrMode::Immediate(_) => String::from_str("Immediate"),
            AddrMode::ZeroPage(_) => String::from_str("ZeroPage"),
            AddrMode::ZeroPageX(_) => String::from_str("ZeroPageX"),
            AddrMode::ZeroPageY(_) => String::from_str("ZeroPageY"),
            AddrMode::Absolute(_) => String::from_str("Absolute"),
            AddrMode::AbsoluteX(_) => String::from_str("AbsoluteX"),
            AddrMode::AbsoluteY(_) => String::from_str("AbsoluteY"),
            AddrMode::Indirect(_) => String::from_str("Indirect"),
            AddrMode::IndirectX(_) => String::from_str("IndirectX"),
            AddrMode::IndirectY(_) => String::from_str("IndirectY"),
            AddrMode::Relative(_) => String::from_str("Relative"),
            AddrMode::Implied(_) => String::from_str("Implied"),
        }
    }
}

impl Instructions {
    /// The instruction's text rendering: its mnemonic, a separator,
    /// and its addressing mode's name.
    pub open spec fn spec_text(&self) -> Seq<char> {
        match *self {
            Instructions::ADC(_) => "ADC : "@ + self.spec_mode().spec_text(),
            Instructions::AND(_) => "AND : "@ + self.spec_mode().spec_text(),
            Instructions::ASL(_) => "ASL : "@ + self.spec_mode().spec_text(),
            Instructions::BCC(_) => "BCC : "@ + self.spec_mode().spec_text(),
            Instructions::BCS(_) => "BCS : "@ + self.spec_mode().spec_text(),
            Instructions::BEQ(_) => "BEQ : "@ + self.spec_mode().spec_text(),
            Instructions::BIT(_) => "BIT : "@ + self.spec_mode().spec_text(),
            Instructions::BMI(_) => "BMI : "@ + self.spec_mode().spec_text(),
            Instructions::BNE(_) => "BNE : "@ + self.spec_mode().spec_text(),
            Instructions::BPL(_) => "BPL : "@ + self.spec_mode().spec_text(),
            Instructions::BRK(_) => "BRK : "@ + self.spec_mode().spec_text(),
            Instructions::BVC(_) => "BVC : "@ + self.spec_mode().spec_text(),
            Instructions::BVS(_) => "BVS : "@ + self.spec_mode().spec_text(),
            Instructions::CLC(_) => "CLC : "@ + self.spec_mode().spec_text(),
            Instructions::CLD(_) => "CLD : "@ + self.spec_mode().spec_text(),
            Instructions::CLI(_) => "CLI : "@ + self.spec_mode().spec_text(),
            Instructions::CLV(_) => "CLV : "@ + self.spec_mode().spec_text(),
            Instructions::CMP(_) => "CMP : "@ + self.spec_mode().spec_text(),
            Instructions::CPX(_) => "CPX : "@ + self.spec_mode().spec_text(),
            Instructions::CPY(_) => "CPY : "@ + self.spec_mode().spec_text(),
            Instructions::DEC(_) => "DEC : "@ + self.spec_mode().spec_text(),
            Instructions::DEX(_) => "DEX : "@ + self.spec_mode().spec_text(),
            Instructions::DEY(_) => "DEY : "@ + self.spec_mode().spec_text(),
            Instructions::EOR(_) => "EOR : "@ + self.spec_mode().spec_text(),
            Instructions::INC(_) => "INC : "@ + self.spec_mode().spec_text(),
            Instructions::INX(_) => "INX : "@ + self.spec_mode().spec_text(),
            Instructions::INY(_) => "INY : "@ + self.spec_mode().spec_text(),
            Instructions::JMP(_) => "JMP : "@ + self.spec_mode().spec_text(),
            Instructions::JSR(_) => "JSR : "@ + self.spec_mode().spec_text(),
            Instructions::LDA(_) => "LDA : "@ + self.spec_mode().spec_text(),
            Instructions::LDX(_) => "LDX : "@ + self.spec_mode().spec_text(),
            Instructions::LDY(_) => "LDY : "@ + self.spec_mode().spec_text(),
            Instructions::LSR(_) => "LSR : "@ + self.spec_mode().spec_text(),
            Instructions::NOP(_) => "NOP : "@ + self.spec_mode().spec_text(),
            Instructions::ORA(_) => "ORA : "@ + self.spec_mode().spec_text(),
            Instructions::PHA(_) => "PHA : "@ + self.spec_mode().spec_text(),
            Instructions::PHP(_) => "PHP : "@ + self.spec_mode().spec_text(),
            Instructions::PLA(_) => "PLA : "@ + self.spec_mode().spec_text(),
            Instructions::PLP(_) => "PLP : "@ + self.spec_mode().spec_text(),
            Instructions::ROL(_) => "ROL : "@ + self.spec_mode().spec_text(),
            Instructions::ROR(_) => "ROR : "@ + self.spec_mode().spec_text(),
            Instructions::RTI(_) => "RTI : "@ + self.spec_mode().spec_text(),
            Instructions::RTS(_) => "RTS : "@ + self.spec_mode().spec_text(),
            Instructions::SBC(_) => "SBC : "@ + self.spec_mode().spec_text(),
            Instructions::SEC(_) => "SEC : "@ + self.spec_mode().spec_text(),
            Instructions::SED(_) => "SED : "@ + self.spec_mode().spec_text(),
            Instructions::SEI(_) => "SEI : "@ + self.spec_mode().spec_text(),
            Instructions::STA(_) => "STA : "@ + self.spec_mode().spec_text(),
            Instructions::STX(_) => "STX : "@ + self.spec_mode().spec_text(),
            Instructions::STY(_) => "STY : "@ + self.spec_mode().spec_text(),
            Instructions::TAX(_) => "TAX : "@ + self.spec_mode().spec_text(),
            Instructions::TAY(_) => "TAY : "@ + self.spec_mode().spec_text(),
            Instructions::TSX(_) => "TSX : "@ + self.spec_mode().spec_text(),
            Instructions::TXA(_) => "TXA : "@ + self.spec_mode().spec_text(),
            Instructions::TXS(_) => "TXS : "@ + self.spec_mode().spec_text(),
            Instructions::TYA(_) => "TYA : "@ + self.spec_mode().spec_text(),
        }
    }

    /// Render the instruction as its mnemonic and addressing mode.
    pub fn as_text(&self) -> (r: String)
        ensures
            r@ == self.spec_text(),
    {
        let mut text = match *self {
            Instructions::ADC(_) => String::from_str("ADC : "),
            Instructions::AND(_) => String::from_str("AND : "),
            Instructions::ASL(_) => String::from_str("ASL : "),
            Instructions::BCC(_) => String::from_str("BCC : "),
            Instructions::BCS(_) => String::from_str("BCS : "),
            Instructions::BEQ(_) => String::from_str("BEQ : "),
            Instructions::BIT(_) => String::from_str("BIT : "),
            Instructions::BMI(_) => String::from_str("BMI : "),
            Instructions::BNE(_) => String::from_str("BNE : "),
            Instructions::BPL(_) => String::from_str("BPL : "),
            Instructions::BRK(_) => String::from_str("BRK : "),
            Instructions::BVC(_) => String::from_str("BVC : "),
            Instructions::BVS(_) => String::from_str("BVS : "),
            Instructions::CLC(_) => String::from_str("CLC : "),
            Instructions::CLD(_) => String::from_str("CLD : "),
            Instructions::CLI(_) => String::from_str("CLI : "),
            Instructions::CLV(_) => String::from_str("CLV : "),
            Instructions::CMP(_) => String::from_str("CMP : "),
            Instructions::CPX(_) => String::from_str("CPX : "),
            Instructions::CPY(_) => String::from_str("CPY : "),
            Instructions::DEC(_) => String::from_str("DEC : "),
            Instructions::DEX(_) => String::from_str("DEX : "),
            Instructions::DEY(_) => String::from_str("DEY : "),
            Instructions::EOR(_) => String::from_str("EOR : "),
            Instructions::INC(_) => String::from_str("INC : "),
            Instructions::INX(_) => String::from_str("INX : "),
            Instructions::INY(_) => String::from_str("INY : "),
            Instructions::JMP(_) => String::from_str("JMP : "),
            Instructions::JSR(_) => String::from_str("JSR : "),
            Instructions::LDA(_) => String::from_str("LDA : "),
            Instructions::LDX(_) => String::from_str("LDX : "),
            Instructions::LDY(_) => String::from_str("LDY : "),
            Instructions::LSR(_) => String::from_str("LSR : "),
            Instructions::NOP(_) => String::from_str("NOP : "),
            Instructions::ORA(_) => String::from_str("ORA : "),
            Instructions::PHA(_) => String::from_str("PHA : "),
            Instructions::PHP(_) => String::from_str("PHP : "),
            Instructions::PLA(_) => String::from_str("PLA : "),
            Instructions::PLP(_) => String::from_str("PLP : "),
            Instructions::ROL(_) => String::from_str("ROL : "),
            Instructions::ROR(_) => String::from_str("ROR : "),
            Instructions::RTI(_) => String::from_str("RTI : "),
            Instructions::RTS(_) => String::from_str("RTS : "),
            Instructions::SBC(_) => String::from_str("SBC : "),
            Instructions::SEC(_) => String::from_str("SEC : "),
            Instructions::SED(_) => String::from_str("SED : "),
            Instructions::SEI(_) => String::from_str("SEI : "),
            Instructions::STA(_) => String::from_str("STA : "),
            Instructions::STX(_) => String::from_str("STX : "),
            Instructions::STY(_) => String::from_str("STY : "),
            Instructions::TAX(_) => String::from_str("TAX : "),
            Instructions::TAY(_) => String::from_str("TAY : "),
            Instructions::TSX(_) => String::from_str("TSX : "),
            Instructions::TXA(_) => String::from_str("TXA : "),
            Instructions::TXS(_) => String::from_str("TXS : "),
            Instructions::TYA(_) => String::from_str("TYA : "),
        };
        let mode_name = self.mode().as_text();
        text.append(mode_name.as_str());
        text
    }
}

} // verus!
