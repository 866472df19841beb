//! The table of opcodes that the interpreter runs: mnemonic, addressing mode,
//! length in bytes and base cycle count.
use vstd::prelude::*;

verus! {

/// Where an instruction finds its operand.
#[derive(Clone, Copy, Debug, PartialEq, Eq, Structural)]
pub enum AddressingMode {
    Immediate,
    ZeroPage,
    ZeroPageX,
    ZeroPageY,
    Absolute,
    AbsoluteX,
    AbsoluteY,
    IndirectX,
    IndirectY,
    /// `JMP` through a pointer.
    Indirect,
    /// Branches: a signed offset from the next instruction.
    Relative,
    Accumulator,
    NoneAddressing,
}

#[derive(Clone, Copy, Debug, PartialEq, Eq, Structural)]
pub enum Mnemonic {
    ADC,
    AND,
    ASL,
    BCC,
    BCS,
    BEQ,
    BIT,
    BMI,
    BNE,
    BPL,
    BRK,
    BVC,
    BVS,
    CLC,
    CLD,
    CLI,
    CLV,
    CMP,
    CPX,
    CPY,
    DEC,
    DEX,
    DEY,
    EOR,
    INC,
    INX,
    INY,
    JMP,
    JSR,
    LDA,
    LDX,
    LDY,
    LSR,
    NOP,
    ORA,
    PHA,
    PHP,
    PLA,
    PLP,
    ROL,
    ROR,
    RTI,
    RTS,
    SBC,
    SEC,
    SED,
    SEI,
    STA,
    STX,
    STY,
    TAX,
    TAY,
    TSX,
    TXA,
    TXS,
    TYA,
}

#[derive(Clone, Copy, Debug, PartialEq, Eq, Structural)]
pub struct OpCode {
    pub code: u8,
    pub mnemonic: Mnemonic,
    pub mode: AddressingMode,
    /// Length in bytes, opcode included.
    pub len: u8,
    /// Base cycle count.
    pub cycles: u8,
    /// Whether an indexed read that crosses a page costs one more cycle.
    pub page_cross_penalty: bool,
}

pub open spec fn op(
    code: u8,
    mnemonic: Mnemonic,
    mode: AddressingMode,
    len: u8,
    cycles: u8,
    page_cross_penalty: bool,
) -> OpCode {
    OpCode { code, mnemonic, mode, len, cycles, page_cross_penalty }
}

/// The table entry of `code`, if the interpreter runs it.
pub open spec fn spec_lookup(code: u8) -> Option<OpCode> {
    match code {
        0x00 => Some(op(0x00, Mnemonic::BRK, AddressingMode::NoneAddressing, 1, 7, false)),
        0x01 => Some(op(0x01, Mnemonic::ORA, AddressingMode::IndirectX, 2, 6, false)),
        0x05 => Some(op(0x05, Mnemonic::ORA, AddressingMode::ZeroPage, 2, 3, false)),
        0x06 => Some(op(0x06, Mnemonic::ASL, AddressingMode::ZeroPage, 2, 5, false)),
        0x08 => Some(op(0x08, Mnemonic::PHP, AddressingMode::NoneAddressing, 1, 3, false)),
        0x09 => Some(op(0x09, Mnemonic::ORA, AddressingMode::Immediate, 2, 2, false)),
        0x0A => Some(op(0x0A, Mnemonic::ASL, AddressingMode::Accumulator, 1, 2, false)),
        0x0D => Some(op(0x0D, Mnemonic::ORA, AddressingMode::Absolute, 3, 4, false)),
        0x0E => Some(op(0x0E, Mnemonic::ASL, AddressingMode::Absolute, 3, 6, false)),
        0x10 => Some(op(0x10, Mnemonic::BPL, AddressingMode::Relative, 2, 2, false)),
        0x11 => Some(op(0x11, Mnemonic::ORA, AddressingMode::IndirectY, 2, 5, true)),
        0x15 => Some(op(0x15, Mnemonic::ORA, AddressingMode::ZeroPageX, 2, 4, false)),
        0x16 => Some(op(0x16, Mnemonic::ASL, AddressingMode::ZeroPageX, 2, 6, false)),
        0x18 => Some(op(0x18, Mnemonic::CLC, AddressingMode::NoneAddressing, 1, 2, false)),
        0x19 => Some(op(0x19, Mnemonic::ORA, AddressingMode::AbsoluteY, 3, 4, true)),
        0x1D => Some(op(0x1D, Mnemonic::ORA, AddressingMode::AbsoluteX, 3, 4, true)),
        0x1E => Some(op(0x1E, Mnemonic::ASL, AddressingMode::AbsoluteX, 3, 7, false)),
        0x20 => Some(op(0x20, Mnemonic::JSR, AddressingMode::Absolute, 3, 6, false)),
        0x21 => Some(op(0x21, Mnemonic::AND, AddressingMode::IndirectX, 2, 6, false)),
        0x24 => Some(op(0x24, Mnemonic::BIT, AddressingMode::ZeroPage, 2, 3, false)),
        0x25 => Some(op(0x25, Mnemonic::AND, AddressingMode::ZeroPage, 2, 3, false)),
        0x26 => Some(op(0x26, Mnemonic::ROL, AddressingMode::ZeroPage, 2, 5, false)),
        0x28 => Some(op(0x28, Mnemonic::PLP, AddressingMode::NoneAddressing, 1, 4, false)),
        0x29 => Some(op(0x29, Mnemonic::AND, AddressingMode::Immediate, 2, 2, false)),
        0x2A => Some(op(0x2A, Mnemonic::ROL, AddressingMode::Accumulator, 1, 2, false)),
        0x2C => Some(op(0x2C, Mnemonic::BIT, AddressingMode::Absolute, 3, 4, false)),
        0x2D => Some(op(0x2D, Mnemonic::AND, AddressingMode::Absolute, 3, 4, false)),
        0x2E => Some(op(0x2E, Mnemonic::ROL, AddressingMode::Absolute, 3, 6, false)),
        0x30 => Some(op(0x30, Mnemonic::BMI, AddressingMode::Relative, 2, 2, false)),
        0x31 => Some(op(0x31, Mnemonic::AND, AddressingMode::IndirectY, 2, 5, true)),
        0x35 => Some(op(0x35, Mnemonic::AND, AddressingMode::ZeroPageX, 2, 4, false)),
        0x36 => Some(op(0x36, Mnemonic::ROL, AddressingMode::ZeroPageX, 2, 6, false)),
        0x38 => Some(op(0x38, Mnemonic::SEC, AddressingMode::NoneAddressing, 1, 2, false)),
        0x39 => Some(op(0x39, Mnemonic::AND, AddressingMode::AbsoluteY, 3, 4, true)),
        0x3D => Some(op(0x3D, Mnemonic::AND, AddressingMode::AbsoluteX, 3, 4, true)),
        0x3E => Some(op(0x3E, Mnemonic::ROL, AddressingMode::AbsoluteX, 3, 7, false)),
        0x40 => Some(op(0x40, Mnemonic::RTI, AddressingMode::NoneAddressing, 1, 6, false)),
        0x41 => Some(op(0x41, Mnemonic::EOR, AddressingMode::IndirectX, 2, 6, false)),
        0x45 => Some(op(0x45, Mnemonic::EOR, AddressingMode::ZeroPage, 2, 3, false)),
        0x46 => Some(op(0x46, Mnemonic::LSR, AddressingMode::ZeroPage, 2, 5, false)),
        0x48 => Some(op(0x48, Mnemonic::PHA, AddressingMode::NoneAddressing, 1, 3, false)),
        0x49 => Some(op(0x49, Mnemonic::EOR, AddressingMode::Immediate, 2, 2, false)),
        0x4A => Some(op(0x4A, Mnemonic::LSR, AddressingMode::Accumulator, 1, 2, false)),
        0x4C => Some(op(0x4C, Mnemonic::JMP, AddressingMode::Absolute, 3, 3, false)),
        0x4D => Some(op(0x4D, Mnemonic::EOR, AddressingMode::Absolute, 3, 4, false)),
        0x4E => Some(op(0x4E, Mnemonic::LSR, AddressingMode::Absolute, 3, 6, false)),
        0x50 => Some(op(0x50, Mnemonic::BVC, AddressingMode::Relative, 2, 2, false)),
        0x51 => Some(op(0x51, Mnemonic::EOR, AddressingMode::IndirectY, 2, 5, true)),
        0x55 => Some(op(0x55, Mnemonic::EOR, AddressingMode::ZeroPageX, 2, 4, false)),
        0x56 => Some(op(0x56, Mnemonic::LSR, AddressingMode::ZeroPageX, 2, 6, false)),
        0x58 => Some(op(0x58, Mnemonic::CLI, AddressingMode::NoneAddressing, 1, 2, false)),
        0x59 => Some(op(0x59, Mnemonic::EOR, AddressingMode::AbsoluteY, 3, 4, true)),
        0x5D => Some(op(0x5D, Mnemonic::EOR, AddressingMode::AbsoluteX, 3, 4, true)),
        0x5E => Some(op(0x5E, Mnemonic::LSR, AddressingMode::AbsoluteX, 3, 7, false)),
        0x60 => Some(op(0x60, Mnemonic::RTS, AddressingMode::NoneAddressing, 1, 6, false)),
        0x61 => Some(op(0x61, Mnemonic::ADC, AddressingMode::IndirectX, 2, 6, false)),
        0x65 => Some(op(0x65, Mnemonic::ADC, AddressingMode::ZeroPage, 2, 3, false)),
        0x66 => Some(op(0x66, Mnemonic::ROR, AddressingMode::ZeroPage, 2, 5, false)),
        0x68 => Some(op(0x68, Mnemonic::PLA, AddressingMode::NoneAddressing, 1, 4, false)),
        0x69 => Some(op(0x69, Mnemonic::ADC, AddressingMode::Immediate, 2, 2, false)),
        0x6A => Some(op(0x6A, Mnemonic::ROR, AddressingMode::Accumulator, 1, 2, false)),
        0x6C => Some(op(0x6C, Mnemonic::JMP, AddressingMode::Indirect, 3, 5, false)),
        0x6D => Some(op(0x6D, Mnemonic::ADC, AddressingMode::Absolute, 3, 4, false)),
        0x6E => Some(op(0x6E, Mnemonic::ROR, AddressingMode::Absolute, 3, 6, false)),
        0x70 => Some(op(0x70, Mnemonic::BVS, AddressingMode::Relative, 2, 2, false)),
        0x71 => Some(op(0x71, Mnemonic::ADC, AddressingMode::IndirectY, 2, 5, true)),
        0x75 => Some(op(0x75, Mnemonic::ADC, AddressingMode::ZeroPageX, 2, 4, false)),
        0x76 => Some(op(0x76, Mnemonic::ROR, AddressingMode::ZeroPageX, 2, 6, false)),
        0x78 => Some(op(0x78, Mnemonic::SEI, AddressingMode::NoneAddressing, 1, 2, false)),
        0x79 => Some(op(0x79, Mnemonic::ADC, AddressingMode::AbsoluteY, 3, 4, true)),
        0x7D => Some(op(0x7D, Mnemonic::ADC, AddressingMode::AbsoluteX, 3, 4, true)),
        0x7E => Some(op(0x7E, Mnemonic::ROR, AddressingMode::AbsoluteX, 3, 7, false)),
        0x81 => Some(op(0x81, Mnemonic::STA, AddressingMode::IndirectX, 2, 6, false)),
        0x84 => Some(op(0x84, Mnemonic::STY, AddressingMode::ZeroPage, 2, 3, false)),
        0x85 => Some(op(0x85, Mnemonic::STA, AddressingMode::ZeroPage, 2, 3, false)),
        0x86 => Some(op(0x86, Mnemonic::STX, AddressingMode::ZeroPage, 2, 3, false)),
        0x88 => Some(op(0x88, Mnemonic::DEY, AddressingMode::NoneAddressing, 1, 2, false)),
        0x8A => Some(op(0x8A, Mnemonic::TXA, AddressingMode::NoneAddressing, 1, 2, false)),
        0x8C => Some(op(0x8C, Mnemonic::STY, AddressingMode::Absolute, 3, 4, false)),
        0x8D => Some(op(0x8D, Mnemonic::STA, AddressingMode::Absolute, 3, 4, false)),
        0x8E => Some(op(0x8E, Mnemonic::STX, AddressingMode::Absolute, 3, 4, false)),
        0x90 => Some(op(0x90, Mnemonic::BCC, AddressingMode::Relative, 2, 2, false)),
        0x91 => Some(op(0x91, Mnemonic::STA, AddressingMode::IndirectY, 2, 6, false)),
        0x94 => Some(op(0x94, Mnemonic::STY, AddressingMode::ZeroPageX, 2, 4, false)),
        0x95 => Some(op(0x95, Mnemonic::STA, AddressingMode::ZeroPageX, 2, 4, false)),
        0x96 => Some(op(0x96, Mnemonic::STX, AddressingMode::ZeroPageY, 2, 4, false)),
        0x98 => Some(op(0x98, Mnemonic::TYA, AddressingMode::NoneAddressing, 1, 2, false)),
        0x99 => Some(op(0x99, Mnemonic::STA, AddressingMode::AbsoluteY, 3, 5, false)),
        0x9A => Some(op(0x9A, Mnemonic::TXS, AddressingMode::NoneAddressing, 1, 2, false)),
        0x9D => Some(op(0x9D, Mnemonic::STA, AddressingMode::AbsoluteX, 3, 5, false)),
        0xA0 => Some(op(0xA0, Mnemonic::LDY, AddressingMode::Immediate, 2, 2, false)),
        0xA1 => Some(op(0xA1, Mnemonic::LDA, AddressingMode::IndirectX, 2, 6, false)),
        0xA2 => Some(op(0xA2, Mnemonic::LDX, AddressingMode::Immediate, 2, 2, false)),
        0xA4 => Some(op(0xA4, Mnemonic::LDY, AddressingMode::ZeroPage, 2, 3, false)),
        0xA5 => Some(op(0xA5, Mnemonic::LDA, AddressingMode::ZeroPage, 2, 3, false)),
        0xA6 => Some(op(0xA6, Mnemonic::LDX, AddressingMode::ZeroPage, 2, 3, false)),
        0xA8 => Some(op(0xA8, Mnemonic::TAY, AddressingMode::NoneAddressing, 1, 2, false)),
        0xA9 => Some(op(0xA9, Mnemonic::LDA, AddressingMode::Immediate, 2, 2, false)),
        0xAA => Some(op(0xAA, Mnemonic::TAX, AddressingMode::NoneAddressing, 1, 2, false)),
        0xAC => Some(op(0xAC, Mnemonic::LDY, AddressingMode::Absolute, 3, 4, false)),
        0xAD => Some(op(0xAD, Mnemonic::LDA, AddressingMode::Absolute, 3, 4, false)),
        0xAE => Some(op(0xAE, Mnemonic::LDX, AddressingMode::Absolute, 3, 4, false)),
        0xB0 => Some(op(0xB0, Mnemonic::BCS, AddressingMode::Relative, 2, 2, false)),
        0xB1 => Some(op(0xB1, Mnemonic::LDA, AddressingMode::IndirectY, 2, 5, true)),
        0xB4 => Some(op(0xB4, Mnemonic::LDY, AddressingMode::ZeroPageX, 2, 4, false)),
        0xB5 => Some(op(0xB5, Mnemonic::LDA, AddressingMode::ZeroPageX, 2, 4, false)),
        0xB6 => Some(op(0xB6, Mnemonic::LDX, AddressingMode::ZeroPageY, 2, 4, false)),
        0xB8 => Some(op(0xB8, Mnemonic::CLV, AddressingMode::NoneAddressing, 1, 2, false)),
        0xB9 => Some(op(0xB9, Mnemonic::LDA, AddressingMode::AbsoluteY, 3, 4, true)),
        0xBA => Some(op(0xBA, Mnemonic::TSX, AddressingMode::NoneAddressing, 1, 2, false)),
        0xBC => Some(op(0xBC, Mnemonic::LDY, AddressingMode::AbsoluteX, 3, 4, true)),
        0xBD => Some(op(0xBD, Mnemonic::LDA, AddressingMode::AbsoluteX, 3, 4, true)),
        0xBE => Some(op(0xBE, Mnemonic::LDX, AddressingMode::AbsoluteY, 3, 4, true)),
        0xC0 => Some(op(0xC0, Mnemonic::CPY, AddressingMode::Immediate, 2, 2, false)),
        0xC1 => Some(op(0xC1, Mnemonic::CMP, AddressingMode::IndirectX, 2, 6, false)),
        0xC4 => Some(op(0xC4, Mnemonic::CPY, AddressingMode::ZeroPage, 2, 3, false)),
        0xC5 => Some(op(0xC5, Mnemonic::CMP, AddressingMode::ZeroPage, 2, 3, false)),
        0xC6 => Some(op(0xC6, Mnemonic::DEC, AddressingMode::ZeroPage, 2, 5, false)),
        0xC8 => Some(op(0xC8, Mnemonic::INY, AddressingMode::NoneAddressing, 1, 2, false)),
        0xC9 => Some(op(0xC9, Mnemonic::CMP, AddressingMode::Immediate, 2, 2, false)),
        0xCA => Some(op(0xCA, Mnemonic::DEX, AddressingMode::NoneAddressing, 1, 2, false)),
        0xCC => Some(op(0xCC, Mnemonic::CPY, AddressingMode::Absolute, 3, 4, false)),
        0xCD => Some(op(0xCD, Mnemonic::CMP, AddressingMode::Absolute, 3, 4, false)),
        0xCE => Some(op(0xCE, Mnemonic::DEC, AddressingMode::Absolute, 3, 6, false)),
        0xD0 => Some(op(0xD0, Mnemonic::BNE, AddressingMode::Relative, 2, 2, false)),
        0xD1 => Some(op(0xD1, Mnemonic::CMP, AddressingMode::IndirectY, 2, 5, true)),
        0xD5 => Some(op(0xD5, Mnemonic::CMP, AddressingMode::ZeroPageX, 2, 4, false)),
        0xD6 => Some(op(0xD6, Mnemonic::DEC, AddressingMode::ZeroPageX, 2, 6, false)),
        0xD8 => Some(op(0xD8, Mnemonic::CLD, AddressingMode::NoneAddressing, 1, 2, false)),
        0xD9 => Some(op(0xD9, Mnemonic::CMP, AddressingMode::AbsoluteY, 3, 4, true)),
        0xDD => Some(op(0xDD, Mnemonic::CMP, AddressingMode::AbsoluteX, 3, 4, true)),
        0xDE => Some(op(0xDE, Mnemonic::DEC, AddressingMode::AbsoluteX, 3, 7, false)),
        0xE0 => Some(op(0xE0, Mnemonic::CPX, AddressingMode::Immediate, 2, 2, false)),
        0xE1 => Some(op(0xE1, Mnemonic::SBC, AddressingMode::IndirectX, 2, 6, false)),
        0xE4 => Some(op(0xE4, Mnemonic::CPX, AddressingMode::ZeroPage, 2, 3, false)),
        0xE5 => Some(op(0xE5, Mnemonic::SBC, AddressingMode::ZeroPage, 2, 3, false)),
        0xE6 => Some(op(0xE6, Mnemonic::INC, AddressingMode::ZeroPage, 2, 5, false)),
        0xE8 => Some(op(0xE8, Mnemonic::INX, AddressingMode::NoneAddressing, 1, 2, false)),
        0xE9 => Some(op(0xE9, Mnemonic::SBC, AddressingMode::Immediate, 2, 2, false)),
        0xEA => Some(op(0xEA, Mnemonic::NOP, AddressingMode::NoneAddressing, 1, 2, false)),
        0xEC => Some(op(0xEC, Mnemonic::CPX, AddressingMode::Absolute, 3, 4, false)),
        0xED => Some(op(0xED, Mnemonic::SBC, AddressingMode::Absolute, 3, 4, false)),
        0xEE => Some(op(0xEE, Mnemonic::INC, AddressingMode::Absolute, 3, 6, false)),
        0xF0 => Some(op(0xF0, Mnemonic::BEQ, AddressingMode::Relative, 2, 2, false)),
        0xF1 => Some(op(0xF1, Mnemonic::SBC, AddressingMode::IndirectY, 2, 5, true)),
        0xF5 => Some(op(0xF5, Mnemonic::SBC, AddressingMode::ZeroPageX, 2, 4, false)),
        0xF6 => Some(op(0xF6, Mnemonic::INC, AddressingMode::ZeroPageX, 2, 6, false)),
        0xF8 => Some(op(0xF8, Mnemonic::SED, AddressingMode::NoneAddressing, 1, 2, false)),
        0xF9 => Some(op(0xF9, Mnemonic::SBC, AddressingMode::AbsoluteY, 3, 4, true)),
        0xFD => Some(op(0xFD, Mnemonic::SBC, AddressingMode::AbsoluteX, 3, 4, true)),
        0xFE => Some(op(0xFE, Mnemonic::INC, AddressingMode::AbsoluteX, 3, 7, false)),
        _ => None,
    }
}

/// Every entry agrees with its mode on the length: one byte with no operand,
/// two with a zero-page or immediate operand, three with an absolute one.
pub proof fn lemma_table_lengths(code: u8)
    requires
        spec_lookup(code) is Some,
    ensures
        spec_lookup(code)->Some_0.code == code,
        spec_lookup(code)->Some_0.len == mode_len(spec_lookup(code)->Some_0.mode),
        2 <= spec_lookup(code)->Some_0.cycles <= 7,
        reads_or_stores(spec_lookup(code)->Some_0.mnemonic) ==> (spec_lookup(code)->Some_0.mode
            == AddressingMode::Immediate || is_memory_mode(spec_lookup(code)->Some_0.mode)),
        stores(spec_lookup(code)->Some_0.mnemonic) ==> is_memory_mode(spec_lookup(code)->Some_0.mode),
{
}

/// Instructions that take an operand byte, or store one.
pub open spec fn reads_or_stores(mn: Mnemonic) -> bool {
    match mn {
        Mnemonic::LDA | Mnemonic::LDX | Mnemonic::LDY | Mnemonic::ADC | Mnemonic::SBC
        | Mnemonic::AND | Mnemonic::ORA | Mnemonic::EOR | Mnemonic::CMP | Mnemonic::CPX
        | Mnemonic::CPY | Mnemonic::BIT => true,
        _ => stores(mn),
    }
}

pub open spec fn stores(mn: Mnemonic) -> bool {
    mn == Mnemonic::STA || mn == Mnemonic::STX || mn == Mnemonic::STY
}

/// Modes whose operand is a memory address: `Indirect` names the address of `JMP`'s target.
pub open spec fn is_memory_mode(mode: AddressingMode) -> bool {
    match mode {
        AddressingMode::ZeroPage | AddressingMode::ZeroPageX | AddressingMode::ZeroPageY
        | AddressingMode::Absolute | AddressingMode::AbsoluteX | AddressingMode::AbsoluteY
        | AddressingMode::IndirectX | AddressingMode::IndirectY | AddressingMode::Indirect => true,
        _ => false,
    }
}

/// Bytes taken by an instruction in `mode`, opcode included.
pub open spec fn mode_len(mode: AddressingMode) -> u8 {
    match mode {
        AddressingMode::Accumulator | AddressingMode::NoneAddressing => 1,
        AddressingMode::Absolute | AddressingMode::AbsoluteX | AddressingMode::AbsoluteY
        | AddressingMode::Indirect => 3,
        _ => 2,
    }
}

fn opcode(
    code: u8,
    mnemonic: Mnemonic,
    mode: AddressingMode,
    len: u8,
    cycles: u8,
    page_cross_penalty: bool,
) -> (r: OpCode)
    ensures
        r == op(code, mnemonic, mode, len, cycles, page_cross_penalty),
{
    OpCode { code, mnemonic, mode, len, cycles, page_cross_penalty }
}

/// Looks an opcode up in the table.
pub fn lookup(code: u8) -> (r: Option<OpCode>)
    ensures
        r == spec_lookup(code),
{
    match code {
        0x00 => Some(opcode(0x00, Mnemonic::BRK, AddressingMode::NoneAddressing, 1, 7, false)),
        0x01 => Some(opcode(0x01, Mnemonic::ORA, AddressingMode::IndirectX, 2, 6, false)),
        0x05 => Some(opcode(0x05, Mnemonic::ORA, AddressingMode::ZeroPage, 2, 3, false)),
        0x06 => Some(opcode(0x06, Mnemonic::ASL, AddressingMode::ZeroPage, 2, 5, false)),
        0x08 => Some(opcode(0x08, Mnemonic::PHP, AddressingMode::NoneAddressing, 1, 3, false)),
        0x09 => Some(opcode(0x09, Mnemonic::ORA, AddressingMode::Immediate, 2, 2, false)),
        0x0A => Some(opcode(0x0A, Mnemonic::ASL, AddressingMode::Accumulator, 1, 2, false)),
        0x0D => Some(opcode(0x0D, Mnemonic::ORA, AddressingMode::Absolute, 3, 4, false)),
        0x0E => Some(opcode(0x0E, Mnemonic::ASL, AddressingMode::Absolute, 3, 6, false)),
        0x10 => Some(opcode(0x10, Mnemonic::BPL, AddressingMode::Relative, 2, 2, false)),
        0x11 => Some(opcode(0x11, Mnemonic::ORA, AddressingMode::IndirectY, 2, 5, true)),
        0x15 => Some(opcode(0x15, Mnemonic::ORA, AddressingMode::ZeroPageX, 2, 4, false)),
        0x16 => Some(opcode(0x16, Mnemonic::ASL, AddressingMode::ZeroPageX, 2, 6, false)),
        0x18 => Some(opcode(0x18, Mnemonic::CLC, AddressingMode::NoneAddressing, 1, 2, false)),
        0x19 => Some(opcode(0x19, Mnemonic::ORA, AddressingMode::AbsoluteY, 3, 4, true)),
        0x1D => Some(opcode(0x1D, Mnemonic::ORA, AddressingMode::AbsoluteX, 3, 4, true)),
        0x1E => Some(opcode(0x1E, Mnemonic::ASL, AddressingMode::AbsoluteX, 3, 7, false)),
        0x20 => Some(opcode(0x20, Mnemonic::JSR, AddressingMode::Absolute, 3, 6, false)),
        0x21 => Some(opcode(0x21, Mnemonic::AND, AddressingMode::IndirectX, 2, 6, false)),
        0x24 => Some(opcode(0x24, Mnemonic::BIT, AddressingMode::ZeroPage, 2, 3, false)),
        0x25 => Some(opcode(0x25, Mnemonic::AND, AddressingMode::ZeroPage, 2, 3, false)),
        0x26 => Some(opcode(0x26, Mnemonic::ROL, AddressingMode::ZeroPage, 2, 5, false)),
        0x28 => Some(opcode(0x28, Mnemonic::PLP, AddressingMode::NoneAddressing, 1, 4, false)),
        0x29 => Some(opcode(0x29, Mnemonic::AND, AddressingMode::Immediate, 2, 2, false)),
        0x2A => Some(opcode(0x2A, Mnemonic::ROL, AddressingMode::Accumulator, 1, 2, false)),
        0x2C => Some(opcode(0x2C, Mnemonic::BIT, AddressingMode::Absolute, 3, 4, false)),
        0x2D => Some(opcode(0x2D, Mnemonic::AND, AddressingMode::Absolute, 3, 4, false)),
        0x2E => Some(opcode(0x2E, Mnemonic::ROL, AddressingMode::Absolute, 3, 6, false)),
        0x30 => Some(opcode(0x30, Mnemonic::BMI, AddressingMode::Relative, 2, 2, false)),
        0x31 => Some(opcode(0x31, Mnemonic::AND, AddressingMode::IndirectY, 2, 5, true)),
        0x35 => Some(opcode(0x35, Mnemonic::AND, AddressingMode::ZeroPageX, 2, 4, false)),
        0x36 => Some(opcode(0x36, Mnemonic::ROL, AddressingMode::ZeroPageX, 2, 6, false)),
        0x38 => Some(opcode(0x38, Mnemonic::SEC, AddressingMode::NoneAddressing, 1, 2, false)),
        0x39 => Some(opcode(0x39, Mnemonic::AND, AddressingMode::AbsoluteY, 3, 4, true)),
        0x3D => Some(opcode(0x3D, Mnemonic::AND, AddressingMode::AbsoluteX, 3, 4, true)),
        0x3E => Some(opcode(0x3E, Mnemonic::ROL, AddressingMode::AbsoluteX, 3, 7, false)),
        0x40 => Some(opcode(0x40, Mnemonic::RTI, AddressingMode::NoneAddressing, 1, 6, false)),
        0x41 => Some(opcode(0x41, Mnemonic::EOR, AddressingMode::IndirectX, 2, 6, false)),
        0x45 => Some(opcode(0x45, Mnemonic::EOR, AddressingMode::ZeroPage, 2, 3, false)),
        0x46 => Some(opcode(0x46, Mnemonic::LSR, AddressingMode::ZeroPage, 2, 5, false)),
        0x48 => Some(opcode(0x48, Mnemonic::PHA, AddressingMode::NoneAddressing, 1, 3, false)),
        0x49 => Some(opcode(0x49, Mnemonic::EOR, AddressingMode::Immediate, 2, 2, false)),
        0x4A => Some(opcode(0x4A, Mnemonic::LSR, AddressingMode::Accumulator, 1, 2, false)),
        0x4C => Some(opcode(0x4C, Mnemonic::JMP, AddressingMode::Absolute, 3, 3, false)),
        0x4D => Some(opcode(0x4D, Mnemonic::EOR, AddressingMode::Absolute, 3, 4, false)),
        0x4E => Some(opcode(0x4E, Mnemonic::LSR, AddressingMode::Absolute, 3, 6, false)),
        0x50 => Some(opcode(0x50, Mnemonic::BVC, AddressingMode::Relative, 2, 2, false)),
        0x51 => Some(opcode(0x51, Mnemonic::EOR, AddressingMode::IndirectY, 2, 5, true)),
        0x55 => Some(opcode(0x55, Mnemonic::EOR, AddressingMode::ZeroPageX, 2, 4, false)),
        0x56 => Some(opcode(0x56, Mnemonic::LSR, AddressingMode::ZeroPageX, 2, 6, false)),
        0x58 => Some(opcode(0x58, Mnemonic::CLI, AddressingMode::NoneAddressing, 1, 2, false)),
        0x59 => Some(opcode(0x59, Mnemonic::EOR, AddressingMode::AbsoluteY, 3, 4, true)),
        0x5D => Some(opcode(0x5D, Mnemonic::EOR, AddressingMode::AbsoluteX, 3, 4, true)),
        0x5E => Some(opcode(0x5E, Mnemonic::LSR, AddressingMode::AbsoluteX, 3, 7, false)),
        0x60 => Some(opcode(0x60, Mnemonic::RTS, AddressingMode::NoneAddressing, 1, 6, false)),
        0x61 => Some(opcode(0x61, Mnemonic::ADC, AddressingMode::IndirectX, 2, 6, false)),
        0x65 => Some(opcode(0x65, Mnemonic::ADC, AddressingMode::ZeroPage, 2, 3, false)),
        0x66 => Some(opcode(0x66, Mnemonic::ROR, AddressingMode::ZeroPage, 2, 5, false)),
        0x68 => Some(opcode(0x68, Mnemonic::PLA, AddressingMode::NoneAddressing, 1, 4, false)),
        0x69 => Some(opcode(0x69, Mnemonic::ADC, AddressingMode::Immediate, 2, 2, false)),
        0x6A => Some(opcode(0x6A, Mnemonic::ROR, AddressingMode::Accumulator, 1, 2, false)),
        0x6C => Some(opcode(0x6C, Mnemonic::JMP, AddressingMode::Indirect, 3, 5, false)),
        0x6D => Some(opcode(0x6D, Mnemonic::ADC, AddressingMode::Absolute, 3, 4, false)),
        0x6E => Some(opcode(0x6E, Mnemonic::ROR, AddressingMode::Absolute, 3, 6, false)),
        0x70 => Some(opcode(0x70, Mnemonic::BVS, AddressingMode::Relative, 2, 2, false)),
        0x71 => Some(opcode(0x71, Mnemonic::ADC, AddressingMode::IndirectY, 2, 5, true)),
        0x75 => Some(opcode(0x75, Mnemonic::ADC, AddressingMode::ZeroPageX, 2, 4, false)),
        0x76 => Some(opcode(0x76, Mnemonic::ROR, AddressingMode::ZeroPageX, 2, 6, false)),
        0x78 => Some(opcode(0x78, Mnemonic::SEI, AddressingMode::NoneAddressing, 1, 2, false)),
        0x79 => Some(opcode(0x79, Mnemonic::ADC, AddressingMode::AbsoluteY, 3, 4, true)),
        0x7D => Some(opcode(0x7D, Mnemonic::ADC, AddressingMode::AbsoluteX, 3, 4, true)),
        0x7E => Some(opcode(0x7E, Mnemonic::ROR, AddressingMode::AbsoluteX, 3, 7, false)),
        0x81 => Some(opcode(0x81, Mnemonic::STA, AddressingMode::IndirectX, 2, 6, false)),
        0x84 => Some(opcode(0x84, Mnemonic::STY, AddressingMode::ZeroPage, 2, 3, false)),
        0x85 => Some(opcode(0x85, Mnemonic::STA, AddressingMode::ZeroPage, 2, 3, false)),
        0x86 => Some(opcode(0x86, Mnemonic::STX, AddressingMode::ZeroPage, 2, 3, false)),
        0x88 => Some(opcode(0x88, Mnemonic::DEY, AddressingMode::NoneAddressing, 1, 2, false)),
        0x8A => Some(opcode(0x8A, Mnemonic::TXA, AddressingMode::NoneAddressing, 1, 2, false)),
        0x8C => Some(opcode(0x8C, Mnemonic::STY, AddressingMode::Absolute, 3, 4, false)),
        0x8D => Some(opcode(0x8D, Mnemonic::STA, AddressingMode::Absolute, 3, 4, false)),
        0x8E => Some(opcode(0x8E, Mnemonic::STX, AddressingMode::Absolute, 3, 4, false)),
        0x90 => Some(opcode(0x90, Mnemonic::BCC, AddressingMode::Relative, 2, 2, false)),
        0x91 => Some(opcode(0x91, Mnemonic::STA, AddressingMode::IndirectY, 2, 6, false)),
        0x94 => Some(opcode(0x94, Mnemonic::STY, AddressingMode::ZeroPageX, 2, 4, false)),
        0x95 => Some(opcode(0x95, Mnemonic::STA, AddressingMode::ZeroPageX, 2, 4, false)),
        0x96 => Some(opcode(0x96, Mnemonic::STX, AddressingMode::ZeroPageY, 2, 4, false)),
        0x98 => Some(opcode(0x98, Mnemonic::TYA, AddressingMode::NoneAddressing, 1, 2, false)),
        0x99 => Some(opcode(0x99, Mnemonic::STA, AddressingMode::AbsoluteY, 3, 5, false)),
        0x9A => Some(opcode(0x9A, Mnemonic::TXS, AddressingMode::NoneAddressing, 1, 2, false)),
        0x9D => Some(opcode(0x9D, Mnemonic::STA, AddressingMode::AbsoluteX, 3, 5, false)),
        0xA0 => Some(opcode(0xA0, Mnemonic::LDY, AddressingMode::Immediate, 2, 2, false)),
        0xA1 => Some(opcode(0xA1, Mnemonic::LDA, AddressingMode::IndirectX, 2, 6, false)),
        0xA2 => Some(opcode(0xA2, Mnemonic::LDX, AddressingMode::Immediate, 2, 2, false)),
        0xA4 => Some(opcode(0xA4, Mnemonic::LDY, AddressingMode::ZeroPage, 2, 3, false)),
        0xA5 => Some(opcode(0xA5, Mnemonic::LDA, AddressingMode::ZeroPage, 2, 3, false)),
        0xA6 => Some(opcode(0xA6, Mnemonic::LDX, AddressingMode::ZeroPage, 2, 3, false)),
        0xA8 => Some(opcode(0xA8, Mnemonic::TAY, AddressingMode::NoneAddressing, 1, 2, false)),
        0xA9 => Some(opcode(0xA9, Mnemonic::LDA, AddressingMode::Immediate, 2, 2, false)),
        0xAA => Some(opcode(0xAA, Mnemonic::TAX, AddressingMode::NoneAddressing, 1, 2, false)),
        0xAC => Some(opcode(0xAC, Mnemonic::LDY, AddressingMode::Absolute, 3, 4, false)),
        0xAD => Some(opcode(0xAD, Mnemonic::LDA, AddressingMode::Absolute, 3, 4, false)),
        0xAE => Some(opcode(0xAE, Mnemonic::LDX, AddressingMode::Absolute, 3, 4, false)),
        0xB0 => Some(opcode(0xB0, Mnemonic::BCS, AddressingMode::Relative, 2, 2, false)),
        0xB1 => Some(opcode(0xB1, Mnemonic::LDA, AddressingMode::IndirectY, 2, 5, true)),
        0xB4 => Some(opcode(0xB4, Mnemonic::LDY, AddressingMode::ZeroPageX, 2, 4, false)),
        0xB5 => Some(opcode(0xB5, Mnemonic::LDA, AddressingMode::ZeroPageX, 2, 4, false)),
        0xB6 => Some(opcode(0xB6, Mnemonic::LDX, AddressingMode::ZeroPageY, 2, 4, false)),
        0xB8 => Some(opcode(0xB8, Mnemonic::CLV, AddressingMode::NoneAddressing, 1, 2, false)),
        0xB9 => Some(opcode(0xB9, Mnemonic::LDA, AddressingMode::AbsoluteY, 3, 4, true)),
        0xBA => Some(opcode(0xBA, Mnemonic::TSX, AddressingMode::NoneAddressing, 1, 2, false)),
        0xBC => Some(opcode(0xBC, Mnemonic::LDY, AddressingMode::AbsoluteX, 3, 4, true)),
        0xBD => Some(opcode(0xBD, Mnemonic::LDA, AddressingMode::AbsoluteX, 3, 4, true)),
        0xBE => Some(opcode(0xBE, Mnemonic::LDX, AddressingMode::AbsoluteY, 3, 4, true)),
        0xC0 => Some(opcode(0xC0, Mnemonic::CPY, AddressingMode::Immediate, 2, 2, false)),
        0xC1 => Some(opcode(0xC1, Mnemonic::CMP, AddressingMode::IndirectX, 2, 6, false)),
        0xC4 => Some(opcode(0xC4, Mnemonic::CPY, AddressingMode::ZeroPage, 2, 3, false)),
        0xC5 => Some(opcode(0xC5, Mnemonic::CMP, AddressingMode::ZeroPage, 2, 3, false)),
        0xC6 => Some(opcode(0xC6, Mnemonic::DEC, AddressingMode::ZeroPage, 2, 5, false)),
        0xC8 => Some(opcode(0xC8, Mnemonic::INY, AddressingMode::NoneAddressing, 1, 2, false)),
        0xC9 => Some(opcode(0xC9, Mnemonic::CMP, AddressingMode::Immediate, 2, 2, false)),
        0xCA => Some(opcode(0xCA, Mnemonic::DEX, AddressingMode::NoneAddressing, 1, 2, false)),
        0xCC => Some(opcode(0xCC, Mnemonic::CPY, AddressingMode::Absolute, 3, 4, false)),
        0xCD => Some(opcode(0xCD, Mnemonic::CMP, AddressingMode::Absolute, 3, 4, false)),
        0xCE => Some(opcode(0xCE, Mnemonic::DEC, AddressingMode::Absolute, 3, 6, false)),
        0xD0 => Some(opcode(0xD0, Mnemonic::BNE, AddressingMode::Relative, 2, 2, false)),
        0xD1 => Some(opcode(0xD1, Mnemonic::CMP, AddressingMode::IndirectY, 2, 5, true)),
        0xD5 => Some(opcode(0xD5, Mnemonic::CMP, AddressingMode::ZeroPageX, 2, 4, false)),
        0xD6 => Some(opcode(0xD6, Mnemonic::DEC, AddressingMode::ZeroPageX, 2, 6, false)),
        0xD8 => Some(opcode(0xD8, Mnemonic::CLD, AddressingMode::NoneAddressing, 1, 2, false)),
        0xD9 => Some(opcode(0xD9, Mnemonic::CMP, AddressingMode::AbsoluteY, 3, 4, true)),
        0xDD => Some(opcode(0xDD, Mnemonic::CMP, AddressingMode::AbsoluteX, 3, 4, true)),
        0xDE => Some(opcode(0xDE, Mnemonic::DEC, AddressingMode::AbsoluteX, 3, 7, false)),
        0xE0 => Some(opcode(0xE0, Mnemonic::CPX, AddressingMode::Immediate, 2, 2, false)),
        0xE1 => Some(opcode(0xE1, Mnemonic::SBC, AddressingMode::IndirectX, 2, 6, false)),
        0xE4 => Some(opcode(0xE4, Mnemonic::CPX, AddressingMode::ZeroPage, 2, 3, false)),
        0xE5 => Some(opcode(0xE5, Mnemonic::SBC, AddressingMode::ZeroPage, 2, 3, false)),
        0xE6 => Some(opcode(0xE6, Mnemonic::INC, AddressingMode::ZeroPage, 2, 5, false)),
        0xE8 => Some(opcode(0xE8, Mnemonic::INX, AddressingMode::NoneAddressing, 1, 2, false)),
        0xE9 => Some(opcode(0xE9, Mnemonic::SBC, AddressingMode::Immediate, 2, 2, false)),
        0xEA => Some(opcode(0xEA, Mnemonic::NOP, AddressingMode::NoneAddressing, 1, 2, false)),
        0xEC => Some(opcode(0xEC, Mnemonic::CPX, AddressingMode::Absolute, 3, 4, false)),
        0xED => Some(opcode(0xED, Mnemonic::SBC, AddressingMode::Absolute, 3, 4, false)),
        0xEE => Some(opcode(0xEE, Mnemonic::INC, AddressingMode::Absolute, 3, 6, false)),
        0xF0 => Some(opcode(0xF0, Mnemonic::BEQ, AddressingMode::Relative, 2, 2, false)),
        0xF1 => Some(opcode(0xF1, Mnemonic::SBC, AddressingMode::IndirectY, 2, 5, true)),
        0xF5 => Some(opcode(0xF5, Mnemonic::SBC, AddressingMode::ZeroPageX, 2, 4, false)),
        0xF6 => Some(opcode(0xF6, Mnemonic::INC, AddressingMode::ZeroPageX, 2, 6, false)),
        0xF8 => Some(opcode(0xF8, Mnemonic::SED, AddressingMode::NoneAddressing, 1, 2, false)),
        0xF9 => Some(opcode(0xF9, Mnemonic::SBC, AddressingMode::AbsoluteY, 3, 4, true)),
        0xFD => Some(opcode(0xFD, Mnemonic::SBC, AddressingMode::AbsoluteX, 3, 4, true)),
        0xFE => Some(opcode(0xFE, Mnemonic::INC, AddressingMode::AbsoluteX, 3, 7, false)),
        _ => None,
    }
}

} // verus!
