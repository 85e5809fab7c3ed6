use vstd::prelude::*;

verus! {

/// How the bytes after an opcode name its operand.
#[derive(Debug, Clone, Copy, PartialEq, Eq, Structural)]
pub enum AddressingMode {
    Implied,
    Accumulator,
    Immediate,
    ZeroPage,
    ZeroPageX,
    ZeroPageY,
    Relative,
    Absolute,
    AbsoluteX,
    AbsoluteY,
    Indirect,
    IndirectX,
    IndirectY,
}

/// The operation of an opcode: the official mnemonics, and `Illegal` for bytes with no
/// official meaning.
#[allow(non_camel_case_types)]
#[derive(Debug, Clone, Copy, PartialEq, Eq, Structural)]
pub enum InstructionKind {
    ADC,
    AND,
    ASL,
    BCC,
    BCS,
    BEQ,
    BIT,
    BMI,
    BNE,
    BPL,
    BRK,
    BVC,
    BVS,
    CLC,
    CLD,
    CLI,
    CLV,
    CMP,
    CPX,
    CPY,
    DEC,
    DEX,
    DEY,
    EOR,
    INC,
    INX,
    INY,
    JMP,
    JSR,
    LDA,
    LDX,
    LDY,
    LSR,
    NOP,
    ORA,
    PHA,
    PHP,
    PLA,
    PLP,
    ROL,
    ROR,
    RTI,
    RTS,
    SBC,
    SEC,
    SED,
    SEI,
    STA,
    STX,
    STY,
    TAX,
    TAY,
    TSX,
    TXA,
    TXS,
    TYA,
    Illegal,
}

/// What the table says of one opcode byte.
#[derive(Debug, Clone, Copy, PartialEq, Eq, Structural)]
pub struct Instruction {
    pub opcode: u8,
    pub mode: AddressingMode,
    pub kind: InstructionKind,
    /// Base cycle count.
    pub cycles: u8,
    /// Length in bytes, the opcode included.
    pub bytes: u8,
    /// Whether crossing a page while indexing costs one more cycle.
    pub page_penalty: bool,
}

/// How many operand bytes follow the opcode in `mode`.
pub open spec fn operand_len(mode: AddressingMode) -> u8 {
    match mode {
        AddressingMode::Implied | AddressingMode::Accumulator => 0,
        AddressingMode::Absolute
        | AddressingMode::AbsoluteX
        | AddressingMode::AbsoluteY
        | AddressingMode::Indirect => 2,
        _ => 1,
    }
}

/// How many operand bytes follow the opcode in `mode`.
pub fn operand_bytes(mode: AddressingMode) -> (r: u8)
    ensures
        r == operand_len(mode),
{
    match mode {
        AddressingMode::Implied | AddressingMode::Accumulator => 0,
        AddressingMode::Absolute
        | AddressingMode::AbsoluteX
        | AddressingMode::AbsoluteY
        | AddressingMode::Indirect => 2,
        _ => 1,
    }
}

pub open spec fn entry(
    op: u8,
    kind: InstructionKind,
    mode: AddressingMode,
    cycles: u8,
    page_penalty: bool,
) -> Instruction {
    Instruction { opcode: op, mode, kind, cycles, bytes: (1 + operand_len(mode)) as u8, page_penalty }
}

fn make(op: u8, kind: InstructionKind, mode: AddressingMode, cycles: u8, page_penalty: bool) -> (r:
    Instruction)
    ensures
        r == entry(op, kind, mode, cycles, page_penalty),
{
    Instruction { opcode: op, mode, kind, cycles, bytes: 1 + operand_bytes(mode), page_penalty }
}

/// The table entry of every opcode byte: the 151 official opcodes with their mode and base
/// cycles; every other byte is `Illegal`, one byte long, two cycles.
#[verifier::opaque]
pub open spec fn decode_spec(op: u8) -> Instruction {
    match op {
        0x00 => entry(op, InstructionKind::BRK, AddressingMode::Implied, 7, false),
        0x01 => entry(op, InstructionKind::ORA, AddressingMode::IndirectX, 6, false),
        0x05 => entry(op, InstructionKind::ORA, AddressingMode::ZeroPage, 3, false),
        0x06 => entry(op, InstructionKind::ASL, AddressingMode::ZeroPage, 5, false),
        0x08 => entry(op, InstructionKind::PHP, AddressingMode::Implied, 3, false),
        0x09 => entry(op, InstructionKind::ORA, AddressingMode::Immediate, 2, false),
        0x0A => entry(op, InstructionKind::ASL, AddressingMode::Accumulator, 2, false),
        0x0D => entry(op, InstructionKind::ORA, AddressingMode::Absolute, 4, false),
        0x0E => entry(op, InstructionKind::ASL, AddressingMode::Absolute, 6, false),
        0x10 => entry(op, InstructionKind::BPL, AddressingMode::Relative, 2, false),
        0x11 => entry(op, InstructionKind::ORA, AddressingMode::IndirectY, 5, true),
        0x15 => entry(op, InstructionKind::ORA, AddressingMode::ZeroPageX, 4, false),
        0x16 => entry(op, InstructionKind::ASL, AddressingMode::ZeroPageX, 6, false),
        0x18 => entry(op, InstructionKind::CLC, AddressingMode::Implied, 2, false),
        0x19 => entry(op, InstructionKind::ORA, AddressingMode::AbsoluteY, 4, true),
        0x1D => entry(op, InstructionKind::ORA, AddressingMode::AbsoluteX, 4, true),
        0x1E => entry(op, InstructionKind::ASL, AddressingMode::AbsoluteX, 7, false),
        0x20 => entry(op, InstructionKind::JSR, AddressingMode::Absolute, 6, false),
        0x21 => entry(op, InstructionKind::AND, AddressingMode::IndirectX, 6, false),
        0x24 => entry(op, InstructionKind::BIT, AddressingMode::ZeroPage, 3, false),
        0x25 => entry(op, InstructionKind::AND, AddressingMode::ZeroPage, 3, false),
        0x26 => entry(op, InstructionKind::ROL, AddressingMode::ZeroPage, 5, false),
        0x28 => entry(op, InstructionKind::PLP, AddressingMode::Implied, 4, false),
        0x29 => entry(op, InstructionKind::AND, AddressingMode::Immediate, 2, false),
        0x2A => entry(op, InstructionKind::ROL, AddressingMode::Accumulator, 2, false),
        0x2C => entry(op, InstructionKind::BIT, AddressingMode::Absolute, 4, false),
        0x2D => entry(op, InstructionKind::AND, AddressingMode::Absolute, 4, false),
        0x2E => entry(op, InstructionKind::ROL, AddressingMode::Absolute, 6, false),
        0x30 => entry(op, InstructionKind::BMI, AddressingMode::Relative, 2, false),
        0x31 => entry(op, InstructionKind::AND, AddressingMode::IndirectY, 5, true),
        0x35 => entry(op, InstructionKind::AND, AddressingMode::ZeroPageX, 4, false),
        0x36 => entry(op, InstructionKind::ROL, AddressingMode::ZeroPageX, 6, false),
        0x38 => entry(op, InstructionKind::SEC, AddressingMode::Implied, 2, false),
        0x39 => entry(op, InstructionKind::AND, AddressingMode::AbsoluteY, 4, true),
        0x3D => entry(op, InstructionKind::AND, AddressingMode::AbsoluteX, 4, true),
        0x3E => entry(op, InstructionKind::ROL, AddressingMode::AbsoluteX, 7, false),
        0x40 => entry(op, InstructionKind::RTI, AddressingMode::Implied, 6, false),
        0x41 => entry(op, InstructionKind::EOR, AddressingMode::IndirectX, 6, false),
        0x45 => entry(op, InstructionKind::EOR, AddressingMode::ZeroPage, 3, false),
        0x46 => entry(op, InstructionKind::LSR, AddressingMode::ZeroPage, 5, false),
        0x48 => entry(op, InstructionKind::PHA, AddressingMode::Implied, 3, false),
        0x49 => entry(op, InstructionKind::EOR, AddressingMode::Immediate, 2, false),
        0x4A => entry(op, InstructionKind::LSR, AddressingMode::Accumulator, 2, false),
        0x4C => entry(op, InstructionKind::JMP, AddressingMode::Absolute, 3, false),
        0x4D => entry(op, InstructionKind::EOR, AddressingMode::Absolute, 4, false),
        0x4E => entry(op, InstructionKind::LSR, AddressingMode::Absolute, 6, false),
        0x50 => entry(op, InstructionKind::BVC, AddressingMode::Relative, 2, false),
        0x51 => entry(op, InstructionKind::EOR, AddressingMode::IndirectY, 5, true),
        0x55 => entry(op, InstructionKind::EOR, AddressingMode::ZeroPageX, 4, false),
        0x56 => entry(op, InstructionKind::LSR, AddressingMode::ZeroPageX, 6, false),
        0x58 => entry(op, InstructionKind::CLI, AddressingMode::Implied, 2, false),
        0x59 => entry(op, InstructionKind::EOR, AddressingMode::AbsoluteY, 4, true),
        0x5D => entry(op, InstructionKind::EOR, AddressingMode::AbsoluteX, 4, true),
        0x5E => entry(op, InstructionKind::LSR, AddressingMode::AbsoluteX, 7, false),
        0x60 => entry(op, InstructionKind::RTS, AddressingMode::Implied, 6, false),
        0x61 => entry(op, InstructionKind::ADC, AddressingMode::IndirectX, 6, false),
        0x65 => entry(op, InstructionKind::ADC, AddressingMode::ZeroPage, 3, false),
        0x66 => entry(op, InstructionKind::ROR, AddressingMode::ZeroPage, 5, false),
        0x68 => entry(op, InstructionKind::PLA, AddressingMode::Implied, 4, false),
        0x69 => entry(op, InstructionKind::ADC, AddressingMode::Immediate, 2, false),
        0x6A => entry(op, InstructionKind::ROR, AddressingMode::Accumulator, 2, false),
        0x6C => entry(op, InstructionKind::JMP, AddressingMode::Indirect, 5, false),
        0x6D => entry(op, InstructionKind::ADC, AddressingMode::Absolute, 4, false),
        0x6E => entry(op, InstructionKind::ROR, AddressingMode::Absolute, 6, false),
        0x70 => entry(op, InstructionKind::BVS, AddressingMode::Relative, 2, false),
        0x71 => entry(op, InstructionKind::ADC, AddressingMode::IndirectY, 5, true),
        0x75 => entry(op, InstructionKind::ADC, AddressingMode::ZeroPageX, 4, false),
        0x76 => entry(op, InstructionKind::ROR, AddressingMode::ZeroPageX, 6, false),
        0x78 => entry(op, InstructionKind::SEI, AddressingMode::Implied, 2, false),
        0x79 => entry(op, InstructionKind::ADC, AddressingMode::AbsoluteY, 4, true),
        0x7D => entry(op, InstructionKind::ADC, AddressingMode::AbsoluteX, 4, true),
        0x7E => entry(op, InstructionKind::ROR, AddressingMode::AbsoluteX, 7, false),
        0x81 => entry(op, InstructionKind::STA, AddressingMode::IndirectX, 6, false),
        0x84 => entry(op, InstructionKind::STY, AddressingMode::ZeroPage, 3, false),
        0x85 => entry(op, InstructionKind::STA, AddressingMode::ZeroPage, 3, false),
        0x86 => entry(op, InstructionKind::STX, AddressingMode::ZeroPage, 3, false),
        0x88 => entry(op, InstructionKind::DEY, AddressingMode::Implied, 2, false),
        0x8A => entry(op, InstructionKind::TXA, AddressingMode::Implied, 2, false),
        0x8C => entry(op, InstructionKind::STY, AddressingMode::Absolute, 4, false),
        0x8D => entry(op, InstructionKind::STA, AddressingMode::Absolute, 4, false),
        0x8E => entry(op, InstructionKind::STX, AddressingMode::Absolute, 4, false),
        0x90 => entry(op, InstructionKind::BCC, AddressingMode::Relative, 2, false),
        0x91 => entry(op, InstructionKind::STA, AddressingMode::IndirectY, 6, false),
        0x94 => entry(op, InstructionKind::STY, AddressingMode::ZeroPageX, 4, false),
        0x95 => entry(op, InstructionKind::STA, AddressingMode::ZeroPageX, 4, false),
        0x96 => entry(op, InstructionKind::STX, AddressingMode::ZeroPageY, 4, false),
        0x98 => entry(op, InstructionKind::TYA, AddressingMode::Implied, 2, false),
        0x99 => entry(op, InstructionKind::STA, AddressingMode::AbsoluteY, 5, false),
        0x9A => entry(op, InstructionKind::TXS, AddressingMode::Implied, 2, false),
        0x9D => entry(op, InstructionKind::STA, AddressingMode::AbsoluteX, 5, false),
        0xA0 => entry(op, InstructionKind::LDY, AddressingMode::Immediate, 2, false),
        0xA1 => entry(op, InstructionKind::LDA, AddressingMode::IndirectX, 6, false),
        0xA2 => entry(op, InstructionKind::LDX, AddressingMode::Immediate, 2, false),
        0xA4 => entry(op, InstructionKind::LDY, AddressingMode::ZeroPage, 3, false),
        0xA5 => entry(op, InstructionKind::LDA, AddressingMode::ZeroPage, 3, false),
        0xA6 => entry(op, InstructionKind::LDX, AddressingMode::ZeroPage, 3, false),
        0xA8 => entry(op, InstructionKind::TAY, AddressingMode::Implied, 2, false),
        0xA9 => entry(op, InstructionKind::LDA, AddressingMode::Immediate, 2, false),
        0xAA => entry(op, InstructionKind::TAX, AddressingMode::Implied, 2, false),
        0xAC => entry(op, InstructionKind::LDY, AddressingMode::Absolute, 4, false),
        0xAD => entry(op, InstructionKind::LDA, AddressingMode::Absolute, 4, false),
        0xAE => entry(op, InstructionKind::LDX, AddressingMode::Absolute, 4, false),
        0xB0 => entry(op, InstructionKind::BCS, AddressingMode::Relative, 2, false),
        0xB1 => entry(op, InstructionKind::LDA, AddressingMode::IndirectY, 5, true),
        0xB4 => entry(op, InstructionKind::LDY, AddressingMode::ZeroPageX, 4, false),
        0xB5 => entry(op, InstructionKind::LDA, AddressingMode::ZeroPageX, 4, false),
        0xB6 => entry(op, InstructionKind::LDX, AddressingMode::ZeroPageY, 4, false),
        0xB8 => entry(op, InstructionKind::CLV, AddressingMode::Implied, 2, false),
        0xB9 => entry(op, InstructionKind::LDA, AddressingMode::AbsoluteY, 4, true),
        0xBA => entry(op, InstructionKind::TSX, AddressingMode::Implied, 2, false),
        0xBC => entry(op, InstructionKind::LDY, AddressingMode::AbsoluteX, 4, true),
        0xBD => entry(op, InstructionKind::LDA, AddressingMode::AbsoluteX, 4, true),
        0xBE => entry(op, InstructionKind::LDX, AddressingMode::AbsoluteY, 4, true),
        0xC0 => entry(op, InstructionKind::CPY, AddressingMode::Immediate, 2, false),
        0xC1 => entry(op, InstructionKind::CMP, AddressingMode::IndirectX, 6, false),
        0xC4 => entry(op, InstructionKind::CPY, AddressingMode::ZeroPage, 3, false),
        0xC5 => entry(op, InstructionKind::CMP, AddressingMode::ZeroPage, 3, false),
        0xC6 => entry(op, InstructionKind::DEC, AddressingMode::ZeroPage, 5, false),
        0xC8 => entry(op, InstructionKind::INY, AddressingMode::Implied, 2, false),
        0xC9 => entry(op, InstructionKind::CMP, AddressingMode::Immediate, 2, false),
        0xCA => entry(op, InstructionKind::DEX, AddressingMode::Implied, 2, false),
        0xCC => entry(op, InstructionKind::CPY, AddressingMode::Absolute, 4, false),
        0xCD => entry(op, InstructionKind::CMP, AddressingMode::Absolute, 4, false),
        0xCE => entry(op, InstructionKind::DEC, AddressingMode::Absolute, 6, false),
        0xD0 => entry(op, InstructionKind::BNE, AddressingMode::Relative, 2, false),
        0xD1 => entry(op, InstructionKind::CMP, AddressingMode::IndirectY, 5, true),
        0xD5 => entry(op, InstructionKind::CMP, AddressingMode::ZeroPageX, 4, false),
        0xD6 => entry(op, InstructionKind::DEC, AddressingMode::ZeroPageX, 6, false),
        0xD8 => entry(op, InstructionKind::CLD, AddressingMode::Implied, 2, false),
        0xD9 => entry(op, InstructionKind::CMP, AddressingMode::AbsoluteY, 4, true),
        0xDD => entry(op, InstructionKind::CMP, AddressingMode::AbsoluteX, 4, true),
        0xDE => entry(op, InstructionKind::DEC, AddressingMode::AbsoluteX, 7, false),
        0xE0 => entry(op, InstructionKind::CPX, AddressingMode::Immediate, 2, false),
        0xE1 => entry(op, InstructionKind::SBC, AddressingMode::IndirectX, 6, false),
        0xE4 => entry(op, InstructionKind::CPX, AddressingMode::ZeroPage, 3, false),
        0xE5 => entry(op, InstructionKind::SBC, AddressingMode::ZeroPage, 3, false),
        0xE6 => entry(op, InstructionKind::INC, AddressingMode::ZeroPage, 5, false),
        0xE8 => entry(op, InstructionKind::INX, AddressingMode::Implied, 2, false),
        0xE9 => entry(op, InstructionKind::SBC, AddressingMode::Immediate, 2, false),
        0xEA => entry(op, InstructionKind::NOP, AddressingMode::Implied, 2, false),
        0xEC => entry(op, InstructionKind::CPX, AddressingMode::Absolute, 4, false),
        0xED => entry(op, InstructionKind::SBC, AddressingMode::Absolute, 4, false),
        0xEE => entry(op, InstructionKind::INC, AddressingMode::Absolute, 6, false),
        0xF0 => entry(op, InstructionKind::BEQ, AddressingMode::Relative, 2, false),
        0xF1 => entry(op, InstructionKind::SBC, AddressingMode::IndirectY, 5, true),
        0xF5 => entry(op, InstructionKind::SBC, AddressingMode::ZeroPageX, 4, false),
        0xF6 => entry(op, InstructionKind::INC, AddressingMode::ZeroPageX, 6, false),
        0xF8 => entry(op, InstructionKind::SED, AddressingMode::Implied, 2, false),
        0xF9 => entry(op, InstructionKind::SBC, AddressingMode::AbsoluteY, 4, true),
        0xFD => entry(op, InstructionKind::SBC, AddressingMode::AbsoluteX, 4, true),
        0xFE => entry(op, InstructionKind::INC, AddressingMode::AbsoluteX, 7, false),
        _ => entry(op, InstructionKind::Illegal, AddressingMode::Implied, 2, false),
    }
}

/// Looks up the table entry of `op`.
pub fn decode(op: u8) -> (r: Instruction)
    ensures
        r == decode_spec(op),
{
    reveal(decode_spec);
    match op {
        0x00 => make(op, InstructionKind::BRK, AddressingMode::Implied, 7, false),
        0x01 => make(op, InstructionKind::ORA, AddressingMode::IndirectX, 6, false),
        0x05 => make(op, InstructionKind::ORA, AddressingMode::ZeroPage, 3, false),
        0x06 => make(op, InstructionKind::ASL, AddressingMode::ZeroPage, 5, false),
        0x08 => make(op, InstructionKind::PHP, AddressingMode::Implied, 3, false),
        0x09 => make(op, InstructionKind::ORA, AddressingMode::Immediate, 2, false),
        0x0A => make(op, InstructionKind::ASL, AddressingMode::Accumulator, 2, false),
        0x0D => make(op, InstructionKind::ORA, AddressingMode::Absolute, 4, false),
        0x0E => make(op, InstructionKind::ASL, AddressingMode::Absolute, 6, false),
        0x10 => make(op, InstructionKind::BPL, AddressingMode::Relative, 2, false),
        0x11 => make(op, InstructionKind::ORA, AddressingMode::IndirectY, 5, true),
        0x15 => make(op, InstructionKind::ORA, AddressingMode::ZeroPageX, 4, false),
        0x16 => make(op, InstructionKind::ASL, AddressingMode::ZeroPageX, 6, false),
        0x18 => make(op, InstructionKind::CLC, AddressingMode::Implied, 2, false),
        0x19 => make(op, InstructionKind::ORA, AddressingMode::AbsoluteY, 4, true),
        0x1D => make(op, InstructionKind::ORA, AddressingMode::AbsoluteX, 4, true),
        0x1E => make(op, InstructionKind::ASL, AddressingMode::AbsoluteX, 7, false),
        0x20 => make(op, InstructionKind::JSR, AddressingMode::Absolute, 6, false),
        0x21 => make(op, InstructionKind::AND, AddressingMode::IndirectX, 6, false),
        0x24 => make(op, InstructionKind::BIT, AddressingMode::ZeroPage, 3, false),
        0x25 => make(op, InstructionKind::AND, AddressingMode::ZeroPage, 3, false),
        0x26 => make(op, InstructionKind::ROL, AddressingMode::ZeroPage, 5, false),
        0x28 => make(op, InstructionKind::PLP, AddressingMode::Implied, 4, false),
        0x29 => make(op, InstructionKind::AND, AddressingMode::Immediate, 2, false),
        0x2A => make(op, InstructionKind::ROL, AddressingMode::Accumulator, 2, false),
        0x2C => make(op, InstructionKind::BIT, AddressingMode::Absolute, 4, false),
        0x2D => make(op, InstructionKind::AND, AddressingMode::Absolute, 4, false),
        0x2E => make(op, InstructionKind::ROL, AddressingMode::Absolute, 6, false),
        0x30 => make(op, InstructionKind::BMI, AddressingMode::Relative, 2, false),
        0x31 => make(op, InstructionKind::AND, AddressingMode::IndirectY, 5, true),
        0x35 => make(op, InstructionKind::AND, AddressingMode::ZeroPageX, 4, false),
        0x36 => make(op, InstructionKind::ROL, AddressingMode::ZeroPageX, 6, false),
        0x38 => make(op, InstructionKind::SEC, AddressingMode::Implied, 2, false),
        0x39 => make(op, InstructionKind::AND, AddressingMode::AbsoluteY, 4, true),
        0x3D => make(op, InstructionKind::AND, AddressingMode::AbsoluteX, 4, true),
        0x3E => make(op, InstructionKind::ROL, AddressingMode::AbsoluteX, 7, false),
        0x40 => make(op, InstructionKind::RTI, AddressingMode::Implied, 6, false),
        0x41 => make(op, InstructionKind::EOR, AddressingMode::IndirectX, 6, false),
        0x45 => make(op, InstructionKind::EOR, AddressingMode::ZeroPage, 3, false),
        0x46 => make(op, InstructionKind::LSR, AddressingMode::ZeroPage, 5, false),
        0x48 => make(op, InstructionKind::PHA, AddressingMode::Implied, 3, false),
        0x49 => make(op, InstructionKind::EOR, AddressingMode::Immediate, 2, false),
        0x4A => make(op, InstructionKind::LSR, AddressingMode::Accumulator, 2, false),
        0x4C => make(op, InstructionKind::JMP, AddressingMode::Absolute, 3, false),
        0x4D => make(op, InstructionKind::EOR, AddressingMode::Absolute, 4, false),
        0x4E => make(op, InstructionKind::LSR, AddressingMode::Absolute, 6, false),
        0x50 => make(op, InstructionKind::BVC, AddressingMode::Relative, 2, false),
        0x51 => make(op, InstructionKind::EOR, AddressingMode::IndirectY, 5, true),
        0x55 => make(op, InstructionKind::EOR, AddressingMode::ZeroPageX, 4, false),
        0x56 => make(op, InstructionKind::LSR, AddressingMode::ZeroPageX, 6, false),
        0x58 => make(op, InstructionKind::CLI, AddressingMode::Implied, 2, false),
        0x59 => make(op, InstructionKind::EOR, AddressingMode::AbsoluteY, 4, true),
        0x5D => make(op, InstructionKind::EOR, AddressingMode::AbsoluteX, 4, true),
        0x5E => make(op, InstructionKind::LSR, AddressingMode::AbsoluteX, 7, false),
        0x60 => make(op, InstructionKind::RTS, AddressingMode::Implied, 6, false),
        0x61 => make(op, InstructionKind::ADC, AddressingMode::IndirectX, 6, false),
        0x65 => make(op, InstructionKind::ADC, AddressingMode::ZeroPage, 3, false),
        0x66 => make(op, InstructionKind::ROR, AddressingMode::ZeroPage, 5, false),
        0x68 => make(op, InstructionKind::PLA, AddressingMode::Implied, 4, false),
        0x69 => make(op, InstructionKind::ADC, AddressingMode::Immediate, 2, false),
        0x6A => make(op, InstructionKind::ROR, AddressingMode::Accumulator, 2, false),
        0x6C => make(op, InstructionKind::JMP, AddressingMode::Indirect, 5, false),
        0x6D => make(op, InstructionKind::ADC, AddressingMode::Absolute, 4, false),
        0x6E => make(op, InstructionKind::ROR, AddressingMode::Absolute, 6, false),
        0x70 => make(op, InstructionKind::BVS, AddressingMode::Relative, 2, false),
        0x71 => make(op, InstructionKind::ADC, AddressingMode::IndirectY, 5, true),
        0x75 => make(op, InstructionKind::ADC, AddressingMode::ZeroPageX, 4, false),
        0x76 => make(op, InstructionKind::ROR, AddressingMode::ZeroPageX, 6, false),
        0x78 => make(op, InstructionKind::SEI, AddressingMode::Implied, 2, false),
        0x79 => make(op, InstructionKind::ADC, AddressingMode::AbsoluteY, 4, true),
        0x7D => make(op, InstructionKind::ADC, AddressingMode::AbsoluteX, 4, true),
        0x7E => make(op, InstructionKind::ROR, AddressingMode::AbsoluteX, 7, false),
        0x81 => make(op, InstructionKind::STA, AddressingMode::IndirectX, 6, false),
        0x84 => make(op, InstructionKind::STY, AddressingMode::ZeroPage, 3, false),
        0x85 => make(op, InstructionKind::STA, AddressingMode::ZeroPage, 3, false),
        0x86 => make(op, InstructionKind::STX, AddressingMode::ZeroPage, 3, false),
        0x88 => make(op, InstructionKind::DEY, AddressingMode::Implied, 2, false),
        0x8A => make(op, InstructionKind::TXA, AddressingMode::Implied, 2, false),
        0x8C => make(op, InstructionKind::STY, AddressingMode::Absolute, 4, false),
        0x8D => make(op, InstructionKind::STA, AddressingMode::Absolute, 4, false),
        0x8E => make(op, InstructionKind::STX, AddressingMode::Absolute, 4, false),
        0x90 => make(op, InstructionKind::BCC, AddressingMode::Relative, 2, false),
        0x91 => make(op, InstructionKind::STA, AddressingMode::IndirectY, 6, false),
        0x94 => make(op, InstructionKind::STY, AddressingMode::ZeroPageX, 4, false),
        0x95 => make(op, InstructionKind::STA, AddressingMode::ZeroPageX, 4, false),
        0x96 => make(op, InstructionKind::STX, AddressingMode::ZeroPageY, 4, false),
        0x98 => make(op, InstructionKind::TYA, AddressingMode::Implied, 2, false),
        0x99 => make(op, InstructionKind::STA, AddressingMode::AbsoluteY, 5, false),
        0x9A => make(op, InstructionKind::TXS, AddressingMode::Implied, 2, false),
        0x9D => make(op, InstructionKind::STA, AddressingMode::AbsoluteX, 5, false),
        0xA0 => make(op, InstructionKind::LDY, AddressingMode::Immediate, 2, false),
        0xA1 => make(op, InstructionKind::LDA, AddressingMode::IndirectX, 6, false),
        0xA2 => make(op, InstructionKind::LDX, AddressingMode::Immediate, 2, false),
        0xA4 => make(op, InstructionKind::LDY, AddressingMode::ZeroPage, 3, false),
        0xA5 => make(op, InstructionKind::LDA, AddressingMode::ZeroPage, 3, false),
        0xA6 => make(op, InstructionKind::LDX, AddressingMode::ZeroPage, 3, false),
        0xA8 => make(op, InstructionKind::TAY, AddressingMode::Implied, 2, false),
        0xA9 => make(op, InstructionKind::LDA, AddressingMode::Immediate, 2, false),
        0xAA => make(op, InstructionKind::TAX, AddressingMode::Implied, 2, false),
        0xAC => make(op, InstructionKind::LDY, AddressingMode::Absolute, 4, false),
        0xAD => make(op, InstructionKind::LDA, AddressingMode::Absolute, 4, false),
        0xAE => make(op, InstructionKind::LDX, AddressingMode::Absolute, 4, false),
        0xB0 => make(op, InstructionKind::BCS, AddressingMode::Relative, 2, false),
        0xB1 => make(op, InstructionKind::LDA, AddressingMode::IndirectY, 5, true),
        0xB4 => make(op, InstructionKind::LDY, AddressingMode::ZeroPageX, 4, false),
        0xB5 => make(op, InstructionKind::LDA, AddressingMode::ZeroPageX, 4, false),
        0xB6 => make(op, InstructionKind::LDX, AddressingMode::ZeroPageY, 4, false),
        0xB8 => make(op, InstructionKind::CLV, AddressingMode::Implied, 2, false),
        0xB9 => make(op, InstructionKind::LDA, AddressingMode::AbsoluteY, 4, true),
        0xBA => make(op, InstructionKind::TSX, AddressingMode::Implied, 2, false),
        0xBC => make(op, InstructionKind::LDY, AddressingMode::AbsoluteX, 4, true),
        0xBD => make(op, InstructionKind::LDA, AddressingMode::AbsoluteX, 4, true),
        0xBE => make(op, InstructionKind::LDX, AddressingMode::AbsoluteY, 4, true),
        0xC0 => make(op, InstructionKind::CPY, AddressingMode::Immediate, 2, false),
        0xC1 => make(op, InstructionKind::CMP, AddressingMode::IndirectX, 6, false),
        0xC4 => make(op, InstructionKind::CPY, AddressingMode::ZeroPage, 3, false),
        0xC5 => make(op, InstructionKind::CMP, AddressingMode::ZeroPage, 3, false),
        0xC6 => make(op, InstructionKind::DEC, AddressingMode::ZeroPage, 5, false),
        0xC8 => make(op, InstructionKind::INY, AddressingMode::Implied, 2, false),
        0xC9 => make(op, InstructionKind::CMP, AddressingMode::Immediate, 2, false),
        0xCA => make(op, InstructionKind::DEX, AddressingMode::Implied, 2, false),
        0xCC => make(op, InstructionKind::CPY, AddressingMode::Absolute, 4, false),
        0xCD => make(op, InstructionKind::CMP, AddressingMode::Absolute, 4, false),
        0xCE => make(op, InstructionKind::DEC, AddressingMode::Absolute, 6, false),
        0xD0 => make(op, InstructionKind::BNE, AddressingMode::Relative, 2, false),
        0xD1 => make(op, InstructionKind::CMP, AddressingMode::IndirectY, 5, true),
        0xD5 => make(op, InstructionKind::CMP, AddressingMode::ZeroPageX, 4, false),
        0xD6 => make(op, InstructionKind::DEC, AddressingMode::ZeroPageX, 6, false),
        0xD8 => make(op, InstructionKind::CLD, AddressingMode::Implied, 2, false),
        0xD9 => make(op, InstructionKind::CMP, AddressingMode::AbsoluteY, 4, true),
        0xDD => make(op, InstructionKind::CMP, AddressingMode::AbsoluteX, 4, true),
        0xDE => make(op, InstructionKind::DEC, AddressingMode::AbsoluteX, 7, false),
        0xE0 => make(op, InstructionKind::CPX, AddressingMode::Immediate, 2, false),
        0xE1 => make(op, InstructionKind::SBC, AddressingMode::IndirectX, 6, false),
        0xE4 => make(op, InstructionKind::CPX, AddressingMode::ZeroPage, 3, false),
        0xE5 => make(op, InstructionKind::SBC, AddressingMode::ZeroPage, 3, false),
        0xE6 => make(op, InstructionKind::INC, AddressingMode::ZeroPage, 5, false),
        0xE8 => make(op, InstructionKind::INX, AddressingMode::Implied, 2, false),
        0xE9 => make(op, InstructionKind::SBC, AddressingMode::Immediate, 2, false),
        0xEA => make(op, InstructionKind::NOP, AddressingMode::Implied, 2, false),
        0xEC => make(op, InstructionKind::CPX, AddressingMode::Absolute, 4, false),
        0xED => make(op, InstructionKind::SBC, AddressingMode::Absolute, 4, false),
        0xEE => make(op, InstructionKind::INC, AddressingMode::Absolute, 6, false),
        0xF0 => make(op, InstructionKind::BEQ, AddressingMode::Relative, 2, false),
        0xF1 => make(op, InstructionKind::SBC, AddressingMode::IndirectY, 5, true),
        0xF5 => make(op, InstructionKind::SBC, AddressingMode::ZeroPageX, 4, false),
        0xF6 => make(op, InstructionKind::INC, AddressingMode::ZeroPageX, 6, false),
        0xF8 => make(op, InstructionKind::SED, AddressingMode::Implied, 2, false),
        0xF9 => make(op, InstructionKind::SBC, AddressingMode::AbsoluteY, 4, true),
        0xFD => make(op, InstructionKind::SBC, AddressingMode::AbsoluteX, 4, true),
        0xFE => make(op, InstructionKind::INC, AddressingMode::AbsoluteX, 7, false),
        _ => make(op, InstructionKind::Illegal, AddressingMode::Implied, 2, false),
    }
}

/// Builds the table of all 256 opcodes, indexed by opcode byte.
pub fn build_op_table() -> (r: Vec<Instruction>)
    ensures
        r@.len() == 256,
        forall|i: int| 0 <= i < 256 ==> #[trigger] r@[i] == decode_spec(i as u8),
{
    let mut table: Vec<Instruction> = Vec::with_capacity(256);
    let mut i: u16 = 0;
    while i < 256
        invariant
            i <= 256,
            table@.len() == i,
            forall|j: int| 0 <= j < i ==> #[trigger] table@[j] == decode_spec(j as u8),
        decreases 256 - i,
    {
        table.push(decode(i as u8));
        i = i + 1;
    }
    table
}

} // verus!

verus! {

/// The table holds one entry per byte value: each entry describes its own opcode, and every
/// instruction is one to three bytes long.
pub proof fn lemma_table_entries(op: u8)
    ensures
        decode_spec(op).opcode == op,
        1 <= decode_spec(op).bytes <= 3,
        decode_spec(op).bytes == 1 + operand_len(decode_spec(op).mode),
{
    reveal(decode_spec);
}

/// Every byte without an official instruction is a one-byte, two-cycle entry with no operand.
pub proof fn lemma_illegal_entry(op: u8)
    requires
        decode_spec(op).kind == InstructionKind::Illegal,
    ensures
        decode_spec(op) == entry(op, InstructionKind::Illegal, AddressingMode::Implied, 2, false),
{
    reveal(decode_spec);
}

} // verus!
