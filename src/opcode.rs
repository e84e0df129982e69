//! The 6502 opcode table: mnemonic, addressing mode, base cycles and the
//! extra cycle charged when an indexed address crosses a page.
use vstd::prelude::*;

verus! {

#[derive(Clone, Copy, Debug, PartialEq, Eq, Structural)]
pub enum Instruction {
    ADC, AND, ASL, BCC, BCS, BEQ, BIT, BMI, BNE, BPL, BRK, BVC, BVS, CLC,
    CLD, CLI, CLV, CMP, CPX, CPY, DEC, DEX, DEY, EOR, INC, INX, INY, JMP,
    JSR, LDA, LDX, LDY, LSR, NOP, ORA, PHA, PHP, PLA, PLP, ROL, ROR, RTI,
    RTS, SBC, SEC, SED, SEI, STA, STX, STY, TAX, TAY, TSX, TXA, TXS, TYA,
    ANC, LAX, SAX, DCP, ISB, SLO, RLA, SRE, RRA, JAM,
}

#[derive(Clone, Copy, Debug, PartialEq, Eq, Structural)]
pub enum AddressingMode {
    Immediate,
    Absolute,
    Implied,
    Accumulator,
    AbsoluteX,
    AbsoluteY,
    ZeroPageIndexed,
    ZeroPageX,
    ZeroPageY,
    Indirect,
    IndexedIndirect,
    IndirectIndexed,
    Relative,
}

/// Length in bytes of an instruction in a given mode.
pub open spec fn mode_bytes(m: AddressingMode) -> u16 {
    match m {
        AddressingMode::Implied | AddressingMode::Accumulator => 1,
        AddressingMode::Absolute | AddressingMode::AbsoluteX | AddressingMode::AbsoluteY
        | AddressingMode::Indirect => 3,
        _ => 2,
    }
}

impl AddressingMode {
    pub fn n_bytes(&self) -> (r: usize)
        ensures
            r == mode_bytes(*self),
    {
        match *self {
            AddressingMode::Implied | AddressingMode::Accumulator => 1,
            AddressingMode::Absolute | AddressingMode::AbsoluteX | AddressingMode::AbsoluteY
            | AddressingMode::Indirect => 3,
            _ => 2,
        }
    }
}

/// One decoded opcode: instruction, mode, base cycles, page-cross cycles.
#[derive(Clone, Copy, Debug, PartialEq, Eq, Structural)]
pub struct Opcode(pub Instruction, pub AddressingMode, pub u8, pub u8);

/// The opcode table: what each of the 256 opcode bytes decodes to.
#[verifier::opaque]
pub open spec fn opcode_table(op: u8) -> Opcode {
    match op {
        0x00 => Opcode(Instruction::BRK, AddressingMode::Implied, 7, 0),
        0x01 => Opcode(Instruction::ORA, AddressingMode::IndexedIndirect, 6, 0),
        0x02 => Opcode(Instruction::JAM, AddressingMode::Implied, 2, 0),
        0x03 => Opcode(Instruction::SLO, AddressingMode::IndexedIndirect, 8, 0),
        0x04 => Opcode(Instruction::NOP, AddressingMode::ZeroPageIndexed, 3, 0),
        0x05 => Opcode(Instruction::ORA, AddressingMode::ZeroPageIndexed, 3, 0),
        0x06 => Opcode(Instruction::ASL, AddressingMode::ZeroPageIndexed, 5, 0),
        0x07 => Opcode(Instruction::SLO, AddressingMode::ZeroPageIndexed, 5, 0),
        0x08 => Opcode(Instruction::PHP, AddressingMode::Implied, 3, 0),
        0x09 => Opcode(Instruction::ORA, AddressingMode::Immediate, 2, 0),
        0x0A => Opcode(Instruction::ASL, AddressingMode::Accumulator, 2, 0),
        0x0B => Opcode(Instruction::ANC, AddressingMode::Immediate, 2, 0),
        0x0C => Opcode(Instruction::NOP, AddressingMode::Absolute, 4, 0),
        0x0D => Opcode(Instruction::ORA, AddressingMode::Absolute, 4, 0),
        0x0E => Opcode(Instruction::ASL, AddressingMode::Absolute, 6, 0),
        0x0F => Opcode(Instruction::SLO, AddressingMode::Absolute, 6, 0),
        0x10 => Opcode(Instruction::BPL, AddressingMode::Relative, 2, 1),
        0x11 => Opcode(Instruction::ORA, AddressingMode::IndirectIndexed, 5, 1),
        0x12 => Opcode(Instruction::JAM, AddressingMode::Implied, 2, 0),
        0x13 => Opcode(Instruction::SLO, AddressingMode::IndirectIndexed, 8, 0),
        0x14 => Opcode(Instruction::NOP, AddressingMode::ZeroPageX, 4, 0),
        0x15 => Opcode(Instruction::ORA, AddressingMode::ZeroPageX, 4, 0),
        0x16 => Opcode(Instruction::ASL, AddressingMode::ZeroPageX, 6, 0),
        0x17 => Opcode(Instruction::SLO, AddressingMode::ZeroPageX, 6, 0),
        0x18 => Opcode(Instruction::CLC, AddressingMode::Implied, 2, 0),
        0x19 => Opcode(Instruction::ORA, AddressingMode::AbsoluteY, 4, 1),
        0x1A => Opcode(Instruction::NOP, AddressingMode::Implied, 2, 0),
        0x1B => Opcode(Instruction::SLO, AddressingMode::AbsoluteY, 7, 0),
        0x1C => Opcode(Instruction::NOP, AddressingMode::AbsoluteX, 4, 1),
        0x1D => Opcode(Instruction::ORA, AddressingMode::AbsoluteX, 4, 1),
        0x1E => Opcode(Instruction::ASL, AddressingMode::AbsoluteX, 7, 0),
        0x1F => Opcode(Instruction::SLO, AddressingMode::AbsoluteX, 7, 0),
        0x20 => Opcode(Instruction::JSR, AddressingMode::Absolute, 6, 0),
        0x21 => Opcode(Instruction::AND, AddressingMode::IndexedIndirect, 6, 0),
        0x22 => Opcode(Instruction::JAM, AddressingMode::Implied, 2, 0),
        0x23 => Opcode(Instruction::RLA, AddressingMode::IndexedIndirect, 8, 0),
        0x24 => Opcode(Instruction::BIT, AddressingMode::ZeroPageIndexed, 3, 0),
        0x25 => Opcode(Instruction::AND, AddressingMode::ZeroPageIndexed, 3, 0),
        0x26 => Opcode(Instruction::ROL, AddressingMode::ZeroPageIndexed, 5, 0),
        0x27 => Opcode(Instruction::RLA, AddressingMode::ZeroPageIndexed, 5, 0),
        0x28 => Opcode(Instruction::PLP, AddressingMode::Implied, 4, 0),
        0x29 => Opcode(Instruction::AND, AddressingMode::Immediate, 2, 0),
        0x2A => Opcode(Instruction::ROL, AddressingMode::Accumulator, 2, 0),
        0x2B => Opcode(Instruction::ANC, AddressingMode::Immediate, 2, 0),
        0x2C => Opcode(Instruction::BIT, AddressingMode::Absolute, 4, 0),
        0x2D => Opcode(Instruction::AND, AddressingMode::Absolute, 4, 0),
        0x2E => Opcode(Instruction::ROL, AddressingMode::Absolute, 6, 0),
        0x2F => Opcode(Instruction::RLA, AddressingMode::Absolute, 6, 0),
        0x30 => Opcode(Instruction::BMI, AddressingMode::Relative, 2, 1),
        0x31 => Opcode(Instruction::AND, AddressingMode::IndirectIndexed, 5, 1),
        0x32 => Opcode(Instruction::JAM, AddressingMode::Implied, 2, 0),
        0x33 => Opcode(Instruction::RLA, AddressingMode::IndirectIndexed, 8, 0),
        0x34 => Opcode(Instruction::NOP, AddressingMode::ZeroPageX, 4, 0),
        0x35 => Opcode(Instruction::AND, AddressingMode::ZeroPageX, 4, 0),
        0x36 => Opcode(Instruction::ROL, AddressingMode::ZeroPageX, 6, 0),
        0x37 => Opcode(Instruction::RLA, AddressingMode::ZeroPageX, 6, 0),
        0x38 => Opcode(Instruction::SEC, AddressingMode::Implied, 2, 0),
        0x39 => Opcode(Instruction::AND, AddressingMode::AbsoluteY, 4, 1),
        0x3A => Opcode(Instruction::NOP, AddressingMode::Implied, 2, 0),
        0x3B => Opcode(Instruction::RLA, AddressingMode::AbsoluteY, 7, 0),
        0x3C => Opcode(Instruction::NOP, AddressingMode::AbsoluteX, 4, 1),
        0x3D => Opcode(Instruction::AND, AddressingMode::AbsoluteX, 4, 1),
        0x3E => Opcode(Instruction::ROL, AddressingMode::AbsoluteX, 7, 0),
        0x3F => Opcode(Instruction::RLA, AddressingMode::AbsoluteX, 7, 0),
        0x40 => Opcode(Instruction::RTI, AddressingMode::Implied, 6, 0),
        0x41 => Opcode(Instruction::EOR, AddressingMode::IndexedIndirect, 6, 0),
        0x42 => Opcode(Instruction::JAM, AddressingMode::Implied, 2, 0),
        0x43 => Opcode(Instruction::SRE, AddressingMode::IndexedIndirect, 8, 0),
        0x44 => Opcode(Instruction::NOP, AddressingMode::ZeroPageIndexed, 3, 0),
        0x45 => Opcode(Instruction::EOR, AddressingMode::ZeroPageIndexed, 3, 0),
        0x46 => Opcode(Instruction::LSR, AddressingMode::ZeroPageIndexed, 5, 0),
        0x47 => Opcode(Instruction::SRE, AddressingMode::ZeroPageIndexed, 5, 0),
        0x48 => Opcode(Instruction::PHA, AddressingMode::Implied, 3, 0),
        0x49 => Opcode(Instruction::EOR, AddressingMode::Immediate, 2, 0),
        0x4A => Opcode(Instruction::LSR, AddressingMode::Accumulator, 2, 0),
        0x4B => Opcode(Instruction::NOP, AddressingMode::Immediate, 2, 0),
        0x4C => Opcode(Instruction::JMP, AddressingMode::Absolute, 3, 0),
        0x4D => Opcode(Instruction::EOR, AddressingMode::Absolute, 4, 0),
        0x4E => Opcode(Instruction::LSR, AddressingMode::Absolute, 6, 0),
        0x4F => Opcode(Instruction::SRE, AddressingMode::Absolute, 6, 0),
        0x50 => Opcode(Instruction::BVC, AddressingMode::Relative, 2, 1),
        0x51 => Opcode(Instruction::EOR, AddressingMode::IndirectIndexed, 5, 1),
        0x52 => Opcode(Instruction::JAM, AddressingMode::Implied, 2, 0),
        0x53 => Opcode(Instruction::SRE, AddressingMode::IndirectIndexed, 8, 0),
        0x54 => Opcode(Instruction::NOP, AddressingMode::ZeroPageX, 4, 0),
        0x55 => Opcode(Instruction::EOR, AddressingMode::ZeroPageX, 4, 0),
        0x56 => Opcode(Instruction::LSR, AddressingMode::ZeroPageX, 6, 0),
        0x57 => Opcode(Instruction::SRE, AddressingMode::ZeroPageX, 6, 0),
        0x58 => Opcode(Instruction::CLI, AddressingMode::Implied, 2, 0),
        0x59 => Opcode(Instruction::EOR, AddressingMode::AbsoluteY, 4, 1),
        0x5A => Opcode(Instruction::NOP, AddressingMode::Implied, 2, 0),
        0x5B => Opcode(Instruction::SRE, AddressingMode::AbsoluteY, 7, 0),
        0x5C => Opcode(Instruction::NOP, AddressingMode::AbsoluteX, 4, 1),
        0x5D => Opcode(Instruction::EOR, AddressingMode::AbsoluteX, 4, 1),
        0x5E => Opcode(Instruction::LSR, AddressingMode::AbsoluteX, 7, 0),
        0x5F => Opcode(Instruction::SRE, AddressingMode::AbsoluteX, 7, 0),
        0x60 => Opcode(Instruction::RTS, AddressingMode::Implied, 6, 0),
        0x61 => Opcode(Instruction::ADC, AddressingMode::IndexedIndirect, 6, 0),
        0x62 => Opcode(Instruction::JAM, AddressingMode::Implied, 2, 0),
        0x63 => Opcode(Instruction::RRA, AddressingMode::IndexedIndirect, 8, 0),
        0x64 => Opcode(Instruction::NOP, AddressingMode::ZeroPageIndexed, 3, 0),
        0x65 => Opcode(Instruction::ADC, AddressingMode::ZeroPageIndexed, 3, 0),
        0x66 => Opcode(Instruction::ROR, AddressingMode::ZeroPageIndexed, 5, 0),
        0x67 => Opcode(Instruction::RRA, AddressingMode::ZeroPageIndexed, 5, 0),
        0x68 => Opcode(Instruction::PLA, AddressingMode::Implied, 4, 0),
        0x69 => Opcode(Instruction::ADC, AddressingMode::Immediate, 2, 0),
        0x6A => Opcode(Instruction::ROR, AddressingMode::Accumulator, 2, 0),
        0x6B => Opcode(Instruction::NOP, AddressingMode::Immediate, 2, 0),
        0x6C => Opcode(Instruction::JMP, AddressingMode::Indirect, 5, 0),
        0x6D => Opcode(Instruction::ADC, AddressingMode::Absolute, 4, 0),
        0x6E => Opcode(Instruction::ROR, AddressingMode::Absolute, 6, 0),
        0x6F => Opcode(Instruction::RRA, AddressingMode::Absolute, 6, 0),
        0x70 => Opcode(Instruction::BVS, AddressingMode::Relative, 2, 1),
        0x71 => Opcode(Instruction::ADC, AddressingMode::IndirectIndexed, 5, 1),
        0x72 => Opcode(Instruction::JAM, AddressingMode::Implied, 2, 0),
        0x73 => Opcode(Instruction::RRA, AddressingMode::IndirectIndexed, 8, 0),
        0x74 => Opcode(Instruction::NOP, AddressingMode::ZeroPageX, 4, 0),
        0x75 => Opcode(Instruction::ADC, AddressingMode::ZeroPageX, 4, 0),
        0x76 => Opcode(Instruction::ROR, AddressingMode::ZeroPageX, 6, 0),
        0x77 => Opcode(Instruction::RRA, AddressingMode::ZeroPageX, 6, 0),
        0x78 => Opcode(Instruction::SEI, AddressingMode::Implied, 2, 0),
        0x79 => Opcode(Instruction::ADC, AddressingMode::AbsoluteY, 4, 1),
        0x7A => Opcode(Instruction::NOP, AddressingMode::Implied, 2, 0),
        0x7B => Opcode(Instruction::RRA, AddressingMode::AbsoluteY, 7, 0),
        0x7C => Opcode(Instruction::NOP, AddressingMode::AbsoluteX, 4, 1),
        0x7D => Opcode(Instruction::ADC, AddressingMode::AbsoluteX, 4, 1),
        0x7E => Opcode(Instruction::ROR, AddressingMode::AbsoluteX, 7, 0),
        0x7F => Opcode(Instruction::RRA, AddressingMode::AbsoluteX, 7, 0),
        0x80 => Opcode(Instruction::NOP, AddressingMode::Immediate, 2, 0),
        0x81 => Opcode(Instruction::STA, AddressingMode::IndexedIndirect, 6, 0),
        0x82 => Opcode(Instruction::NOP, AddressingMode::Immediate, 2, 0),
        0x83 => Opcode(Instruction::SAX, AddressingMode::IndexedIndirect, 6, 0),
        0x84 => Opcode(Instruction::STY, AddressingMode::ZeroPageIndexed, 3, 0),
        0x85 => Opcode(Instruction::STA, AddressingMode::ZeroPageIndexed, 3, 0),
        0x86 => Opcode(Instruction::STX, AddressingMode::ZeroPageIndexed, 3, 0),
        0x87 => Opcode(Instruction::SAX, AddressingMode::ZeroPageIndexed, 3, 0),
        0x88 => Opcode(Instruction::DEY, AddressingMode::Implied, 2, 0),
        0x89 => Opcode(Instruction::NOP, AddressingMode::Immediate, 2, 0),
        0x8A => Opcode(Instruction::TXA, AddressingMode::Implied, 2, 0),
        0x8B => Opcode(Instruction::NOP, AddressingMode::Immediate, 2, 0),
        0x8C => Opcode(Instruction::STY, AddressingMode::Absolute, 4, 0),
        0x8D => Opcode(Instruction::STA, AddressingMode::Absolute, 4, 0),
        0x8E => Opcode(Instruction::STX, AddressingMode::Absolute, 4, 0),
        0x8F => Opcode(Instruction::SAX, AddressingMode::Absolute, 4, 0),
        0x90 => Opcode(Instruction::BCC, AddressingMode::Relative, 2, 1),
        0x91 => Opcode(Instruction::STA, AddressingMode::IndirectIndexed, 6, 0),
        0x92 => Opcode(Instruction::JAM, AddressingMode::Implied, 2, 0),
        0x93 => Opcode(Instruction::NOP, AddressingMode::IndirectIndexed, 6, 0),
        0x94 => Opcode(Instruction::STY, AddressingMode::ZeroPageX, 4, 0),
        0x95 => Opcode(Instruction::STA, AddressingMode::ZeroPageX, 4, 0),
        0x96 => Opcode(Instruction::STX, AddressingMode::ZeroPageY, 4, 0),
        0x97 => Opcode(Instruction::SAX, AddressingMode::ZeroPageY, 4, 0),
        0x98 => Opcode(Instruction::TYA, AddressingMode::Implied, 2, 0),
        0x99 => Opcode(Instruction::STA, AddressingMode::AbsoluteY, 5, 0),
        0x9A => Opcode(Instruction::TXS, AddressingMode::Implied, 2, 0),
        0x9B => Opcode(Instruction::NOP, AddressingMode::AbsoluteY, 5, 0),
        0x9C => Opcode(Instruction::NOP, AddressingMode::AbsoluteX, 5, 0),
        0x9D => Opcode(Instruction::STA, AddressingMode::AbsoluteX, 5, 0),
        0x9E => Opcode(Instruction::NOP, AddressingMode::AbsoluteY, 5, 0),
        0x9F => Opcode(Instruction::NOP, AddressingMode::AbsoluteY, 5, 0),
        0xA0 => Opcode(Instruction::LDY, AddressingMode::Immediate, 2, 0),
        0xA1 => Opcode(Instruction::LDA, AddressingMode::IndexedIndirect, 6, 0),
        0xA2 => Opcode(Instruction::LDX, AddressingMode::Immediate, 2, 0),
        0xA3 => Opcode(Instruction::LAX, AddressingMode::IndexedIndirect, 6, 0),
        0xA4 => Opcode(Instruction::LDY, AddressingMode::ZeroPageIndexed, 3, 0),
        0xA5 => Opcode(Instruction::LDA, AddressingMode::ZeroPageIndexed, 3, 0),
        0xA6 => Opcode(Instruction::LDX, AddressingMode::ZeroPageIndexed, 3, 0),
        0xA7 => Opcode(Instruction::LAX, AddressingMode::ZeroPageIndexed, 3, 0),
        0xA8 => Opcode(Instruction::TAY, AddressingMode::Implied, 2, 0),
        0xA9 => Opcode(Instruction::LDA, AddressingMode::Immediate, 2, 0),
        0xAA => Opcode(Instruction::TAX, AddressingMode::Implied, 2, 0),
        0xAB => Opcode(Instruction::LAX, AddressingMode::Immediate, 2, 0),
        0xAC => Opcode(Instruction::LDY, AddressingMode::Absolute, 4, 0),
        0xAD => Opcode(Instruction::LDA, AddressingMode::Absolute, 4, 0),
        0xAE => Opcode(Instruction::LDX, AddressingMode::Absolute, 4, 0),
        0xAF => Opcode(Instruction::LAX, AddressingMode::Absolute, 4, 0),
        0xB0 => Opcode(Instruction::BCS, AddressingMode::Relative, 2, 1),
        0xB1 => Opcode(Instruction::LDA, AddressingMode::IndirectIndexed, 5, 1),
        0xB2 => Opcode(Instruction::JAM, AddressingMode::Implied, 2, 0),
        0xB3 => Opcode(Instruction::LAX, AddressingMode::IndirectIndexed, 5, 1),
        0xB4 => Opcode(Instruction::LDY, AddressingMode::ZeroPageX, 4, 0),
        0xB5 => Opcode(Instruction::LDA, AddressingMode::ZeroPageX, 4, 0),
        0xB6 => Opcode(Instruction::LDX, AddressingMode::ZeroPageY, 4, 0),
        0xB7 => Opcode(Instruction::LAX, AddressingMode::ZeroPageY, 4, 0),
        0xB8 => Opcode(Instruction::CLV, AddressingMode::Implied, 2, 0),
        0xB9 => Opcode(Instruction::LDA, AddressingMode::AbsoluteY, 4, 1),
        0xBA => Opcode(Instruction::TSX, AddressingMode::Implied, 2, 0),
        0xBB => Opcode(Instruction::NOP, AddressingMode::AbsoluteY, 4, 1),
        0xBC => Opcode(Instruction::LDY, AddressingMode::AbsoluteX, 4, 1),
        0xBD => Opcode(Instruction::LDA, AddressingMode::AbsoluteX, 4, 1),
        0xBE => Opcode(Instruction::LDX, AddressingMode::AbsoluteY, 4, 1),
        0xBF => Opcode(Instruction::LAX, AddressingMode::AbsoluteY, 4, 1),
        0xC0 => Opcode(Instruction::CPY, AddressingMode::Immediate, 2, 0),
        0xC1 => Opcode(Instruction::CMP, AddressingMode::IndexedIndirect, 6, 0),
        0xC2 => Opcode(Instruction::NOP, AddressingMode::Immediate, 2, 0),
        0xC3 => Opcode(Instruction::DCP, AddressingMode::IndexedIndirect, 8, 0),
        0xC4 => Opcode(Instruction::CPY, AddressingMode::ZeroPageIndexed, 3, 0),
        0xC5 => Opcode(Instruction::CMP, AddressingMode::ZeroPageIndexed, 3, 0),
        0xC6 => Opcode(Instruction::DEC, AddressingMode::ZeroPageIndexed, 5, 0),
        0xC7 => Opcode(Instruction::DCP, AddressingMode::ZeroPageIndexed, 5, 0),
        0xC8 => Opcode(Instruction::INY, AddressingMode::Implied, 2, 0),
        0xC9 => Opcode(Instruction::CMP, AddressingMode::Immediate, 2, 0),
        0xCA => Opcode(Instruction::DEX, AddressingMode::Implied, 2, 0),
        0xCB => Opcode(Instruction::NOP, AddressingMode::Immediate, 2, 0),
        0xCC => Opcode(Instruction::CPY, AddressingMode::Absolute, 4, 0),
        0xCD => Opcode(Instruction::CMP, AddressingMode::Absolute, 4, 0),
        0xCE => Opcode(Instruction::DEC, AddressingMode::Absolute, 6, 0),
        0xCF => Opcode(Instruction::DCP, AddressingMode::Absolute, 6, 0),
        0xD0 => Opcode(Instruction::BNE, AddressingMode::Relative, 2, 1),
        0xD1 => Opcode(Instruction::CMP, AddressingMode::IndirectIndexed, 5, 1),
        0xD2 => Opcode(Instruction::JAM, AddressingMode::Implied, 2, 0),
        0xD3 => Opcode(Instruction::DCP, AddressingMode::IndirectIndexed, 8, 0),
        0xD4 => Opcode(Instruction::NOP, AddressingMode::ZeroPageX, 4, 0),
        0xD5 => Opcode(Instruction::CMP, AddressingMode::ZeroPageX, 4, 0),
        0xD6 => Opcode(Instruction::DEC, AddressingMode::ZeroPageX, 6, 0),
        0xD7 => Opcode(Instruction::DCP, AddressingMode::ZeroPageX, 6, 0),
        0xD8 => Opcode(Instruction::CLD, AddressingMode::Implied, 2, 0),
        0xD9 => Opcode(Instruction::CMP, AddressingMode::AbsoluteY, 4, 1),
        0xDA => Opcode(Instruction::NOP, AddressingMode::Implied, 2, 0),
        0xDB => Opcode(Instruction::DCP, AddressingMode::AbsoluteY, 7, 0),
        0xDC => Opcode(Instruction::NOP, AddressingMode::AbsoluteX, 4, 1),
        0xDD => Opcode(Instruction::CMP, AddressingMode::AbsoluteX, 4, 1),
        0xDE => Opcode(Instruction::DEC, AddressingMode::AbsoluteX, 7, 0),
        0xDF => Opcode(Instruction::DCP, AddressingMode::AbsoluteX, 7, 0),
        0xE0 => Opcode(Instruction::CPX, AddressingMode::Immediate, 2, 0),
        0xE1 => Opcode(Instruction::SBC, AddressingMode::IndexedIndirect, 6, 0),
        0xE2 => Opcode(Instruction::NOP, AddressingMode::Immediate, 2, 0),
        0xE3 => Opcode(Instruction::ISB, AddressingMode::IndexedIndirect, 8, 0),
        0xE4 => Opcode(Instruction::CPX, AddressingMode::ZeroPageIndexed, 3, 0),
        0xE5 => Opcode(Instruction::SBC, AddressingMode::ZeroPageIndexed, 3, 0),
        0xE6 => Opcode(Instruction::INC, AddressingMode::ZeroPageIndexed, 5, 0),
        0xE7 => Opcode(Instruction::ISB, AddressingMode::ZeroPageIndexed, 5, 0),
        0xE8 => Opcode(Instruction::INX, AddressingMode::Implied, 2, 0),
        0xE9 => Opcode(Instruction::SBC, AddressingMode::Immediate, 2, 0),
        0xEA => Opcode(Instruction::NOP, AddressingMode::Implied, 2, 0),
        0xEB => Opcode(Instruction::SBC, AddressingMode::Immediate, 2, 0),
        0xEC => Opcode(Instruction::CPX, AddressingMode::Absolute, 4, 0),
        0xED => Opcode(Instruction::SBC, AddressingMode::Absolute, 4, 0),
        0xEE => Opcode(Instruction::INC, AddressingMode::Absolute, 6, 0),
        0xEF => Opcode(Instruction::ISB, AddressingMode::Absolute, 6, 0),
        0xF0 => Opcode(Instruction::BEQ, AddressingMode::Relative, 2, 1),
        0xF1 => Opcode(Instruction::SBC, AddressingMode::IndirectIndexed, 5, 1),
        0xF2 => Opcode(Instruction::JAM, AddressingMode::Implied, 2, 0),
        0xF3 => Opcode(Instruction::ISB, AddressingMode::IndirectIndexed, 8, 0),
        0xF4 => Opcode(Instruction::NOP, AddressingMode::ZeroPageX, 4, 0),
        0xF5 => Opcode(Instruction::SBC, AddressingMode::ZeroPageX, 4, 0),
        0xF6 => Opcode(Instruction::INC, AddressingMode::ZeroPageX, 6, 0),
        0xF7 => Opcode(Instruction::ISB, AddressingMode::ZeroPageX, 6, 0),
        0xF8 => Opcode(Instruction::SED, AddressingMode::Implied, 2, 0),
        0xF9 => Opcode(Instruction::SBC, AddressingMode::AbsoluteY, 4, 1),
        0xFA => Opcode(Instruction::NOP, AddressingMode::Implied, 2, 0),
        0xFB => Opcode(Instruction::ISB, AddressingMode::AbsoluteY, 7, 0),
        0xFC => Opcode(Instruction::NOP, AddressingMode::AbsoluteX, 4, 1),
        0xFD => Opcode(Instruction::SBC, AddressingMode::AbsoluteX, 4, 1),
        0xFE => Opcode(Instruction::INC, AddressingMode::AbsoluteX, 7, 0),
        _ => Opcode(Instruction::ISB, AddressingMode::AbsoluteX, 7, 0),
    }
}

/// Decodes an opcode byte. Official opcodes and the common illegal ones
/// (LAX, SAX, DCP, ISB, SLO, RLA, SRE, RRA, ANC, JAM) have their own entry;
/// the remaining illegal opcodes decode as NOP of the right length.
pub fn decode(op: u8) -> (r: Opcode)
    ensures
        r == opcode_table(op),
        2 <= r.2 <= 8,
        r.3 <= 1,
{
    proof {
        reveal(opcode_table);
    }
    match op {
        0x00 => Opcode(Instruction::BRK, AddressingMode::Implied, 7, 0),
        0x01 => Opcode(Instruction::ORA, AddressingMode::IndexedIndirect, 6, 0),
        0x02 => Opcode(Instruction::JAM, AddressingMode::Implied, 2, 0),
        0x03 => Opcode(Instruction::SLO, AddressingMode::IndexedIndirect, 8, 0),
        0x04 => Opcode(Instruction::NOP, AddressingMode::ZeroPageIndexed, 3, 0),
        0x05 => Opcode(Instruction::ORA, AddressingMode::ZeroPageIndexed, 3, 0),
        0x06 => Opcode(Instruction::ASL, AddressingMode::ZeroPageIndexed, 5, 0),
        0x07 => Opcode(Instruction::SLO, AddressingMode::ZeroPageIndexed, 5, 0),
        0x08 => Opcode(Instruction::PHP, AddressingMode::Implied, 3, 0),
        0x09 => Opcode(Instruction::ORA, AddressingMode::Immediate, 2, 0),
        0x0A => Opcode(Instruction::ASL, AddressingMode::Accumulator, 2, 0),
        0x0B => Opcode(Instruction::ANC, AddressingMode::Immediate, 2, 0),
        0x0C => Opcode(Instruction::NOP, AddressingMode::Absolute, 4, 0),
        0x0D => Opcode(Instruction::ORA, AddressingMode::Absolute, 4, 0),
        0x0E => Opcode(Instruction::ASL, AddressingMode::Absolute, 6, 0),
        0x0F => Opcode(Instruction::SLO, AddressingMode::Absolute, 6, 0),
        0x10 => Opcode(Instruction::BPL, AddressingMode::Relative, 2, 1),
        0x11 => Opcode(Instruction::ORA, AddressingMode::IndirectIndexed, 5, 1),
        0x12 => Opcode(Instruction::JAM, AddressingMode::Implied, 2, 0),
        0x13 => Opcode(Instruction::SLO, AddressingMode::IndirectIndexed, 8, 0),
        0x14 => Opcode(Instruction::NOP, AddressingMode::ZeroPageX, 4, 0),
        0x15 => Opcode(Instruction::ORA, AddressingMode::ZeroPageX, 4, 0),
        0x16 => Opcode(Instruction::ASL, AddressingMode::ZeroPageX, 6, 0),
        0x17 => Opcode(Instruction::SLO, AddressingMode::ZeroPageX, 6, 0),
        0x18 => Opcode(Instruction::CLC, AddressingMode::Implied, 2, 0),
        0x19 => Opcode(Instruction::ORA, AddressingMode::AbsoluteY, 4, 1),
        0x1A => Opcode(Instruction::NOP, AddressingMode::Implied, 2, 0),
        0x1B => Opcode(Instruction::SLO, AddressingMode::AbsoluteY, 7, 0),
        0x1C => Opcode(Instruction::NOP, AddressingMode::AbsoluteX, 4, 1),
        0x1D => Opcode(Instruction::ORA, AddressingMode::AbsoluteX, 4, 1),
        0x1E => Opcode(Instruction::ASL, AddressingMode::AbsoluteX, 7, 0),
        0x1F => Opcode(Instruction::SLO, AddressingMode::AbsoluteX, 7, 0),
        0x20 => Opcode(Instruction::JSR, AddressingMode::Absolute, 6, 0),
        0x21 => Opcode(Instruction::AND, AddressingMode::IndexedIndirect, 6, 0),
        0x22 => Opcode(Instruction::JAM, AddressingMode::Implied, 2, 0),
        0x23 => Opcode(Instruction::RLA, AddressingMode::IndexedIndirect, 8, 0),
        0x24 => Opcode(Instruction::BIT, AddressingMode::ZeroPageIndexed, 3, 0),
        0x25 => Opcode(Instruction::AND, AddressingMode::ZeroPageIndexed, 3, 0),
        0x26 => Opcode(Instruction::ROL, AddressingMode::ZeroPageIndexed, 5, 0),
        0x27 => Opcode(Instruction::RLA, AddressingMode::ZeroPageIndexed, 5, 0),
        0x28 => Opcode(Instruction::PLP, AddressingMode::Implied, 4, 0),
        0x29 => Opcode(Instruction::AND, AddressingMode::Immediate, 2, 0),
        0x2A => Opcode(Instruction::ROL, AddressingMode::Accumulator, 2, 0),
        0x2B => Opcode(Instruction::ANC, AddressingMode::Immediate, 2, 0),
        0x2C => Opcode(Instruction::BIT, AddressingMode::Absolute, 4, 0),
        0x2D => Opcode(Instruction::AND, AddressingMode::Absolute, 4, 0),
        0x2E => Opcode(Instruction::ROL, AddressingMode::Absolute, 6, 0),
        0x2F => Opcode(Instruction::RLA, AddressingMode::Absolute, 6, 0),
        0x30 => Opcode(Instruction::BMI, AddressingMode::Relative, 2, 1),
        0x31 => Opcode(Instruction::AND, AddressingMode::IndirectIndexed, 5, 1),
        0x32 => Opcode(Instruction::JAM, AddressingMode::Implied, 2, 0),
        0x33 => Opcode(Instruction::RLA, AddressingMode::IndirectIndexed, 8, 0),
        0x34 => Opcode(Instruction::NOP, AddressingMode::ZeroPageX, 4, 0),
        0x35 => Opcode(Instruction::AND, AddressingMode::ZeroPageX, 4, 0),
        0x36 => Opcode(Instruction::ROL, AddressingMode::ZeroPageX, 6, 0),
        0x37 => Opcode(Instruction::RLA, AddressingMode::ZeroPageX, 6, 0),
        0x38 => Opcode(Instruction::SEC, AddressingMode::Implied, 2, 0),
        0x39 => Opcode(Instruction::AND, AddressingMode::AbsoluteY, 4, 1),
        0x3A => Opcode(Instruction::NOP, AddressingMode::Implied, 2, 0),
        0x3B => Opcode(Instruction::RLA, AddressingMode::AbsoluteY, 7, 0),
        0x3C => Opcode(Instruction::NOP, AddressingMode::AbsoluteX, 4, 1),
        0x3D => Opcode(Instruction::AND, AddressingMode::AbsoluteX, 4, 1),
        0x3E => Opcode(Instruction::ROL, AddressingMode::AbsoluteX, 7, 0),
        0x3F => Opcode(Instruction::RLA, AddressingMode::AbsoluteX, 7, 0),
        0x40 => Opcode(Instruction::RTI, AddressingMode::Implied, 6, 0),
        0x41 => Opcode(Instruction::EOR, AddressingMode::IndexedIndirect, 6, 0),
        0x42 => Opcode(Instruction::JAM, AddressingMode::Implied, 2, 0),
        0x43 => Opcode(Instruction::SRE, AddressingMode::IndexedIndirect, 8, 0),
        0x44 => Opcode(Instruction::NOP, AddressingMode::ZeroPageIndexed, 3, 0),
        0x45 => Opcode(Instruction::EOR, AddressingMode::ZeroPageIndexed, 3, 0),
        0x46 => Opcode(Instruction::LSR, AddressingMode::ZeroPageIndexed, 5, 0),
        0x47 => Opcode(Instruction::SRE, AddressingMode::ZeroPageIndexed, 5, 0),
        0x48 => Opcode(Instruction::PHA, AddressingMode::Implied, 3, 0),
        0x49 => Opcode(Instruction::EOR, AddressingMode::Immediate, 2, 0),
        0x4A => Opcode(Instruction::LSR, AddressingMode::Accumulator, 2, 0),
        0x4B => Opcode(Instruction::NOP, AddressingMode::Immediate, 2, 0),
        0x4C => Opcode(Instruction::JMP, AddressingMode::Absolute, 3, 0),
        0x4D => Opcode(Instruction::EOR, AddressingMode::Absolute, 4, 0),
        0x4E => Opcode(Instruction::LSR, AddressingMode::Absolute, 6, 0),
        0x4F => Opcode(Instruction::SRE, AddressingMode::Absolute, 6, 0),
        0x50 => Opcode(Instruction::BVC, AddressingMode::Relative, 2, 1),
        0x51 => Opcode(Instruction::EOR, AddressingMode::IndirectIndexed, 5, 1),
        0x52 => Opcode(Instruction::JAM, AddressingMode::Implied, 2, 0),
        0x53 => Opcode(Instruction::SRE, AddressingMode::IndirectIndexed, 8, 0),
        0x54 => Opcode(Instruction::NOP, AddressingMode::ZeroPageX, 4, 0),
        0x55 => Opcode(Instruction::EOR, AddressingMode::ZeroPageX, 4, 0),
        0x56 => Opcode(Instruction::LSR, AddressingMode::ZeroPageX, 6, 0),
        0x57 => Opcode(Instruction::SRE, AddressingMode::ZeroPageX, 6, 0),
        0x58 => Opcode(Instruction::CLI, AddressingMode::Implied, 2, 0),
        0x59 => Opcode(Instruction::EOR, AddressingMode::AbsoluteY, 4, 1),
        0x5A => Opcode(Instruction::NOP, AddressingMode::Implied, 2, 0),
        0x5B => Opcode(Instruction::SRE, AddressingMode::AbsoluteY, 7, 0),
        0x5C => Opcode(Instruction::NOP, AddressingMode::AbsoluteX, 4, 1),
        0x5D => Opcode(Instruction::EOR, AddressingMode::AbsoluteX, 4, 1),
        0x5E => Opcode(Instruction::LSR, AddressingMode::AbsoluteX, 7, 0),
        0x5F => Opcode(Instruction::SRE, AddressingMode::AbsoluteX, 7, 0),
        0x60 => Opcode(Instruction::RTS, AddressingMode::Implied, 6, 0),
        0x61 => Opcode(Instruction::ADC, AddressingMode::IndexedIndirect, 6, 0),
        0x62 => Opcode(Instruction::JAM, AddressingMode::Implied, 2, 0),
        0x63 => Opcode(Instruction::RRA, AddressingMode::IndexedIndirect, 8, 0),
        0x64 => Opcode(Instruction::NOP, AddressingMode::ZeroPageIndexed, 3, 0),
        0x65 => Opcode(Instruction::ADC, AddressingMode::ZeroPageIndexed, 3, 0),
        0x66 => Opcode(Instruction::ROR, AddressingMode::ZeroPageIndexed, 5, 0),
        0x67 => Opcode(Instruction::RRA, AddressingMode::ZeroPageIndexed, 5, 0),
        0x68 => Opcode(Instruction::PLA, AddressingMode::Implied, 4, 0),
        0x69 => Opcode(Instruction::ADC, AddressingMode::Immediate, 2, 0),
        0x6A => Opcode(Instruction::ROR, AddressingMode::Accumulator, 2, 0),
        0x6B => Opcode(Instruction::NOP, AddressingMode::Immediate, 2, 0),
        0x6C => Opcode(Instruction::JMP, AddressingMode::Indirect, 5, 0),
        0x6D => Opcode(Instruction::ADC, AddressingMode::Absolute, 4, 0),
        0x6E => Opcode(Instruction::ROR, AddressingMode::Absolute, 6, 0),
        0x6F => Opcode(Instruction::RRA, AddressingMode::Absolute, 6, 0),
        0x70 => Opcode(Instruction::BVS, AddressingMode::Relative, 2, 1),
        0x71 => Opcode(Instruction::ADC, AddressingMode::IndirectIndexed, 5, 1),
        0x72 => Opcode(Instruction::JAM, AddressingMode::Implied, 2, 0),
        0x73 => Opcode(Instruction::RRA, AddressingMode::IndirectIndexed, 8, 0),
        0x74 => Opcode(Instruction::NOP, AddressingMode::ZeroPageX, 4, 0),
        0x75 => Opcode(Instruction::ADC, AddressingMode::ZeroPageX, 4, 0),
        0x76 => Opcode(Instruction::ROR, AddressingMode::ZeroPageX, 6, 0),
        0x77 => Opcode(Instruction::RRA, AddressingMode::ZeroPageX, 6, 0),
        0x78 => Opcode(Instruction::SEI, AddressingMode::Implied, 2, 0),
        0x79 => Opcode(Instruction::ADC, AddressingMode::AbsoluteY, 4, 1),
        0x7A => Opcode(Instruction::NOP, AddressingMode::Implied, 2, 0),
        0x7B => Opcode(Instruction::RRA, AddressingMode::AbsoluteY, 7, 0),
        0x7C => Opcode(Instruction::NOP, AddressingMode::AbsoluteX, 4, 1),
        0x7D => Opcode(Instruction::ADC, AddressingMode::AbsoluteX, 4, 1),
        0x7E => Opcode(Instruction::ROR, AddressingMode::AbsoluteX, 7, 0),
        0x7F => Opcode(Instruction::RRA, AddressingMode::AbsoluteX, 7, 0),
        0x80 => Opcode(Instruction::NOP, AddressingMode::Immediate, 2, 0),
        0x81 => Opcode(Instruction::STA, AddressingMode::IndexedIndirect, 6, 0),
        0x82 => Opcode(Instruction::NOP, AddressingMode::Immediate, 2, 0),
        0x83 => Opcode(Instruction::SAX, AddressingMode::IndexedIndirect, 6, 0),
        0x84 => Opcode(Instruction::STY, AddressingMode::ZeroPageIndexed, 3, 0),
        0x85 => Opcode(Instruction::STA, AddressingMode::ZeroPageIndexed, 3, 0),
        0x86 => Opcode(Instruction::STX, AddressingMode::ZeroPageIndexed, 3, 0),
        0x87 => Opcode(Instruction::SAX, AddressingMode::ZeroPageIndexed, 3, 0),
        0x88 => Opcode(Instruction::DEY, AddressingMode::Implied, 2, 0),
        0x89 => Opcode(Instruction::NOP, AddressingMode::Immediate, 2, 0),
        0x8A => Opcode(Instruction::TXA, AddressingMode::Implied, 2, 0),
        0x8B => Opcode(Instruction::NOP, AddressingMode::Immediate, 2, 0),
        0x8C => Opcode(Instruction::STY, AddressingMode::Absolute, 4, 0),
        0x8D => Opcode(Instruction::STA, AddressingMode::Absolute, 4, 0),
        0x8E => Opcode(Instruction::STX, AddressingMode::Absolute, 4, 0),
        0x8F => Opcode(Instruction::SAX, AddressingMode::Absolute, 4, 0),
        0x90 => Opcode(Instruction::BCC, AddressingMode::Relative, 2, 1),
        0x91 => Opcode(Instruction::STA, AddressingMode::IndirectIndexed, 6, 0),
        0x92 => Opcode(Instruction::JAM, AddressingMode::Implied, 2, 0),
        0x93 => Opcode(Instruction::NOP, AddressingMode::IndirectIndexed, 6, 0),
        0x94 => Opcode(Instruction::STY, AddressingMode::ZeroPageX, 4, 0),
        0x95 => Opcode(Instruction::STA, AddressingMode::ZeroPageX, 4, 0),
        0x96 => Opcode(Instruction::STX, AddressingMode::ZeroPageY, 4, 0),
        0x97 => Opcode(Instruction::SAX, AddressingMode::ZeroPageY, 4, 0),
        0x98 => Opcode(Instruction::TYA, AddressingMode::Implied, 2, 0),
        0x99 => Opcode(Instruction::STA, AddressingMode::AbsoluteY, 5, 0),
        0x9A => Opcode(Instruction::TXS, AddressingMode::Implied, 2, 0),
        0x9B => Opcode(Instruction::NOP, AddressingMode::AbsoluteY, 5, 0),
        0x9C => Opcode(Instruction::NOP, AddressingMode::AbsoluteX, 5, 0),
        0x9D => Opcode(Instruction::STA, AddressingMode::AbsoluteX, 5, 0),
        0x9E => Opcode(Instruction::NOP, AddressingMode::AbsoluteY, 5, 0),
        0x9F => Opcode(Instruction::NOP, AddressingMode::AbsoluteY, 5, 0),
        0xA0 => Opcode(Instruction::LDY, AddressingMode::Immediate, 2, 0),
        0xA1 => Opcode(Instruction::LDA, AddressingMode::IndexedIndirect, 6, 0),
        0xA2 => Opcode(Instruction::LDX, AddressingMode::Immediate, 2, 0),
        0xA3 => Opcode(Instruction::LAX, AddressingMode::IndexedIndirect, 6, 0),
        0xA4 => Opcode(Instruction::LDY, AddressingMode::ZeroPageIndexed, 3, 0),
        0xA5 => Opcode(Instruction::LDA, AddressingMode::ZeroPageIndexed, 3, 0),
        0xA6 => Opcode(Instruction::LDX, AddressingMode::ZeroPageIndexed, 3, 0),
        0xA7 => Opcode(Instruction::LAX, AddressingMode::ZeroPageIndexed, 3, 0),
        0xA8 => Opcode(Instruction::TAY, AddressingMode::Implied, 2, 0),
        0xA9 => Opcode(Instruction::LDA, AddressingMode::Immediate, 2, 0),
        0xAA => Opcode(Instruction::TAX, AddressingMode::Implied, 2, 0),
        0xAB => Opcode(Instruction::LAX, AddressingMode::Immediate, 2, 0),
        0xAC => Opcode(Instruction::LDY, AddressingMode::Absolute, 4, 0),
        0xAD => Opcode(Instruction::LDA, AddressingMode::Absolute, 4, 0),
        0xAE => Opcode(Instruction::LDX, AddressingMode::Absolute, 4, 0),
        0xAF => Opcode(Instruction::LAX, AddressingMode::Absolute, 4, 0),
        0xB0 => Opcode(Instruction::BCS, AddressingMode::Relative, 2, 1),
        0xB1 => Opcode(Instruction::LDA, AddressingMode::IndirectIndexed, 5, 1),
        0xB2 => Opcode(Instruction::JAM, AddressingMode::Implied, 2, 0),
        0xB3 => Opcode(Instruction::LAX, AddressingMode::IndirectIndexed, 5, 1),
        0xB4 => Opcode(Instruction::LDY, AddressingMode::ZeroPageX, 4, 0),
        0xB5 => Opcode(Instruction::LDA, AddressingMode::ZeroPageX, 4, 0),
        0xB6 => Opcode(Instruction::LDX, AddressingMode::ZeroPageY, 4, 0),
        0xB7 => Opcode(Instruction::LAX, AddressingMode::ZeroPageY, 4, 0),
        0xB8 => Opcode(Instruction::CLV, AddressingMode::Implied, 2, 0),
        0xB9 => Opcode(Instruction::LDA, AddressingMode::AbsoluteY, 4, 1),
        0xBA => Opcode(Instruction::TSX, AddressingMode::Implied, 2, 0),
        0xBB => Opcode(Instruction::NOP, AddressingMode::AbsoluteY, 4, 1),
        0xBC => Opcode(Instruction::LDY, AddressingMode::AbsoluteX, 4, 1),
        0xBD => Opcode(Instruction::LDA, AddressingMode::AbsoluteX, 4, 1),
        0xBE => Opcode(Instruction::LDX, AddressingMode::AbsoluteY, 4, 1),
        0xBF => Opcode(Instruction::LAX, AddressingMode::AbsoluteY, 4, 1),
        0xC0 => Opcode(Instruction::CPY, AddressingMode::Immediate, 2, 0),
        0xC1 => Opcode(Instruction::CMP, AddressingMode::IndexedIndirect, 6, 0),
        0xC2 => Opcode(Instruction::NOP, AddressingMode::Immediate, 2, 0),
        0xC3 => Opcode(Instruction::DCP, AddressingMode::IndexedIndirect, 8, 0),
        0xC4 => Opcode(Instruction::CPY, AddressingMode::ZeroPageIndexed, 3, 0),
        0xC5 => Opcode(Instruction::CMP, AddressingMode::ZeroPageIndexed, 3, 0),
        0xC6 => Opcode(Instruction::DEC, AddressingMode::ZeroPageIndexed, 5, 0),
        0xC7 => Opcode(Instruction::DCP, AddressingMode::ZeroPageIndexed, 5, 0),
        0xC8 => Opcode(Instruction::INY, AddressingMode::Implied, 2, 0),
        0xC9 => Opcode(Instruction::CMP, AddressingMode::Immediate, 2, 0),
        0xCA => Opcode(Instruction::DEX, AddressingMode::Implied, 2, 0),
        0xCB => Opcode(Instruction::NOP, AddressingMode::Immediate, 2, 0),
        0xCC => Opcode(Instruction::CPY, AddressingMode::Absolute, 4, 0),
        0xCD => Opcode(Instruction::CMP, AddressingMode::Absolute, 4, 0),
        0xCE => Opcode(Instruction::DEC, AddressingMode::Absolute, 6, 0),
        0xCF => Opcode(Instruction::DCP, AddressingMode::Absolute, 6, 0),
        0xD0 => Opcode(Instruction::BNE, AddressingMode::Relative, 2, 1),
        0xD1 => Opcode(Instruction::CMP, AddressingMode::IndirectIndexed, 5, 1),
        0xD2 => Opcode(Instruction::JAM, AddressingMode::Implied, 2, 0),
        0xD3 => Opcode(Instruction::DCP, AddressingMode::IndirectIndexed, 8, 0),
        0xD4 => Opcode(Instruction::NOP, AddressingMode::ZeroPageX, 4, 0),
        0xD5 => Opcode(Instruction::CMP, AddressingMode::ZeroPageX, 4, 0),
        0xD6 => Opcode(Instruction::DEC, AddressingMode::ZeroPageX, 6, 0),
        0xD7 => Opcode(Instruction::DCP, AddressingMode::ZeroPageX, 6, 0),
        0xD8 => Opcode(Instruction::CLD, AddressingMode::Implied, 2, 0),
        0xD9 => Opcode(Instruction::CMP, AddressingMode::AbsoluteY, 4, 1),
        0xDA => Opcode(Instruction::NOP, AddressingMode::Implied, 2, 0),
        0xDB => Opcode(Instruction::DCP, AddressingMode::AbsoluteY, 7, 0),
        0xDC => Opcode(Instruction::NOP, AddressingMode::AbsoluteX, 4, 1),
        0xDD => Opcode(Instruction::CMP, AddressingMode::AbsoluteX, 4, 1),
        0xDE => Opcode(Instruction::DEC, AddressingMode::AbsoluteX, 7, 0),
        0xDF => Opcode(Instruction::DCP, AddressingMode::AbsoluteX, 7, 0),
        0xE0 => Opcode(Instruction::CPX, AddressingMode::Immediate, 2, 0),
        0xE1 => Opcode(Instruction::SBC, AddressingMode::IndexedIndirect, 6, 0),
        0xE2 => Opcode(Instruction::NOP, AddressingMode::Immediate, 2, 0),
        0xE3 => Opcode(Instruction::ISB, AddressingMode::IndexedIndirect, 8, 0),
        0xE4 => Opcode(Instruction::CPX, AddressingMode::ZeroPageIndexed, 3, 0),
        0xE5 => Opcode(Instruction::SBC, AddressingMode::ZeroPageIndexed, 3, 0),
        0xE6 => Opcode(Instruction::INC, AddressingMode::ZeroPageIndexed, 5, 0),
        0xE7 => Opcode(Instruction::ISB, AddressingMode::ZeroPageIndexed, 5, 0),
        0xE8 => Opcode(Instruction::INX, AddressingMode::Implied, 2, 0),
        0xE9 => Opcode(Instruction::SBC, AddressingMode::Immediate, 2, 0),
        0xEA => Opcode(Instruction::NOP, AddressingMode::Implied, 2, 0),
        0xEB => Opcode(Instruction::SBC, AddressingMode::Immediate, 2, 0),
        0xEC => Opcode(Instruction::CPX, AddressingMode::Absolute, 4, 0),
        0xED => Opcode(Instruction::SBC, AddressingMode::Absolute, 4, 0),
        0xEE => Opcode(Instruction::INC, AddressingMode::Absolute, 6, 0),
        0xEF => Opcode(Instruction::ISB, AddressingMode::Absolute, 6, 0),
        0xF0 => Opcode(Instruction::BEQ, AddressingMode::Relative, 2, 1),
        0xF1 => Opcode(Instruction::SBC, AddressingMode::IndirectIndexed, 5, 1),
        0xF2 => Opcode(Instruction::JAM, AddressingMode::Implied, 2, 0),
        0xF3 => Opcode(Instruction::ISB, AddressingMode::IndirectIndexed, 8, 0),
        0xF4 => Opcode(Instruction::NOP, AddressingMode::ZeroPageX, 4, 0),
        0xF5 => Opcode(Instruction::SBC, AddressingMode::ZeroPageX, 4, 0),
        0xF6 => Opcode(Instruction::INC, AddressingMode::ZeroPageX, 6, 0),
        0xF7 => Opcode(Instruction::ISB, AddressingMode::ZeroPageX, 6, 0),
        0xF8 => Opcode(Instruction::SED, AddressingMode::Implied, 2, 0),
        0xF9 => Opcode(Instruction::SBC, AddressingMode::AbsoluteY, 4, 1),
        0xFA => Opcode(Instruction::NOP, AddressingMode::Implied, 2, 0),
        0xFB => Opcode(Instruction::ISB, AddressingMode::AbsoluteY, 7, 0),
        0xFC => Opcode(Instruction::NOP, AddressingMode::AbsoluteX, 4, 1),
        0xFD => Opcode(Instruction::SBC, AddressingMode::AbsoluteX, 4, 1),
        0xFE => Opcode(Instruction::INC, AddressingMode::AbsoluteX, 7, 0),
        _ => Opcode(Instruction::ISB, AddressingMode::AbsoluteX, 7, 0),
    }
}

} // verus!
