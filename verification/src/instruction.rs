use vstd::prelude::*;

use crate::addrmode::{mode_spec, AddrMode, IMP, IMM, ZP0, ZPX, ZPY, REL, ABS, ABX, ABY, IND, IZX, IZY};
use crate::bus::Bus;
use crate::cpu6502::Cpu6502;
use crate::operators::{oper_spec, Operator, ADC, SBC, AND, ASL, BCC, BCS, BEQ, BIT, BMI, BNE, BPL, BRK, BVC, BVS, CLC, CLD, CLI, CLV, CMP, CPX, CPY, DEC, DEX, DEY, EOR, INC, INX, INY, JMP, JSR, LDA, LDX, LDY, LSR, NOP, ORA, PHA, PHP, PLA, PLP, ROL, ROR, RTI, RTS, SEC, SED, SEI, STA, STX, STY, TAX, TAY, TSX, TXA, TXS, TYA, XXX};

verus! {

/// One entry of the instruction table: the mnemonic, the operation kind,
/// the addressing-mode tag, and the base cycle count.
pub struct Instruction {
    pub name: &'static str,
    pub operator: Operator,
    pub addrmode: AddrMode,
    pub cycles: u8,
}

/// The 256-entry descriptor table, keyed by opcode byte: a pure function,
/// so every lookup of the same opcode yields the same descriptor. Entries
/// follow the published reference table; undocumented opcodes carry the
/// mnemonic "???" and either the placeholder operation or one of the wide
/// no-op forms.
#[verifier::opaque]
pub open spec fn instr_spec(op: u8) -> Instruction {
    match op {
        0x00 => Instruction { name: "BRK", operator: Operator::BRK, addrmode: AddrMode::IMM, cycles: 7 },
        0x01 => Instruction { name: "ORA", operator: Operator::ORA, addrmode: AddrMode::IZX, cycles: 6 },
        0x03 | 0x13 | 0x23 | 0x33 | 0x43 | 0x53 | 0x63 | 0x73 | 0xC3 | 0xD3 | 0xE3 | 0xF3 => Instruction { name: "???", operator: Operator::XXX, addrmode: AddrMode::IMP, cycles: 8 },
        0x04 | 0x44 | 0x64 => Instruction { name: "???", operator: Operator::NOP, addrmode: AddrMode::IMP, cycles: 3 },
        0x05 => Instruction { name: "ORA", operator: Operator::ORA, addrmode: AddrMode::ZP0, cycles: 3 },
        0x06 => Instruction { name: "ASL", operator: Operator::ASL, addrmode: AddrMode::ZP0, cycles: 5 },
        0x07 | 0x27 | 0x47 | 0x67 | 0x9B | 0x9E | 0x9F | 0xB3 | 0xC7 | 0xE7 => Instruction { name: "???", operator: Operator::XXX, addrmode: AddrMode::IMP, cycles: 5 },
        0x08 => Instruction { name: "PHP", operator: Operator::PHP, addrmode: AddrMode::IMP, cycles: 3 },
        0x09 => Instruction { name: "ORA", operator: Operator::ORA, addrmode: AddrMode::IMM, cycles: 2 },
        0x0A => Instruction { name: "ASL", operator: Operator::ASL, addrmode: AddrMode::IMP, cycles: 2 },
        0x0C | 0x14 | 0x1C | 0x34 | 0x3C | 0x54 | 0x5C | 0x74 | 0x7C | 0xD4 | 0xDC | 0xF4 | 0xFC => Instruction { name: "???", operator: Operator::NOP, addrmode: AddrMode::IMP, cycles: 4 },
        0x0D => Instruction { name: "ORA", operator: Operator::ORA, addrmode: AddrMode::ABS, cycles: 4 },
        0x0E => Instruction { name: "ASL", operator: Operator::ASL, addrmode: AddrMode::ABS, cycles: 6 },
        0x0F | 0x17 | 0x2F | 0x37 | 0x4F | 0x57 | 0x6F | 0x77 | 0x83 | 0x93 | 0xA3 | 0xCF | 0xD7 | 0xEF | 0xF7 => Instruction { name: "???", operator: Operator::XXX, addrmode: AddrMode::IMP, cycles: 6 },
        0x10 => Instruction { name: "BPL", operator: Operator::BPL, addrmode: AddrMode::REL, cycles: 2 },
        0x11 => Instruction { name: "ORA", operator: Operator::ORA, addrmode: AddrMode::IZY, cycles: 5 },
        0x15 => Instruction { name: "ORA", operator: Operator::ORA, addrmode: AddrMode::ZPX, cycles: 4 },
        0x16 => Instruction { name: "ASL", operator: Operator::ASL, addrmode: AddrMode::ZPX, cycles: 6 },
        0x18 => Instruction { name: "CLC", operator: Operator::CLC, addrmode: AddrMode::IMP, cycles: 2 },
        0x19 => Instruction { name: "ORA", operator: Operator::ORA, addrmode: AddrMode::ABY, cycles: 4 },
        0x1A | 0x3A | 0x5A | 0x7A | 0x80 | 0x82 | 0x89 | 0xC2 | 0xDA | 0xE2 | 0xFA => Instruction { name: "???", operator: Operator::NOP, addrmode: AddrMode::IMP, cycles: 2 },
        0x1B | 0x1F | 0x3B | 0x3F | 0x5B | 0x5F | 0x7B | 0x7F | 0xDB | 0xDF | 0xFB | 0xFF => Instruction { name: "???", operator: Operator::XXX, addrmode: AddrMode::IMP, cycles: 7 },
        0x1D => Instruction { name: "ORA", operator: Operator::ORA, addrmode: AddrMode::ABX, cycles: 4 },
        0x1E => Instruction { name: "ASL", operator: Operator::ASL, addrmode: AddrMode::ABX, cycles: 7 },
        0x20 => Instruction { name: "JSR", operator: Operator::JSR, addrmode: AddrMode::ABS, cycles: 6 },
        0x21 => Instruction { name: "AND", operator: Operator::AND, addrmode: AddrMode::IZX, cycles: 6 },
        0x24 => Instruction { name: "BIT", operator: Operator::BIT, addrmode: AddrMode::ZP0, cycles: 3 },
        0x25 => Instruction { name: "AND", operator: Operator::AND, addrmode: AddrMode::ZP0, cycles: 3 },
        0x26 => Instruction { name: "ROL", operator: Operator::ROL, addrmode: AddrMode::ZP0, cycles: 5 },
        0x28 => Instruction { name: "PLP", operator: Operator::PLP, addrmode: AddrMode::IMP, cycles: 4 },
        0x29 => Instruction { name: "AND", operator: Operator::AND, addrmode: AddrMode::IMM, cycles: 2 },
        0x2A => Instruction { name: "ROL", operator: Operator::ROL, addrmode: AddrMode::IMP, cycles: 2 },
        0x2C => Instruction { name: "BIT", operator: Operator::BIT, addrmode: AddrMode::ABS, cycles: 4 },
        0x2D => Instruction { name: "AND", operator: Operator::AND, addrmode: AddrMode::ABS, cycles: 4 },
        0x2E => Instruction { name: "ROL", operator: Operator::ROL, addrmode: AddrMode::ABS, cycles: 6 },
        0x30 => Instruction { name: "BMI", operator: Operator::BMI, addrmode: AddrMode::REL, cycles: 2 },
        0x31 => Instruction { name: "AND", operator: Operator::AND, addrmode: AddrMode::IZY, cycles: 5 },
        0x35 => Instruction { name: "AND", operator: Operator::AND, addrmode: AddrMode::ZPX, cycles: 4 },
        0x36 => Instruction { name: "ROL", operator: Operator::ROL, addrmode: AddrMode::ZPX, cycles: 6 },
        0x38 => Instruction { name: "SEC", operator: Operator::SEC, addrmode: AddrMode::IMP, cycles: 2 },
        0x39 => Instruction { name: "AND", operator: Operator::AND, addrmode: AddrMode::ABY, cycles: 4 },
        0x3D => Instruction { name: "AND", operator: Operator::AND, addrmode: AddrMode::ABX, cycles: 4 },
        0x3E => Instruction { name: "ROL", operator: Operator::ROL, addrmode: AddrMode::ABX, cycles: 7 },
        0x40 => Instruction { name: "RTI", operator: Operator::RTI, addrmode: AddrMode::IMP, cycles: 6 },
        0x41 => Instruction { name: "EOR", operator: Operator::EOR, addrmode: AddrMode::IZX, cycles: 6 },
        0x45 => Instruction { name: "EOR", operator: Operator::EOR, addrmode: AddrMode::ZP0, cycles: 3 },
        0x46 => Instruction { name: "LSR", operator: Operator::LSR, addrmode: AddrMode::ZP0, cycles: 5 },
        0x48 => Instruction { name: "PHA", operator: Operator::PHA, addrmode: AddrMode::IMP, cycles: 3 },
        0x49 => Instruction { name: "EOR", operator: Operator::EOR, addrmode: AddrMode::IMM, cycles: 2 },
        0x4A => Instruction { name: "LSR", operator: Operator::LSR, addrmode: AddrMode::IMP, cycles: 2 },
        0x4C => Instruction { name: "JMP", operator: Operator::JMP, addrmode: AddrMode::ABS, cycles: 3 },
        0x4D => Instruction { name: "EOR", operator: Operator::EOR, addrmode: AddrMode::ABS, cycles: 4 },
        0x4E => Instruction { name: "LSR", operator: Operator::LSR, addrmode: AddrMode::ABS, cycles: 6 },
        0x50 => Instruction { name: "BVC", operator: Operator::BVC, addrmode: AddrMode::REL, cycles: 2 },
        0x51 => Instruction { name: "EOR", operator: Operator::EOR, addrmode: AddrMode::IZY, cycles: 5 },
        0x55 => Instruction { name: "EOR", operator: Operator::EOR, addrmode: AddrMode::ZPX, cycles: 4 },
        0x56 => Instruction { name: "LSR", operator: Operator::LSR, addrmode: AddrMode::ZPX, cycles: 6 },
        0x58 => Instruction { name: "CLI", operator: Operator::CLI, addrmode: AddrMode::IMP, cycles: 2 },
        0x59 => Instruction { name: "EOR", operator: Operator::EOR, addrmode: AddrMode::ABY, cycles: 4 },
        0x5D => Instruction { name: "EOR", operator: Operator::EOR, addrmode: AddrMode::ABX, cycles: 4 },
        0x5E => Instruction { name: "LSR", operator: Operator::LSR, addrmode: AddrMode::ABX, cycles: 7 },
        0x60 => Instruction { name: "RTS", operator: Operator::RTS, addrmode: AddrMode::IMP, cycles: 6 },
        0x61 => Instruction { name: "ADC", operator: Operator::ADC, addrmode: AddrMode::IZX, cycles: 6 },
        0x65 => Instruction { name: "ADC", operator: Operator::ADC, addrmode: AddrMode::ZP0, cycles: 3 },
        0x66 => Instruction { name: "ROR", operator: Operator::ROR, addrmode: AddrMode::ZP0, cycles: 5 },
        0x68 => Instruction { name: "PLA", operator: Operator::PLA, addrmode: AddrMode::IMP, cycles: 4 },
        0x69 => Instruction { name: "ADC", operator: Operator::ADC, addrmode: AddrMode::IMM, cycles: 2 },
        0x6A => Instruction { name: "ROR", operator: Operator::ROR, addrmode: AddrMode::IMP, cycles: 2 },
        0x6C => Instruction { name: "JMP", operator: Operator::JMP, addrmode: AddrMode::IND, cycles: 5 },
        0x6D => Instruction { name: "ADC", operator: Operator::ADC, addrmode: AddrMode::ABS, cycles: 4 },
        0x6E => Instruction { name: "ROR", operator: Operator::ROR, addrmode: AddrMode::ABS, cycles: 6 },
        0x70 => Instruction { name: "BVS", operator: Operator::BVS, addrmode: AddrMode::REL, cycles: 2 },
        0x71 => Instruction { name: "ADC", operator: Operator::ADC, addrmode: AddrMode::IZY, cycles: 5 },
        0x75 => Instruction { name: "ADC", operator: Operator::ADC, addrmode: AddrMode::ZPX, cycles: 4 },
        0x76 => Instruction { name: "ROR", operator: Operator::ROR, addrmode: AddrMode::ZPX, cycles: 6 },
        0x78 => Instruction { name: "SEI", operator: Operator::SEI, addrmode: AddrMode::IMP, cycles: 2 },
        0x79 => Instruction { name: "ADC", operator: Operator::ADC, addrmode: AddrMode::ABY, cycles: 4 },
        0x7D => Instruction { name: "ADC", operator: Operator::ADC, addrmode: AddrMode::ABX, cycles: 4 },
        0x7E => Instruction { name: "ROR", operator: Operator::ROR, addrmode: AddrMode::ABX, cycles: 7 },
        0x81 => Instruction { name: "STA", operator: Operator::STA, addrmode: AddrMode::IZX, cycles: 6 },
        0x84 => Instruction { name: "STY", operator: Operator::STY, addrmode: AddrMode::ZP0, cycles: 3 },
        0x85 => Instruction { name: "STA", operator: Operator::STA, addrmode: AddrMode::ZP0, cycles: 3 },
        0x86 => Instruction { name: "STX", operator: Operator::STX, addrmode: AddrMode::ZP0, cycles: 3 },
        0x87 | 0xA7 => Instruction { name: "???", operator: Operator::XXX, addrmode: AddrMode::IMP, cycles: 3 },
        0x88 => Instruction { name: "DEY", operator: Operator::DEY, addrmode: AddrMode::IMP, cycles: 2 },
        0x8A => Instruction { name: "TXA", operator: Operator::TXA, addrmode: AddrMode::IMP, cycles: 2 },
        0x8C => Instruction { name: "STY", operator: Operator::STY, addrmode: AddrMode::ABS, cycles: 4 },
        0x8D => Instruction { name: "STA", operator: Operator::STA, addrmode: AddrMode::ABS, cycles: 4 },
        0x8E => Instruction { name: "STX", operator: Operator::STX, addrmode: AddrMode::ABS, cycles: 4 },
        0x8F | 0x97 | 0xAF | 0xB7 | 0xBB | 0xBF => Instruction { name: "???", operator: Operator::XXX, addrmode: AddrMode::IMP, cycles: 4 },
        0x90 => Instruction { name: "BCC", operator: Operator::BCC, addrmode: AddrMode::REL, cycles: 2 },
        0x91 => Instruction { name: "STA", operator: Operator::STA, addrmode: AddrMode::IZY, cycles: 6 },
        0x94 => Instruction { name: "STY", operator: Operator::STY, addrmode: AddrMode::ZPX, cycles: 4 },
        0x95 => Instruction { name: "STA", operator: Operator::STA, addrmode: AddrMode::ZPX, cycles: 4 },
        0x96 => Instruction { name: "STX", operator: Operator::STX, addrmode: AddrMode::ZPY, cycles: 4 },
        0x98 => Instruction { name: "TYA", operator: Operator::TYA, addrmode: AddrMode::IMP, cycles: 2 },
        0x99 => Instruction { name: "STA", operator: Operator::STA, addrmode: AddrMode::ABY, cycles: 5 },
        0x9A => Instruction { name: "TXS", operator: Operator::TXS, addrmode: AddrMode::IMP, cycles: 2 },
        0x9C => Instruction { name: "???", operator: Operator::NOP, addrmode: AddrMode::IMP, cycles: 5 },
        0x9D => Instruction { name: "STA", operator: Operator::STA, addrmode: AddrMode::ABX, cycles: 5 },
        0xA0 => Instruction { name: "LDY", operator: Operator::LDY, addrmode: AddrMode::IMM, cycles: 2 },
        0xA1 => Instruction { name: "LDA", operator: Operator::LDA, addrmode: AddrMode::IZX, cycles: 6 },
        0xA2 => Instruction { name: "LDX", operator: Operator::LDX, addrmode: AddrMode::IMM, cycles: 2 },
        0xA4 => Instruction { name: "LDY", operator: Operator::LDY, addrmode: AddrMode::ZP0, cycles: 3 },
        0xA5 => Instruction { name: "LDA", operator: Operator::LDA, addrmode: AddrMode::ZP0, cycles: 3 },
        0xA6 => Instruction { name: "LDX", operator: Operator::LDX, addrmode: AddrMode::ZP0, cycles: 3 },
        0xA8 => Instruction { name: "TAY", operator: Operator::TAY, addrmode: AddrMode::IMP, cycles: 2 },
        0xA9 => Instruction { name: "LDA", operator: Operator::LDA, addrmode: AddrMode::IMM, cycles: 2 },
        0xAA => Instruction { name: "TAX", operator: Operator::TAX, addrmode: AddrMode::IMP, cycles: 2 },
        0xAC => Instruction { name: "LDY", operator: Operator::LDY, addrmode: AddrMode::ABS, cycles: 4 },
        0xAD => Instruction { name: "LDA", operator: Operator::LDA, addrmode: AddrMode::ABS, cycles: 4 },
        0xAE => Instruction { name: "LDX", operator: Operator::LDX, addrmode: AddrMode::ABS, cycles: 4 },
        0xB0 => Instruction { name: "BCS", operator: Operator::BCS, addrmode: AddrMode::REL, cycles: 2 },
        0xB1 => Instruction { name: "LDA", operator: Operator::LDA, addrmode: AddrMode::IZY, cycles: 5 },
        0xB4 => Instruction { name: "LDY", operator: Operator::LDY, addrmode: AddrMode::ZPX, cycles: 4 },
        0xB5 => Instruction { name: "LDA", operator: Operator::LDA, addrmode: AddrMode::ZPX, cycles: 4 },
        0xB6 => Instruction { name: "LDX", operator: Operator::LDX, addrmode: AddrMode::ZPY, cycles: 4 },
        0xB8 => Instruction { name: "CLV", operator: Operator::CLV, addrmode: AddrMode::IMP, cycles: 2 },
        0xB9 => Instruction { name: "LDA", operator: Operator::LDA, addrmode: AddrMode::ABY, cycles: 4 },
        0xBA => Instruction { name: "TSX", operator: Operator::TSX, addrmode: AddrMode::IMP, cycles: 2 },
        0xBC => Instruction { name: "LDY", operator: Operator::LDY, addrmode: AddrMode::ABX, cycles: 4 },
        0xBD => Instruction { name: "LDA", operator: Operator::LDA, addrmode: AddrMode::ABX, cycles: 4 },
        0xBE => Instruction { name: "LDX", operator: Operator::LDX, addrmode: AddrMode::ABY, cycles: 4 },
        0xC0 => Instruction { name: "CPY", operator: Operator::CPY, addrmode: AddrMode::IMM, cycles: 2 },
        0xC1 => Instruction { name: "CMP", operator: Operator::CMP, addrmode: AddrMode::IZX, cycles: 6 },
        0xC4 => Instruction { name: "CPY", operator: Operator::CPY, addrmode: AddrMode::ZP0, cycles: 3 },
        0xC5 => Instruction { name: "CMP", operator: Operator::CMP, addrmode: AddrMode::ZP0, cycles: 3 },
        0xC6 => Instruction { name: "DEC", operator: Operator::DEC, addrmode: AddrMode::ZP0, cycles: 5 },
        0xC8 => Instruction { name: "INY", operator: Operator::INY, addrmode: AddrMode::IMP, cycles: 2 },
        0xC9 => Instruction { name: "CMP", operator: Operator::CMP, addrmode: AddrMode::IMM, cycles: 2 },
        0xCA => Instruction { name: "DEX", operator: Operator::DEX, addrmode: AddrMode::IMP, cycles: 2 },
        0xCC => Instruction { name: "CPY", operator: Operator::CPY, addrmode: AddrMode::ABS, cycles: 4 },
        0xCD => Instruction { name: "CMP", operator: Operator::CMP, addrmode: AddrMode::ABS, cycles: 4 },
        0xCE => Instruction { name: "DEC", operator: Operator::DEC, addrmode: AddrMode::ABS, cycles: 6 },
        0xD0 => Instruction { name: "BNE", operator: Operator::BNE, addrmode: AddrMode::REL, cycles: 2 },
        0xD1 => Instruction { name: "CMP", operator: Operator::CMP, addrmode: AddrMode::IZY, cycles: 5 },
        0xD5 => Instruction { name: "CMP", operator: Operator::CMP, addrmode: AddrMode::ZPX, cycles: 4 },
        0xD6 => Instruction { name: "DEC", operator: Operator::DEC, addrmode: AddrMode::ZPX, cycles: 6 },
        0xD8 => Instruction { name: "CLD", operator: Operator::CLD, addrmode: AddrMode::IMP, cycles: 2 },
        0xD9 => Instruction { name: "CMP", operator: Operator::CMP, addrmode: AddrMode::ABY, cycles: 4 },
        0xDD => Instruction { name: "CMP", operator: Operator::CMP, addrmode: AddrMode::ABX, cycles: 4 },
        0xDE => Instruction { name: "DEC", operator: Operator::DEC, addrmode: AddrMode::ABX, cycles: 7 },
        0xE0 => Instruction { name: "CPX", operator: Operator::CPX, addrmode: AddrMode::IMM, cycles: 2 },
        0xE1 => Instruction { name: "SBC", operator: Operator::SBC, addrmode: AddrMode::IZX, cycles: 6 },
        0xE4 => Instruction { name: "CPX", operator: Operator::CPX, addrmode: AddrMode::ZP0, cycles: 3 },
        0xE5 => Instruction { name: "SBC", operator: Operator::SBC, addrmode: AddrMode::ZP0, cycles: 3 },
        0xE6 => Instruction { name: "INC", operator: Operator::INC, addrmode: AddrMode::ZP0, cycles: 5 },
        0xE8 => Instruction { name: "INX", operator: Operator::INX, addrmode: AddrMode::IMP, cycles: 2 },
        0xE9 => Instruction { name: "SBC", operator: Operator::SBC, addrmode: AddrMode::IMM, cycles: 2 },
        0xEA => Instruction { name: "NOP", operator: Operator::NOP, addrmode: AddrMode::IMP, cycles: 2 },
        0xEB => Instruction { name: "???", operator: Operator::SBC, addrmode: AddrMode::IMP, cycles: 2 },
        0xEC => Instruction { name: "CPX", operator: Operator::CPX, addrmode: AddrMode::ABS, cycles: 4 },
        0xED => Instruction { name: "SBC", operator: Operator::SBC, addrmode: AddrMode::ABS, cycles: 4 },
        0xEE => Instruction { name: "INC", operator: Operator::INC, addrmode: AddrMode::ABS, cycles: 6 },
        0xF0 => Instruction { name: "BEQ", operator: Operator::BEQ, addrmode: AddrMode::REL, cycles: 2 },
        0xF1 => Instruction { name: "SBC", operator: Operator::SBC, addrmode: AddrMode::IZY, cycles: 5 },
        0xF5 => Instruction { name: "SBC", operator: Operator::SBC, addrmode: AddrMode::ZPX, cycles: 4 },
        0xF6 => Instruction { name: "INC", operator: Operator::INC, addrmode: AddrMode::ZPX, cycles: 6 },
        0xF8 => Instruction { name: "SED", operator: Operator::SED, addrmode: AddrMode::IMP, cycles: 2 },
        0xF9 => Instruction { name: "SBC", operator: Operator::SBC, addrmode: AddrMode::ABY, cycles: 4 },
        0xFD => Instruction { name: "SBC", operator: Operator::SBC, addrmode: AddrMode::ABX, cycles: 4 },
        0xFE => Instruction { name: "INC", operator: Operator::INC, addrmode: AddrMode::ABX, cycles: 7 },
        _ => Instruction { name: "???", operator: Operator::XXX, addrmode: AddrMode::IMP, cycles: 2 },
    }
}

/// Every entry charges at least two and at most eight base cycles.
pub proof fn lemma_cycles_range(op: u8)
    ensures
        2 <= instr_spec(op).cycles <= 8,
{
    reveal(instr_spec);
}

impl Instruction {
    pub fn new(name: &'static str, operator: Operator, addrmode: AddrMode, cycles: u8) -> (r:
        Instruction)
        ensures
            r == (Instruction { name, operator, addrmode, cycles }),
    {
        Instruction { name, operator, addrmode, cycles }
    }

    /// The descriptor of an opcode byte; total, so decode never fails.
    pub fn from_opcode(opcode: u8) -> (r: Instruction)
        ensures
            r == instr_spec(opcode),
    {
        proof {
            reveal(instr_spec);
        }
        match opcode {
            0x00 => Instruction { name: "BRK", operator: Operator::BRK, addrmode: AddrMode::IMM, cycles: 7 },
            0x01 => Instruction { name: "ORA", operator: Operator::ORA, addrmode: AddrMode::IZX, cycles: 6 },
            0x03 | 0x13 | 0x23 | 0x33 | 0x43 | 0x53 | 0x63 | 0x73 | 0xC3 | 0xD3 | 0xE3 | 0xF3 => Instruction { name: "???", operator: Operator::XXX, addrmode: AddrMode::IMP, cycles: 8 },
            0x04 | 0x44 | 0x64 => Instruction { name: "???", operator: Operator::NOP, addrmode: AddrMode::IMP, cycles: 3 },
            0x05 => Instruction { name: "ORA", operator: Operator::ORA, addrmode: AddrMode::ZP0, cycles: 3 },
            0x06 => Instruction { name: "ASL", operator: Operator::ASL, addrmode: AddrMode::ZP0, cycles: 5 },
            0x07 | 0x27 | 0x47 | 0x67 | 0x9B | 0x9E | 0x9F | 0xB3 | 0xC7 | 0xE7 => Instruction { name: "???", operator: Operator::XXX, addrmode: AddrMode::IMP, cycles: 5 },
            0x08 => Instruction { name: "PHP", operator: Operator::PHP, addrmode: AddrMode::IMP, cycles: 3 },
            0x09 => Instruction { name: "ORA", operator: Operator::ORA, addrmode: AddrMode::IMM, cycles: 2 },
            0x0A => Instruction { name: "ASL", operator: Operator::ASL, addrmode: AddrMode::IMP, cycles: 2 },
            0x0C | 0x14 | 0x1C | 0x34 | 0x3C | 0x54 | 0x5C | 0x74 | 0x7C | 0xD4 | 0xDC | 0xF4 | 0xFC => Instruction { name: "???", operator: Operator::NOP, addrmode: AddrMode::IMP, cycles: 4 },
            0x0D => Instruction { name: "ORA", operator: Operator::ORA, addrmode: AddrMode::ABS, cycles: 4 },
            0x0E => Instruction { name: "ASL", operator: Operator::ASL, addrmode: AddrMode::ABS, cycles: 6 },
            0x0F | 0x17 | 0x2F | 0x37 | 0x4F | 0x57 | 0x6F | 0x77 | 0x83 | 0x93 | 0xA3 | 0xCF | 0xD7 | 0xEF | 0xF7 => Instruction { name: "???", operator: Operator::XXX, addrmode: AddrMode::IMP, cycles: 6 },
            0x10 => Instruction { name: "BPL", operator: Operator::BPL, addrmode: AddrMode::REL, cycles: 2 },
            0x11 => Instruction { name: "ORA", operator: Operator::ORA, addrmode: AddrMode::IZY, cycles: 5 },
            0x15 => Instruction { name: "ORA", operator: Operator::ORA, addrmode: AddrMode::ZPX, cycles: 4 },
            0x16 => Instruction { name: "ASL", operator: Operator::ASL, addrmode: AddrMode::ZPX, cycles: 6 },
            0x18 => Instruction { name: "CLC", operator: Operator::CLC, addrmode: AddrMode::IMP, cycles: 2 },
            0x19 => Instruction { name: "ORA", operator: Operator::ORA, addrmode: AddrMode::ABY, cycles: 4 },
            0x1A | 0x3A | 0x5A | 0x7A | 0x80 | 0x82 | 0x89 | 0xC2 | 0xDA | 0xE2 | 0xFA => Instruction { name: "???", operator: Operator::NOP, addrmode: AddrMode::IMP, cycles: 2 },
            0x1B | 0x1F | 0x3B | 0x3F | 0x5B | 0x5F | 0x7B | 0x7F | 0xDB | 0xDF | 0xFB | 0xFF => Instruction { name: "???", operator: Operator::XXX, addrmode: AddrMode::IMP, cycles: 7 },
            0x1D => Instruction { name: "ORA", operator: Operator::ORA, addrmode: AddrMode::ABX, cycles: 4 },
            0x1E => Instruction { name: "ASL", operator: Operator::ASL, addrmode: AddrMode::ABX, cycles: 7 },
            0x20 => Instruction { name: "JSR", operator: Operator::JSR, addrmode: AddrMode::ABS, cycles: 6 },
            0x21 => Instruction { name: "AND", operator: Operator::AND, addrmode: AddrMode::IZX, cycles: 6 },
            0x24 => Instruction { name: "BIT", operator: Operator::BIT, addrmode: AddrMode::ZP0, cycles: 3 },
            0x25 => Instruction { name: "AND", operator: Operator::AND, addrmode: AddrMode::ZP0, cycles: 3 },
            0x26 => Instruction { name: "ROL", operator: Operator::ROL, addrmode: AddrMode::ZP0, cycles: 5 },
            0x28 => Instruction { name: "PLP", operator: Operator::PLP, addrmode: AddrMode::IMP, cycles: 4 },
            0x29 => Instruction { name: "AND", operator: Operator::AND, addrmode: AddrMode::IMM, cycles: 2 },
            0x2A => Instruction { name: "ROL", operator: Operator::ROL, addrmode: AddrMode::IMP, cycles: 2 },
            0x2C => Instruction { name: "BIT", operator: Operator::BIT, addrmode: AddrMode::ABS, cycles: 4 },
            0x2D => Instruction { name: "AND", operator: Operator::AND, addrmode: AddrMode::ABS, cycles: 4 },
            0x2E => Instruction { name: "ROL", operator: Operator::ROL, addrmode: AddrMode::ABS, cycles: 6 },
            0x30 => Instruction { name: "BMI", operator: Operator::BMI, addrmode: AddrMode::REL, cycles: 2 },
            0x31 => Instruction { name: "AND", operator: Operator::AND, addrmode: AddrMode::IZY, cycles: 5 },
            0x35 => Instruction { name: "AND", operator: Operator::AND, addrmode: AddrMode::ZPX, cycles: 4 },
            0x36 => Instruction { name: "ROL", operator: Operator::ROL, addrmode: AddrMode::ZPX, cycles: 6 },
            0x38 => Instruction { name: "SEC", operator: Operator::SEC, addrmode: AddrMode::IMP, cycles: 2 },
            0x39 => Instruction { name: "AND", operator: Operator::AND, addrmode: AddrMode::ABY, cycles: 4 },
            0x3D => Instruction { name: "AND", operator: Operator::AND, addrmode: AddrMode::ABX, cycles: 4 },
            0x3E => Instruction { name: "ROL", operator: Operator::ROL, addrmode: AddrMode::ABX, cycles: 7 },
            0x40 => Instruction { name: "RTI", operator: Operator::RTI, addrmode: AddrMode::IMP, cycles: 6 },
            0x41 => Instruction { name: "EOR", operator: Operator::EOR, addrmode: AddrMode::IZX, cycles: 6 },
            0x45 => Instruction { name: "EOR", operator: Operator::EOR, addrmode: AddrMode::ZP0, cycles: 3 },
            0x46 => Instruction { name: "LSR", operator: Operator::LSR, addrmode: AddrMode::ZP0, cycles: 5 },
            0x48 => Instruction { name: "PHA", operator: Operator::PHA, addrmode: AddrMode::IMP, cycles: 3 },
            0x49 => Instruction { name: "EOR", operator: Operator::EOR, addrmode: AddrMode::IMM, cycles: 2 },
            0x4A => Instruction { name: "LSR", operator: Operator::LSR, addrmode: AddrMode::IMP, cycles: 2 },
            0x4C => Instruction { name: "JMP", operator: Operator::JMP, addrmode: AddrMode::ABS, cycles: 3 },
            0x4D => Instruction { name: "EOR", operator: Operator::EOR, addrmode: AddrMode::ABS, cycles: 4 },
            0x4E => Instruction { name: "LSR", operator: Operator::LSR, addrmode: AddrMode::ABS, cycles: 6 },
            0x50 => Instruction { name: "BVC", operator: Operator::BVC, addrmode: AddrMode::REL, cycles: 2 },
            0x51 => Instruction { name: "EOR", operator: Operator::EOR, addrmode: AddrMode::IZY, cycles: 5 },
            0x55 => Instruction { name: "EOR", operator: Operator::EOR, addrmode: AddrMode::ZPX, cycles: 4 },
            0x56 => Instruction { name: "LSR", operator: Operator::LSR, addrmode: AddrMode::ZPX, cycles: 6 },
            0x58 => Instruction { name: "CLI", operator: Operator::CLI, addrmode: AddrMode::IMP, cycles: 2 },
            0x59 => Instruction { name: "EOR", operator: Operator::EOR, addrmode: AddrMode::ABY, cycles: 4 },
            0x5D => Instruction { name: "EOR", operator: Operator::EOR, addrmode: AddrMode::ABX, cycles: 4 },
            0x5E => Instruction { name: "LSR", operator: Operator::LSR, addrmode: AddrMode::ABX, cycles: 7 },
            0x60 => Instruction { name: "RTS", operator: Operator::RTS, addrmode: AddrMode::IMP, cycles: 6 },
            0x61 => Instruction { name: "ADC", operator: Operator::ADC, addrmode: AddrMode::IZX, cycles: 6 },
            0x65 => Instruction { name: "ADC", operator: Operator::ADC, addrmode: AddrMode::ZP0, cycles: 3 },
            0x66 => Instruction { name: "ROR", operator: Operator::ROR, addrmode: AddrMode::ZP0, cycles: 5 },
            0x68 => Instruction { name: "PLA", operator: Operator::PLA, addrmode: AddrMode::IMP, cycles: 4 },
            0x69 => Instruction { name: "ADC", operator: Operator::ADC, addrmode: AddrMode::IMM, cycles: 2 },
            0x6A => Instruction { name: "ROR", operator: Operator::ROR, addrmode: AddrMode::IMP, cycles: 2 },
            0x6C => Instruction { name: "JMP", operator: Operator::JMP, addrmode: AddrMode::IND, cycles: 5 },
            0x6D => Instruction { name: "ADC", operator: Operator::ADC, addrmode: AddrMode::ABS, cycles: 4 },
            0x6E => Instruction { name: "ROR", operator: Operator::ROR, addrmode: AddrMode::ABS, cycles: 6 },
            0x70 => Instruction { name: "BVS", operator: Operator::BVS, addrmode: AddrMode::REL, cycles: 2 },
            0x71 => Instruction { name: "ADC", operator: Operator::ADC, addrmode: AddrMode::IZY, cycles: 5 },
            0x75 => Instruction { name: "ADC", operator: Operator::ADC, addrmode: AddrMode::ZPX, cycles: 4 },
            0x76 => Instruction { name: "ROR", operator: Operator::ROR, addrmode: AddrMode::ZPX, cycles: 6 },
            0x78 => Instruction { name: "SEI", operator: Operator::SEI, addrmode: AddrMode::IMP, cycles: 2 },
            0x79 => Instruction { name: "ADC", operator: Operator::ADC, addrmode: AddrMode::ABY, cycles: 4 },
            0x7D => Instruction { name: "ADC", operator: Operator::ADC, addrmode: AddrMode::ABX, cycles: 4 },
            0x7E => Instruction { name: "ROR", operator: Operator::ROR, addrmode: AddrMode::ABX, cycles: 7 },
            0x81 => Instruction { name: "STA", operator: Operator::STA, addrmode: AddrMode::IZX, cycles: 6 },
            0x84 => Instruction { name: "STY", operator: Operator::STY, addrmode: AddrMode::ZP0, cycles: 3 },
            0x85 => Instruction { name: "STA", operator: Operator::STA, addrmode: AddrMode::ZP0, cycles: 3 },
            0x86 => Instruction { name: "STX", operator: Operator::STX, addrmode: AddrMode::ZP0, cycles: 3 },
            0x87 | 0xA7 => Instruction { name: "???", operator: Operator::XXX, addrmode: AddrMode::IMP, cycles: 3 },
            0x88 => Instruction { name: "DEY", operator: Operator::DEY, addrmode: AddrMode::IMP, cycles: 2 },
            0x8A => Instruction { name: "TXA", operator: Operator::TXA, addrmode: AddrMode::IMP, cycles: 2 },
            0x8C => Instruction { name: "STY", operator: Operator::STY, addrmode: AddrMode::ABS, cycles: 4 },
            0x8D => Instruction { name: "STA", operator: Operator::STA, addrmode: AddrMode::ABS, cycles: 4 },
            0x8E => Instruction { name: "STX", operator: Operator::STX, addrmode: AddrMode::ABS, cycles: 4 },
            0x8F | 0x97 | 0xAF | 0xB7 | 0xBB | 0xBF => Instruction { name: "???", operator: Operator::XXX, addrmode: AddrMode::IMP, cycles: 4 },
            0x90 => Instruction { name: "BCC", operator: Operator::BCC, addrmode: AddrMode::REL, cycles: 2 },
            0x91 => Instruction { name: "STA", operator: Operator::STA, addrmode: AddrMode::IZY, cycles: 6 },
            0x94 => Instruction { name: "STY", operator: Operator::STY, addrmode: AddrMode::ZPX, cycles: 4 },
            0x95 => Instruction { name: "STA", operator: Operator::STA, addrmode: AddrMode::ZPX, cycles: 4 },
            0x96 => Instruction { name: "STX", operator: Operator::STX, addrmode: AddrMode::ZPY, cycles: 4 },
            0x98 => Instruction { name: "TYA", operator: Operator::TYA, addrmode: AddrMode::IMP, cycles: 2 },
            0x99 => Instruction { name: "STA", operator: Operator::STA, addrmode: AddrMode::ABY, cycles: 5 },
            0x9A => Instruction { name: "TXS", operator: Operator::TXS, addrmode: AddrMode::IMP, cycles: 2 },
            0x9C => Instruction { name: "???", operator: Operator::NOP, addrmode: AddrMode::IMP, cycles: 5 },
            0x9D => Instruction { name: "STA", operator: Operator::STA, addrmode: AddrMode::ABX, cycles: 5 },
            0xA0 => Instruction { name: "LDY", operator: Operator::LDY, addrmode: AddrMode::IMM, cycles: 2 },
            0xA1 => Instruction { name: "LDA", operator: Operator::LDA, addrmode: AddrMode::IZX, cycles: 6 },
            0xA2 => Instruction { name: "LDX", operator: Operator::LDX, addrmode: AddrMode::IMM, cycles: 2 },
            0xA4 => Instruction { name: "LDY", operator: Operator::LDY, addrmode: AddrMode::ZP0, cycles: 3 },
            0xA5 => Instruction { name: "LDA", operator: Operator::LDA, addrmode: AddrMode::ZP0, cycles: 3 },
            0xA6 => Instruction { name: "LDX", operator: Operator::LDX, addrmode: AddrMode::ZP0, cycles: 3 },
            0xA8 => Instruction { name: "TAY", operator: Operator::TAY, addrmode: AddrMode::IMP, cycles: 2 },
            0xA9 => Instruction { name: "LDA", operator: Operator::LDA, addrmode: AddrMode::IMM, cycles: 2 },
            0xAA => Instruction { name: "TAX", operator: Operator::TAX, addrmode: AddrMode::IMP, cycles: 2 },
            0xAC => Instruction { name: "LDY", operator: Operator::LDY, addrmode: AddrMode::ABS, cycles: 4 },
            0xAD => Instruction { name: "LDA", operator: Operator::LDA, addrmode: AddrMode::ABS, cycles: 4 },
            0xAE => Instruction { name: "LDX", operator: Operator::LDX, addrmode: AddrMode::ABS, cycles: 4 },
            0xB0 => Instruction { name: "BCS", operator: Operator::BCS, addrmode: AddrMode::REL, cycles: 2 },
            0xB1 => Instruction { name: "LDA", operator: Operator::LDA, addrmode: AddrMode::IZY, cycles: 5 },
            0xB4 => Instruction { name: "LDY", operator: Operator::LDY, addrmode: AddrMode::ZPX, cycles: 4 },
            0xB5 => Instruction { name: "LDA", operator: Operator::LDA, addrmode: AddrMode::ZPX, cycles: 4 },
            0xB6 => Instruction { name: "LDX", operator: Operator::LDX, addrmode: AddrMode::ZPY, cycles: 4 },
            0xB8 => Instruction { name: "CLV", operator: Operator::CLV, addrmode: AddrMode::IMP, cycles: 2 },
            0xB9 => Instruction { name: "LDA", operator: Operator::LDA, addrmode: AddrMode::ABY, cycles: 4 },
            0xBA => Instruction { name: "TSX", operator: Operator::TSX, addrmode: AddrMode::IMP, cycles: 2 },
            0xBC => Instruction { name: "LDY", operator: Operator::LDY, addrmode: AddrMode::ABX, cycles: 4 },
            0xBD => Instruction { name: "LDA", operator: Operator::LDA, addrmode: AddrMode::ABX, cycles: 4 },
            0xBE => Instruction { name: "LDX", operator: Operator::LDX, addrmode: AddrMode::ABY, cycles: 4 },
            0xC0 => Instruction { name: "CPY", operator: Operator::CPY, addrmode: AddrMode::IMM, cycles: 2 },
            0xC1 => Instruction { name: "CMP", operator: Operator::CMP, addrmode: AddrMode::IZX, cycles: 6 },
            0xC4 => Instruction { name: "CPY", operator: Operator::CPY, addrmode: AddrMode::ZP0, cycles: 3 },
            0xC5 => Instruction { name: "CMP", operator: Operator::CMP, addrmode: AddrMode::ZP0, cycles: 3 },
            0xC6 => Instruction { name: "DEC", operator: Operator::DEC, addrmode: AddrMode::ZP0, cycles: 5 },
            0xC8 => Instruction { name: "INY", operator: Operator::INY, addrmode: AddrMode::IMP, cycles: 2 },
            0xC9 => Instruction { name: "CMP", operator: Operator::CMP, addrmode: AddrMode::IMM, cycles: 2 },
            0xCA => Instruction { name: "DEX", operator: Operator::DEX, addrmode: AddrMode::IMP, cycles: 2 },
            0xCC => Instruction { name: "CPY", operator: Operator::CPY, addrmode: AddrMode::ABS, cycles: 4 },
            0xCD => Instruction { name: "CMP", operator: Operator::CMP, addrmode: AddrMode::ABS, cycles: 4 },
            0xCE => Instruction { name: "DEC", operator: Operator::DEC, addrmode: AddrMode::ABS, cycles: 6 },
            0xD0 => Instruction { name: "BNE", operator: Operator::BNE, addrmode: AddrMode::REL, cycles: 2 },
            0xD1 => Instruction { name: "CMP", operator: Operator::CMP, addrmode: AddrMode::IZY, cycles: 5 },
            0xD5 => Instruction { name: "CMP", operator: Operator::CMP, addrmode: AddrMode::ZPX, cycles: 4 },
            0xD6 => Instruction { name: "DEC", operator: Operator::DEC, addrmode: AddrMode::ZPX, cycles: 6 },
            0xD8 => Instruction { name: "CLD", operator: Operator::CLD, addrmode: AddrMode::IMP, cycles: 2 },
            0xD9 => Instruction { name: "CMP", operator: Operator::CMP, addrmode: AddrMode::ABY, cycles: 4 },
            0xDD => Instruction { name: "CMP", operator: Operator::CMP, addrmode: AddrMode::ABX, cycles: 4 },
            0xDE => Instruction { name: "DEC", operator: Operator::DEC, addrmode: AddrMode::ABX, cycles: 7 },
            0xE0 => Instruction { name: "CPX", operator: Operator::CPX, addrmode: AddrMode::IMM, cycles: 2 },
            0xE1 => Instruction { name: "SBC", operator: Operator::SBC, addrmode: AddrMode::IZX, cycles: 6 },
            0xE4 => Instruction { name: "CPX", operator: Operator::CPX, addrmode: AddrMode::ZP0, cycles: 3 },
            0xE5 => Instruction { name: "SBC", operator: Operator::SBC, addrmode: AddrMode::ZP0, cycles: 3 },
            0xE6 => Instruction { name: "INC", operator: Operator::INC, addrmode: AddrMode::ZP0, cycles: 5 },
            0xE8 => Instruction { name: "INX", operator: Operator::INX, addrmode: AddrMode::IMP, cycles: 2 },
            0xE9 => Instruction { name: "SBC", operator: Operator::SBC, addrmode: AddrMode::IMM, cycles: 2 },
            0xEA => Instruction { name: "NOP", operator: Operator::NOP, addrmode: AddrMode::IMP, cycles: 2 },
            0xEB => Instruction { name: "???", operator: Operator::SBC, addrmode: AddrMode::IMP, cycles: 2 },
            0xEC => Instruction { name: "CPX", operator: Operator::CPX, addrmode: AddrMode::ABS, cycles: 4 },
            0xED => Instruction { name: "SBC", operator: Operator::SBC, addrmode: AddrMode::ABS, cycles: 4 },
            0xEE => Instruction { name: "INC", operator: Operator::INC, addrmode: AddrMode::ABS, cycles: 6 },
            0xF0 => Instruction { name: "BEQ", operator: Operator::BEQ, addrmode: AddrMode::REL, cycles: 2 },
            0xF1 => Instruction { name: "SBC", operator: Operator::SBC, addrmode: AddrMode::IZY, cycles: 5 },
            0xF5 => Instruction { name: "SBC", operator: Operator::SBC, addrmode: AddrMode::ZPX, cycles: 4 },
            0xF6 => Instruction { name: "INC", operator: Operator::INC, addrmode: AddrMode::ZPX, cycles: 6 },
            0xF8 => Instruction { name: "SED", operator: Operator::SED, addrmode: AddrMode::IMP, cycles: 2 },
            0xF9 => Instruction { name: "SBC", operator: Operator::SBC, addrmode: AddrMode::ABY, cycles: 4 },
            0xFD => Instruction { name: "SBC", operator: Operator::SBC, addrmode: AddrMode::ABX, cycles: 4 },
            0xFE => Instruction { name: "INC", operator: Operator::INC, addrmode: AddrMode::ABX, cycles: 7 },
            _ => Instruction { name: "???", operator: Operator::XXX, addrmode: AddrMode::IMP, cycles: 2 },
        }
    }

    pub fn get_cycles(&self) -> (r: u8)
        ensures
            r == self.cycles,
    {
        self.cycles
    }

    pub fn get_name(&self) -> (r: &'static str)
        ensures
            r == self.name,
    {
        self.name
    }

    pub fn get_addrmode(&self) -> (r: AddrMode)
        ensures
            r == self.addrmode,
    {
        self.addrmode
    }

    /// Runs this instruction's addressing-mode resolver; the result reports
    /// whether the resolved address may cost an extra cycle.
    pub fn execute_addrmode(&self, cpu: &mut Cpu6502, io: &mut Bus) -> (r: u8)
        requires
            old(io).wf(),
        ensures
            final(io).wf(),
            *final(cpu) == mode_spec(self.addrmode, *old(cpu), old(io)@).0,
            final(io)@ == mode_spec(self.addrmode, *old(cpu), old(io)@).1,
            r == mode_spec(self.addrmode, *old(cpu), old(io)@).2,
    {
        proof {
            reveal(mode_spec);
        }
        match self.addrmode {
            AddrMode::IMP => IMP::execute(cpu, io),
            AddrMode::IMM => IMM::execute(cpu, io),
            AddrMode::ZP0 => ZP0::execute(cpu, io),
            AddrMode::ZPX => ZPX::execute(cpu, io),
            AddrMode::ZPY => ZPY::execute(cpu, io),
            AddrMode::REL => REL::execute(cpu, io),
            AddrMode::ABS => ABS::execute(cpu, io),
            AddrMode::ABX => ABX::execute(cpu, io),
            AddrMode::ABY => ABY::execute(cpu, io),
            AddrMode::IND => IND::execute(cpu, io),
            AddrMode::IZX => IZX::execute(cpu, io),
            AddrMode::IZY => IZY::execute(cpu, io),
        }
    }

    /// Runs this instruction's operation; the result reports whether the
    /// operation may cost an extra cycle.
    pub fn execute_operator(&self, cpu: &mut Cpu6502, io: &mut Bus) -> (r: u8)
        requires
            old(io).wf(),
        ensures
            final(io).wf(),
            *final(cpu) == oper_spec(self.operator, *old(cpu), old(io)@).0,
            final(io)@ == oper_spec(self.operator, *old(cpu), old(io)@).1,
            r == oper_spec(self.operator, *old(cpu), old(io)@).2,
    {
        proof {
            reveal(oper_spec);
        }
        match self.operator {
            Operator::ADC => ADC::execute(cpu, io),
            Operator::SBC => SBC::execute(cpu, io),
            Operator::AND => AND::execute(cpu, io),
            Operator::ASL => ASL::execute(cpu, io),
            Operator::BCC => BCC::execute(cpu, io),
            Operator::BCS => BCS::execute(cpu, io),
            Operator::BEQ => BEQ::execute(cpu, io),
            Operator::BIT => BIT::execute(cpu, io),
            Operator::BMI => BMI::execute(cpu, io),
            Operator::BNE => BNE::execute(cpu, io),
            Operator::BPL => BPL::execute(cpu, io),
            Operator::BRK => BRK::execute(cpu, io),
            Operator::BVC => BVC::execute(cpu, io),
            Operator::BVS => BVS::execute(cpu, io),
            Operator::CLC => CLC::execute(cpu, io),
            Operator::CLD => CLD::execute(cpu, io),
            Operator::CLI => CLI::execute(cpu, io),
            Operator::CLV => CLV::execute(cpu, io),
            Operator::CMP => CMP::execute(cpu, io),
            Operator::CPX => CPX::execute(cpu, io),
            Operator::CPY => CPY::execute(cpu, io),
            Operator::DEC => DEC::execute(cpu, io),
            Operator::DEX => DEX::execute(cpu, io),
            Operator::DEY => DEY::execute(cpu, io),
            Operator::EOR => EOR::execute(cpu, io),
            Operator::INC => INC::execute(cpu, io),
            Operator::INX => INX::execute(cpu, io),
            Operator::INY => INY::execute(cpu, io),
            Operator::JMP => JMP::execute(cpu, io),
            Operator::JSR => JSR::execute(cpu, io),
            Operator::LDA => LDA::execute(cpu, io),
            Operator::LDX => LDX::execute(cpu, io),
            Operator::LDY => LDY::execute(cpu, io),
            Operator::LSR => LSR::execute(cpu, io),
            Operator::NOP => NOP::execute(cpu, io),
            Operator::ORA => ORA::execute(cpu, io),
            Operator::PHA => PHA::execute(cpu, io),
            Operator::PHP => PHP::execute(cpu, io),
            Operator::PLA => PLA::execute(cpu, io),
            Operator::PLP => PLP::execute(cpu, io),
            Operator::ROL => ROL::execute(cpu, io),
            Operator::ROR => ROR::execute(cpu, io),
            Operator::RTI => RTI::execute(cpu, io),
            Operator::RTS => RTS::execute(cpu, io),
            Operator::SEC => SEC::execute(cpu, io),
            Operator::SED => SED::execute(cpu, io),
            Operator::SEI => SEI::execute(cpu, io),
            Operator::STA => STA::execute(cpu, io),
            Operator::STX => STX::execute(cpu, io),
            Operator::STY => STY::execute(cpu, io),
            Operator::TAX => TAX::execute(cpu, io),
            Operator::TAY => TAY::execute(cpu, io),
            Operator::TSX => TSX::execute(cpu, io),
            Operator::TXA => TXA::execute(cpu, io),
            Operator::TXS => TXS::execute(cpu, io),
            Operator::TYA => TYA::execute(cpu, io),
            Operator::XXX => XXX::execute(cpu, io),
        }
    }
}

} // verus!
