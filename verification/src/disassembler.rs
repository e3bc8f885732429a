use std::collections::HashMap;

use vstd::prelude::*;

use crate::addrmode::AddrMode;
use crate::bus::Bus;
use crate::instruction::Instruction;

verus! {

/// The base-16 digits of `n`, least significant first, `d` of them.
pub open spec fn nibbles_of(n: int, d: nat) -> Seq<u8>
    decreases d,
{
    if d == 0 {
        Seq::empty()
    } else {
        seq![(n % 16) as u8] + nibbles_of(n / 16, (d - 1) as nat)
    }
}

/// The character that prints one base-16 digit.
pub open spec fn hex_digit_char(v: u8) -> char {
    if v == 0 {
        '0'
    } else if v == 1 {
        '1'
    } else if v == 2 {
        '2'
    } else if v == 3 {
        '3'
    } else if v == 4 {
        '4'
    } else if v == 5 {
        '5'
    } else if v == 6 {
        '6'
    } else if v == 7 {
        '7'
    } else if v == 8 {
        '8'
    } else if v == 9 {
        '9'
    } else if v == 10 {
        'A'
    } else if v == 11 {
        'B'
    } else if v == 12 {
        'C'
    } else if v == 13 {
        'D'
    } else if v == 14 {
        'E'
    } else {
        'F'
    }
}

/// One base-16 digit as text.
pub(crate) fn hex_digit_str(v: u8) -> (r: &'static str)
    requires
        v < 16,
    ensures
        r@ =~= seq![hex_digit_char(v)],
{
    proof {
        reveal_strlit("0");
        reveal_strlit("1");
        reveal_strlit("2");
        reveal_strlit("3");
        reveal_strlit("4");
        reveal_strlit("5");
        reveal_strlit("6");
        reveal_strlit("7");
        reveal_strlit("8");
        reveal_strlit("9");
        reveal_strlit("A");
        reveal_strlit("B");
        reveal_strlit("C");
        reveal_strlit("D");
        reveal_strlit("E");
        reveal_strlit("F");
    }
    match v {
        0 => "0",
        1 => "1",
        2 => "2",
        3 => "3",
        4 => "4",
        5 => "5",
        6 => "6",
        7 => "7",
        8 => "8",
        9 => "9",
        10 => "A",
        11 => "B",
        12 => "C",
        13 => "D",
        14 => "E",
        _ => "F",
    }
}

/// Renders memory as text for a debugging collaborator: one line per
/// decoded instruction, and a map from each line's start address to its
/// index among the lines.
pub struct Disassembler;

impl Disassembler {
    /// Decodes the address range through side-effect-free bus inspection.
    /// Every key of the returned map is an address inside the range at
    /// which a line starts, and it maps to a valid index into the lines;
    /// there is exactly one map entry per line.
    pub fn dissassemble(start_addr: u16, end_addr: u16, bus: &Bus) -> (r: (
        HashMap<u16, u16>,
        Vec<String>,
    ))
        requires
            bus.wf(),
        ensures
            r.1@.len() == r.0@.dom().len(),
            r.1@.len() <= 0x10002,
            forall|k: u16| #[trigger]
                r.0@.contains_key(k) ==> r.0@[k] < r.1@.len() && start_addr <= k && k as u32
                    <= end_addr as u32,
    {
        proof {
            broadcast use vstd::std_specs::hash::axiom_u16_obeys_hash_table_key_model;
        }
        let mut lines_map: HashMap<u16, u16> = HashMap::new();
        let mut instructions: Vec<String> = Vec::new();
        let mut instr_index: usize = 0;
        let mut addr: u32 = start_addr as u32;
        while addr <= end_addr as u32
            invariant
                bus.wf(),
                start_addr as u32 <= addr,
                addr <= 0x10002,
                instructions@.len() == instr_index,
                instr_index <= addr - start_addr,
                lines_map@.dom().finite(),
                lines_map@.dom().len() == instr_index,
                forall|k: u16| #[trigger]
                    lines_map@.contains_key(k) ==> lines_map@[k] < instr_index && start_addr <= k
                        && (k as u32) < addr && (k as u32) <= end_addr as u32,
                vstd::std_specs::hash::obeys_key_model::<u16>(),
            decreases (if addr <= end_addr as u32 {
                end_addr as u32 + 1 - addr
            } else {
                0int
            }),
        {
            let line_addr: u16 = addr as u16;
            let mut line = String::new();
            line.append("0x");
            line.append(Disassembler::hex(addr, 4).as_str());
            line.append(": ");
            let opcode: u8 = bus.cpu_peek(addr as u16);
            addr = addr + 1;
            let instr = Instruction::from_opcode(opcode);
            line.append(instr.get_name());
            line.append(" ");
            match instr.get_addrmode() {
                AddrMode::IMP => {
                    line.append(" {IMP}");
                },
                AddrMode::IMM => {
                    let value = bus.cpu_peek(addr as u16);
                    addr = addr + 1;
                    line.append("#0x");
                    line.append(Disassembler::hex(value as u32, 2).as_str());
                    line.append(" {IMM}");
                },
                AddrMode::ZP0 => {
                    let lo = bus.cpu_peek(addr as u16);
                    addr = addr + 1;
                    line.append("0x");
                    line.append(Disassembler::hex(lo as u32, 2).as_str());
                    line.append(" {ZP0}");
                },
                AddrMode::ZPX => {
                    let lo = bus.cpu_peek(addr as u16);
                    addr = addr + 1;
                    line.append("0x");
                    line.append(Disassembler::hex(lo as u32, 2).as_str());
                    line.append(", X {ZPX}");
                },
                AddrMode::ZPY => {
                    let lo = bus.cpu_peek(addr as u16);
                    addr = addr + 1;
                    line.append("0x");
                    line.append(Disassembler::hex(lo as u32, 2).as_str());
                    line.append(", Y {ZPY}");
                },
                AddrMode::REL => {
                    let value = bus.cpu_peek(addr as u16);
                    addr = addr + 1;
                    let dest: u32 = if value >= 0x80 {
                        addr.wrapping_sub(256 - value as u32)
                    } else {
                        addr + value as u32
                    };
                    line.append("0x");
                    line.append(Disassembler::hex(value as u32, 2).as_str());
                    line.append(" [0x");
                    line.append(Disassembler::hex(dest, 4).as_str());
                    line.append("] {REL}");
                },
                AddrMode::ABS => {
                    let lo = bus.cpu_peek(addr as u16);
                    addr = addr + 1;
                    let hi = bus.cpu_peek(addr as u16);
                    addr = addr + 1;
                    line.append("0x");
                    line.append(Disassembler::hex(hi as u32 * 256 + lo as u32, 4).as_str());
                    line.append(" {ABS}");
                },
                AddrMode::ABX => {
                    let lo = bus.cpu_peek(addr as u16);
                    addr = addr + 1;
                    let hi = bus.cpu_peek(addr as u16);
                    addr = addr + 1;
                    line.append("0x");
                    line.append(Disassembler::hex(hi as u32 * 256 + lo as u32, 4).as_str());
                    line.append(", X {ABX}");
                },
                AddrMode::ABY => {
                    let lo = bus.cpu_peek(addr as u16);
                    addr = addr + 1;
                    let hi = bus.cpu_peek(addr as u16);
                    addr = addr + 1;
                    line.append("0x");
                    line.append(Disassembler::hex(hi as u32 * 256 + lo as u32, 4).as_str());
                    line.append(", Y {ABY}");
                },
                AddrMode::IND => {
                    let lo = bus.cpu_peek(addr as u16);
                    addr = addr + 1;
                    let hi = bus.cpu_peek(addr as u16);
                    addr = addr + 1;
                    line.append("0x");
                    line.append(Disassembler::hex(hi as u32 * 256 + lo as u32, 4).as_str());
                    line.append(" {IND}");
                },
                AddrMode::IZX => {
                    let lo = bus.cpu_peek(addr as u16);
                    addr = addr + 1;
                    line.append("(0x");
                    line.append(Disassembler::hex(lo as u32, 2).as_str());
                    line.append(", X) {IZX}");
                },
                AddrMode::IZY => {
                    let lo = bus.cpu_peek(addr as u16);
                    addr = addr + 1;
                    line.append("(0x");
                    line.append(Disassembler::hex(lo as u32, 2).as_str());
                    line.append(", Y) {IZY}");
                },
            }
            instructions.push(line);
            lines_map.insert(line_addr, instr_index as u16);
            instr_index = instr_index + 1;
        }
        (lines_map, instructions)
    }

    /// The low `d` base-16 digits of `n`, most significant first.
    pub fn hex(n: u32, d: u8) -> (r: String)
        ensures
            r@.len() == d as int,
            forall|k: int|
                0 <= k < d ==> r@[k] == hex_digit_char(
                    nibbles_of(n as int, d as nat)[d - 1 - k],
                ),
    {
        let ghost all = nibbles_of(n as int, d as nat);
        let mut digits: Vec<u8> = Vec::new();
        let mut number: u32 = n;
        let mut i: u8 = 0;
        while i < d
            invariant
                i <= d,
                digits@.len() == i as int,
                digits@ + nibbles_of(number as int, (d - i) as nat) =~= all,
                forall|t: int| 0 <= t < i ==> digits@[t] < 16,
            decreases d - i,
        {
            digits.push((number % 16) as u8);
            number = number / 16;
            i = i + 1;
        }
        proof {
            assert(digits@ =~= all);
        }
        let mut hex: String = String::new();
        let mut j: u8 = d;
        while j > 0
            invariant
                j <= d,
                digits@.len() == d as int,
                digits@ =~= all,
                forall|t: int| 0 <= t < d ==> digits@[t] < 16,
                hex@.len() == d - j,
                forall|k: int| 0 <= k < d - j ==> hex@[k] == hex_digit_char(all[d - 1 - k]),
            decreases j,
        {
            j = j - 1;
            hex.append(hex_digit_str(digits[j as usize]));
        }
        hex
    }
}

} // verus!
