use std::collections::HashMap;

use vstd::prelude::*;

use crate::disassembler::{hex_digit_char, hex_digit_str, Disassembler};
use crate::nes::Nes;

verus! {

/// The character that prints one bit.
pub open spec fn bit_char(b: bool) -> char {
    if b {
        '1'
    } else {
        '0'
    }
}

/// One bit as text.
fn bit_str(b: bool) -> (r: &'static str)
    ensures
        r@ =~= seq![bit_char(b)],
{
    proof {
        reveal_strlit("0");
        reveal_strlit("1");
    }
    if b {
        "1"
    } else {
        "0"
    }
}

/// A byte rendered as its eight bits, most significant first.
fn bin_str(n: u8) -> (r: String)
    ensures
        r@ =~= seq![
            bit_char((n / 128) % 2 == 1),
            bit_char((n / 64) % 2 == 1),
            bit_char((n / 32) % 2 == 1),
            bit_char((n / 16) % 2 == 1),
            bit_char((n / 8) % 2 == 1),
            bit_char((n / 4) % 2 == 1),
            bit_char((n / 2) % 2 == 1),
            bit_char(n % 2 == 1),
        ],
{
    let mut s = String::new();
    s.append(bit_str((n / 128) % 2 == 1));
    s.append(bit_str((n / 64) % 2 == 1));
    s.append(bit_str((n / 32) % 2 == 1));
    s.append(bit_str((n / 16) % 2 == 1));
    s.append(bit_str((n / 8) % 2 == 1));
    s.append(bit_str((n / 4) % 2 == 1));
    s.append(bit_str((n / 2) % 2 == 1));
    s.append(bit_str(n % 2 == 1));
    s
}

/// A byte rendered in decimal, without leading zeros.
fn dec_str(n: u8) -> (r: String)
    ensures
        n >= 100 ==> r@ =~= seq![
            hex_digit_char((n / 100) as u8),
            hex_digit_char(((n / 10) % 10) as u8),
            hex_digit_char((n % 10) as u8),
        ],
        10 <= n < 100 ==> r@ =~= seq![
            hex_digit_char((n / 10) as u8),
            hex_digit_char((n % 10) as u8),
        ],
        n < 10 ==> r@ =~= seq![hex_digit_char(n)],
{
    let mut s = String::new();
    if n >= 100 {
        s.append(hex_digit_str(n / 100));
        s.append(hex_digit_str((n / 10) % 10));
        s.append(hex_digit_str(n % 10));
    } else if n >= 10 {
        s.append(hex_digit_str(n / 10));
        s.append(hex_digit_str(n % 10));
    } else {
        s.append(hex_digit_str(n));
    }
    s
}

/// The debugger's view of the machine: a cached full-range disassembly and
/// the text panels a stepping front end shows. Everything is read through
/// passive inspection, so looking at the machine never disturbs it.
pub struct CpuDebug {
    pub debug_dissassembly: (HashMap<u16, u16>, Vec<String>),
}

impl CpuDebug {
    /// Every cached map entry indexes a cached line.
    pub open spec fn wf(&self) -> bool {
        &&& self.debug_dissassembly.1@.len() <= 0x10002
        &&& forall|k: u16| #[trigger]
            self.debug_dissassembly.0@.contains_key(k)
                ==> self.debug_dissassembly.0@[k] < self.debug_dissassembly.1@.len()
    }

    pub fn new(nes: &Nes) -> (r: CpuDebug)
        requires
            nes.wf(),
        ensures
            r.wf(),
    {
        CpuDebug { debug_dissassembly: Disassembler::dissassemble(0x0000, 0xFFFF, &nes.bus) }
    }

    /// Rebuilds the cached disassembly, after self-modifying code or a
    /// cartridge change has made it stale.
    pub fn redissassamble(&mut self, nes: &Nes)
        requires
            nes.wf(),
        ensures
            final(self).wf(),
    {
        self.debug_dissassembly = Disassembler::dissassemble(0x0000, 0xFFFF, &nes.bus);
    }

    /// The disassembly panel: a fixed window of lines around the current
    /// program counter, padded where the window leaves the cache.
    pub fn get_debug_code(&mut self, nes: &Nes) -> (r: String)
        requires
            old(self).wf(),
            nes.wf(),
        ensures
            final(self).wf(),
    {
        proof {
            broadcast use vstd::std_specs::hash::axiom_u16_obeys_hash_table_key_model;
            broadcast use vstd::std_specs::hash::axiom_random_state_builds_valid_hashers;
            broadcast use vstd::std_specs::hash::axiom_maps_deref_key_to_value;
            broadcast use vstd::std_specs::hash::axiom_contains_deref_key;
        }
        let range: usize = 12;
        let mut out = String::new();
        let pc = nes.cpu.pc;
        if !self.debug_dissassembly.0.contains_key(&pc) {
            self.redissassamble(nes);
        }
        let pc_index: usize = match self.debug_dissassembly.0.get(&pc) {
            Some(i) => *i as usize,
            None => {
                return "--- Dissassembly Error ---".to_owned();
            },
        };
        let total: usize = self.debug_dissassembly.1.len();

        let pre_buffer: usize = if pc_index < range {
            range - pc_index
        } else {
            0
        };
        let mut k: usize = 0;
        while k < pre_buffer
            invariant
                k <= pre_buffer,
            decreases pre_buffer - k,
        {
            out.append("-----------------------\n");
            k = k + 1;
        }

        let mut i: usize = 1;
        while i < range + 1
            invariant
                pc_index < self.debug_dissassembly.1@.len(),
                range == 12,
                1 <= i <= range + 1,
            decreases range + 1 - i,
        {
            if pc_index >= range + 1 - i {
                let instr: usize = pc_index - (range + 1 - i);
                out.append(self.debug_dissassembly.1[instr].as_str());
                out.append("\n");
            }
            i = i + 1;
        }

        out.append("> ");
        out.append(self.debug_dissassembly.1[pc_index].as_str());
        out.append("\n");

        let mut i: usize = 1;
        while i < range + 1
            invariant
                pc_index < self.debug_dissassembly.1@.len(),
                self.debug_dissassembly.1@.len() <= 0x10002,
                total == self.debug_dissassembly.1@.len(),
                range == 12,
                1 <= i <= range + 1,
            decreases range + 1 - i,
        {
            if pc_index + i < total {
                let instr: usize = pc_index + i;
                out.append(self.debug_dissassembly.1[instr].as_str());
                out.append("\n");
            }
            i = i + 1;
        }

        let post_buffer: usize = if total <= pc_index + range {
            (pc_index + range) - total + 1
        } else {
            0
        };
        let mut k: usize = 0;
        while k < post_buffer
            invariant
                k <= post_buffer,
            decreases post_buffer - k,
        {
            out.append("-----------------------\n");
            k = k + 1;
        }

        out
    }

    /// The register panel: the packed status byte in binary, the program
    /// counter, the three registers in base 16 and decimal, and the stack
    /// pointer.
    pub fn get_debug_registers(&self, nes: &Nes) -> (r: String) {
        let mut out = String::new();
        out.append("Status: ");
        out.append(bin_str(nes.cpu.status).as_str());
        out.append("\n");
        out.append("PC: 0x");
        out.append(Disassembler::hex(nes.cpu.pc as u32, 4).as_str());
        out.append("\n");
        out.append("A: 0x");
        out.append(Disassembler::hex(nes.cpu.a as u32, 2).as_str());
        out.append(" [");
        out.append(dec_str(nes.cpu.a).as_str());
        out.append("]");
        out.append("\n");
        out.append("X: 0x");
        out.append(Disassembler::hex(nes.cpu.x as u32, 2).as_str());
        out.append(" [");
        out.append(dec_str(nes.cpu.x).as_str());
        out.append("]");
        out.append("\n");
        out.append("Y: 0x");
        out.append(Disassembler::hex(nes.cpu.y as u32, 2).as_str());
        out.append(" [");
        out.append(dec_str(nes.cpu.y).as_str());
        out.append("]");
        out.append("\n");
        out.append("StackPtr: 0x");
        out.append(Disassembler::hex(nes.cpu.stkp as u32, 4).as_str());
        out
    }

    /// The memory panel: a hex dump of `rows` by `cols` bytes starting at
    /// `start`, read through passive inspection.
    pub fn get_debug_ram(&self, nes: &Nes, start: u16, rows: u32, cols: u32) -> (r: String)
        requires
            nes.wf(),
    {
        let mut out = String::new();
        let mut offset: u16 = 0;
        let mut row: u32 = 0;
        while row < rows
            invariant
                nes.wf(),
            decreases rows - row,
        {
            out.append("0x");
            out.append(Disassembler::hex(start.wrapping_add(offset) as u32, 4).as_str());
            out.append(":");
            let mut col: u32 = 0;
            while col < cols
                invariant
                    nes.wf(),
                decreases cols - col,
            {
                out.append(" ");
                out.append(
                    Disassembler::hex(
                        nes.bus.cpu_peek(start.wrapping_add(offset)) as u32,
                        2,
                    ).as_str(),
                );
                offset = offset.wrapping_add(1);
                col = col + 1;
            }
            out.append("\n");
            row = row + 1;
        }
        out
    }
}

} // verus!
