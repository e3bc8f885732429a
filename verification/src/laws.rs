use vstd::prelude::*;

use crate::addr_utils::{mk16, page, wrap16};
use crate::bus::{
    bus_peek_val, bus_read_post, bus_read_val, bus_wf, bus_write_post, BusV,
};
use crate::cpu6502::{reset_spec, Cpu6502};
use crate::instruction::{instr_spec, Instruction};
use crate::mapper::{nrom_cpu_map_read, Mapper000};
use crate::operators::{bcc_spec, branch_taken_spec};
use crate::ppu2c02::{ppu_port_read_post, ppu_port_read_val};
use crate::ppu_ram::{ppu_mem_read_spec, ppu_wf, PpuV};

verus! {

/// The descriptor table is stable: any two descriptors looked up for the
/// same opcode byte agree, in particular on their cycle-count and
/// addressing-mode pair.
pub proof fn lemma_descriptor_stable(op: u8, d1: Instruction, d2: Instruction)
    requires
        d1 == instr_spec(op),
        d2 == instr_spec(op),
    ensures
        d1.cycles == d2.cycles,
        d1.addrmode == d2.addrmode,
        d1 == d2,
{
}

/// `reset` always leaves the program counter assembled from the low and
/// high bytes read at the reset vector, the stack pointer at 0xFD, and no
/// cycles remaining.
pub proof fn lemma_reset_state(c: Cpu6502, b: BusV)
    ensures
        reset_spec(c, b).0.pc == mk16(
            bus_read_val(bus_read_post(b, 0xFFFC), 0xFFFD),
            bus_read_val(b, 0xFFFC),
        ),
        reset_spec(c, b).0.stkp == 0xFD,
        reset_spec(c, b).0.cycles == 0,
{
}

/// A conditional branch that is not taken costs no extra cycle; a taken
/// branch costs one, and one more when its target lies in a different
/// 256-byte page than the instruction after the branch. Every conditional
/// branch operation routes its taken case through `branch_taken_spec`;
/// the branch on Carry clear stands here for the not-taken case.
pub proof fn lemma_branch_cost(c: Cpu6502, b: BusV)
    requires
        c.cycles <= 253,
    ensures
        page(wrap16(c.pc + c.addr_rel)) == page(c.pc) ==> branch_taken_spec(c).cycles == c.cycles
            + 1,
        page(wrap16(c.pc + c.addr_rel)) != page(c.pc) ==> branch_taken_spec(c).cycles == c.cycles
            + 2,
        crate::cpu_flags::flag_set(c.status, 0x01) ==> bcc_spec(c, b).0 == c && bcc_spec(
            c,
            b,
        ).2 == 0,
{
    reveal(branch_taken_spec);
    reveal(crate::operators::oper_spec);
}

/// RAM mirroring: two addresses of the RAM window that agree modulo 0x0800
/// are observationally identical, for reading and for writing alike.
pub proof fn lemma_ram_mirroring(b: BusV, a1: u16, a2: u16, data: u8)
    requires
        bus_wf(b),
        a1 <= 0x1FFF,
        a2 <= 0x1FFF,
        a1 % 0x0800 == a2 % 0x0800,
    ensures
        bus_read_val(b, a1) == bus_read_val(b, a2),
        bus_peek_val(b, a1) == bus_peek_val(b, a2),
        bus_read_post(b, a1) == bus_read_post(b, a2),
        bus_write_post(b, a1, data) == bus_write_post(b, a2, data),
{
    reveal(bus_read_val);
    reveal(bus_peek_val);
    reveal(bus_read_post);
    reveal(bus_write_post);
}

/// Graphics register mirroring: two addresses of the register window that
/// agree modulo 8 select the same port and are observationally identical.
pub proof fn lemma_ppu_register_mirroring(b: BusV, a1: u16, a2: u16, data: u8)
    requires
        bus_wf(b),
        0x2000 <= a1 <= 0x3FFF,
        0x2000 <= a2 <= 0x3FFF,
        a1 % 8 == a2 % 8,
    ensures
        bus_read_val(b, a1) == bus_read_val(b, a2),
        bus_peek_val(b, a1) == bus_peek_val(b, a2),
        bus_read_post(b, a1) == bus_read_post(b, a2),
        bus_write_post(b, a1, data) == bus_write_post(b, a2, data),
{
    reveal(bus_read_val);
    reveal(bus_peek_val);
    reveal(bus_read_post);
    reveal(bus_write_post);
}

/// Bank mirroring under the simplest strategy: with a single program bank,
/// an address and its image 16 KiB higher resolve to the same physical
/// offset; with two or more banks they resolve to different offsets.
pub proof fn lemma_nrom_bank_mirroring(m: Mapper000, addr: u16)
    requires
        0x8000 <= addr <= 0xBFFF,
    ensures
        m.prg_banks == 1 ==> nrom_cpu_map_read(m, addr) == nrom_cpu_map_read(
            m,
            (addr + 0x4000) as u16,
        ),
        m.prg_banks > 1 ==> nrom_cpu_map_read(m, addr) != nrom_cpu_map_read(
            m,
            (addr + 0x4000) as u16,
        ),
{
}

/// The one-read latency of the graphics data port over name-table
/// addresses: the first read hands out the stale buffer, and the second
/// read hands out the value at the originally addressed location (the
/// first read buffered it while advancing the internal address).
pub proof fn lemma_ppudata_buffered_latency(p: PpuV)
    requires
        ppu_wf(p),
        0x2000 <= p.ppu_address <= 0x3EFE,
    ensures
        ppu_port_read_val(p, 7) == p.data_buffer,
        ppu_port_read_val(ppu_port_read_post(p, 7), 7) == ppu_mem_read_spec(p, p.ppu_address),
{
}

/// No latency over palette addresses: a data-port read while the internal
/// address lies in palette range returns the freshly addressed value
/// immediately, not the stale buffer.
pub proof fn lemma_ppudata_palette_immediate(p: PpuV)
    requires
        ppu_wf(p),
        0x3F00 <= p.ppu_address <= 0x3FFF,
    ensures
        ppu_port_read_val(p, 7) == ppu_mem_read_spec(p, p.ppu_address),
{
}

} // verus!

