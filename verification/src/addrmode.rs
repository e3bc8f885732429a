use vstd::prelude::*;

use crate::addr_utils::{mk16, page, wrap16};
use crate::bus::{bus_read_post, bus_read_val, Bus, BusV};
use crate::cpu6502::Cpu6502;

verus! {

/// The twelve addressing modes of the processor.
#[derive(Clone, Copy)]
pub enum AddrMode {
    IMP,
    IMM,
    ZP0,
    ZPX,
    ZPY,
    REL,
    ABS,
    ABX,
    ABY,
    IND,
    IZX,
    IZY,
}

/// Implicit: the operand, if any, is the accumulator; nothing is consumed.
pub open spec fn imp_spec(c: Cpu6502, b: BusV) -> (Cpu6502, BusV, u8) {
    (Cpu6502 { fetched: c.a, ..c }, b, 0)
}

/// Immediate: the operand is the byte after the opcode.
pub open spec fn imm_spec(c: Cpu6502, b: BusV) -> (Cpu6502, BusV, u8) {
    (Cpu6502 { addr_abs: c.pc, pc: wrap16(c.pc + 1), ..c }, b, 0)
}

/// Zero page: one address byte, high byte forced to zero.
pub open spec fn zp0_spec(c: Cpu6502, b: BusV) -> (Cpu6502, BusV, u8) {
    let v = bus_read_val(b, c.pc);
    let b1 = bus_read_post(b, c.pc);
    (Cpu6502 { addr_abs: v as u16, pc: wrap16(c.pc + 1), ..c }, b1, 0)
}

/// Zero page indexed by X, wrapping inside the zero page.
pub open spec fn zpx_spec(c: Cpu6502, b: BusV) -> (Cpu6502, BusV, u8) {
    let v = bus_read_val(b, c.pc);
    let b1 = bus_read_post(b, c.pc);
    (Cpu6502 { addr_abs: (((v + c.x) as int) % 0x100) as u16, pc: wrap16(c.pc + 1), ..c }, b1, 0)
}

/// Zero page indexed by Y, wrapping inside the zero page.
pub open spec fn zpy_spec(c: Cpu6502, b: BusV) -> (Cpu6502, BusV, u8) {
    let v = bus_read_val(b, c.pc);
    let b1 = bus_read_post(b, c.pc);
    (Cpu6502 { addr_abs: (((v + c.y) as int) % 0x100) as u16, pc: wrap16(c.pc + 1), ..c }, b1, 0)
}

/// Relative: a signed 8-bit offset, sign-extended to 16 bits.
pub open spec fn rel_spec(c: Cpu6502, b: BusV) -> (Cpu6502, BusV, u8) {
    let v = bus_read_val(b, c.pc);
    let b1 = bus_read_post(b, c.pc);
    let rel = if v >= 0x80 {
        (0xFF00 + v) as u16
    } else {
        v as u16
    };
    (Cpu6502 { addr_rel: rel, pc: wrap16(c.pc + 1), ..c }, b1, 0)
}

/// Absolute: a full 16-bit address, low byte first.
pub open spec fn abs_spec(c: Cpu6502, b: BusV) -> (Cpu6502, BusV, u8) {
    let lo = bus_read_val(b, c.pc);
    let b1 = bus_read_post(b, c.pc);
    let pc1 = wrap16(c.pc + 1);
    let hi = bus_read_val(b1, pc1);
    let b2 = bus_read_post(b1, pc1);
    (Cpu6502 { addr_abs: mk16(hi, lo), pc: wrap16(pc1 + 1), ..c }, b2, 0)
}

/// Absolute indexed by X; signals an extra cycle when indexing crosses a
/// 256-byte page.
pub open spec fn abx_spec(c: Cpu6502, b: BusV) -> (Cpu6502, BusV, u8) {
    let lo = bus_read_val(b, c.pc);
    let b1 = bus_read_post(b, c.pc);
    let pc1 = wrap16(c.pc + 1);
    let hi = bus_read_val(b1, pc1);
    let b2 = bus_read_post(b1, pc1);
    let addr = wrap16(mk16(hi, lo) + c.x);
    let extra: u8 = if page(addr) != hi {
        1
    } else {
        0
    };
    (Cpu6502 { addr_abs: addr, pc: wrap16(pc1 + 1), ..c }, b2, extra)
}

/// Absolute indexed by Y; signals an extra cycle when indexing crosses a
/// 256-byte page.
pub open spec fn aby_spec(c: Cpu6502, b: BusV) -> (Cpu6502, BusV, u8) {
    let lo = bus_read_val(b, c.pc);
    let b1 = bus_read_post(b, c.pc);
    let pc1 = wrap16(c.pc + 1);
    let hi = bus_read_val(b1, pc1);
    let b2 = bus_read_post(b1, pc1);
    let addr = wrap16(mk16(hi, lo) + c.y);
    let extra: u8 = if page(addr) != hi {
        1
    } else {
        0
    };
    (Cpu6502 { addr_abs: addr, pc: wrap16(pc1 + 1), ..c }, b2, extra)
}

/// Indirect, reproducing the page-wrap addressing quirk: when the pointer's
/// low byte is 0xFF the target's high byte is fetched from the start of the
/// same page rather than the next one.
pub open spec fn ind_spec(c: Cpu6502, b: BusV) -> (Cpu6502, BusV, u8) {
    let ptr_lo = bus_read_val(b, c.pc);
    let b1 = bus_read_post(b, c.pc);
    let pc1 = wrap16(c.pc + 1);
    let ptr_hi = bus_read_val(b1, pc1);
    let b2 = bus_read_post(b1, pc1);
    let ptr = mk16(ptr_hi, ptr_lo);
    let hi_at = if ptr_lo == 0xFF {
        (ptr_hi * 256) as u16
    } else {
        (ptr + 1) as u16
    };
    let hi = bus_read_val(b2, hi_at);
    let b3 = bus_read_post(b2, hi_at);
    let lo = bus_read_val(b3, ptr);
    let b4 = bus_read_post(b3, ptr);
    (Cpu6502 { addr_abs: mk16(hi, lo), pc: wrap16(pc1 + 1), ..c }, b4, 0)
}

/// Indexed indirect: the zero-page pointer is indexed by X before being
/// followed, wrapping inside the zero page.
pub open spec fn izx_spec(c: Cpu6502, b: BusV) -> (Cpu6502, BusV, u8) {
    let t = bus_read_val(b, c.pc);
    let b1 = bus_read_post(b, c.pc);
    let lo_at = (((t + c.x) as int) % 0x100) as u16;
    let hi_at = (((t + c.x + 1) as int) % 0x100) as u16;
    let lo = bus_read_val(b1, lo_at);
    let b2 = bus_read_post(b1, lo_at);
    let hi = bus_read_val(b2, hi_at);
    let b3 = bus_read_post(b2, hi_at);
    (Cpu6502 { addr_abs: mk16(hi, lo), pc: wrap16(c.pc + 1), ..c }, b3, 0)
}

/// Indirect indexed: the zero-page pointer is followed first and Y is added
/// after; signals an extra cycle on a page cross.
pub open spec fn izy_spec(c: Cpu6502, b: BusV) -> (Cpu6502, BusV, u8) {
    let t = bus_read_val(b, c.pc);
    let b1 = bus_read_post(b, c.pc);
    let lo = bus_read_val(b1, t as u16);
    let b2 = bus_read_post(b1, t as u16);
    let hi_at = (((t + 1) as int) % 0x100) as u16;
    let hi = bus_read_val(b2, hi_at);
    let b3 = bus_read_post(b2, hi_at);
    let addr = wrap16(mk16(hi, lo) + c.y);
    let extra: u8 = if page(addr) != hi {
        1
    } else {
        0
    };
    (Cpu6502 { addr_abs: addr, pc: wrap16(c.pc + 1), ..c }, b3, extra)
}

/// The resolver a mode tag selects.
pub open spec fn mode_spec(m: AddrMode, c: Cpu6502, b: BusV) -> (Cpu6502, BusV, u8) {
    match m {
        AddrMode::IMP => imp_spec(c, b),
        AddrMode::IMM => imm_spec(c, b),
        AddrMode::ZP0 => zp0_spec(c, b),
        AddrMode::ZPX => zpx_spec(c, b),
        AddrMode::ZPY => zpy_spec(c, b),
        AddrMode::REL => rel_spec(c, b),
        AddrMode::ABS => abs_spec(c, b),
        AddrMode::ABX => abx_spec(c, b),
        AddrMode::ABY => aby_spec(c, b),
        AddrMode::IND => ind_spec(c, b),
        AddrMode::IZX => izx_spec(c, b),
        AddrMode::IZY => izy_spec(c, b),
    }
}


/// No addressing-mode resolver touches the remaining-cycle count.
pub proof fn lemma_mode_cycles(m: AddrMode, c: Cpu6502, b: BusV)
    ensures
        mode_spec(m, c, b).0.cycles == c.cycles,
{
}

pub struct IMP;

impl IMP {
    pub fn execute(cpu: &mut Cpu6502, io: &mut Bus) -> (r: u8)
        requires
            old(io).wf(),
        ensures
            final(io).wf(),
            *final(cpu) == imp_spec(*old(cpu), old(io)@).0,
            final(io)@ == imp_spec(*old(cpu), old(io)@).1,
            r == imp_spec(*old(cpu), old(io)@).2,
    {
        cpu.fetched = cpu.a;
        0
    }
}

pub struct IMM;

impl IMM {
    pub fn execute(cpu: &mut Cpu6502, io: &mut Bus) -> (r: u8)
        requires
            old(io).wf(),
        ensures
            final(io).wf(),
            *final(cpu) == imm_spec(*old(cpu), old(io)@).0,
            final(io)@ == imm_spec(*old(cpu), old(io)@).1,
            r == imm_spec(*old(cpu), old(io)@).2,
    {
        cpu.addr_abs = cpu.pc;
        cpu.pc = cpu.pc.wrapping_add(1);
        0
    }
}

pub struct ZP0;

impl ZP0 {
    pub fn execute(cpu: &mut Cpu6502, io: &mut Bus) -> (r: u8)
        requires
            old(io).wf(),
        ensures
            final(io).wf(),
            *final(cpu) == zp0_spec(*old(cpu), old(io)@).0,
            final(io)@ == zp0_spec(*old(cpu), old(io)@).1,
            r == zp0_spec(*old(cpu), old(io)@).2,
    {
        cpu.addr_abs = io.cpu_read(cpu.pc) as u16;
        cpu.pc = cpu.pc.wrapping_add(1);
        cpu.addr_abs = cpu.addr_abs % 0x0100;
        0
    }
}

pub struct ZPX;

impl ZPX {
    pub fn execute(cpu: &mut Cpu6502, io: &mut Bus) -> (r: u8)
        requires
            old(io).wf(),
        ensures
            final(io).wf(),
            *final(cpu) == zpx_spec(*old(cpu), old(io)@).0,
            final(io)@ == zpx_spec(*old(cpu), old(io)@).1,
            r == zpx_spec(*old(cpu), old(io)@).2,
    {
        let v = io.cpu_read(cpu.pc);
        cpu.addr_abs = (v as u16 + cpu.x as u16) % 0x0100;
        cpu.pc = cpu.pc.wrapping_add(1);
        0
    }
}

pub struct ZPY;

impl ZPY {
    pub fn execute(cpu: &mut Cpu6502, io: &mut Bus) -> (r: u8)
        requires
            old(io).wf(),
        ensures
            final(io).wf(),
            *final(cpu) == zpy_spec(*old(cpu), old(io)@).0,
            final(io)@ == zpy_spec(*old(cpu), old(io)@).1,
            r == zpy_spec(*old(cpu), old(io)@).2,
    {
        let v = io.cpu_read(cpu.pc);
        cpu.addr_abs = (v as u16 + cpu.y as u16) % 0x0100;
        cpu.pc = cpu.pc.wrapping_add(1);
        0
    }
}

pub struct REL;

impl REL {
    pub fn execute(cpu: &mut Cpu6502, io: &mut Bus) -> (r: u8)
        requires
            old(io).wf(),
        ensures
            final(io).wf(),
            *final(cpu) == rel_spec(*old(cpu), old(io)@).0,
            final(io)@ == rel_spec(*old(cpu), old(io)@).1,
            r == rel_spec(*old(cpu), old(io)@).2,
    {
        cpu.addr_rel = io.cpu_read(cpu.pc) as u16;
        cpu.pc = cpu.pc.wrapping_add(1);
        if cpu.addr_rel >= 0x80 {
            cpu.addr_rel = 0xFF00 + cpu.addr_rel;
        }
        0
    }
}

pub struct ABS;

impl ABS {
    pub fn execute(cpu: &mut Cpu6502, io: &mut Bus) -> (r: u8)
        requires
            old(io).wf(),
        ensures
            final(io).wf(),
            *final(cpu) == abs_spec(*old(cpu), old(io)@).0,
            final(io)@ == abs_spec(*old(cpu), old(io)@).1,
            r == abs_spec(*old(cpu), old(io)@).2,
    {
        let lo: u16 = io.cpu_read(cpu.pc) as u16;
        cpu.pc = cpu.pc.wrapping_add(1);
        let hi: u16 = io.cpu_read(cpu.pc) as u16;
        cpu.pc = cpu.pc.wrapping_add(1);
        cpu.addr_abs = hi * 256 + lo;
        0
    }
}

pub struct ABX;

impl ABX {
    pub fn execute(cpu: &mut Cpu6502, io: &mut Bus) -> (r: u8)
        requires
            old(io).wf(),
        ensures
            final(io).wf(),
            *final(cpu) == abx_spec(*old(cpu), old(io)@).0,
            final(io)@ == abx_spec(*old(cpu), old(io)@).1,
            r == abx_spec(*old(cpu), old(io)@).2,
    {
        let lo: u16 = io.cpu_read(cpu.pc) as u16;
        cpu.pc = cpu.pc.wrapping_add(1);
        let hi: u16 = io.cpu_read(cpu.pc) as u16;
        cpu.pc = cpu.pc.wrapping_add(1);
        cpu.addr_abs = (hi * 256 + lo).wrapping_add(cpu.x as u16);
        if cpu.addr_abs / 256 != hi {
            1
        } else {
            0
        }
    }
}

pub struct ABY;

impl ABY {
    pub fn execute(cpu: &mut Cpu6502, io: &mut Bus) -> (r: u8)
        requires
            old(io).wf(),
        ensures
            final(io).wf(),
            *final(cpu) == aby_spec(*old(cpu), old(io)@).0,
            final(io)@ == aby_spec(*old(cpu), old(io)@).1,
            r == aby_spec(*old(cpu), old(io)@).2,
    {
        let lo: u16 = io.cpu_read(cpu.pc) as u16;
        cpu.pc = cpu.pc.wrapping_add(1);
        let hi: u16 = io.cpu_read(cpu.pc) as u16;
        cpu.pc = cpu.pc.wrapping_add(1);
        cpu.addr_abs = (hi * 256 + lo).wrapping_add(cpu.y as u16);
        if cpu.addr_abs / 256 != hi {
            1
        } else {
            0
        }
    }
}

pub struct IND;

impl IND {
    #[verifier::rlimit(100)]
    pub fn execute(cpu: &mut Cpu6502, io: &mut Bus) -> (r: u8)
        requires
            old(io).wf(),
        ensures
            final(io).wf(),
            *final(cpu) == ind_spec(*old(cpu), old(io)@).0,
            final(io)@ == ind_spec(*old(cpu), old(io)@).1,
            r == ind_spec(*old(cpu), old(io)@).2,
    {
        let ptr_lo: u16 = io.cpu_read(cpu.pc) as u16;
        cpu.pc = cpu.pc.wrapping_add(1);
        let ptr_hi: u16 = io.cpu_read(cpu.pc) as u16;
        cpu.pc = cpu.pc.wrapping_add(1);
        let ptr: u16 = ptr_hi * 256 + ptr_lo;
        if ptr_lo == 0x00FF {
            let hi: u16 = io.cpu_read(ptr_hi * 256) as u16;
            let lo: u16 = io.cpu_read(ptr) as u16;
            cpu.addr_abs = hi * 256 + lo;
        } else {
            let hi: u16 = io.cpu_read(ptr + 1) as u16;
            let lo: u16 = io.cpu_read(ptr) as u16;
            cpu.addr_abs = hi * 256 + lo;
        }
        0
    }
}

pub struct IZX;

impl IZX {
    pub fn execute(cpu: &mut Cpu6502, io: &mut Bus) -> (r: u8)
        requires
            old(io).wf(),
        ensures
            final(io).wf(),
            *final(cpu) == izx_spec(*old(cpu), old(io)@).0,
            final(io)@ == izx_spec(*old(cpu), old(io)@).1,
            r == izx_spec(*old(cpu), old(io)@).2,
    {
        let t: u16 = io.cpu_read(cpu.pc) as u16;
        cpu.pc = cpu.pc.wrapping_add(1);
        let lo: u16 = io.cpu_read((t + cpu.x as u16) % 0x0100) as u16;
        let hi: u16 = io.cpu_read((t + cpu.x as u16 + 1) % 0x0100) as u16;
        cpu.addr_abs = hi * 256 + lo;
        0
    }
}

pub struct IZY;

impl IZY {
    pub fn execute(cpu: &mut Cpu6502, io: &mut Bus) -> (r: u8)
        requires
            old(io).wf(),
        ensures
            final(io).wf(),
            *final(cpu) == izy_spec(*old(cpu), old(io)@).0,
            final(io)@ == izy_spec(*old(cpu), old(io)@).1,
            r == izy_spec(*old(cpu), old(io)@).2,
    {
        let t: u16 = io.cpu_read(cpu.pc) as u16;
        cpu.pc = cpu.pc.wrapping_add(1);
        let lo: u16 = io.cpu_read(t) as u16;
        let hi: u16 = io.cpu_read((t + 1) % 0x0100) as u16;
        cpu.addr_abs = (hi * 256 + lo).wrapping_add(cpu.y as u16);
        if cpu.addr_abs / 256 != hi {
            1
        } else {
            0
        }
    }
}

} // verus!
