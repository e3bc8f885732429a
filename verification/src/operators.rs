use vstd::prelude::*;

use crate::addr_utils::{hi8, lo8, mk16, page, wrap16, wrap8};
use crate::addrmode::AddrMode;
use crate::bus::{bus_read_post, bus_read_val, bus_write_post, Bus, BusV};
use crate::cpu6502::{fetch_spec, pull_spec, push_spec, Cpu6502};
use crate::cpu_flags::{apply_flag, carry_of, flag_set, with_flag, with_zn, CpuFlags};
use crate::instruction::{instr_spec, Instruction};

verus! {

/// The closed set of operation kinds the instruction table dispatches on;
/// undocumented opcodes map to the explicit placeholder `XXX`.
pub enum Operator {
    ADC,
    SBC,
    AND,
    ASL,
    BCC,
    BCS,
    BEQ,
    BIT,
    BMI,
    BNE,
    BPL,
    BRK,
    BVC,
    BVS,
    CLC,
    CLD,
    CLI,
    CLV,
    CMP,
    CPX,
    CPY,
    DEC,
    DEX,
    DEY,
    EOR,
    INC,
    INX,
    INY,
    JMP,
    JSR,
    LDA,
    LDX,
    LDY,
    LSR,
    NOP,
    ORA,
    PHA,
    PHP,
    PLA,
    PLP,
    ROL,
    ROR,
    RTI,
    RTS,
    SEC,
    SED,
    SEI,
    STA,
    STX,
    STY,
    TAX,
    TAY,
    TSX,
    TXA,
    TXS,
    TYA,
    XXX,
}

/// A taken conditional branch: one extra cycle, and one more when the
/// target lies in a different 256-byte page than the instruction after the
/// branch.
#[verifier::opaque]
pub open spec fn branch_taken_spec(c: Cpu6502) -> Cpu6502 {
    let dest = wrap16(c.pc + c.addr_rel);
    let cyc = if page(dest) != page(c.pc) {
        wrap8(c.cycles + 2)
    } else {
        wrap8(c.cycles + 1)
    };
    Cpu6502 { cycles: cyc, addr_abs: dest, pc: dest, ..c }
}

/// Add the fetched operand and the Carry flag to the accumulator. Overflow follows the documented two's-complement rule: the operands agree in sign and the result does not. The Decimal flag is ignored, as this console's processor variant has no binary-coded-decimal mode.
pub open spec fn adc_spec(c: Cpu6502, b: BusV) -> (Cpu6502, BusV, u8) {
    let (c1, b1) = fetch_spec(c, b);
    let sum = c1.a + c1.fetched + carry_of(c1.status);
    let res = wrap8(sum);
    let st = with_flag(c1.status, 0x01, sum > 255);
    let st = with_flag(st, 0x02, res == 0);
    let st = with_flag(st, 0x40, (c1.a >= 0x80) == (c1.fetched >= 0x80) && (c1.a >= 0x80) != (res >= 0x80));
    let st = with_flag(st, 0x80, res >= 0x80);
    (Cpu6502 { a: res, temp: sum as u16, status: st, ..c1 }, b1, 1)
}

/// Subtract the fetched operand from the accumulator with borrow, as addition of the operand's complement; the Decimal flag is ignored.
pub open spec fn sbc_spec(c: Cpu6502, b: BusV) -> (Cpu6502, BusV, u8) {
    let (c1, b1) = fetch_spec(c, b);
    let value = (255 - c1.fetched) as u8;
    let sum = c1.a + value + carry_of(c1.status);
    let res = wrap8(sum);
    let st = with_flag(c1.status, 0x01, sum > 255);
    let st = with_flag(st, 0x02, res == 0);
    let st = with_flag(st, 0x40, (res >= 0x80) != (c1.a >= 0x80) && (res >= 0x80) != (value >= 0x80));
    let st = with_flag(st, 0x80, res >= 0x80);
    (Cpu6502 { a: res, temp: sum as u16, status: st, ..c1 }, b1, 1)
}

/// Bitwise conjunction of the accumulator with the fetched operand.
pub open spec fn and_spec(c: Cpu6502, b: BusV) -> (Cpu6502, BusV, u8) {
    let (c1, b1) = fetch_spec(c, b);
    let v = c1.a & c1.fetched;
    (Cpu6502 { a: v, status: with_zn(c1.status, v), ..c1 }, b1, 1)
}

/// Arithmetic shift left of the operand: on the implicit mode the accumulator, otherwise the addressed memory cell.
pub open spec fn asl_spec(c: Cpu6502, b: BusV) -> (Cpu6502, BusV, u8) {
    let (c1, b1) = fetch_spec(c, b);
    let t = (c1.fetched * 2) as u16;
    let st = with_flag(c1.status, 0x01, t > 255);
    let st = with_flag(st, 0x02, lo8(t) == 0);
    let st = with_flag(st, 0x80, lo8(t) >= 0x80);
    let c2 = Cpu6502 { temp: t, status: st, ..c1 };
    if instr_spec(c1.opcode).addrmode is IMP {
        (Cpu6502 { a: lo8(t), ..c2 }, b1, 0)
    } else {
        (c2, bus_write_post(b1, c1.addr_abs, lo8(t)), 0)
    }
}

/// Branch when Carry clear.
pub open spec fn bcc_spec(c: Cpu6502, b: BusV) -> (Cpu6502, BusV, u8) {
    (
        if !flag_set(c.status, 0x01) {
            branch_taken_spec(c)
        } else {
            c
        },
        b,
        0,
    )
}

/// Branch when Carry set.
pub open spec fn bcs_spec(c: Cpu6502, b: BusV) -> (Cpu6502, BusV, u8) {
    (
        if flag_set(c.status, 0x01) {
            branch_taken_spec(c)
        } else {
            c
        },
        b,
        0,
    )
}

/// Branch when Zero set.
pub open spec fn beq_spec(c: Cpu6502, b: BusV) -> (Cpu6502, BusV, u8) {
    (
        if flag_set(c.status, 0x02) {
            branch_taken_spec(c)
        } else {
            c
        },
        b,
        0,
    )
}

/// Bit test: Zero from the conjunction with the accumulator, Negative and Overflow copied from bits 7 and 6 of the operand.
pub open spec fn bit_spec(c: Cpu6502, b: BusV) -> (Cpu6502, BusV, u8) {
    let (c1, b1) = fetch_spec(c, b);
    let t = (c1.a & c1.fetched) as u16;
    let st = with_flag(c1.status, 0x02, lo8(t) == 0);
    let st = with_flag(st, 0x80, c1.fetched >= 0x80);
    let st = with_flag(st, 0x40, (c1.fetched / 64) % 2 == 1);
    (Cpu6502 { temp: t, status: st, ..c1 }, b1, 0)
}

/// Branch when Negative set.
pub open spec fn bmi_spec(c: Cpu6502, b: BusV) -> (Cpu6502, BusV, u8) {
    (
        if flag_set(c.status, 0x80) {
            branch_taken_spec(c)
        } else {
            c
        },
        b,
        0,
    )
}

/// Branch when Zero clear.
pub open spec fn bne_spec(c: Cpu6502, b: BusV) -> (Cpu6502, BusV, u8) {
    (
        if !flag_set(c.status, 0x02) {
            branch_taken_spec(c)
        } else {
            c
        },
        b,
        0,
    )
}

/// Branch when Negative clear.
pub open spec fn bpl_spec(c: Cpu6502, b: BusV) -> (Cpu6502, BusV, u8) {
    (
        if !flag_set(c.status, 0x80) {
            branch_taken_spec(c)
        } else {
            c
        },
        b,
        0,
    )
}

/// Software interrupt: push the incremented program counter and the status byte with Break set, set InterruptDisable, and jump through the IRQ vector.
pub open spec fn brk_spec(c: Cpu6502, b: BusV) -> (Cpu6502, BusV, u8) {
    let pc1 = wrap16(c.pc + 1);
    let st1 = with_flag(c.status, 0x04, true);
    let (c1, b1) = push_spec(Cpu6502 { pc: pc1, status: st1, ..c }, b, hi8(pc1));
    let (c2, b2) = push_spec(c1, b1, lo8(pc1));
    let st2 = with_flag(st1, 0x10, true);
    let (c3, b3) = push_spec(Cpu6502 { status: st2, ..c2 }, b2, st2);
    let lo = bus_read_val(b3, 0xFFFE);
    let b4 = bus_read_post(b3, 0xFFFE);
    let hi = bus_read_val(b4, 0xFFFF);
    let b5 = bus_read_post(b4, 0xFFFF);
    (Cpu6502 { status: with_flag(st2, 0x10, false), pc: mk16(hi, lo), ..c3 }, b5, 0)
}

/// Branch when Overflow clear.
pub open spec fn bvc_spec(c: Cpu6502, b: BusV) -> (Cpu6502, BusV, u8) {
    (
        if !flag_set(c.status, 0x40) {
            branch_taken_spec(c)
        } else {
            c
        },
        b,
        0,
    )
}

/// Branch when Overflow set.
pub open spec fn bvs_spec(c: Cpu6502, b: BusV) -> (Cpu6502, BusV, u8) {
    (
        if flag_set(c.status, 0x40) {
            branch_taken_spec(c)
        } else {
            c
        },
        b,
        0,
    )
}

/// Clear the Carry flag.
pub open spec fn clc_spec(c: Cpu6502, b: BusV) -> (Cpu6502, BusV, u8) {
    (Cpu6502 { status: with_flag(c.status, 0x01, false), ..c }, b, 0)
}

/// Clear the Decimal flag.
pub open spec fn cld_spec(c: Cpu6502, b: BusV) -> (Cpu6502, BusV, u8) {
    (Cpu6502 { status: with_flag(c.status, 0x08, false), ..c }, b, 0)
}

/// Clear the InterruptDisable flag.
pub open spec fn cli_spec(c: Cpu6502, b: BusV) -> (Cpu6502, BusV, u8) {
    (Cpu6502 { status: with_flag(c.status, 0x04, false), ..c }, b, 0)
}

/// Clear the Overflow flag.
pub open spec fn clv_spec(c: Cpu6502, b: BusV) -> (Cpu6502, BusV, u8) {
    (Cpu6502 { status: with_flag(c.status, 0x40, false), ..c }, b, 0)
}

/// Compare the accumulator with the fetched operand as an unsigned subtraction: Carry is set when the register is at least the operand.
pub open spec fn cmp_spec(c: Cpu6502, b: BusV) -> (Cpu6502, BusV, u8) {
    let (c1, b1) = fetch_spec(c, b);
    let t = wrap16(c1.a - c1.fetched);
    let st = with_flag(c1.status, 0x01, c1.a >= c1.fetched);
    let st = with_flag(st, 0x02, lo8(t) == 0);
    let st = with_flag(st, 0x80, lo8(t) >= 0x80);
    (Cpu6502 { temp: t, status: st, ..c1 }, b1, 1)
}

/// Compare index X with the fetched operand as an unsigned subtraction: Carry is set when the register is at least the operand.
pub open spec fn cpx_spec(c: Cpu6502, b: BusV) -> (Cpu6502, BusV, u8) {
    let (c1, b1) = fetch_spec(c, b);
    let t = wrap16(c1.x - c1.fetched);
    let st = with_flag(c1.status, 0x01, c1.x >= c1.fetched);
    let st = with_flag(st, 0x02, lo8(t) == 0);
    let st = with_flag(st, 0x80, lo8(t) >= 0x80);
    (Cpu6502 { temp: t, status: st, ..c1 }, b1, 0)
}

/// Compare index Y with the fetched operand as an unsigned subtraction: Carry is set when the register is at least the operand.
pub open spec fn cpy_spec(c: Cpu6502, b: BusV) -> (Cpu6502, BusV, u8) {
    let (c1, b1) = fetch_spec(c, b);
    let t = wrap16(c1.y - c1.fetched);
    let st = with_flag(c1.status, 0x01, c1.y >= c1.fetched);
    let st = with_flag(st, 0x02, lo8(t) == 0);
    let st = with_flag(st, 0x80, lo8(t) >= 0x80);
    (Cpu6502 { temp: t, status: st, ..c1 }, b1, 0)
}

/// Decrement the addressed memory cell, wrapping.
pub open spec fn dec_spec(c: Cpu6502, b: BusV) -> (Cpu6502, BusV, u8) {
    let (c1, b1) = fetch_spec(c, b);
    let t = wrap8(c1.fetched - 1) as u16;
    let st = with_flag(c1.status, 0x02, lo8(t) == 0);
    let st = with_flag(st, 0x80, lo8(t) >= 0x80);
    (Cpu6502 { temp: t, status: st, ..c1 }, bus_write_post(b1, c1.addr_abs, lo8(t)), 0)
}

/// Decrement index X, wrapping.
pub open spec fn dex_spec(c: Cpu6502, b: BusV) -> (Cpu6502, BusV, u8) {
    let v = wrap8(c.x - 1);
    (Cpu6502 { x: v, status: with_zn(c.status, v), ..c }, b, 0)
}

/// Decrement index Y, wrapping.
pub open spec fn dey_spec(c: Cpu6502, b: BusV) -> (Cpu6502, BusV, u8) {
    let v = wrap8(c.y - 1);
    (Cpu6502 { y: v, status: with_zn(c.status, v), ..c }, b, 0)
}

/// Bitwise exclusive disjunction of the accumulator with the fetched operand.
pub open spec fn eor_spec(c: Cpu6502, b: BusV) -> (Cpu6502, BusV, u8) {
    let (c1, b1) = fetch_spec(c, b);
    let v = c1.a ^ c1.fetched;
    (Cpu6502 { a: v, status: with_zn(c1.status, v), ..c1 }, b1, 1)
}

/// Increment the addressed memory cell, wrapping.
pub open spec fn inc_spec(c: Cpu6502, b: BusV) -> (Cpu6502, BusV, u8) {
    let (c1, b1) = fetch_spec(c, b);
    let t = (c1.fetched + 1) as u16;
    let st = with_flag(c1.status, 0x02, lo8(t) == 0);
    let st = with_flag(st, 0x80, lo8(t) >= 0x80);
    (Cpu6502 { temp: t, status: st, ..c1 }, bus_write_post(b1, c1.addr_abs, lo8(t)), 0)
}

/// Increment index X, wrapping.
pub open spec fn inx_spec(c: Cpu6502, b: BusV) -> (Cpu6502, BusV, u8) {
    let v = wrap8(c.x + 1);
    (Cpu6502 { x: v, status: with_zn(c.status, v), ..c }, b, 0)
}

/// Increment index Y, wrapping.
pub open spec fn iny_spec(c: Cpu6502, b: BusV) -> (Cpu6502, BusV, u8) {
    let v = wrap8(c.y + 1);
    (Cpu6502 { y: v, status: with_zn(c.status, v), ..c }, b, 0)
}

/// Jump to the resolved address.
pub open spec fn jmp_spec(c: Cpu6502, b: BusV) -> (Cpu6502, BusV, u8) {
    (Cpu6502 { pc: c.addr_abs, ..c }, b, 0)
}

/// Subroutine call: push the return address minus one, high byte first, then jump to the resolved address.
pub open spec fn jsr_spec(c: Cpu6502, b: BusV) -> (Cpu6502, BusV, u8) {
    let ret = wrap16(c.pc - 1);
    let (c1, b1) = push_spec(Cpu6502 { pc: ret, ..c }, b, hi8(ret));
    let (c2, b2) = push_spec(c1, b1, lo8(ret));
    (Cpu6502 { pc: c.addr_abs, ..c2 }, b2, 0)
}

/// Load the accumulator from the fetched operand, tracking Zero and Negative.
pub open spec fn lda_spec(c: Cpu6502, b: BusV) -> (Cpu6502, BusV, u8) {
    let (c1, b1) = fetch_spec(c, b);
    (Cpu6502 { a: c1.fetched, status: with_zn(c1.status, c1.fetched), ..c1 }, b1, 1)
}

/// Load the index X from the fetched operand, tracking Zero and Negative.
pub open spec fn ldx_spec(c: Cpu6502, b: BusV) -> (Cpu6502, BusV, u8) {
    let (c1, b1) = fetch_spec(c, b);
    (Cpu6502 { x: c1.fetched, status: with_zn(c1.status, c1.fetched), ..c1 }, b1, 1)
}

/// Load the index Y from the fetched operand, tracking Zero and Negative.
pub open spec fn ldy_spec(c: Cpu6502, b: BusV) -> (Cpu6502, BusV, u8) {
    let (c1, b1) = fetch_spec(c, b);
    (Cpu6502 { y: c1.fetched, status: with_zn(c1.status, c1.fetched), ..c1 }, b1, 1)
}

/// Logical shift right of the operand: on the implicit mode the accumulator, otherwise the addressed memory cell; Carry takes the bit shifted out.
pub open spec fn lsr_spec(c: Cpu6502, b: BusV) -> (Cpu6502, BusV, u8) {
    let (c1, b1) = fetch_spec(c, b);
    let t = (c1.fetched / 2) as u16;
    let st = with_flag(c1.status, 0x01, c1.fetched % 2 == 1);
    let st = with_flag(st, 0x02, lo8(t) == 0);
    let st = with_flag(st, 0x80, lo8(t) >= 0x80);
    let c2 = Cpu6502 { temp: t, status: st, ..c1 };
    if instr_spec(c1.opcode).addrmode is IMP {
        (Cpu6502 { a: lo8(t), ..c2 }, b1, 0)
    } else {
        (c2, bus_write_post(b1, c1.addr_abs, lo8(t)), 0)
    }
}

/// No operation; a handful of the undocumented wide forms signal a possible extra cycle.
pub open spec fn nop_spec(c: Cpu6502, b: BusV) -> (Cpu6502, BusV, u8) {
    let extra: u8 = if c.opcode == 0x1C || c.opcode == 0x3C || c.opcode == 0x5C || c.opcode == 0x7C
        || c.opcode == 0xDC || c.opcode == 0xFC {
        1
    } else {
        0
    };
    (c, b, extra)
}

/// Bitwise disjunction of the accumulator with the fetched operand.
pub open spec fn ora_spec(c: Cpu6502, b: BusV) -> (Cpu6502, BusV, u8) {
    let (c1, b1) = fetch_spec(c, b);
    let v = c1.a | c1.fetched;
    (Cpu6502 { a: v, status: with_zn(c1.status, v), ..c1 }, b1, 1)
}

/// Push the accumulator through the fixed stack page.
pub open spec fn pha_spec(c: Cpu6502, b: BusV) -> (Cpu6502, BusV, u8) {
    let (c1, b1) = push_spec(c, b, c.a);
    (c1, b1, 0)
}

/// Push the status byte with Break and Unused forced set, then clear both in the live status.
pub open spec fn php_spec(c: Cpu6502, b: BusV) -> (Cpu6502, BusV, u8) {
    let pushed = with_flag(with_flag(c.status, 0x10, true), 0x20, true);
    let (c1, b1) = push_spec(c, b, pushed);
    (
        Cpu6502 { status: with_flag(with_flag(c.status, 0x10, false), 0x20, false), ..c1 },
        b1,
        0,
    )
}

/// Pull the accumulator from the stack, tracking Zero and Negative.
pub open spec fn pla_spec(c: Cpu6502, b: BusV) -> (Cpu6502, BusV, u8) {
    let (c1, b1, v) = pull_spec(c, b);
    (Cpu6502 { a: v, status: with_zn(c1.status, v), ..c1 }, b1, 0)
}

/// Pull the status byte from the stack; Unused is forced set.
pub open spec fn plp_spec(c: Cpu6502, b: BusV) -> (Cpu6502, BusV, u8) {
    let (c1, b1, v) = pull_spec(c, b);
    (Cpu6502 { status: with_flag(v, 0x20, true), ..c1 }, b1, 0)
}

/// Rotate left through Carry, reproduced as observed: the intermediate keeps eight bits, so the outgoing Carry is never set.
pub open spec fn rol_spec(c: Cpu6502, b: BusV) -> (Cpu6502, BusV, u8) {
    let (c1, b1) = fetch_spec(c, b);
    let t = (wrap8(c1.fetched * 2) + carry_of(c1.status)) as u16;
    let st = with_flag(c1.status, 0x01, t > 255);
    let st = with_flag(st, 0x02, lo8(t) == 0);
    let st = with_flag(st, 0x80, lo8(t) >= 0x80);
    let c2 = Cpu6502 { temp: t, status: st, ..c1 };
    if instr_spec(c1.opcode).addrmode is IMP {
        (Cpu6502 { a: lo8(t), ..c2 }, b1, 0)
    } else {
        (c2, bus_write_post(b1, c1.addr_abs, lo8(t)), 0)
    }
}

/// Rotate right through Carry; Carry takes the bit shifted out.
pub open spec fn ror_spec(c: Cpu6502, b: BusV) -> (Cpu6502, BusV, u8) {
    let (c1, b1) = fetch_spec(c, b);
    let t = (carry_of(c1.status) * 128 + c1.fetched / 2) as u16;
    let st = with_flag(c1.status, 0x01, c1.fetched % 2 == 1);
    let st = with_flag(st, 0x02, lo8(t) == 0);
    let st = with_flag(st, 0x80, lo8(t) >= 0x80);
    let c2 = Cpu6502 { temp: t, status: st, ..c1 };
    if instr_spec(c1.opcode).addrmode is IMP {
        (Cpu6502 { a: lo8(t), ..c2 }, b1, 0)
    } else {
        (c2, bus_write_post(b1, c1.addr_abs, lo8(t)), 0)
    }
}

/// Return from interrupt: restore the status byte with Break and Unused cleared, then the program counter.
pub open spec fn rti_spec(c: Cpu6502, b: BusV) -> (Cpu6502, BusV, u8) {
    let (c1, b1, v) = pull_spec(c, b);
    let st = with_flag(with_flag(v, 0x10, false), 0x20, false);
    let (c2, b2, lo) = pull_spec(Cpu6502 { status: st, ..c1 }, b1);
    let (c3, b3, hi) = pull_spec(c2, b2);
    (Cpu6502 { pc: mk16(hi, lo), ..c3 }, b3, 0)
}

/// Return from subroutine: pull the saved address and step past it.
pub open spec fn rts_spec(c: Cpu6502, b: BusV) -> (Cpu6502, BusV, u8) {
    let (c1, b1, lo) = pull_spec(c, b);
    let (c2, b2, hi) = pull_spec(c1, b1);
    (Cpu6502 { pc: wrap16(mk16(hi, lo) + 1), ..c2 }, b2, 0)
}

/// Set the Carry flag.
pub open spec fn sec_spec(c: Cpu6502, b: BusV) -> (Cpu6502, BusV, u8) {
    (Cpu6502 { status: with_flag(c.status, 0x01, true), ..c }, b, 0)
}

/// Set the Decimal flag.
pub open spec fn sed_spec(c: Cpu6502, b: BusV) -> (Cpu6502, BusV, u8) {
    (Cpu6502 { status: with_flag(c.status, 0x08, true), ..c }, b, 0)
}

/// Set the InterruptDisable flag.
pub open spec fn sei_spec(c: Cpu6502, b: BusV) -> (Cpu6502, BusV, u8) {
    (Cpu6502 { status: with_flag(c.status, 0x04, true), ..c }, b, 0)
}

/// Store the accumulator at the resolved address.
pub open spec fn sta_spec(c: Cpu6502, b: BusV) -> (Cpu6502, BusV, u8) {
    (c, bus_write_post(b, c.addr_abs, c.a), 0)
}

/// Store the index X at the resolved address.
pub open spec fn stx_spec(c: Cpu6502, b: BusV) -> (Cpu6502, BusV, u8) {
    (c, bus_write_post(b, c.addr_abs, c.x), 0)
}

/// Store the index Y at the resolved address.
pub open spec fn sty_spec(c: Cpu6502, b: BusV) -> (Cpu6502, BusV, u8) {
    (c, bus_write_post(b, c.addr_abs, c.y), 0)
}

/// Transfer the accumulator to index X.
pub open spec fn tax_spec(c: Cpu6502, b: BusV) -> (Cpu6502, BusV, u8) {
    (Cpu6502 { x: c.a, status: with_zn(c.status, c.a), ..c }, b, 0)
}

/// Transfer the accumulator to index Y.
pub open spec fn tay_spec(c: Cpu6502, b: BusV) -> (Cpu6502, BusV, u8) {
    (Cpu6502 { y: c.a, status: with_zn(c.status, c.a), ..c }, b, 0)
}

/// Transfer the stack pointer to index X.
pub open spec fn tsx_spec(c: Cpu6502, b: BusV) -> (Cpu6502, BusV, u8) {
    (Cpu6502 { x: c.stkp, status: with_zn(c.status, c.stkp), ..c }, b, 0)
}

/// Transfer index X to the accumulator.
pub open spec fn txa_spec(c: Cpu6502, b: BusV) -> (Cpu6502, BusV, u8) {
    (Cpu6502 { a: c.x, status: with_zn(c.status, c.x), ..c }, b, 0)
}

/// Transfer index X to the stack pointer; no flags change.
pub open spec fn txs_spec(c: Cpu6502, b: BusV) -> (Cpu6502, BusV, u8) {
    (Cpu6502 { stkp: c.x, ..c }, b, 0)
}

/// Transfer index Y to the accumulator.
pub open spec fn tya_spec(c: Cpu6502, b: BusV) -> (Cpu6502, BusV, u8) {
    (Cpu6502 { a: c.y, status: with_zn(c.status, c.y), ..c }, b, 0)
}

/// The placeholder for undocumented opcodes: nothing happens.
pub open spec fn xxx_spec(c: Cpu6502, b: BusV) -> (Cpu6502, BusV, u8) {
    (c, b, 0)
}

/// The transition an operation kind stands for.
#[verifier::opaque]
pub open spec fn oper_spec(o: Operator, c: Cpu6502, b: BusV) -> (Cpu6502, BusV, u8) {
    match o {
        Operator::ADC => adc_spec(c, b),
        Operator::SBC => sbc_spec(c, b),
        Operator::AND => and_spec(c, b),
        Operator::ASL => asl_spec(c, b),
        Operator::BCC => bcc_spec(c, b),
        Operator::BCS => bcs_spec(c, b),
        Operator::BEQ => beq_spec(c, b),
        Operator::BIT => bit_spec(c, b),
        Operator::BMI => bmi_spec(c, b),
        Operator::BNE => bne_spec(c, b),
        Operator::BPL => bpl_spec(c, b),
        Operator::BRK => brk_spec(c, b),
        Operator::BVC => bvc_spec(c, b),
        Operator::BVS => bvs_spec(c, b),
        Operator::CLC => clc_spec(c, b),
        Operator::CLD => cld_spec(c, b),
        Operator::CLI => cli_spec(c, b),
        Operator::CLV => clv_spec(c, b),
        Operator::CMP => cmp_spec(c, b),
        Operator::CPX => cpx_spec(c, b),
        Operator::CPY => cpy_spec(c, b),
        Operator::DEC => dec_spec(c, b),
        Operator::DEX => dex_spec(c, b),
        Operator::DEY => dey_spec(c, b),
        Operator::EOR => eor_spec(c, b),
        Operator::INC => inc_spec(c, b),
        Operator::INX => inx_spec(c, b),
        Operator::INY => iny_spec(c, b),
        Operator::JMP => jmp_spec(c, b),
        Operator::JSR => jsr_spec(c, b),
        Operator::LDA => lda_spec(c, b),
        Operator::LDX => ldx_spec(c, b),
        Operator::LDY => ldy_spec(c, b),
        Operator::LSR => lsr_spec(c, b),
        Operator::NOP => nop_spec(c, b),
        Operator::ORA => ora_spec(c, b),
        Operator::PHA => pha_spec(c, b),
        Operator::PHP => php_spec(c, b),
        Operator::PLA => pla_spec(c, b),
        Operator::PLP => plp_spec(c, b),
        Operator::ROL => rol_spec(c, b),
        Operator::ROR => ror_spec(c, b),
        Operator::RTI => rti_spec(c, b),
        Operator::RTS => rts_spec(c, b),
        Operator::SEC => sec_spec(c, b),
        Operator::SED => sed_spec(c, b),
        Operator::SEI => sei_spec(c, b),
        Operator::STA => sta_spec(c, b),
        Operator::STX => stx_spec(c, b),
        Operator::STY => sty_spec(c, b),
        Operator::TAX => tax_spec(c, b),
        Operator::TAY => tay_spec(c, b),
        Operator::TSX => tsx_spec(c, b),
        Operator::TXA => txa_spec(c, b),
        Operator::TXS => txs_spec(c, b),
        Operator::TYA => tya_spec(c, b),
        Operator::XXX => xxx_spec(c, b),
    }
}

pub struct ADC;

impl ADC {
    pub fn execute(cpu: &mut Cpu6502, io: &mut Bus) -> (r: u8)
        requires
            old(io).wf(),
        ensures
            final(io).wf(),
            *final(cpu) == adc_spec(*old(cpu), old(io)@).0,
            final(io)@ == adc_spec(*old(cpu), old(io)@).1,
            r == adc_spec(*old(cpu), old(io)@).2,
    {
        cpu.fetch(io);
        cpu.temp = cpu.a as u16 + cpu.fetched as u16 + cpu.get_flag(CpuFlags::C) as u16;
        cpu.set_flag(CpuFlags::C, cpu.temp > 255);
        cpu.set_flag(CpuFlags::Z, cpu.temp % 256 == 0);
        cpu.set_flag(
            CpuFlags::V,
            (cpu.a >= 0x80) == (cpu.fetched >= 0x80) && (cpu.a >= 0x80) != (cpu.temp % 256 >= 128),
        );
        cpu.set_flag(CpuFlags::N, cpu.temp % 256 >= 128);
        cpu.a = (cpu.temp % 256) as u8;
        1
    }
}

pub struct SBC;

impl SBC {
    pub fn execute(cpu: &mut Cpu6502, io: &mut Bus) -> (r: u8)
        requires
            old(io).wf(),
        ensures
            final(io).wf(),
            *final(cpu) == sbc_spec(*old(cpu), old(io)@).0,
            final(io)@ == sbc_spec(*old(cpu), old(io)@).1,
            r == sbc_spec(*old(cpu), old(io)@).2,
    {
        cpu.fetch(io);
        let value: u16 = 255 - cpu.fetched as u16;
        cpu.temp = cpu.a as u16 + value + cpu.get_flag(CpuFlags::C) as u16;
        cpu.set_flag(CpuFlags::C, cpu.temp > 255);
        cpu.set_flag(CpuFlags::Z, cpu.temp % 256 == 0);
        cpu.set_flag(
            CpuFlags::V,
            (cpu.temp % 256 >= 128) != (cpu.a >= 0x80) && (cpu.temp % 256 >= 128) != (value >= 128),
        );
        cpu.set_flag(CpuFlags::N, cpu.temp % 256 >= 128);
        cpu.a = (cpu.temp % 256) as u8;
        1
    }
}

pub struct AND;

impl AND {
    pub fn execute(cpu: &mut Cpu6502, io: &mut Bus) -> (r: u8)
        requires
            old(io).wf(),
        ensures
            final(io).wf(),
            *final(cpu) == and_spec(*old(cpu), old(io)@).0,
            final(io)@ == and_spec(*old(cpu), old(io)@).1,
            r == and_spec(*old(cpu), old(io)@).2,
    {
        cpu.fetch(io);
        cpu.a = cpu.a & cpu.fetched;
        cpu.set_flag(CpuFlags::Z, cpu.a == 0x00);
        cpu.set_flag(CpuFlags::N, cpu.a >= 0x80);
        1
    }
}

pub struct ASL;

impl ASL {
    pub fn execute(cpu: &mut Cpu6502, io: &mut Bus) -> (r: u8)
        requires
            old(io).wf(),
        ensures
            final(io).wf(),
            *final(cpu) == asl_spec(*old(cpu), old(io)@).0,
            final(io)@ == asl_spec(*old(cpu), old(io)@).1,
            r == asl_spec(*old(cpu), old(io)@).2,
    {
        cpu.fetch(io);
        cpu.temp = (cpu.fetched as u16) * 2;
        cpu.set_flag(CpuFlags::C, cpu.temp > 255);
        cpu.set_flag(CpuFlags::Z, cpu.temp % 256 == 0);
        cpu.set_flag(CpuFlags::N, cpu.temp % 256 >= 128);
        if matches!(Instruction::from_opcode(cpu.opcode).get_addrmode(), AddrMode::IMP) {
            cpu.a = (cpu.temp % 256) as u8;
        } else {
            io.cpu_write(cpu.addr_abs, (cpu.temp % 256) as u8);
        }
        0
    }
}

pub struct BCC;

impl BCC {
    pub fn execute(cpu: &mut Cpu6502, io: &mut Bus) -> (r: u8)
        requires
            old(io).wf(),
        ensures
            final(io).wf(),
            *final(cpu) == bcc_spec(*old(cpu), old(io)@).0,
            final(io)@ == bcc_spec(*old(cpu), old(io)@).1,
            r == bcc_spec(*old(cpu), old(io)@).2,
    {
        proof {
            reveal(branch_taken_spec);
        }
        if cpu.get_flag(CpuFlags::C) == 0 {
            cpu.cycles = cpu.cycles.wrapping_add(1);
            cpu.addr_abs = cpu.pc.wrapping_add(cpu.addr_rel);
            if cpu.addr_abs / 256 != cpu.pc / 256 {
                cpu.cycles = cpu.cycles.wrapping_add(1);
            }
            cpu.pc = cpu.addr_abs;
        }
        0
    }
}

pub struct BCS;

impl BCS {
    pub fn execute(cpu: &mut Cpu6502, io: &mut Bus) -> (r: u8)
        requires
            old(io).wf(),
        ensures
            final(io).wf(),
            *final(cpu) == bcs_spec(*old(cpu), old(io)@).0,
            final(io)@ == bcs_spec(*old(cpu), old(io)@).1,
            r == bcs_spec(*old(cpu), old(io)@).2,
    {
        proof {
            reveal(branch_taken_spec);
        }
        if cpu.get_flag(CpuFlags::C) == 1 {
            cpu.cycles = cpu.cycles.wrapping_add(1);
            cpu.addr_abs = cpu.pc.wrapping_add(cpu.addr_rel);
            if cpu.addr_abs / 256 != cpu.pc / 256 {
                cpu.cycles = cpu.cycles.wrapping_add(1);
            }
            cpu.pc = cpu.addr_abs;
        }
        0
    }
}

pub struct BEQ;

impl BEQ {
    pub fn execute(cpu: &mut Cpu6502, io: &mut Bus) -> (r: u8)
        requires
            old(io).wf(),
        ensures
            final(io).wf(),
            *final(cpu) == beq_spec(*old(cpu), old(io)@).0,
            final(io)@ == beq_spec(*old(cpu), old(io)@).1,
            r == beq_spec(*old(cpu), old(io)@).2,
    {
        proof {
            reveal(branch_taken_spec);
        }
        if cpu.get_flag(CpuFlags::Z) == 1 {
            cpu.cycles = cpu.cycles.wrapping_add(1);
            cpu.addr_abs = cpu.pc.wrapping_add(cpu.addr_rel);
            if cpu.addr_abs / 256 != cpu.pc / 256 {
                cpu.cycles = cpu.cycles.wrapping_add(1);
            }
            cpu.pc = cpu.addr_abs;
        }
        0
    }
}

pub struct BIT;

impl BIT {
    pub fn execute(cpu: &mut Cpu6502, io: &mut Bus) -> (r: u8)
        requires
            old(io).wf(),
        ensures
            final(io).wf(),
            *final(cpu) == bit_spec(*old(cpu), old(io)@).0,
            final(io)@ == bit_spec(*old(cpu), old(io)@).1,
            r == bit_spec(*old(cpu), old(io)@).2,
    {
        cpu.fetch(io);
        cpu.temp = (cpu.a & cpu.fetched) as u16;
        cpu.set_flag(CpuFlags::Z, cpu.temp % 256 == 0);
        cpu.set_flag(CpuFlags::N, cpu.fetched >= 0x80);
        cpu.set_flag(CpuFlags::V, (cpu.fetched / 64) % 2 == 1);
        0
    }
}

pub struct BMI;

impl BMI {
    pub fn execute(cpu: &mut Cpu6502, io: &mut Bus) -> (r: u8)
        requires
            old(io).wf(),
        ensures
            final(io).wf(),
            *final(cpu) == bmi_spec(*old(cpu), old(io)@).0,
            final(io)@ == bmi_spec(*old(cpu), old(io)@).1,
            r == bmi_spec(*old(cpu), old(io)@).2,
    {
        proof {
            reveal(branch_taken_spec);
        }
        if cpu.get_flag(CpuFlags::N) == 1 {
            cpu.cycles = cpu.cycles.wrapping_add(1);
            cpu.addr_abs = cpu.pc.wrapping_add(cpu.addr_rel);
            if cpu.addr_abs / 256 != cpu.pc / 256 {
                cpu.cycles = cpu.cycles.wrapping_add(1);
            }
            cpu.pc = cpu.addr_abs;
        }
        0
    }
}

pub struct BNE;

impl BNE {
    pub fn execute(cpu: &mut Cpu6502, io: &mut Bus) -> (r: u8)
        requires
            old(io).wf(),
        ensures
            final(io).wf(),
            *final(cpu) == bne_spec(*old(cpu), old(io)@).0,
            final(io)@ == bne_spec(*old(cpu), old(io)@).1,
            r == bne_spec(*old(cpu), old(io)@).2,
    {
        proof {
            reveal(branch_taken_spec);
        }
        if cpu.get_flag(CpuFlags::Z) == 0 {
            cpu.cycles = cpu.cycles.wrapping_add(1);
            cpu.addr_abs = cpu.pc.wrapping_add(cpu.addr_rel);
            if cpu.addr_abs / 256 != cpu.pc / 256 {
                cpu.cycles = cpu.cycles.wrapping_add(1);
            }
            cpu.pc = cpu.addr_abs;
        }
        0
    }
}

pub struct BPL;

impl BPL {
    pub fn execute(cpu: &mut Cpu6502, io: &mut Bus) -> (r: u8)
        requires
            old(io).wf(),
        ensures
            final(io).wf(),
            *final(cpu) == bpl_spec(*old(cpu), old(io)@).0,
            final(io)@ == bpl_spec(*old(cpu), old(io)@).1,
            r == bpl_spec(*old(cpu), old(io)@).2,
    {
        proof {
            reveal(branch_taken_spec);
        }
        if cpu.get_flag(CpuFlags::N) == 0 {
            cpu.cycles = cpu.cycles.wrapping_add(1);
            cpu.addr_abs = cpu.pc.wrapping_add(cpu.addr_rel);
            if cpu.addr_abs / 256 != cpu.pc / 256 {
                cpu.cycles = cpu.cycles.wrapping_add(1);
            }
            cpu.pc = cpu.addr_abs;
        }
        0
    }
}

pub struct BRK;

impl BRK {
    #[verifier::rlimit(100)]
    pub fn execute(cpu: &mut Cpu6502, io: &mut Bus) -> (r: u8)
        requires
            old(io).wf(),
        ensures
            final(io).wf(),
            *final(cpu) == brk_spec(*old(cpu), old(io)@).0,
            final(io)@ == brk_spec(*old(cpu), old(io)@).1,
            r == brk_spec(*old(cpu), old(io)@).2,
    {
        proof {
            reveal(crate::cpu6502::push_spec);
        }
        cpu.pc = cpu.pc.wrapping_add(1);
        cpu.set_flag(CpuFlags::I, true);
        let hi_b = (cpu.pc / 256) as u8;
        cpu.push(io, hi_b);
        let lo_b = (cpu.pc % 256) as u8;
        cpu.push(io, lo_b);
        cpu.set_flag(CpuFlags::B, true);
        let st = cpu.status;
        cpu.push(io, st);
        cpu.set_flag(CpuFlags::B, false);
        let lo = io.cpu_read(0xFFFE) as u16;
        let hi = io.cpu_read(0xFFFF) as u16;
        cpu.pc = hi * 256 + lo;
        0
    }
}

pub struct BVC;

impl BVC {
    pub fn execute(cpu: &mut Cpu6502, io: &mut Bus) -> (r: u8)
        requires
            old(io).wf(),
        ensures
            final(io).wf(),
            *final(cpu) == bvc_spec(*old(cpu), old(io)@).0,
            final(io)@ == bvc_spec(*old(cpu), old(io)@).1,
            r == bvc_spec(*old(cpu), old(io)@).2,
    {
        proof {
            reveal(branch_taken_spec);
        }
        if cpu.get_flag(CpuFlags::V) == 0 {
            cpu.cycles = cpu.cycles.wrapping_add(1);
            cpu.addr_abs = cpu.pc.wrapping_add(cpu.addr_rel);
            if cpu.addr_abs / 256 != cpu.pc / 256 {
                cpu.cycles = cpu.cycles.wrapping_add(1);
            }
            cpu.pc = cpu.addr_abs;
        }
        0
    }
}

pub struct BVS;

impl BVS {
    pub fn execute(cpu: &mut Cpu6502, io: &mut Bus) -> (r: u8)
        requires
            old(io).wf(),
        ensures
            final(io).wf(),
            *final(cpu) == bvs_spec(*old(cpu), old(io)@).0,
            final(io)@ == bvs_spec(*old(cpu), old(io)@).1,
            r == bvs_spec(*old(cpu), old(io)@).2,
    {
        proof {
            reveal(branch_taken_spec);
        }
        if cpu.get_flag(CpuFlags::V) == 1 {
            cpu.cycles = cpu.cycles.wrapping_add(1);
            cpu.addr_abs = cpu.pc.wrapping_add(cpu.addr_rel);
            if cpu.addr_abs / 256 != cpu.pc / 256 {
                cpu.cycles = cpu.cycles.wrapping_add(1);
            }
            cpu.pc = cpu.addr_abs;
        }
        0
    }
}

pub struct CLC;

impl CLC {
    pub fn execute(cpu: &mut Cpu6502, io: &mut Bus) -> (r: u8)
        requires
            old(io).wf(),
        ensures
            final(io).wf(),
            *final(cpu) == clc_spec(*old(cpu), old(io)@).0,
            final(io)@ == clc_spec(*old(cpu), old(io)@).1,
            r == clc_spec(*old(cpu), old(io)@).2,
    {
        cpu.set_flag(CpuFlags::C, false);
        0
    }
}

pub struct CLD;

impl CLD {
    pub fn execute(cpu: &mut Cpu6502, io: &mut Bus) -> (r: u8)
        requires
            old(io).wf(),
        ensures
            final(io).wf(),
            *final(cpu) == cld_spec(*old(cpu), old(io)@).0,
            final(io)@ == cld_spec(*old(cpu), old(io)@).1,
            r == cld_spec(*old(cpu), old(io)@).2,
    {
        cpu.set_flag(CpuFlags::D, false);
        0
    }
}

pub struct CLI;

impl CLI {
    pub fn execute(cpu: &mut Cpu6502, io: &mut Bus) -> (r: u8)
        requires
            old(io).wf(),
        ensures
            final(io).wf(),
            *final(cpu) == cli_spec(*old(cpu), old(io)@).0,
            final(io)@ == cli_spec(*old(cpu), old(io)@).1,
            r == cli_spec(*old(cpu), old(io)@).2,
    {
        cpu.set_flag(CpuFlags::I, false);
        0
    }
}

pub struct CLV;

impl CLV {
    pub fn execute(cpu: &mut Cpu6502, io: &mut Bus) -> (r: u8)
        requires
            old(io).wf(),
        ensures
            final(io).wf(),
            *final(cpu) == clv_spec(*old(cpu), old(io)@).0,
            final(io)@ == clv_spec(*old(cpu), old(io)@).1,
            r == clv_spec(*old(cpu), old(io)@).2,
    {
        cpu.set_flag(CpuFlags::V, false);
        0
    }
}

pub struct CMP;

impl CMP {
    pub fn execute(cpu: &mut Cpu6502, io: &mut Bus) -> (r: u8)
        requires
            old(io).wf(),
        ensures
            final(io).wf(),
            *final(cpu) == cmp_spec(*old(cpu), old(io)@).0,
            final(io)@ == cmp_spec(*old(cpu), old(io)@).1,
            r == cmp_spec(*old(cpu), old(io)@).2,
    {
        cpu.fetch(io);
        cpu.temp = (cpu.a as u16).wrapping_sub(cpu.fetched as u16);
        cpu.set_flag(CpuFlags::C, cpu.a >= cpu.fetched);
        cpu.set_flag(CpuFlags::Z, cpu.temp % 256 == 0);
        cpu.set_flag(CpuFlags::N, cpu.temp % 256 >= 128);
        1
    }
}

pub struct CPX;

impl CPX {
    pub fn execute(cpu: &mut Cpu6502, io: &mut Bus) -> (r: u8)
        requires
            old(io).wf(),
        ensures
            final(io).wf(),
            *final(cpu) == cpx_spec(*old(cpu), old(io)@).0,
            final(io)@ == cpx_spec(*old(cpu), old(io)@).1,
            r == cpx_spec(*old(cpu), old(io)@).2,
    {
        cpu.fetch(io);
        cpu.temp = (cpu.x as u16).wrapping_sub(cpu.fetched as u16);
        cpu.set_flag(CpuFlags::C, cpu.x >= cpu.fetched);
        cpu.set_flag(CpuFlags::Z, cpu.temp % 256 == 0);
        cpu.set_flag(CpuFlags::N, cpu.temp % 256 >= 128);
        0
    }
}

pub struct CPY;

impl CPY {
    pub fn execute(cpu: &mut Cpu6502, io: &mut Bus) -> (r: u8)
        requires
            old(io).wf(),
        ensures
            final(io).wf(),
            *final(cpu) == cpy_spec(*old(cpu), old(io)@).0,
            final(io)@ == cpy_spec(*old(cpu), old(io)@).1,
            r == cpy_spec(*old(cpu), old(io)@).2,
    {
        cpu.fetch(io);
        cpu.temp = (cpu.y as u16).wrapping_sub(cpu.fetched as u16);
        cpu.set_flag(CpuFlags::C, cpu.y >= cpu.fetched);
        cpu.set_flag(CpuFlags::Z, cpu.temp % 256 == 0);
        cpu.set_flag(CpuFlags::N, cpu.temp % 256 >= 128);
        0
    }
}

pub struct DEC;

impl DEC {
    pub fn execute(cpu: &mut Cpu6502, io: &mut Bus) -> (r: u8)
        requires
            old(io).wf(),
        ensures
            final(io).wf(),
            *final(cpu) == dec_spec(*old(cpu), old(io)@).0,
            final(io)@ == dec_spec(*old(cpu), old(io)@).1,
            r == dec_spec(*old(cpu), old(io)@).2,
    {
        cpu.fetch(io);
        cpu.temp = cpu.fetched.wrapping_sub(1) as u16;
        io.cpu_write(cpu.addr_abs, (cpu.temp % 256) as u8);
        cpu.set_flag(CpuFlags::Z, cpu.temp % 256 == 0);
        cpu.set_flag(CpuFlags::N, cpu.temp % 256 >= 128);
        0
    }
}

pub struct DEX;

impl DEX {
    pub fn execute(cpu: &mut Cpu6502, io: &mut Bus) -> (r: u8)
        requires
            old(io).wf(),
        ensures
            final(io).wf(),
            *final(cpu) == dex_spec(*old(cpu), old(io)@).0,
            final(io)@ == dex_spec(*old(cpu), old(io)@).1,
            r == dex_spec(*old(cpu), old(io)@).2,
    {
        cpu.x = cpu.x.wrapping_sub(1);
        cpu.set_flag(CpuFlags::Z, cpu.x == 0x00);
        cpu.set_flag(CpuFlags::N, cpu.x >= 0x80);
        0
    }
}

pub struct DEY;

impl DEY {
    pub fn execute(cpu: &mut Cpu6502, io: &mut Bus) -> (r: u8)
        requires
            old(io).wf(),
        ensures
            final(io).wf(),
            *final(cpu) == dey_spec(*old(cpu), old(io)@).0,
            final(io)@ == dey_spec(*old(cpu), old(io)@).1,
            r == dey_spec(*old(cpu), old(io)@).2,
    {
        cpu.y = cpu.y.wrapping_sub(1);
        cpu.set_flag(CpuFlags::Z, cpu.y == 0x00);
        cpu.set_flag(CpuFlags::N, cpu.y >= 0x80);
        0
    }
}

pub struct EOR;

impl EOR {
    pub fn execute(cpu: &mut Cpu6502, io: &mut Bus) -> (r: u8)
        requires
            old(io).wf(),
        ensures
            final(io).wf(),
            *final(cpu) == eor_spec(*old(cpu), old(io)@).0,
            final(io)@ == eor_spec(*old(cpu), old(io)@).1,
            r == eor_spec(*old(cpu), old(io)@).2,
    {
        cpu.fetch(io);
        cpu.a = cpu.a ^ cpu.fetched;
        cpu.set_flag(CpuFlags::Z, cpu.a == 0x00);
        cpu.set_flag(CpuFlags::N, cpu.a >= 0x80);
        1
    }
}

pub struct INC;

impl INC {
    pub fn execute(cpu: &mut Cpu6502, io: &mut Bus) -> (r: u8)
        requires
            old(io).wf(),
        ensures
            final(io).wf(),
            *final(cpu) == inc_spec(*old(cpu), old(io)@).0,
            final(io)@ == inc_spec(*old(cpu), old(io)@).1,
            r == inc_spec(*old(cpu), old(io)@).2,
    {
        cpu.fetch(io);
        cpu.temp = cpu.fetched as u16 + 1;
        io.cpu_write(cpu.addr_abs, (cpu.temp % 256) as u8);
        cpu.set_flag(CpuFlags::Z, cpu.temp % 256 == 0);
        cpu.set_flag(CpuFlags::N, cpu.temp % 256 >= 128);
        0
    }
}

pub struct INX;

impl INX {
    pub fn execute(cpu: &mut Cpu6502, io: &mut Bus) -> (r: u8)
        requires
            old(io).wf(),
        ensures
            final(io).wf(),
            *final(cpu) == inx_spec(*old(cpu), old(io)@).0,
            final(io)@ == inx_spec(*old(cpu), old(io)@).1,
            r == inx_spec(*old(cpu), old(io)@).2,
    {
        cpu.x = cpu.x.wrapping_add(1);
        cpu.set_flag(CpuFlags::Z, cpu.x == 0x00);
        cpu.set_flag(CpuFlags::N, cpu.x >= 0x80);
        0
    }
}

pub struct INY;

impl INY {
    pub fn execute(cpu: &mut Cpu6502, io: &mut Bus) -> (r: u8)
        requires
            old(io).wf(),
        ensures
            final(io).wf(),
            *final(cpu) == iny_spec(*old(cpu), old(io)@).0,
            final(io)@ == iny_spec(*old(cpu), old(io)@).1,
            r == iny_spec(*old(cpu), old(io)@).2,
    {
        cpu.y = cpu.y.wrapping_add(1);
        cpu.set_flag(CpuFlags::Z, cpu.y == 0x00);
        cpu.set_flag(CpuFlags::N, cpu.y >= 0x80);
        0
    }
}

pub struct JMP;

impl JMP {
    pub fn execute(cpu: &mut Cpu6502, io: &mut Bus) -> (r: u8)
        requires
            old(io).wf(),
        ensures
            final(io).wf(),
            *final(cpu) == jmp_spec(*old(cpu), old(io)@).0,
            final(io)@ == jmp_spec(*old(cpu), old(io)@).1,
            r == jmp_spec(*old(cpu), old(io)@).2,
    {
        cpu.pc = cpu.addr_abs;
        0
    }
}

pub struct JSR;

impl JSR {
    #[verifier::rlimit(100)]
    pub fn execute(cpu: &mut Cpu6502, io: &mut Bus) -> (r: u8)
        requires
            old(io).wf(),
        ensures
            final(io).wf(),
            *final(cpu) == jsr_spec(*old(cpu), old(io)@).0,
            final(io)@ == jsr_spec(*old(cpu), old(io)@).1,
            r == jsr_spec(*old(cpu), old(io)@).2,
    {
        proof {
            reveal(crate::cpu6502::push_spec);
        }
        cpu.pc = cpu.pc.wrapping_sub(1);
        let hi = (cpu.pc / 256) as u8;
        cpu.push(io, hi);
        let lo = (cpu.pc % 256) as u8;
        cpu.push(io, lo);
        cpu.pc = cpu.addr_abs;
        0
    }
}

pub struct LDA;

impl LDA {
    pub fn execute(cpu: &mut Cpu6502, io: &mut Bus) -> (r: u8)
        requires
            old(io).wf(),
        ensures
            final(io).wf(),
            *final(cpu) == lda_spec(*old(cpu), old(io)@).0,
            final(io)@ == lda_spec(*old(cpu), old(io)@).1,
            r == lda_spec(*old(cpu), old(io)@).2,
    {
        cpu.fetch(io);
        cpu.a = cpu.fetched;
        cpu.set_flag(CpuFlags::Z, cpu.a == 0x00);
        cpu.set_flag(CpuFlags::N, cpu.a >= 0x80);
        1
    }
}

pub struct LDX;

impl LDX {
    pub fn execute(cpu: &mut Cpu6502, io: &mut Bus) -> (r: u8)
        requires
            old(io).wf(),
        ensures
            final(io).wf(),
            *final(cpu) == ldx_spec(*old(cpu), old(io)@).0,
            final(io)@ == ldx_spec(*old(cpu), old(io)@).1,
            r == ldx_spec(*old(cpu), old(io)@).2,
    {
        cpu.fetch(io);
        cpu.x = cpu.fetched;
        cpu.set_flag(CpuFlags::Z, cpu.x == 0x00);
        cpu.set_flag(CpuFlags::N, cpu.x >= 0x80);
        1
    }
}

pub struct LDY;

impl LDY {
    pub fn execute(cpu: &mut Cpu6502, io: &mut Bus) -> (r: u8)
        requires
            old(io).wf(),
        ensures
            final(io).wf(),
            *final(cpu) == ldy_spec(*old(cpu), old(io)@).0,
            final(io)@ == ldy_spec(*old(cpu), old(io)@).1,
            r == ldy_spec(*old(cpu), old(io)@).2,
    {
        cpu.fetch(io);
        cpu.y = cpu.fetched;
        cpu.set_flag(CpuFlags::Z, cpu.y == 0x00);
        cpu.set_flag(CpuFlags::N, cpu.y >= 0x80);
        1
    }
}

pub struct LSR;

impl LSR {
    pub fn execute(cpu: &mut Cpu6502, io: &mut Bus) -> (r: u8)
        requires
            old(io).wf(),
        ensures
            final(io).wf(),
            *final(cpu) == lsr_spec(*old(cpu), old(io)@).0,
            final(io)@ == lsr_spec(*old(cpu), old(io)@).1,
            r == lsr_spec(*old(cpu), old(io)@).2,
    {
        cpu.fetch(io);
        cpu.set_flag(CpuFlags::C, cpu.fetched % 2 == 1);
        cpu.temp = (cpu.fetched / 2) as u16;
        cpu.set_flag(CpuFlags::Z, cpu.temp % 256 == 0);
        cpu.set_flag(CpuFlags::N, cpu.temp % 256 >= 128);
        if matches!(Instruction::from_opcode(cpu.opcode).get_addrmode(), AddrMode::IMP) {
            cpu.a = (cpu.temp % 256) as u8;
        } else {
            io.cpu_write(cpu.addr_abs, (cpu.temp % 256) as u8);
        }
        0
    }
}

pub struct NOP;

impl NOP {
    pub fn execute(cpu: &mut Cpu6502, io: &mut Bus) -> (r: u8)
        requires
            old(io).wf(),
        ensures
            final(io).wf(),
            *final(cpu) == nop_spec(*old(cpu), old(io)@).0,
            final(io)@ == nop_spec(*old(cpu), old(io)@).1,
            r == nop_spec(*old(cpu), old(io)@).2,
    {
        let extra: u8 = match cpu.opcode {
            0x1C | 0x3C | 0x5C | 0x7C | 0xDC | 0xFC => 1,
            _ => 0,
        };
        extra
    }
}

pub struct ORA;

impl ORA {
    pub fn execute(cpu: &mut Cpu6502, io: &mut Bus) -> (r: u8)
        requires
            old(io).wf(),
        ensures
            final(io).wf(),
            *final(cpu) == ora_spec(*old(cpu), old(io)@).0,
            final(io)@ == ora_spec(*old(cpu), old(io)@).1,
            r == ora_spec(*old(cpu), old(io)@).2,
    {
        cpu.fetch(io);
        cpu.a = cpu.a | cpu.fetched;
        cpu.set_flag(CpuFlags::Z, cpu.a == 0x00);
        cpu.set_flag(CpuFlags::N, cpu.a >= 0x80);
        1
    }
}

pub struct PHA;

impl PHA {
    pub fn execute(cpu: &mut Cpu6502, io: &mut Bus) -> (r: u8)
        requires
            old(io).wf(),
        ensures
            final(io).wf(),
            *final(cpu) == pha_spec(*old(cpu), old(io)@).0,
            final(io)@ == pha_spec(*old(cpu), old(io)@).1,
            r == pha_spec(*old(cpu), old(io)@).2,
    {
        let v = cpu.a;
        cpu.push(io, v);
        0
    }
}

pub struct PHP;

impl PHP {
    pub fn execute(cpu: &mut Cpu6502, io: &mut Bus) -> (r: u8)
        requires
            old(io).wf(),
        ensures
            final(io).wf(),
            *final(cpu) == php_spec(*old(cpu), old(io)@).0,
            final(io)@ == php_spec(*old(cpu), old(io)@).1,
            r == php_spec(*old(cpu), old(io)@).2,
    {
        proof {
            reveal(crate::cpu6502::push_spec);
        }
        let pushed = apply_flag(apply_flag(cpu.status, 0x10, true), 0x20, true);
        cpu.push(io, pushed);
        cpu.set_flag(CpuFlags::B, false);
        cpu.set_flag(CpuFlags::U, false);
        0
    }
}

pub struct PLA;

impl PLA {
    pub fn execute(cpu: &mut Cpu6502, io: &mut Bus) -> (r: u8)
        requires
            old(io).wf(),
        ensures
            final(io).wf(),
            *final(cpu) == pla_spec(*old(cpu), old(io)@).0,
            final(io)@ == pla_spec(*old(cpu), old(io)@).1,
            r == pla_spec(*old(cpu), old(io)@).2,
    {
        let v = cpu.pull(io);
        cpu.a = v;
        cpu.set_flag(CpuFlags::Z, cpu.a == 0x00);
        cpu.set_flag(CpuFlags::N, cpu.a >= 0x80);
        0
    }
}

pub struct PLP;

impl PLP {
    pub fn execute(cpu: &mut Cpu6502, io: &mut Bus) -> (r: u8)
        requires
            old(io).wf(),
        ensures
            final(io).wf(),
            *final(cpu) == plp_spec(*old(cpu), old(io)@).0,
            final(io)@ == plp_spec(*old(cpu), old(io)@).1,
            r == plp_spec(*old(cpu), old(io)@).2,
    {
        let v = cpu.pull(io);
        cpu.status = v;
        cpu.set_flag(CpuFlags::U, true);
        0
    }
}

pub struct ROL;

impl ROL {
    pub fn execute(cpu: &mut Cpu6502, io: &mut Bus) -> (r: u8)
        requires
            old(io).wf(),
        ensures
            final(io).wf(),
            *final(cpu) == rol_spec(*old(cpu), old(io)@).0,
            final(io)@ == rol_spec(*old(cpu), old(io)@).1,
            r == rol_spec(*old(cpu), old(io)@).2,
    {
        cpu.fetch(io);
        cpu.temp = cpu.fetched.wrapping_mul(2) as u16 + cpu.get_flag(CpuFlags::C) as u16;
        cpu.set_flag(CpuFlags::C, cpu.temp > 255);
        cpu.set_flag(CpuFlags::Z, cpu.temp % 256 == 0);
        cpu.set_flag(CpuFlags::N, cpu.temp % 256 >= 128);
        if matches!(Instruction::from_opcode(cpu.opcode).get_addrmode(), AddrMode::IMP) {
            cpu.a = (cpu.temp % 256) as u8;
        } else {
            io.cpu_write(cpu.addr_abs, (cpu.temp % 256) as u8);
        }
        0
    }
}

pub struct ROR;

impl ROR {
    pub fn execute(cpu: &mut Cpu6502, io: &mut Bus) -> (r: u8)
        requires
            old(io).wf(),
        ensures
            final(io).wf(),
            *final(cpu) == ror_spec(*old(cpu), old(io)@).0,
            final(io)@ == ror_spec(*old(cpu), old(io)@).1,
            r == ror_spec(*old(cpu), old(io)@).2,
    {
        cpu.fetch(io);
        cpu.temp = cpu.get_flag(CpuFlags::C) as u16 * 128 + (cpu.fetched / 2) as u16;
        cpu.set_flag(CpuFlags::C, cpu.fetched % 2 == 1);
        cpu.set_flag(CpuFlags::Z, cpu.temp % 256 == 0);
        cpu.set_flag(CpuFlags::N, cpu.temp % 256 >= 128);
        if matches!(Instruction::from_opcode(cpu.opcode).get_addrmode(), AddrMode::IMP) {
            cpu.a = (cpu.temp % 256) as u8;
        } else {
            io.cpu_write(cpu.addr_abs, (cpu.temp % 256) as u8);
        }
        0
    }
}

pub struct RTI;

impl RTI {
    #[verifier::rlimit(100)]
    pub fn execute(cpu: &mut Cpu6502, io: &mut Bus) -> (r: u8)
        requires
            old(io).wf(),
        ensures
            final(io).wf(),
            *final(cpu) == rti_spec(*old(cpu), old(io)@).0,
            final(io)@ == rti_spec(*old(cpu), old(io)@).1,
            r == rti_spec(*old(cpu), old(io)@).2,
    {
        let v = cpu.pull(io);
        cpu.status = apply_flag(apply_flag(v, 0x10, false), 0x20, false);
        let lo = cpu.pull(io) as u16;
        let hi = cpu.pull(io) as u16;
        cpu.pc = hi * 256 + lo;
        0
    }
}

pub struct RTS;

impl RTS {
    pub fn execute(cpu: &mut Cpu6502, io: &mut Bus) -> (r: u8)
        requires
            old(io).wf(),
        ensures
            final(io).wf(),
            *final(cpu) == rts_spec(*old(cpu), old(io)@).0,
            final(io)@ == rts_spec(*old(cpu), old(io)@).1,
            r == rts_spec(*old(cpu), old(io)@).2,
    {
        let lo = cpu.pull(io) as u16;
        let hi = cpu.pull(io) as u16;
        cpu.pc = (hi * 256 + lo).wrapping_add(1);
        0
    }
}

pub struct SEC;

impl SEC {
    pub fn execute(cpu: &mut Cpu6502, io: &mut Bus) -> (r: u8)
        requires
            old(io).wf(),
        ensures
            final(io).wf(),
            *final(cpu) == sec_spec(*old(cpu), old(io)@).0,
            final(io)@ == sec_spec(*old(cpu), old(io)@).1,
            r == sec_spec(*old(cpu), old(io)@).2,
    {
        cpu.set_flag(CpuFlags::C, true);
        0
    }
}

pub struct SED;

impl SED {
    pub fn execute(cpu: &mut Cpu6502, io: &mut Bus) -> (r: u8)
        requires
            old(io).wf(),
        ensures
            final(io).wf(),
            *final(cpu) == sed_spec(*old(cpu), old(io)@).0,
            final(io)@ == sed_spec(*old(cpu), old(io)@).1,
            r == sed_spec(*old(cpu), old(io)@).2,
    {
        cpu.set_flag(CpuFlags::D, true);
        0
    }
}

pub struct SEI;

impl SEI {
    pub fn execute(cpu: &mut Cpu6502, io: &mut Bus) -> (r: u8)
        requires
            old(io).wf(),
        ensures
            final(io).wf(),
            *final(cpu) == sei_spec(*old(cpu), old(io)@).0,
            final(io)@ == sei_spec(*old(cpu), old(io)@).1,
            r == sei_spec(*old(cpu), old(io)@).2,
    {
        cpu.set_flag(CpuFlags::I, true);
        0
    }
}

pub struct STA;

impl STA {
    pub fn execute(cpu: &mut Cpu6502, io: &mut Bus) -> (r: u8)
        requires
            old(io).wf(),
        ensures
            final(io).wf(),
            *final(cpu) == sta_spec(*old(cpu), old(io)@).0,
            final(io)@ == sta_spec(*old(cpu), old(io)@).1,
            r == sta_spec(*old(cpu), old(io)@).2,
    {
        io.cpu_write(cpu.addr_abs, cpu.a);
        0
    }
}

pub struct STX;

impl STX {
    pub fn execute(cpu: &mut Cpu6502, io: &mut Bus) -> (r: u8)
        requires
            old(io).wf(),
        ensures
            final(io).wf(),
            *final(cpu) == stx_spec(*old(cpu), old(io)@).0,
            final(io)@ == stx_spec(*old(cpu), old(io)@).1,
            r == stx_spec(*old(cpu), old(io)@).2,
    {
        io.cpu_write(cpu.addr_abs, cpu.x);
        0
    }
}

pub struct STY;

impl STY {
    pub fn execute(cpu: &mut Cpu6502, io: &mut Bus) -> (r: u8)
        requires
            old(io).wf(),
        ensures
            final(io).wf(),
            *final(cpu) == sty_spec(*old(cpu), old(io)@).0,
            final(io)@ == sty_spec(*old(cpu), old(io)@).1,
            r == sty_spec(*old(cpu), old(io)@).2,
    {
        io.cpu_write(cpu.addr_abs, cpu.y);
        0
    }
}

pub struct TAX;

impl TAX {
    pub fn execute(cpu: &mut Cpu6502, io: &mut Bus) -> (r: u8)
        requires
            old(io).wf(),
        ensures
            final(io).wf(),
            *final(cpu) == tax_spec(*old(cpu), old(io)@).0,
            final(io)@ == tax_spec(*old(cpu), old(io)@).1,
            r == tax_spec(*old(cpu), old(io)@).2,
    {
        cpu.x = cpu.a;
        cpu.set_flag(CpuFlags::Z, cpu.x == 0x00);
        cpu.set_flag(CpuFlags::N, cpu.x >= 0x80);
        0
    }
}

pub struct TAY;

impl TAY {
    pub fn execute(cpu: &mut Cpu6502, io: &mut Bus) -> (r: u8)
        requires
            old(io).wf(),
        ensures
            final(io).wf(),
            *final(cpu) == tay_spec(*old(cpu), old(io)@).0,
            final(io)@ == tay_spec(*old(cpu), old(io)@).1,
            r == tay_spec(*old(cpu), old(io)@).2,
    {
        cpu.y = cpu.a;
        cpu.set_flag(CpuFlags::Z, cpu.y == 0x00);
        cpu.set_flag(CpuFlags::N, cpu.y >= 0x80);
        0
    }
}

pub struct TSX;

impl TSX {
    pub fn execute(cpu: &mut Cpu6502, io: &mut Bus) -> (r: u8)
        requires
            old(io).wf(),
        ensures
            final(io).wf(),
            *final(cpu) == tsx_spec(*old(cpu), old(io)@).0,
            final(io)@ == tsx_spec(*old(cpu), old(io)@).1,
            r == tsx_spec(*old(cpu), old(io)@).2,
    {
        cpu.x = cpu.stkp;
        cpu.set_flag(CpuFlags::Z, cpu.x == 0x00);
        cpu.set_flag(CpuFlags::N, cpu.x >= 0x80);
        0
    }
}

pub struct TXA;

impl TXA {
    pub fn execute(cpu: &mut Cpu6502, io: &mut Bus) -> (r: u8)
        requires
            old(io).wf(),
        ensures
            final(io).wf(),
            *final(cpu) == txa_spec(*old(cpu), old(io)@).0,
            final(io)@ == txa_spec(*old(cpu), old(io)@).1,
            r == txa_spec(*old(cpu), old(io)@).2,
    {
        cpu.a = cpu.x;
        cpu.set_flag(CpuFlags::Z, cpu.a == 0x00);
        cpu.set_flag(CpuFlags::N, cpu.a >= 0x80);
        0
    }
}

pub struct TXS;

impl TXS {
    pub fn execute(cpu: &mut Cpu6502, io: &mut Bus) -> (r: u8)
        requires
            old(io).wf(),
        ensures
            final(io).wf(),
            *final(cpu) == txs_spec(*old(cpu), old(io)@).0,
            final(io)@ == txs_spec(*old(cpu), old(io)@).1,
            r == txs_spec(*old(cpu), old(io)@).2,
    {
        cpu.stkp = cpu.x;
        0
    }
}

pub struct TYA;

impl TYA {
    pub fn execute(cpu: &mut Cpu6502, io: &mut Bus) -> (r: u8)
        requires
            old(io).wf(),
        ensures
            final(io).wf(),
            *final(cpu) == tya_spec(*old(cpu), old(io)@).0,
            final(io)@ == tya_spec(*old(cpu), old(io)@).1,
            r == tya_spec(*old(cpu), old(io)@).2,
    {
        cpu.a = cpu.y;
        cpu.set_flag(CpuFlags::Z, cpu.a == 0x00);
        cpu.set_flag(CpuFlags::N, cpu.a >= 0x80);
        0
    }
}

pub struct XXX;

impl XXX {
    pub fn execute(cpu: &mut Cpu6502, io: &mut Bus) -> (r: u8)
        requires
            old(io).wf(),
        ensures
            final(io).wf(),
            *final(cpu) == xxx_spec(*old(cpu), old(io)@).0,
            final(io)@ == xxx_spec(*old(cpu), old(io)@).1,
            r == xxx_spec(*old(cpu), old(io)@).2,
    {
        0
    }
}

/// Fetching an operand never touches the remaining-cycle count.
pub proof fn lemma_fetch_cycles()
    ensures
        forall|cc: Cpu6502, bb: BusV| (#[trigger] fetch_spec(cc, bb)).0.cycles == cc.cycles,
{
    reveal(fetch_spec);
}

/// A stack push never touches the remaining-cycle count.
pub proof fn lemma_push_cycles()
    ensures
        forall|cc: Cpu6502, bb: BusV, v: u8| (#[trigger] push_spec(cc, bb, v)).0.cycles
            == cc.cycles,
{
    reveal(push_spec);
}

/// A stack pull never touches the remaining-cycle count.
pub proof fn lemma_pull_cycles()
    ensures
        forall|cc: Cpu6502, bb: BusV| (#[trigger] pull_spec(cc, bb)).0.cycles == cc.cycles,
{
    reveal(pull_spec);
}

/// A taken branch adds one or two remaining cycles, never fewer.
pub proof fn lemma_branch_cycles()
    ensures
        forall|cc: Cpu6502|
            cc.cycles <= 253 ==> cc.cycles <= (#[trigger] branch_taken_spec(cc)).cycles
                <= cc.cycles + 2,
{
    reveal(branch_taken_spec);
}

/// No operation lowers the remaining-cycle count, and none raises it by
/// more than the two extra cycles of a taken page-crossing branch.
pub proof fn lemma_oper_cycles(o: Operator, c: Cpu6502, b: BusV)
    requires
        c.cycles <= 8,
    ensures
        c.cycles <= oper_spec(o, c, b).0.cycles <= c.cycles + 2,
{
    reveal(oper_spec);
    lemma_fetch_cycles();
    lemma_push_cycles();
    lemma_pull_cycles();
    lemma_branch_cycles();
}

} // verus!
