use vstd::prelude::*;

use crate::addr_utils::{hi8, lo8, mk16, wrap16, wrap32, wrap8, AddrUtils};
use crate::addrmode::{mode_spec, AddrMode};
use crate::bus::{bus_read_post, bus_read_val, bus_write_post, Bus, BusV};
use crate::cpu_flags::{apply_flag, flag_set, with_flag, CpuFlags};
use crate::instruction::{instr_spec, lemma_cycles_range, Instruction};
use crate::operators::oper_spec;

verus! {

/// The processor's register file and per-instruction scratch state: the
/// three 8-bit registers, the wrapping stack pointer, the program counter,
/// the packed status byte, and the internal helpers the execution engine
/// keeps between an addressing-mode resolver and its operation.
pub struct Cpu6502 {
    pub a: u8,
    pub x: u8,
    pub y: u8,
    pub stkp: u8,
    pub pc: u16,
    pub status: u8,
    pub fetched: u8,
    pub temp: u16,
    pub addr_abs: u16,
    pub addr_rel: u16,
    pub opcode: u8,
    pub cycles: u8,
    pub clock_count: u32,
}

/// The operand value the current instruction works on: for any addressing
/// mode but implicit it is read over the bus from the resolved address;
/// the implicit mode has already latched the accumulator.
#[verifier::opaque]
pub open spec fn fetch_spec(c: Cpu6502, b: BusV) -> (Cpu6502, BusV) {
    if instr_spec(c.opcode).addrmode is IMP {
        (c, b)
    } else {
        (
            Cpu6502 { fetched: bus_read_val(b, c.addr_abs), ..c },
            bus_read_post(b, c.addr_abs),
        )
    }
}

/// One byte pushed through the fixed stack page; the 8-bit stack pointer
/// wraps on decrement, which is load-bearing hardware behavior.
#[verifier::opaque]
pub open spec fn push_spec(c: Cpu6502, b: BusV, v: u8) -> (Cpu6502, BusV) {
    (
        Cpu6502 { stkp: wrap8(c.stkp - 1), ..c },
        bus_write_post(b, (0x0100 + c.stkp) as u16, v),
    )
}

/// One byte pulled through the fixed stack page, with the same wraparound
/// on increment. Yields the new register file, the bus, and the byte.
#[verifier::opaque]
pub open spec fn pull_spec(c: Cpu6502, b: BusV) -> (Cpu6502, BusV, u8) {
    let sp = wrap8(c.stkp + 1);
    (
        Cpu6502 { stkp: sp, ..c },
        bus_read_post(b, (0x0100 + sp) as u16),
        bus_read_val(b, (0x0100 + sp) as u16),
    )
}

/// The machine after `reset`: the program counter comes from the reset
/// vector, registers clear, the stack pointer is forced to 0xFD, and the
/// status byte takes the vector's low byte (reproduced as observed).
pub open spec fn reset_spec(c: Cpu6502, b: BusV) -> (Cpu6502, BusV) {
    let lo = bus_read_val(b, 0xFFFC);
    let b1 = bus_read_post(b, 0xFFFC);
    let hi = bus_read_val(b1, 0xFFFD);
    let b2 = bus_read_post(b1, 0xFFFD);
    (
        Cpu6502 {
            pc: mk16(hi, lo),
            a: 0,
            x: 0,
            y: 0,
            stkp: 0xFD,
            status: lo,
            addr_rel: 0,
            addr_abs: 0,
            fetched: 0,
            cycles: 0,
            ..c
        },
        b2,
    )
}

/// The machine after a maskable interrupt request: a no-op while the
/// InterruptDisable flag is set; otherwise the return address and the
/// status byte (Break cleared, Unused set) go onto the stack, interrupts
/// are disabled, the program counter is loaded from the IRQ vector, and
/// the instruction costs seven cycles.
pub open spec fn irq_spec(c: Cpu6502, b: BusV) -> (Cpu6502, BusV) {
    if flag_set(c.status, 0x04) {
        (c, b)
    } else {
        interrupt_spec(c, b, 0xFFFE, 7)
    }
}

/// The machine after a non-maskable interrupt: the same push sequence,
/// unconditionally, through the NMI vector, at a cost of eight cycles.
pub open spec fn nmi_spec(c: Cpu6502, b: BusV) -> (Cpu6502, BusV) {
    interrupt_spec(c, b, 0xFFFA, 8)
}

/// The shared interrupt entry: push the program counter high byte then low
/// byte, force Break clear and Unused and InterruptDisable set, push the
/// status byte, and jump through `vector`.
pub open spec fn interrupt_spec(c: Cpu6502, b: BusV, vector: u16, cost: u8) -> (Cpu6502, BusV) {
    let (c1, b1) = push_spec(c, b, hi8(c.pc));
    let (c2, b2) = push_spec(c1, b1, lo8(c.pc));
    let st = with_flag(with_flag(with_flag(c2.status, 0x10, false), 0x20, true), 0x04, true);
    let (c3, b3) = push_spec(Cpu6502 { status: st, ..c2 }, b2, st);
    let lo = bus_read_val(b3, vector);
    let b4 = bus_read_post(b3, vector);
    let hi = bus_read_val(b4, (vector + 1) as u16);
    let b5 = bus_read_post(b4, (vector + 1) as u16);
    (Cpu6502 { addr_abs: vector, pc: mk16(hi, lo), cycles: cost, ..c3 }, b5)
}

/// One master-clock tick of the execution engine. At an instruction
/// boundary (no cycles remaining) it fetches the opcode at the program
/// counter, forces the Unused flag, looks the instruction up, runs the
/// addressing-mode resolver and then the operation, and charges the base
/// cycle count plus the bitwise AND of the two extra-cycle signals.
/// Otherwise the tick only burns one remaining cycle. The total cycle
/// counter advances every tick.
pub open spec fn clock_spec(c: Cpu6502, b: BusV) -> (Cpu6502, BusV) {
    if c.cycles == 0 {
        let op = bus_read_val(b, c.pc);
        let b1 = bus_read_post(b, c.pc);
        let c1 = Cpu6502 {
            opcode: op,
            status: with_flag(c.status, 0x20, true),
            pc: wrap16(c.pc + 1),
            cycles: instr_spec(op).cycles,
            ..c
        };
        let (c2, b2, e1) = mode_spec(instr_spec(op).addrmode, c1, b1);
        let (c3, b3, e2) = oper_spec(instr_spec(op).operator, c2, b2);
        let both = if e1 == 1 && e2 == 1 {
            1int
        } else {
            0int
        };
        let c4 = Cpu6502 {
            cycles: wrap8(c3.cycles + both),
            status: with_flag(c3.status, 0x20, true),
            ..c3
        };
        let c5 = Cpu6502 { clock_count: wrap32(c4.clock_count + 1), ..c4 };
        if c5.cycles != 0 {
            (Cpu6502 { cycles: (c5.cycles - 1) as u8, ..c5 }, b3)
        } else {
            (c5, b3)
        }
    } else {
        (
            Cpu6502 {
                clock_count: wrap32(c.clock_count + 1),
                cycles: (c.cycles - 1) as u8,
                ..c
            },
            b,
        )
    }
}

/// A tick taken at an instruction boundary always leaves work behind: the
/// cheapest instruction costs two cycles, at most two more can be added by
/// a taken branch and one by the combined extra-cycle signal, and the tick
/// itself burns one.
pub proof fn lemma_clock_boundary(c: Cpu6502, b: BusV)
    requires
        c.cycles == 0,
    ensures
        1 <= clock_spec(c, b).0.cycles <= 10,
{
    let op = bus_read_val(b, c.pc);
    let b1 = bus_read_post(b, c.pc);
    lemma_cycles_range(op);
    let c1 = Cpu6502 {
        opcode: op,
        status: with_flag(c.status, 0x20, true),
        pc: wrap16(c.pc + 1),
        cycles: instr_spec(op).cycles,
        ..c
    };
    crate::addrmode::lemma_mode_cycles(instr_spec(op).addrmode, c1, b1);
    let c2 = mode_spec(instr_spec(op).addrmode, c1, b1).0;
    let b2 = mode_spec(instr_spec(op).addrmode, c1, b1).1;
    crate::operators::lemma_oper_cycles(instr_spec(op).operator, c2, b2);
}

impl Cpu6502 {
    /// The power-on register file: everything zero.
    pub open spec fn new_spec() -> Cpu6502 {
        Cpu6502 {
            a: 0,
            x: 0,
            y: 0,
            stkp: 0,
            pc: 0,
            status: 0,
            fetched: 0,
            temp: 0,
            addr_abs: 0,
            addr_rel: 0,
            opcode: 0,
            cycles: 0,
            clock_count: 0,
        }
    }

    pub fn new() -> (r: Cpu6502)
        ensures
            r == Cpu6502::new_spec(),
    {
        Cpu6502 {
            a: 0x00,
            x: 0x00,
            y: 0x00,
            stkp: 0x00,
            pc: 0x0000,
            status: 0x00,
            fetched: 0x00,
            temp: 0x0000,
            addr_abs: 0x0000,
            addr_rel: 0x0000,
            opcode: 0x00,
            cycles: 0,
            clock_count: 0,
        }
    }

    /// 1 when the flag is set in the status byte, else 0.
    pub fn get_flag(&self, flag: CpuFlags) -> (r: u8)
        ensures
            r == (if flag_set(self.status, flag.mask()) {
                1u8
            } else {
                0u8
            }),
    {
        let mask = flag.bits();
        if (self.status / mask) % 2 == 1 {
            1
        } else {
            0
        }
    }

    /// Forces one status bit.
    pub fn set_flag(&mut self, flag: CpuFlags, value: bool)
        ensures
            *final(self) == (Cpu6502 {
                status: with_flag(old(self).status, flag.mask(), value),
                ..*old(self)
            }),
    {
        let mask = flag.bits();
        self.status = apply_flag(self.status, mask, value);
    }

    /// Latches the current instruction's operand into `fetched`.
    pub fn fetch(&mut self, io: &mut Bus) -> (r: u8)
        requires
            old(io).wf(),
        ensures
            final(io).wf(),
            *final(self) == fetch_spec(*old(self), old(io)@).0,
            final(io)@ == fetch_spec(*old(self), old(io)@).1,
            r == final(self).fetched,
    {
        proof {
            reveal(fetch_spec);
        }
        let instr = Instruction::from_opcode(self.opcode);
        if !(matches!(instr.get_addrmode(), AddrMode::IMP)) {
            self.fetched = io.cpu_read(self.addr_abs);
        }
        self.fetched
    }

    /// Reinitializes the machine from the reset vector.
    pub fn reset(&mut self, io: &mut Bus)
        requires
            old(io).wf(),
        ensures
            final(io).wf(),
            *final(self) == reset_spec(*old(self), old(io)@).0,
            final(io)@ == reset_spec(*old(self), old(io)@).1,
            final(self).pc == mk16(
                bus_read_val(bus_read_post(old(io)@, 0xFFFC), 0xFFFD),
                bus_read_val(old(io)@, 0xFFFC),
            ),
            final(self).stkp == 0xFD,
            final(self).cycles == 0,
    {
        self.addr_abs = AddrUtils::CPU_START_ADDR;
        let lo: u16 = io.cpu_read(self.addr_abs) as u16;
        let hi: u16 = io.cpu_read(self.addr_abs + 1) as u16;
        self.pc = hi * 256 + lo;
        self.a = 0;
        self.x = 0;
        self.y = 0;
        self.stkp = 0xFD;
        self.status = lo as u8;
        self.addr_rel = 0x0000;
        self.addr_abs = 0x0000;
        self.fetched = 0x00;
        self.cycles = 0;
    }

    /// A maskable interrupt request.
    pub fn irq(&mut self, io: &mut Bus)
        requires
            old(io).wf(),
        ensures
            final(io).wf(),
            *final(self) == irq_spec(*old(self), old(io)@).0,
            final(io)@ == irq_spec(*old(self), old(io)@).1,
    {
        proof {
            reveal(push_spec);
        }
        if self.get_flag(CpuFlags::I) != 0 {
            return ;
        }
        self.push(io, ((self.pc / 256) % 256) as u8);
        self.push(io, (self.pc % 256) as u8);
        self.set_flag(CpuFlags::B, false);
        self.set_flag(CpuFlags::U, true);
        self.set_flag(CpuFlags::I, true);
        let st = self.status;
        self.push(io, st);
        self.addr_abs = 0xFFFE;
        let lo: u16 = io.cpu_read(self.addr_abs) as u16;
        let hi: u16 = io.cpu_read(self.addr_abs + 1) as u16;
        self.pc = hi * 256 + lo;
        self.cycles = 7;
    }

    /// The non-maskable interrupt.
    pub fn nmi(&mut self, io: &mut Bus)
        requires
            old(io).wf(),
        ensures
            final(io).wf(),
            *final(self) == nmi_spec(*old(self), old(io)@).0,
            final(io)@ == nmi_spec(*old(self), old(io)@).1,
    {
        proof {
            reveal(push_spec);
        }
        self.push(io, ((self.pc / 256) % 256) as u8);
        self.push(io, (self.pc % 256) as u8);
        self.set_flag(CpuFlags::B, false);
        self.set_flag(CpuFlags::U, true);
        self.set_flag(CpuFlags::I, true);
        let st = self.status;
        self.push(io, st);
        self.addr_abs = 0xFFFA;
        let lo: u16 = io.cpu_read(self.addr_abs) as u16;
        let hi: u16 = io.cpu_read(self.addr_abs + 1) as u16;
        self.pc = hi * 256 + lo;
        self.cycles = 8;
    }

    /// Pushes one byte through the stack page.
    pub fn push(&mut self, io: &mut Bus, v: u8)
        requires
            old(io).wf(),
        ensures
            final(io).wf(),
            *final(self) == push_spec(*old(self), old(io)@, v).0,
            final(io)@ == push_spec(*old(self), old(io)@, v).1,
    {
        proof {
            reveal(push_spec);
        }
        io.cpu_write(AddrUtils::CPU_STACK_BASE_ADDR + (self.stkp as u16), v);
        self.stkp = self.stkp.wrapping_sub(1);
    }

    /// Pulls one byte through the stack page.
    pub fn pull(&mut self, io: &mut Bus) -> (r: u8)
        requires
            old(io).wf(),
        ensures
            final(io).wf(),
            *final(self) == pull_spec(*old(self), old(io)@).0,
            final(io)@ == pull_spec(*old(self), old(io)@).1,
            r == pull_spec(*old(self), old(io)@).2,
    {
        proof {
            reveal(pull_spec);
        }
        self.stkp = self.stkp.wrapping_add(1);
        io.cpu_read(AddrUtils::CPU_STACK_BASE_ADDR + (self.stkp as u16))
    }

    /// One master-clock tick of the execution engine.
    #[verifier::rlimit(100)]
    pub fn clock(&mut self, io: &mut Bus)
        requires
            old(io).wf(),
        ensures
            final(io).wf(),
            *final(self) == clock_spec(*old(self), old(io)@).0,
            final(io)@ == clock_spec(*old(self), old(io)@).1,
    {
        if self.cycles == 0 {
            self.opcode = io.cpu_read(self.pc);
            self.set_flag(CpuFlags::U, true);
            self.pc = self.pc.wrapping_add(1);
            let instr = Instruction::from_opcode(self.opcode);
            self.cycles = instr.get_cycles();
            let add_cycles1: u8 = instr.execute_addrmode(self, io);
            let add_cycles2: u8 = instr.execute_operator(self, io);
            // the bitwise AND of the two one-bit extra-cycle signals
            let both: u8 = if add_cycles1 == 1 && add_cycles2 == 1 {
                1
            } else {
                0
            };
            self.cycles = self.cycles.wrapping_add(both);
            self.set_flag(CpuFlags::U, true);
        }
        self.clock_count = self.clock_count.wrapping_add(1);
        if self.cycles != 0 {
            self.cycles = self.cycles - 1;
        }
    }
}

} // verus!
