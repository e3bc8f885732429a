use vstd::prelude::*;

use crate::addr_utils::wrap64;
use crate::bus::{Bus, BusV};
use crate::cartridge::Cartridge;
use crate::cpu6502::{clock_spec, lemma_clock_boundary, reset_spec, Cpu6502};
use crate::cpu_ram::CpuRAM;
use crate::ppu::{ppu_clock_spec, Ppu};
use crate::ppu2c02::Ppu2c02RAM;

verus! {

/// The whole console as the contracts see it.
pub ghost struct NesV {
    pub cpu: Cpu6502,
    pub bus: BusV,
    pub ppu: Ppu,
    pub clock_counter: u64,
}

/// One master-clock tick of the console: the graphics timer advances every
/// tick, the processor on every third, as the hardware's fixed clock ratio
/// demands.
pub open spec fn nes_clock_spec(n: NesV) -> NesV {
    let (t1, b1) = ppu_clock_spec(n.ppu, n.bus);
    if n.clock_counter % 3 == 0 {
        let (c1, b2) = clock_spec(n.cpu, b1);
        NesV { cpu: c1, bus: b2, ppu: t1, clock_counter: wrap64(n.clock_counter + 1) }
    } else {
        NesV { cpu: n.cpu, bus: b1, ppu: t1, clock_counter: wrap64(n.clock_counter + 1) }
    }
}

/// The machine after `k` master-clock ticks.
pub open spec fn nes_run_spec(n: NesV, k: nat) -> NesV
    decreases k,
{
    if k == 0 {
        n
    } else {
        nes_clock_spec(nes_run_spec(n, (k - 1) as nat))
    }
}

/// The owning driver of the machine: it holds the processor, the bus with
/// everything behind it, and the graphics timer, so that the cartridge is
/// reachable through exactly one mutable path.
pub struct Nes {
    pub cpu: Cpu6502,
    pub bus: Bus,
    pub ppu: Ppu,
    pub clock_counter: u64,
}

impl View for Nes {
    type V = NesV;

    open spec fn view(&self) -> NesV {
        NesV { cpu: self.cpu, bus: self.bus@, ppu: self.ppu, clock_counter: self.clock_counter }
    }
}

impl Nes {
    pub open spec fn wf(&self) -> bool {
        &&& self.bus.wf()
        &&& self.ppu.wf()
    }

    /// The powered-on console with a blank cartridge.
    pub fn new() -> (r: Nes)
        ensures
            r.wf(),
            r.clock_counter == 0,
            r.cpu == Cpu6502::new_spec(),
            r.ppu == (Ppu { frame_complete: false, scanline: 0, cycle: 0 }),
    {
        Nes {
            cpu: Cpu6502::new(),
            bus: Bus::new(CpuRAM::new(), Ppu2c02RAM::new(), Cartridge::new()),
            ppu: Ppu::new(),
            clock_counter: 0,
        }
    }

    /// Replaces the cartridge as a unit and restarts the machine through
    /// the new reset vector.
    pub fn insert_cartridge(&mut self, cartridge: Cartridge)
        requires
            old(self).wf(),
            cartridge.wf(),
        ensures
            final(self).wf(),
            final(self).cpu == reset_spec(
                old(self).cpu,
                BusV { cart: cartridge@, ..old(self).bus@ },
            ).0,
            final(self).bus@ == reset_spec(
                old(self).cpu,
                BusV { cart: cartridge@, ..old(self).bus@ },
            ).1,
            final(self).ppu == old(self).ppu,
            final(self).clock_counter == old(self).clock_counter,
    {
        self.bus.change_cartridge(cartridge);
        self.reset();
    }

    /// Restarts the machine through the reset vector.
    pub fn reset(&mut self)
        requires
            old(self).wf(),
        ensures
            final(self).wf(),
            final(self).cpu == reset_spec(old(self).cpu, old(self).bus@).0,
            final(self).bus@ == reset_spec(old(self).cpu, old(self).bus@).1,
            final(self).ppu == old(self).ppu,
            final(self).clock_counter == old(self).clock_counter,
    {
        self.cpu.reset(&mut self.bus);
    }

    /// One master-clock tick.
    pub fn clock(&mut self)
        requires
            old(self).wf(),
        ensures
            final(self).wf(),
            final(self)@ == nes_clock_spec(old(self)@),
    {
        self.ppu.clock(&mut self.bus);
        if self.clock_counter % 3 == 0 {
            self.cpu.clock(&mut self.bus);
        }
        self.clock_counter = self.clock_counter.wrapping_add(1);
    }

    /// The externally observable unit of work: run master-clock ticks
    /// until the next instruction boundary — the remaining-cycle count
    /// moves away from zero and back to it. The state reached is exactly
    /// some positive number of iterations of the tick transition.
    pub fn step(&mut self)
        requires
            old(self).wf(),
        ensures
            final(self).wf(),
            final(self).cpu.cycles == 0,
            exists|k: nat| 1 <= k && final(self)@ == nes_run_spec(old(self)@, k),
    {
        let ghost start = *self;
        let ghost mut ticks: nat = 0;
        while self.cpu.cycles == 0
            invariant
                self.wf(),
                self@ == nes_run_spec(start@, ticks),
            decreases (if self.cpu.cycles != 0 {
                0int
            } else {
                (3 - self.clock_counter % 3) % 3 + 1
            }),
        {
            let ghost prev = *self;
            self.clock();
            proof {
                ticks = ticks + 1;
                if prev.clock_counter % 3 == 0 {
                    lemma_clock_boundary(prev.cpu, ppu_clock_spec(prev.ppu, prev.bus@).1);
                }
            }
        }
        while self.cpu.cycles != 0
            invariant
                self.wf(),
                self@ == nes_run_spec(start@, ticks),
                self.cpu.cycles != 0 || ticks >= 1,
            decreases self.cpu.cycles, (3 - self.clock_counter % 3) % 3,
        {
            self.clock();
            proof {
                ticks = ticks + 1;
            }
        }
        proof {
            assert(self@ == nes_run_spec(start@, ticks));
        }
    }
}

} // verus!
