use vstd::prelude::*;

use crate::bus::{Bus, BusV};
use crate::ppu_ram::{ppu_set_status_spec, PpuStatusFlag};

verus! {

/// The graphics co-processor's scanline/cycle timer: a scanline counter in
/// [-1, 260], a cycle counter in [0, 340], and a frame-complete flag. It is
/// driven at a fixed three-to-one ratio to processor ticks.
pub struct Ppu {
    pub frame_complete: bool,
    pub scanline: i16,
    pub cycle: i16,
}

/// One timer tick. At scanline -1, cycle 1 the vertical-blank status bit is
/// cleared; at scanline 241, cycle 1 it is set (the hardware's conditional
/// interrupt request on that edge is not wired here). The cycle counter then
/// advances, wrapping into the next scanline at 341 cycles; past scanline
/// 260 the counter rolls back to -1 and the frame is marked complete.
pub open spec fn ppu_clock_spec(t: Ppu, b: BusV) -> (Ppu, BusV) {
    let b1 = if t.scanline == -1 && t.cycle == 1 {
        BusV { ppu: ppu_set_status_spec(b.ppu, 0x80, false), ..b }
    } else {
        b
    };
    let b2 = if t.scanline == 241 && t.cycle == 1 {
        BusV { ppu: ppu_set_status_spec(b1.ppu, 0x80, true), ..b1 }
    } else {
        b1
    };
    let cycle1 = (t.cycle + 1) as i16;
    let wrapped = cycle1 >= 341;
    let cycle2: i16 = if wrapped {
        0
    } else {
        cycle1
    };
    let scan1: i16 = if wrapped {
        (t.scanline + 1) as i16
    } else {
        t.scanline
    };
    let finished = scan1 >= 261;
    let scan2: i16 = if finished {
        -1i16
    } else {
        scan1
    };
    let fc = if finished {
        true
    } else {
        t.frame_complete
    };
    (Ppu { frame_complete: fc, scanline: scan2, cycle: cycle2 }, b2)
}

impl Ppu {
    pub open spec fn wf(&self) -> bool {
        &&& -1 <= self.scanline <= 260
        &&& 0 <= self.cycle <= 340
    }

    pub fn new() -> (r: Ppu)
        ensures
            r.wf(),
            r == (Ppu { frame_complete: false, scanline: 0, cycle: 0 }),
    {
        Ppu { frame_complete: false, scanline: 0, cycle: 0 }
    }

    /// One timer tick, toggling the vertical-blank bit through the bus.
    pub fn clock(&mut self, bus: &mut Bus)
        requires
            old(self).wf(),
            old(bus).wf(),
        ensures
            final(self).wf(),
            final(bus).wf(),
            *final(self) == ppu_clock_spec(*old(self), old(bus)@).0,
            final(bus)@ == ppu_clock_spec(*old(self), old(bus)@).1,
    {
        if self.scanline == -1 && self.cycle == 1 {
            bus.ppu.ram.mem.set_status_flag(PpuStatusFlag::VERTICAL_BLANK, false);
        }
        if self.scanline == 241 && self.cycle == 1 {
            bus.ppu.ram.mem.set_status_flag(PpuStatusFlag::VERTICAL_BLANK, true);
        }
        self.cycle = self.cycle + 1;
        if self.cycle >= 341 {
            self.cycle = 0;
            self.scanline = self.scanline + 1;
        }
        if self.scanline >= 261 {
            self.scanline = -1;
            self.frame_complete = true;
        }
    }
}

} // verus!
