use vstd::prelude::*;

use crate::addr_utils::wrap16;
use crate::cpu_flags::with_flag;
use crate::ppu_ram::{
    ppu_new_spec,
    ppu_mem_read_spec, ppu_mem_write_spec, to_ppuaddr_spec, PpuAddr, PpuRAM, PpuStatusFlag, PpuV,
};

verus! {

/// What a processor-visible port read returns. The status port hands out
/// the three status bits over stale buffer bits; the data port returns the
/// delayed buffer, except that a palette-range address bypasses the delay.
pub open spec fn ppu_port_read_val(p: PpuV, addr: u16) -> u8 {
    match to_ppuaddr_spec(addr) {
        PpuAddr::Status => ((p.status / 32) * 32 + p.data_buffer % 32) as u8,
        PpuAddr::PPUData => if p.ppu_address >= 0x3F00 {
            ppu_mem_read_spec(p, p.ppu_address)
        } else {
            p.data_buffer
        },
        _ => 0,
    }
}

/// The register file after a processor-visible port read: a status read
/// clears the vertical-blank bit (the address latch is left as it is); a
/// data read refills the buffer from the current internal address and then
/// advances that address by one, unconditionally.
pub open spec fn ppu_port_read_post(p: PpuV, addr: u16) -> PpuV {
    match to_ppuaddr_spec(addr) {
        PpuAddr::Status => PpuV { status: with_flag(p.status, 0x80, false), ..p },
        PpuAddr::PPUData => PpuV {
            data_buffer: ppu_mem_read_spec(p, p.ppu_address),
            ppu_address: wrap16(p.ppu_address + 1),
            ..p
        },
        _ => p,
    }
}

/// What a passive inspection of a port returns: the same composition as a
/// live read, but without clearing the vertical-blank bit and without the
/// buffer refill of the data port.
pub open spec fn ppu_port_peek_val(p: PpuV, addr: u16) -> u8 {
    match to_ppuaddr_spec(addr) {
        PpuAddr::Status => ((p.status / 32) * 32 + p.data_buffer % 32) as u8,
        PpuAddr::PPUData => p.data_buffer,
        _ => 0,
    }
}

/// The register file after a processor-visible port write: control and mask
/// store directly; the address port is a two-step latch, high byte first;
/// the data port stores through to the current internal address and then
/// advances it by one.
pub open spec fn ppu_port_write_post(p: PpuV, addr: u16, data: u8) -> PpuV {
    match to_ppuaddr_spec(addr) {
        PpuAddr::Control => PpuV { control: data, ..p },
        PpuAddr::Mask => PpuV { mask: data, ..p },
        PpuAddr::PPUAddr => if p.address_latch == 0 {
            PpuV {
                ppu_address: (data * 256 + p.ppu_address % 256) as u16,
                address_latch: 1,
                ..p
            }
        } else {
            PpuV {
                ppu_address: ((p.ppu_address / 256) * 256 + data) as u16,
                address_latch: 0,
                ..p
            }
        },
        PpuAddr::PPUData => {
            let p2 = ppu_mem_write_spec(p, p.ppu_address, data);
            PpuV { ppu_address: wrap16(p.ppu_address + 1), ..p2 }
        },
        _ => p,
    }
}

/// The graphics co-processor's register-level state machine: the eight
/// processor-visible ports over the backing register file and memories.
pub struct Ppu2c02RAM {
    pub mem: PpuRAM,
}

impl View for Ppu2c02RAM {
    type V = PpuV;

    open spec fn view(&self) -> PpuV {
        self.mem@
    }
}

impl Ppu2c02RAM {
    pub open spec fn wf(&self) -> bool {
        self.mem.wf()
    }

    pub fn new() -> (r: Ppu2c02RAM)
        ensures
            r.wf(),
            r@ == ppu_new_spec(),
    {
        Ppu2c02RAM { mem: PpuRAM::new() }
    }

    /// A live port read, with its documented side effects.
    pub fn cpu_read(&mut self, addr: u16, _readonly: bool) -> (r: u8)
        requires
            old(self).wf(),
        ensures
            final(self).wf(),
            r == ppu_port_read_val(old(self)@, addr),
            final(self)@ == ppu_port_read_post(old(self)@, addr),
    {
        let mem_region = PpuAddr::to_ppuaddr(addr);
        match mem_region {
            PpuAddr::Status => {
                let data = (self.mem.status / 32) * 32 + self.mem.data_buffer % 32;
                self.mem.set_status_flag(PpuStatusFlag::VERTICAL_BLANK, false);
                data
            },
            PpuAddr::PPUData => {
                let mut data = self.mem.data_buffer;
                let fresh = self.mem.read(self.mem.ppu_address, true);
                self.mem.data_buffer = fresh;
                if self.mem.ppu_address >= 0x3F00 {
                    data = fresh;
                }
                self.mem.ppu_address = self.mem.ppu_address.wrapping_add(1);
                data
            },
            _ => 0,
        }
    }

    /// A passive port inspection for a debugger: no state is touched.
    pub fn cpu_peek(&self, addr: u16) -> (r: u8)
        requires
            self.wf(),
        ensures
            r == ppu_port_peek_val(self@, addr),
    {
        let mem_region = PpuAddr::to_ppuaddr(addr);
        match mem_region {
            PpuAddr::Status => (self.mem.status / 32) * 32 + self.mem.data_buffer % 32,
            PpuAddr::PPUData => self.mem.data_buffer,
            _ => 0,
        }
    }

    /// A port write, with its documented side effects.
    pub fn cpu_write(&mut self, addr: u16, data: u8)
        requires
            old(self).wf(),
        ensures
            final(self).wf(),
            final(self)@ == ppu_port_write_post(old(self)@, addr, data),
    {
        let mem_region = PpuAddr::to_ppuaddr(addr);
        match mem_region {
            PpuAddr::Control => {
                self.mem.control = data;
            },
            PpuAddr::Mask => {
                self.mem.mask = data;
            },
            PpuAddr::PPUAddr => {
                if self.mem.address_latch == 0 {
                    self.mem.ppu_address = (data as u16) * 256 + self.mem.ppu_address % 256;
                    self.mem.address_latch = 1;
                } else {
                    self.mem.ppu_address = (self.mem.ppu_address / 256) * 256 + (data as u16);
                    self.mem.address_latch = 0;
                }
            },
            PpuAddr::PPUData => {
                let at = self.mem.ppu_address;
                self.mem.write(at, data);
                self.mem.ppu_address = at.wrapping_add(1);
            },
            _ => {},
        }
    }
}

} // verus!
