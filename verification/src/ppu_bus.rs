use vstd::prelude::*;

use crate::cartridge::{cart_ppu_read_spec, cart_ppu_write_spec, CartV, Cartridge};
use crate::ppu2c02::Ppu2c02RAM;
use crate::ppu_ram::{ppu_mem_read_spec, ppu_mem_write_spec, PpuV};

verus! {

/// The graphics-side address space as the contracts see it: the register
/// file with its internal memories, and the cartridge they sit behind.
pub ghost struct PpuBusV {
    pub ram: PpuV,
    pub cart: CartV,
}

/// A graphics-space read: offered to the cartridge first; where the
/// cartridge does not claim the address, the internal memories answer.
pub open spec fn ppu_bus_read_spec(v: PpuBusV, addr: u16) -> u8 {
    match cart_ppu_read_spec(v.cart, addr) {
        Some(d) => d,
        None => ppu_mem_read_spec(v.ram, addr),
    }
}

/// A graphics-space write, routed the same way.
pub open spec fn ppu_bus_write_spec(v: PpuBusV, addr: u16, data: u8) -> PpuBusV {
    match crate::mapper::mapper_ppu_map_write(v.cart.mapper, addr) {
        Some(off) => PpuBusV { cart: cart_ppu_write_spec(v.cart, addr, data), ..v },
        None => PpuBusV { ram: ppu_mem_write_spec(v.ram, addr, data), ..v },
    }
}

/// The graphics-side bus facade: it owns the register file and the
/// cartridge, and arbitrates every graphics-space access between them.
pub struct PpuBus {
    pub ram: Ppu2c02RAM,
    pub cartridge: Cartridge,
}

impl View for PpuBus {
    type V = PpuBusV;

    open spec fn view(&self) -> PpuBusV {
        PpuBusV { ram: self.ram@, cart: self.cartridge@ }
    }
}

impl PpuBus {
    pub open spec fn wf(&self) -> bool {
        self.ram.wf() && self.cartridge.wf()
    }

    pub fn new(cartridge: Cartridge) -> (r: PpuBus)
        requires
            cartridge.wf(),
        ensures
            r.wf(),
            r@.cart == cartridge@,
            r@.ram == crate::ppu_ram::ppu_new_spec(),
    {
        PpuBus { ram: Ppu2c02RAM::new(), cartridge }
    }

    pub fn change_cartridge(&mut self, cartridge: Cartridge)
        requires
            old(self).wf(),
            cartridge.wf(),
        ensures
            final(self).wf(),
            final(self)@.cart == cartridge@,
            final(self)@.ram == old(self)@.ram,
    {
        self.cartridge = cartridge;
    }

    /// A graphics-space read; internal reads are free of side effects, so
    /// passive inspection takes the same path.
    pub fn read(&self, addr: u16, _readonly: bool) -> (r: u8)
        requires
            self.wf(),
        ensures
            r == ppu_bus_read_spec(self@, addr),
    {
        let mut data: u8 = 0;
        if self.cartridge.ppu_read(addr, &mut data) {
            return data;
        }
        self.ram.mem.read(addr, _readonly)
    }

    /// A graphics-space write.
    pub fn write(&mut self, addr: u16, data: u8)
        requires
            old(self).wf(),
        ensures
            final(self).wf(),
            final(self)@ == ppu_bus_write_spec(old(self)@, addr, data),
    {
        if self.cartridge.ppu_write(addr, data) {
            return ;
        }
        self.ram.mem.write(addr, data);
    }
}

} // verus!
