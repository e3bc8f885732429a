use vstd::prelude::*;

use crate::addr_utils::AddrUtils;
use crate::cartridge::{
    cart_cpu_read_spec, cart_cpu_write_spec, CartV, Cartridge,
};
use crate::cpu_ram::CpuRAM;
use crate::mapper::mapper_cpu_map_write;
use crate::ppu2c02::{
    ppu_port_peek_val, ppu_port_read_post, ppu_port_read_val, ppu_port_write_post, Ppu2c02RAM,
};
use crate::ppu_bus::PpuBus;
use crate::ppu_ram::PpuV;

verus! {

/// Everything the processor can reach through its bus, as the contracts
/// see it: the 2 KiB RAM, the graphics register file, and the cartridge.
pub ghost struct BusV {
    pub ram: Seq<u8>,
    pub ppu: PpuV,
    pub cart: CartV,
}

pub open spec fn bus_wf(b: BusV) -> bool {
    &&& b.ram.len() == 2048
    &&& crate::ppu_ram::ppu_wf(b.ppu)
    &&& crate::cartridge::cart_wf(b.cart)
}

/// What a processor read returns. Dispatch priority, fixed: the cartridge
/// is offered the address first; then the RAM window [0x0000, 0x1FFF],
/// mirrored every 0x0800; then the graphics register window
/// [0x2000, 0x3FFF], mirrored every 8 bytes; any other address reads as 0.
#[verifier::opaque]
pub open spec fn bus_read_val(b: BusV, addr: u16) -> u8 {
    match cart_cpu_read_spec(b.cart, addr) {
        Some(v) => v,
        None => if addr <= 0x1FFF {
            b.ram[addr as int % 0x800]
        } else if 0x2000 <= addr && addr <= 0x3FFF {
            ppu_port_read_val(b.ppu, addr % 8)
        } else {
            0
        },
    }
}

/// The machine after a processor read: only a read landing in the graphics
/// register window has side effects.
#[verifier::opaque]
pub open spec fn bus_read_post(b: BusV, addr: u16) -> BusV {
    match cart_cpu_read_spec(b.cart, addr) {
        Some(v) => b,
        None => if 0x2000 <= addr && addr <= 0x3FFF {
            BusV { ppu: ppu_port_read_post(b.ppu, addr % 8), ..b }
        } else {
            b
        },
    }
}

/// What a passive inspection returns: routed like a read, but the graphics
/// ports answer without their side effects.
#[verifier::opaque]
pub open spec fn bus_peek_val(b: BusV, addr: u16) -> u8 {
    match cart_cpu_read_spec(b.cart, addr) {
        Some(v) => v,
        None => if addr <= 0x1FFF {
            b.ram[addr as int % 0x800]
        } else if 0x2000 <= addr && addr <= 0x3FFF {
            ppu_port_peek_val(b.ppu, addr % 8)
        } else {
            0
        },
    }
}

/// The machine after a processor write, routed with the same priority; a
/// write that no window claims is ignored.
#[verifier::opaque]
pub open spec fn bus_write_post(b: BusV, addr: u16, data: u8) -> BusV {
    match mapper_cpu_map_write(b.cart.mapper, addr) {
        Some(off) => BusV { cart: cart_cpu_write_spec(b.cart, addr, data), ..b },
        None => if addr <= 0x1FFF {
            BusV { ram: b.ram.update(addr as int % 0x800, data), ..b }
        } else if 0x2000 <= addr && addr <= 0x3FFF {
            BusV { ppu: ppu_port_write_post(b.ppu, addr % 8, data), ..b }
        } else {
            b
        },
    }
}

/// The stateless address-space router the processor talks to. It owns the
/// RAM and, through the graphics-side facade, the register file and the
/// cartridge, so there is a single mutable path to each.
pub struct Bus {
    pub cpu_ram: CpuRAM,
    pub ppu: PpuBus,
}

impl View for Bus {
    type V = BusV;

    open spec fn view(&self) -> BusV {
        BusV { ram: self.cpu_ram@, ppu: self.ppu.ram@, cart: self.ppu.cartridge@ }
    }
}

impl Bus {
    pub open spec fn wf(&self) -> bool {
        bus_wf(self@)
    }

    pub fn new(ram: CpuRAM, ppu: Ppu2c02RAM, cartridge: Cartridge) -> (r: Bus)
        requires
            ram.wf(),
            ppu.wf(),
            cartridge.wf(),
        ensures
            r.wf(),
            r@ == (BusV { ram: ram@, ppu: ppu@, cart: cartridge@ }),
    {
        Bus { cpu_ram: ram, ppu: PpuBus { ram: ppu, cartridge } }
    }

    pub fn change_cartridge(&mut self, cartridge: Cartridge)
        requires
            old(self).wf(),
            cartridge.wf(),
        ensures
            final(self).wf(),
            final(self)@ == (BusV { cart: cartridge@, ..old(self)@ }),
    {
        self.ppu.change_cartridge(cartridge);
    }

    /// A live processor read, with the graphics ports' side effects.
    pub fn cpu_read(&mut self, addr: u16) -> (r: u8)
        requires
            old(self).wf(),
        ensures
            final(self).wf(),
            r == bus_read_val(old(self)@, addr),
            final(self)@ == bus_read_post(old(self)@, addr),
    {
        proof {
            reveal(bus_read_val);
            reveal(bus_read_post);
        }
        let mut data: u8 = 0;
        if self.ppu.cartridge.cpu_read(addr, &mut data) {
            return data;
        }
        if addr <= AddrUtils::CPU_RAM_ADDR_MAX {
            return self.cpu_ram.read(addr % 0x0800);
        }
        if addr >= AddrUtils::PPU_RAM_ADDR_MIN && addr <= AddrUtils::PPU_RAM_ADDR_MAX {
            return self.ppu.ram.cpu_read(addr % 0x0008, true);
        }
        0x00
    }

    /// A passive processor-side inspection for a debugger: never touches
    /// any state, in particular not the graphics data port's buffer.
    pub fn cpu_peek(&self, addr: u16) -> (r: u8)
        requires
            self.wf(),
        ensures
            r == bus_peek_val(self@, addr),
    {
        proof {
            reveal(bus_peek_val);
        }
        let mut data: u8 = 0;
        if self.ppu.cartridge.cpu_read(addr, &mut data) {
            return data;
        }
        if addr <= AddrUtils::CPU_RAM_ADDR_MAX {
            return self.cpu_ram.read(addr % 0x0800);
        }
        if addr >= AddrUtils::PPU_RAM_ADDR_MIN && addr <= AddrUtils::PPU_RAM_ADDR_MAX {
            return self.ppu.ram.cpu_peek(addr % 0x0008);
        }
        0x00
    }

    /// A processor write.
    pub fn cpu_write(&mut self, addr: u16, data: u8)
        requires
            old(self).wf(),
        ensures
            final(self).wf(),
            final(self)@ == bus_write_post(old(self)@, addr, data),
    {
        proof {
            reveal(bus_write_post);
        }
        if self.ppu.cartridge.cpu_write(addr, data) {
            return ;
        }
        if addr <= AddrUtils::CPU_RAM_ADDR_MAX {
            self.cpu_ram.write(addr % 0x0800, data);
            return ;
        }
        if addr >= AddrUtils::PPU_RAM_ADDR_MIN && addr <= AddrUtils::PPU_RAM_ADDR_MAX {
            self.ppu.ram.cpu_write(addr % 0x0008, data);
        }
    }

    /// A graphics-space read, for the renderer's side of the machine.
    pub fn ppu_read(&self, addr: u16, readonly: bool) -> (r: u8)
        requires
            self.wf(),
        ensures
            r == crate::ppu_bus::ppu_bus_read_spec(self.ppu@, addr),
    {
        self.ppu.read(addr, readonly)
    }

    /// A graphics-space write.
    pub fn ppu_write(&mut self, addr: u16, data: u8)
        requires
            old(self).wf(),
        ensures
            final(self).wf(),
            final(self).ppu@ == crate::ppu_bus::ppu_bus_write_spec(old(self).ppu@, addr, data),
            final(self)@.ram == old(self)@.ram,
    {
        self.ppu.write(addr, data);
    }
}

} // verus!
