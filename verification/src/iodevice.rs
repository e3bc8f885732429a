use vstd::prelude::*;

use crate::addr_utils::AddrUtils;
use crate::cpu_ram::{ram_read_spec, ram_write_spec, CpuRAM};

verus! {

/// A minimal memory-only port of the processor bus: it owns the 2 KiB RAM
/// and routes the RAM window with its mirroring, and nothing else. It
/// serves drivers that run the processor without a cartridge or graphics
/// co-processor attached; addresses outside the RAM window fall to the
/// open-bus default.
pub struct IODevice {
    pub ram: CpuRAM,
}

impl View for IODevice {
    type V = Seq<u8>;

    open spec fn view(&self) -> Seq<u8> {
        self.ram@
    }
}

impl IODevice {
    pub open spec fn wf(&self) -> bool {
        self.ram.wf()
    }

    pub fn new(ram: CpuRAM) -> (r: IODevice)
        requires
            ram.wf(),
        ensures
            r.wf(),
            r@ == ram@,
    {
        IODevice { ram }
    }

    pub fn cpu_write(&mut self, addr: u16, data: u8)
        requires
            old(self).wf(),
        ensures
            final(self).wf(),
            addr <= 0x1FFF ==> final(self)@ == ram_write_spec(old(self)@, addr, data),
            addr > 0x1FFF ==> final(self)@ == old(self)@,
    {
        if addr <= AddrUtils::CPU_RAM_ADDR_MAX {
            self.ram.write(addr % 0x0800, data);
        }
    }

    pub fn cpu_read(&self, addr: u16) -> (r: u8)
        requires
            self.wf(),
        ensures
            addr <= 0x1FFF ==> r == ram_read_spec(self@, addr),
            addr > 0x1FFF ==> r == 0,
    {
        if addr <= AddrUtils::CPU_RAM_ADDR_MAX {
            return self.ram.read(addr % 0x0800);
        }
        0x00
    }
}

} // verus!
