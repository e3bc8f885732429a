use vstd::prelude::*;

use crate::addr_utils::AddrUtils;

verus! {

/// A vector of `n` zero bytes.
pub fn zeroed(n: usize) -> (v: Vec<u8>)
    ensures
        v@.len() == n,
        forall|i: int| 0 <= i < n ==> v@[i] == 0u8,
{
    let mut v: Vec<u8> = Vec::new();
    let mut k: usize = 0;
    while k < n
        invariant
            k <= n,
            v@.len() == k,
            forall|i: int| 0 <= i < k ==> v@[i] == 0u8,
        decreases n - k,
    {
        v.push(0);
        k = k + 1;
    }
    v
}

/// What a read of the 2 KiB processor RAM returns: any address in
/// [0x0000, 0x1FFF] aliases the block through `addr % 0x0800`; an address
/// outside the window reads as 0.
pub open spec fn ram_read_spec(s: Seq<u8>, addr: u16) -> u8 {
    if addr <= 0x1FFF {
        s[addr as int % 0x800]
    } else {
        0
    }
}

/// The RAM contents after a write, with the same aliasing; a write outside
/// the window is ignored.
pub open spec fn ram_write_spec(s: Seq<u8>, addr: u16, data: u8) -> Seq<u8> {
    if addr <= 0x1FFF {
        s.update(addr as int % 0x800, data)
    } else {
        s
    }
}

/// The processor's fixed 2 KiB on-board RAM.
pub struct CpuRAM {
    pub ram: Vec<u8>,
}

impl View for CpuRAM {
    type V = Seq<u8>;

    open spec fn view(&self) -> Seq<u8> {
        self.ram@
    }
}

impl CpuRAM {
    pub open spec fn wf(&self) -> bool {
        self@.len() == 2048
    }

    pub fn new() -> (r: CpuRAM)
        ensures
            r.wf(),
            forall|i: int| 0 <= i < 2048 ==> r@[i] == 0u8,
    {
        CpuRAM { ram: zeroed(AddrUtils::RAM_SIZE as usize) }
    }

    pub fn write(&mut self, addr: u16, data: u8)
        requires
            old(self).wf(),
        ensures
            final(self).wf(),
            final(self)@ == ram_write_spec(old(self)@, addr, data),
    {
        if addr > AddrUtils::CPU_RAM_ADDR_MAX {
            return ;
        }
        let idx: usize = (addr as usize) % 0x800;
        self.ram.set(idx, data);
    }

    pub fn read(&self, addr: u16) -> (r: u8)
        requires
            self.wf(),
        ensures
            r == ram_read_spec(self@, addr),
    {
        self.read_mut(addr, false)
    }

    fn read_mut(&self, addr: u16, _read_only: bool) -> (r: u8)
        requires
            self.wf(),
        ensures
            r == ram_read_spec(self@, addr),
    {
        if addr > AddrUtils::CPU_RAM_ADDR_MAX {
            return 0x00;
        }
        let idx: usize = (addr as usize) % 0x800;
        self.ram[idx]
    }
}

} // verus!
