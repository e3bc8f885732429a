use vstd::prelude::*;

use crate::cpu_flags::{lemma_flag_arith, with_flag};
use crate::cpu_ram::zeroed;

verus! {

/// The graphics co-processor's eight processor-visible ports, by their
/// offset inside the mirrored 8-byte register window.
pub enum PpuAddr {
    Control,
    Mask,
    Status,
    OAMAddr,
    OAMData,
    Scroll,
    PPUAddr,
    PPUData,
    Invalid,
}

/// The port an offset selects.
pub open spec fn to_ppuaddr_spec(addr: u16) -> PpuAddr {
    match addr {
        0x0000 => PpuAddr::Control,
        0x0001 => PpuAddr::Mask,
        0x0002 => PpuAddr::Status,
        0x0003 => PpuAddr::OAMAddr,
        0x0004 => PpuAddr::OAMData,
        0x0005 => PpuAddr::Scroll,
        0x0006 => PpuAddr::PPUAddr,
        0x0007 => PpuAddr::PPUData,
        _ => PpuAddr::Invalid,
    }
}

impl PpuAddr {
    pub fn to_ppuaddr(addr: u16) -> (r: PpuAddr)
        ensures
            r == to_ppuaddr_spec(addr),
    {
        match addr {
            0x0000 => PpuAddr::Control,
            0x0001 => PpuAddr::Mask,
            0x0002 => PpuAddr::Status,
            0x0003 => PpuAddr::OAMAddr,
            0x0004 => PpuAddr::OAMData,
            0x0005 => PpuAddr::Scroll,
            0x0006 => PpuAddr::PPUAddr,
            0x0007 => PpuAddr::PPUData,
            _ => PpuAddr::Invalid,
        }
    }
}

/// Bits of the graphics status byte.
#[allow(non_camel_case_types)]
pub enum PpuStatusFlag {
    SPRITE_OVERFLOW,
    SPRITE_ZERO_HIT,
    VERTICAL_BLANK,
}

impl PpuStatusFlag {
    pub open spec fn mask(self) -> u8 {
        match self {
            PpuStatusFlag::SPRITE_OVERFLOW => 0x20,
            PpuStatusFlag::SPRITE_ZERO_HIT => 0x40,
            PpuStatusFlag::VERTICAL_BLANK => 0x80,
        }
    }

    pub fn bits(&self) -> (r: u8)
        ensures
            r == self.mask(),
    {
        match self {
            PpuStatusFlag::SPRITE_OVERFLOW => 0x20,
            PpuStatusFlag::SPRITE_ZERO_HIT => 0x40,
            PpuStatusFlag::VERTICAL_BLANK => 0x80,
        }
    }
}

/// Bits of the graphics mask byte.
#[allow(non_camel_case_types)]
pub enum PpuMaskFlag {
    GRAYSCALE,
    RENDER_BACKGROUND_LEFT,
    RENDER_SPRITES_LEFT,
    RENDER_BACKGROUND,
    RENDER_SPRITES,
    ENHANCE_RED,
    ENHANCE_GREEN,
    ENHANCE_BLUE,
}

impl PpuMaskFlag {
    pub open spec fn mask(self) -> u8 {
        match self {
            PpuMaskFlag::GRAYSCALE => 0x01,
            PpuMaskFlag::RENDER_BACKGROUND_LEFT => 0x02,
            PpuMaskFlag::RENDER_SPRITES_LEFT => 0x04,
            PpuMaskFlag::RENDER_BACKGROUND => 0x08,
            PpuMaskFlag::RENDER_SPRITES => 0x10,
            PpuMaskFlag::ENHANCE_RED => 0x20,
            PpuMaskFlag::ENHANCE_GREEN => 0x40,
            PpuMaskFlag::ENHANCE_BLUE => 0x80,
        }
    }

    pub fn bits(&self) -> (r: u8)
        ensures
            r == self.mask(),
    {
        match self {
            PpuMaskFlag::GRAYSCALE => 0x01,
            PpuMaskFlag::RENDER_BACKGROUND_LEFT => 0x02,
            PpuMaskFlag::RENDER_SPRITES_LEFT => 0x04,
            PpuMaskFlag::RENDER_BACKGROUND => 0x08,
            PpuMaskFlag::RENDER_SPRITES => 0x10,
            PpuMaskFlag::ENHANCE_RED => 0x20,
            PpuMaskFlag::ENHANCE_GREEN => 0x40,
            PpuMaskFlag::ENHANCE_BLUE => 0x80,
        }
    }
}

/// Bits of the graphics control byte.
#[allow(non_camel_case_types)]
pub enum PpuControlFlag {
    NAMETABLE_X,
    NAMETABLE_Y,
    INCREMENT_MODE,
    PATTERN_SPRITE,
    PATTERN_BACKGROUND,
    SPRITE_SIZE,
    SLAVE_MODE,
    ENABLE_NMI,
}

impl PpuControlFlag {
    pub open spec fn mask(self) -> u8 {
        match self {
            PpuControlFlag::NAMETABLE_X => 0x01,
            PpuControlFlag::NAMETABLE_Y => 0x02,
            PpuControlFlag::INCREMENT_MODE => 0x04,
            PpuControlFlag::PATTERN_SPRITE => 0x08,
            PpuControlFlag::PATTERN_BACKGROUND => 0x10,
            PpuControlFlag::SPRITE_SIZE => 0x20,
            PpuControlFlag::SLAVE_MODE => 0x40,
            PpuControlFlag::ENABLE_NMI => 0x80,
        }
    }

    pub fn bits(&self) -> (r: u8)
        ensures
            r == self.mask(),
    {
        match self {
            PpuControlFlag::NAMETABLE_X => 0x01,
            PpuControlFlag::NAMETABLE_Y => 0x02,
            PpuControlFlag::INCREMENT_MODE => 0x04,
            PpuControlFlag::PATTERN_SPRITE => 0x08,
            PpuControlFlag::PATTERN_BACKGROUND => 0x10,
            PpuControlFlag::SPRITE_SIZE => 0x20,
            PpuControlFlag::SLAVE_MODE => 0x40,
            PpuControlFlag::ENABLE_NMI => 0x80,
        }
    }
}

/// The register file and internal memories as the contracts see them.
pub ghost struct PpuV {
    pub status: u8,
    pub mask: u8,
    pub control: u8,
    pub address_latch: u8,
    pub data_buffer: u8,
    pub ppu_address: u16,
    pub name_table: Seq<u8>,
    pub palette_table: Seq<u8>,
    pub pattern_table: Seq<u8>,
}

pub open spec fn ppu_wf(p: PpuV) -> bool {
    &&& p.name_table.len() == 2048
    &&& p.palette_table.len() == 32
    &&& p.pattern_table.len() == 8192
}

/// Index into the 32-byte palette, collapsing the four aliased entries
/// 0x10/0x14/0x18/0x1C onto 0x00/0x04/0x08/0x0C.
pub open spec fn palette_index(addr: u16) -> int {
    let i = (addr as int) % 32;
    if i == 0x10 {
        0x00
    } else if i == 0x14 {
        0x04
    } else if i == 0x18 {
        0x08
    } else if i == 0x1C {
        0x0C
    } else {
        i
    }
}

/// An internal memory read: pattern storage below 0x2000, the name tables
/// up to 0x3EFF (flat, no mirroring mode is selected), then the aliased
/// palette; anything higher reads as 0.
pub open spec fn ppu_mem_read_spec(p: PpuV, addr: u16) -> u8 {
    if addr <= 0x1FFF {
        p.pattern_table[addr as int]
    } else if addr <= 0x3EFF {
        p.name_table[(addr as int) % 0x800]
    } else if addr <= 0x3FFF {
        p.palette_table[palette_index(addr)]
    } else {
        0
    }
}

/// An internal memory write, routed like the read; a write above 0x3FFF is
/// ignored.
pub open spec fn ppu_mem_write_spec(p: PpuV, addr: u16, data: u8) -> PpuV {
    if addr <= 0x1FFF {
        PpuV { pattern_table: p.pattern_table.update(addr as int, data), ..p }
    } else if addr <= 0x3EFF {
        PpuV { name_table: p.name_table.update((addr as int) % 0x800, data), ..p }
    } else if addr <= 0x3FFF {
        PpuV { palette_table: p.palette_table.update(palette_index(addr), data), ..p }
    } else {
        p
    }
}

/// The register file after forcing one status bit.
pub open spec fn ppu_set_status_spec(p: PpuV, m: u8, value: bool) -> PpuV {
    PpuV { status: with_flag(p.status, m, value), ..p }
}

/// The power-on register file: every register and every memory cell zero.
pub open spec fn ppu_new_spec() -> PpuV {
    PpuV {
        status: 0,
        mask: 0,
        control: 0,
        address_latch: 0,
        data_buffer: 0,
        ppu_address: 0,
        name_table: Seq::new(2048, |i: int| 0u8),
        palette_table: Seq::new(32, |i: int| 0u8),
        pattern_table: Seq::new(8192, |i: int| 0u8),
    }
}

/// Backing storage of the graphics co-processor: the control, mask and
/// status bytes, the two-step address latch, the delayed-read buffer, and
/// the name-table, palette and pattern memories.
pub struct PpuRAM {
    pub status: u8,
    pub mask: u8,
    pub control: u8,
    pub address_latch: u8,
    pub data_buffer: u8,
    pub ppu_address: u16,
    pub name_table: Vec<u8>,
    pub palette_table: Vec<u8>,
    pub pattern_table: Vec<u8>,
}

impl View for PpuRAM {
    type V = PpuV;

    open spec fn view(&self) -> PpuV {
        PpuV {
            status: self.status,
            mask: self.mask,
            control: self.control,
            address_latch: self.address_latch,
            data_buffer: self.data_buffer,
            ppu_address: self.ppu_address,
            name_table: self.name_table@,
            palette_table: self.palette_table@,
            pattern_table: self.pattern_table@,
        }
    }
}

impl PpuRAM {
    pub open spec fn wf(&self) -> bool {
        ppu_wf(self@)
    }

    pub fn new() -> (r: PpuRAM)
        ensures
            r.wf(),
            r@ == ppu_new_spec(),
    {
        let r = PpuRAM {
            status: 0,
            mask: 0,
            control: 0,
            address_latch: 0x00,
            data_buffer: 0x00,
            ppu_address: 0x0000,
            name_table: zeroed(2048),
            palette_table: zeroed(32),
            pattern_table: zeroed(8192),
        };
        proof {
            assert(r@.name_table =~= ppu_new_spec().name_table);
            assert(r@.palette_table =~= ppu_new_spec().palette_table);
            assert(r@.pattern_table =~= ppu_new_spec().pattern_table);
        }
        r
    }

    pub fn read(&self, addr: u16, _readonly: bool) -> (r: u8)
        requires
            self.wf(),
        ensures
            r == ppu_mem_read_spec(self@, addr),
    {
        if addr <= 0x1FFF {
            self.pattern_table[addr as usize]
        } else if addr <= 0x3EFF {
            self.name_table[(addr as usize) % 0x800]
        } else if addr <= 0x3FFF {
            let index = self.palette_slot(addr);
            self.palette_table[index]
        } else {
            0
        }
    }

    pub fn write(&mut self, addr: u16, data: u8)
        requires
            old(self).wf(),
        ensures
            final(self).wf(),
            final(self)@ == ppu_mem_write_spec(old(self)@, addr, data),
    {
        if addr <= 0x1FFF {
            self.pattern_table.set(addr as usize, data);
        } else if addr <= 0x3EFF {
            self.name_table.set((addr as usize) % 0x800, data);
        } else if addr <= 0x3FFF {
            let index = self.palette_slot(addr);
            self.palette_table.set(index, data);
        }
    }

    /// The palette cell an address selects, with the four-entry aliasing.
    fn palette_slot(&self, addr: u16) -> (index: usize)
        ensures
            index == palette_index(addr),
    {
        let index: usize = (addr as usize) % 32;
        match index {
            0x0010 => 0x0000,
            0x0014 => 0x0004,
            0x0018 => 0x0008,
            0x001C => 0x000C,
            _ => index,
        }
    }

    pub fn set_status_flag(&mut self, flag: PpuStatusFlag, value: bool)
        requires
            old(self).wf(),
        ensures
            final(self).wf(),
            final(self)@ == ppu_set_status_spec(old(self)@, flag.mask(), value),
    {
        let m = flag.bits();
        proof {
            lemma_flag_arith(self.status, m);
        }
        let bit_on: bool = (self.status / m) % 2 == 1;
        if value {
            if !bit_on {
                self.status = self.status + m;
            }
        } else {
            if bit_on {
                self.status = self.status - m;
            }
        }
    }
}

} // verus!
