use vstd::prelude::*;

verus! {

/// The simplest bank layout ("NROM"): one or two fixed 16 KiB program banks
/// mirrored across the 32 KiB window at 0x8000, and an 8 KiB graphics bank
/// that is writable only when the cartridge declares zero graphics banks.
pub struct Mapper000 {
    pub prg_banks: u8,
    pub char_banks: u8,
}

/// The closed set of address-translation strategies, keyed by the mapper
/// identifier parsed from a cartridge header.
pub enum Mapper {
    Nrom(Mapper000),
}

/// Where a processor-side read of `addr` lands in the program array under
/// this strategy, or `None` when the strategy does not claim the address.
pub open spec fn nrom_cpu_map_read(m: Mapper000, addr: u16) -> Option<u32> {
    if addr >= 0x8000 {
        if m.prg_banks > 1 {
            Some((addr % 0x8000) as u32)
        } else {
            Some((addr % 0x4000) as u32)
        }
    } else {
        None
    }
}

/// Program memory is read-only under this strategy: no processor-side write
/// is ever claimed.
pub open spec fn nrom_cpu_map_write(m: Mapper000, addr: u16) -> Option<u32> {
    None
}

/// Where a graphics-side read of `addr` lands in the graphics array.
pub open spec fn nrom_ppu_map_read(m: Mapper000, addr: u16) -> Option<u32> {
    if addr <= 0x1FFF {
        Some(addr as u32)
    } else {
        None
    }
}

/// A graphics-side write is claimed only when the cartridge declared zero
/// graphics banks and so substitutes RAM for graphics ROM.
pub open spec fn nrom_ppu_map_write(m: Mapper000, addr: u16) -> Option<u32> {
    if addr <= 0x1FFF && m.char_banks == 0 {
        Some(addr as u32)
    } else {
        None
    }
}

pub open spec fn mapper_cpu_map_read(mp: Mapper, addr: u16) -> Option<u32> {
    match mp {
        Mapper::Nrom(m) => nrom_cpu_map_read(m, addr),
    }
}

pub open spec fn mapper_cpu_map_write(mp: Mapper, addr: u16) -> Option<u32> {
    match mp {
        Mapper::Nrom(m) => nrom_cpu_map_write(m, addr),
    }
}

pub open spec fn mapper_ppu_map_read(mp: Mapper, addr: u16) -> Option<u32> {
    match mp {
        Mapper::Nrom(m) => nrom_ppu_map_read(m, addr),
    }
}

pub open spec fn mapper_ppu_map_write(mp: Mapper, addr: u16) -> Option<u32> {
    match mp {
        Mapper::Nrom(m) => nrom_ppu_map_write(m, addr),
    }
}

impl Mapper000 {
    pub fn cpu_map_read(&self, addr: u16, mapped_addr: &mut u32) -> (r: bool)
        ensures
            match nrom_cpu_map_read(*self, addr) {
                Some(off) => r && *final(mapped_addr) == off,
                None => !r && *final(mapped_addr) == *old(mapped_addr),
            },
    {
        if addr >= 0x8000 {
            *mapped_addr = (addr % (if self.prg_banks > 1 {
                0x8000
            } else {
                0x4000
            })) as u32;
            return true;
        }
        false
    }

    pub fn cpu_map_write(&self, addr: u16, mapped_addr: &mut u32) -> (r: bool)
        ensures
            !r,
            *final(mapped_addr) == *old(mapped_addr),
    {
        false
    }

    pub fn ppu_map_read(&self, addr: u16, mapped_addr: &mut u32) -> (r: bool)
        ensures
            match nrom_ppu_map_read(*self, addr) {
                Some(off) => r && *final(mapped_addr) == off,
                None => !r && *final(mapped_addr) == *old(mapped_addr),
            },
    {
        if addr <= 0x1FFF {
            *mapped_addr = addr as u32;
            return true;
        }
        false
    }

    pub fn ppu_map_write(&self, addr: u16, mapped_addr: &mut u32) -> (r: bool)
        ensures
            match nrom_ppu_map_write(*self, addr) {
                Some(off) => r && *final(mapped_addr) == off,
                None => !r && *final(mapped_addr) == *old(mapped_addr),
            },
    {
        if addr <= 0x1FFF {
            if self.char_banks == 0 {
                *mapped_addr = addr as u32;
                return true;
            }
        }
        false
    }
}

impl Mapper {
    pub fn cpu_map_read(&self, addr: u16, mapped_addr: &mut u32) -> (r: bool)
        ensures
            match mapper_cpu_map_read(*self, addr) {
                Some(off) => r && *final(mapped_addr) == off,
                None => !r && *final(mapped_addr) == *old(mapped_addr),
            },
    {
        match self {
            Mapper::Nrom(m) => m.cpu_map_read(addr, mapped_addr),
        }
    }

    pub fn cpu_map_write(&self, addr: u16, mapped_addr: &mut u32) -> (r: bool)
        ensures
            match mapper_cpu_map_write(*self, addr) {
                Some(off) => r && *final(mapped_addr) == off,
                None => !r && *final(mapped_addr) == *old(mapped_addr),
            },
    {
        match self {
            Mapper::Nrom(m) => m.cpu_map_write(addr, mapped_addr),
        }
    }

    pub fn ppu_map_read(&self, addr: u16, mapped_addr: &mut u32) -> (r: bool)
        ensures
            match mapper_ppu_map_read(*self, addr) {
                Some(off) => r && *final(mapped_addr) == off,
                None => !r && *final(mapped_addr) == *old(mapped_addr),
            },
    {
        match self {
            Mapper::Nrom(m) => m.ppu_map_read(addr, mapped_addr),
        }
    }

    pub fn ppu_map_write(&self, addr: u16, mapped_addr: &mut u32) -> (r: bool)
        ensures
            match mapper_ppu_map_write(*self, addr) {
                Some(off) => r && *final(mapped_addr) == off,
                None => !r && *final(mapped_addr) == *old(mapped_addr),
            },
    {
        match self {
            Mapper::Nrom(m) => m.ppu_map_write(addr, mapped_addr),
        }
    }
}

/// A mapper identifier as parsed from a cartridge header.
pub struct MapperId(pub u8);

/// The strategy a mapper identifier selects. Identifiers without an
/// implemented strategy fall back to the simplest layout, as the hardware
/// catalogue grows one variant at a time.
pub open spec fn mapper_from_id_spec(id: u8, prg_banks: u8, char_banks: u8) -> Mapper {
    Mapper::Nrom(Mapper000 { prg_banks, char_banks })
}

pub struct MapperUtils;

impl MapperUtils {
    /// The strategy for an identifier, configured for a single bank of each
    /// kind; a cartridge built from a parsed header uses `from_id_with_banks`.
    pub fn from_id(id: u8) -> (m: Mapper)
        ensures
            m == mapper_from_id_spec(id, 1, 1),
    {
        MapperUtils::from_id_with_banks(id, 1, 1)
    }

    /// The strategy for an identifier, configured with the bank counts the
    /// cartridge header declares.
    pub fn from_id_with_banks(id: u8, prg_banks: u8, char_banks: u8) -> (m: Mapper)
        ensures
            m == mapper_from_id_spec(id, prg_banks, char_banks),
    {
        match id {
            0 => Mapper::Nrom(Mapper000 { prg_banks, char_banks }),
            _ => Mapper::Nrom(Mapper000 { prg_banks, char_banks }),
        }
    }
}

} // verus!
