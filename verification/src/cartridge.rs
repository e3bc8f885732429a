use vstd::prelude::*;

use crate::cpu_ram::zeroed;
use crate::mapper::{
    mapper_cpu_map_read, mapper_cpu_map_write, mapper_ppu_map_read, mapper_ppu_map_write, Mapper,
    Mapper000, MapperUtils,
};

verus! {

/// The fixed 16-byte header of a ROM image: bank counts and the two flag
/// bytes whose high nibbles concatenate into the mapper identifier. The
/// four magic bytes are not consumed by the core.
pub struct INesHeader {
    pub prg_rom_chunks: u8,
    pub chr_rom_chunks: u8,
    pub mapper1: u8,
    pub mapper2: u8,
    pub prg_ram_size: u8,
    pub tv_system1: u8,
    pub ty_system2: u8,
}

/// The header encoded in the first 16 bytes of an image: byte 4 counts
/// 16 KiB program banks, byte 5 counts 8 KiB graphics banks, bytes 6 and 7
/// carry the flag bits.
pub open spec fn header_spec(d: Seq<u8>) -> INesHeader {
    INesHeader {
        prg_rom_chunks: d[4],
        chr_rom_chunks: d[5],
        mapper1: d[6],
        mapper2: d[7],
        prg_ram_size: d[8],
        tv_system1: d[9],
        ty_system2: d[10],
    }
}

/// Bit 3 of the first flag byte: a 512-byte trainer block follows the header.
pub open spec fn header_has_trainer(h: INesHeader) -> bool {
    (h.mapper1 / 8) % 2 == 1
}

/// The mapper identifier: high nibble of flag byte 7 over high nibble of
/// flag byte 6.
pub open spec fn header_mapper_id(h: INesHeader) -> u8 {
    ((h.mapper2 / 16) * 16 + h.mapper1 / 16) as u8
}

/// Offset of the program data in the image: the header, plus the trainer
/// block when one is present.
pub open spec fn rom_body_offset(h: INesHeader) -> int {
    16 + if header_has_trainer(h) {
        512int
    } else {
        0int
    }
}

/// The exact length a well-formed image must have.
pub open spec fn rom_required_len(h: INesHeader) -> int {
    rom_body_offset(h) + h.prg_rom_chunks * 16384 + h.chr_rom_chunks * 8192
}

impl INesHeader {
    pub fn new(data: &Vec<u8>) -> (h: INesHeader)
        requires
            data@.len() >= 16,
        ensures
            h == header_spec(data@),
    {
        INesHeader {
            prg_rom_chunks: data[4],
            chr_rom_chunks: data[5],
            mapper1: data[6],
            mapper2: data[7],
            prg_ram_size: data[8],
            tv_system1: data[9],
            ty_system2: data[10],
        }
    }

    pub fn has_trainer(&self) -> (r: bool)
        ensures
            r == header_has_trainer(*self),
    {
        (self.mapper1 / 8) % 2 == 1
    }

    pub fn mapper_id(&self) -> (r: u8)
        ensures
            r == header_mapper_id(*self),
    {
        (self.mapper2 / 16) * 16 + self.mapper1 / 16
    }
}

/// Why an image was rejected: shorter than a header, no program bank at
/// all, or a body whose length does not match the header's bank counts.
#[derive(Debug, PartialEq, Eq, Structural)]
pub enum RomError {
    HeaderMissing,
    NoProgramBanks,
    SizeMismatch,
}

/// The cartridge as the contracts see it: the two memory arrays, the parsed
/// bank counts, and the translation strategy.
pub ghost struct CartV {
    pub prg: Seq<u8>,
    pub chr: Seq<u8>,
    pub mapper_id: u8,
    pub prg_banks: u8,
    pub chr_banks: u8,
    pub mapper: Mapper,
}

/// Well-formedness: at least one program bank, arrays sized from the bank
/// counts (with an 8 KiB RAM substitute when no graphics bank is declared),
/// and a strategy configured with those same counts.
pub open spec fn cart_wf(c: CartV) -> bool {
    &&& c.prg_banks >= 1
    &&& c.prg.len() == c.prg_banks * 16384
    &&& c.chr.len() == if c.chr_banks == 0 {
        8192int
    } else {
        c.chr_banks * 8192
    }
    &&& c.mapper == Mapper::Nrom(Mapper000 { prg_banks: c.prg_banks, char_banks: c.chr_banks })
}

/// What a processor-side read returns when the strategy claims the address.
pub open spec fn cart_cpu_read_spec(c: CartV, addr: u16) -> Option<u8> {
    match mapper_cpu_map_read(c.mapper, addr) {
        Some(off) => Some(c.prg[off as int]),
        None => None,
    }
}

/// What a graphics-side read returns when the strategy claims the address.
pub open spec fn cart_ppu_read_spec(c: CartV, addr: u16) -> Option<u8> {
    match mapper_ppu_map_read(c.mapper, addr) {
        Some(off) => Some(c.chr[off as int]),
        None => None,
    }
}

/// The cartridge after a graphics-side write: changed only where the
/// strategy claims the address, and then in exactly one cell.
pub open spec fn cart_ppu_write_spec(c: CartV, addr: u16, data: u8) -> CartV {
    match mapper_ppu_map_write(c.mapper, addr) {
        Some(off) => CartV { chr: c.chr.update(off as int, data), ..c },
        None => c,
    }
}

/// The cartridge after a processor-side write; under the simplest strategy
/// no such write is ever claimed, so the cartridge is unchanged.
pub open spec fn cart_cpu_write_spec(c: CartV, addr: u16, data: u8) -> CartV {
    match mapper_cpu_map_write(c.mapper, addr) {
        Some(off) => CartV { prg: c.prg.update(off as int, data), ..c },
        None => c,
    }
}

/// Immutable program and graphics memory sized from a parsed header, with
/// the translation strategy every access goes through.
pub struct Cartridge {
    pub vprg_memory: Vec<u8>,
    pub vchr_memory: Vec<u8>,
    pub mapper_id: u8,
    pub prg_banks: u8,
    pub chr_banks: u8,
    pub mapper: Mapper,
}

impl View for Cartridge {
    type V = CartV;

    open spec fn view(&self) -> CartV {
        CartV {
            prg: self.vprg_memory@,
            chr: self.vchr_memory@,
            mapper_id: self.mapper_id,
            prg_banks: self.prg_banks,
            chr_banks: self.chr_banks,
            mapper: self.mapper,
        }
    }
}

/// A fresh copy of `len` bytes of `src` starting at `start`.
fn copy_range(src: &Vec<u8>, start: usize, len: usize) -> (v: Vec<u8>)
    requires
        start + len <= src@.len(),
    ensures
        v@ == src@.subrange(start as int, start as int + len as int),
{
    let total: usize = src.len();
    let mut v: Vec<u8> = Vec::new();
    let mut k: usize = 0;
    while k < len
        invariant
            k <= len,
            start + len <= total,
            total == src@.len(),
            v@.len() == k,
            forall|i: int| 0 <= i < k ==> v@[i] == src@[start + i],
        decreases len - k,
    {
        v.push(src[start + k]);
        k = k + 1;
    }
    assert(v@ =~= src@.subrange(start as int, start as int + len as int));
    v
}

impl Cartridge {
    pub open spec fn wf(&self) -> bool {
        cart_wf(self@)
    }

    /// A blank cartridge: one zeroed bank of each kind under the simplest
    /// strategy.
    pub fn new() -> (c: Cartridge)
        ensures
            c.wf(),
            c@.prg_banks == 1,
            c@.chr_banks == 1,
            c@.mapper_id == 0,
            forall|i: int| 0 <= i < 16384 ==> c@.prg[i] == 0u8,
            forall|i: int| 0 <= i < 8192 ==> c@.chr[i] == 0u8,
    {
        Cartridge {
            vprg_memory: zeroed(16384),
            vchr_memory: zeroed(8192),
            mapper_id: 0,
            prg_banks: 1,
            chr_banks: 1,
            mapper: MapperUtils::from_id(0),
        }
    }

    /// Parses a ROM image. The load is refused unless the image holds a
    /// header, declares at least one program bank, and is exactly as long
    /// as the header says; on success the program and graphics arrays are
    /// the image's body, byte for byte.
    pub fn from_bytes(content: &Vec<u8>) -> (r: Result<Cartridge, RomError>)
        ensures
            r is Ok <==> {
                &&& content@.len() >= 16
                &&& header_spec(content@).prg_rom_chunks >= 1
                &&& content@.len() == rom_required_len(header_spec(content@))
            },
            r == Err::<Cartridge, RomError>(RomError::HeaderMissing) <==> content@.len() < 16,
            r == Err::<Cartridge, RomError>(RomError::NoProgramBanks) <==> {
                &&& content@.len() >= 16
                &&& header_spec(content@).prg_rom_chunks == 0
            },
            r is Ok ==> {
                let h = header_spec(content@);
                let off = rom_body_offset(h);
                let c = r.unwrap();
                &&& c.wf()
                &&& c@.prg_banks == h.prg_rom_chunks
                &&& c@.chr_banks == h.chr_rom_chunks
                &&& c@.mapper_id == header_mapper_id(h)
                &&& c@.prg == content@.subrange(off, off + h.prg_rom_chunks * 16384)
                &&& (h.chr_rom_chunks >= 1 ==> c@.chr == content@.subrange(
                    off + h.prg_rom_chunks * 16384,
                    off + h.prg_rom_chunks * 16384 + h.chr_rom_chunks * 8192,
                ))
                &&& (h.chr_rom_chunks == 0 ==> forall|i: int|
                    0 <= i < 8192 ==> c@.chr[i] == 0u8)
            },
    {
        if content.len() < 16 {
            return Err(RomError::HeaderMissing);
        }
        let header = INesHeader::new(content);
        let mapper_id = header.mapper_id();
        let prg_banks = header.prg_rom_chunks;
        let chr_banks = header.chr_rom_chunks;
        if prg_banks == 0 {
            return Err(RomError::NoProgramBanks);
        }
        let mut offset: usize = 16;
        if header.has_trainer() {
            offset = offset + 512;
        }
        let prg_len: usize = (prg_banks as usize) * 16384;
        let chr_len: usize = (chr_banks as usize) * 8192;
        if content.len() < offset || content.len() - offset != prg_len + chr_len {
            return Err(RomError::SizeMismatch);
        }
        let vprg_memory = copy_range(content, offset, prg_len);
        let vchr_memory = if chr_banks == 0 {
            zeroed(8192)
        } else {
            copy_range(content, offset + prg_len, chr_len)
        };
        Ok(
            Cartridge {
                vprg_memory,
                vchr_memory,
                mapper_id,
                prg_banks,
                chr_banks,
                mapper: MapperUtils::from_id_with_banks(mapper_id, prg_banks, chr_banks),
            },
        )
    }

    /// Offers a processor-side read to the strategy; on a claim, hands out
    /// the mapped program byte.
    pub fn cpu_read(&self, addr: u16, data: &mut u8) -> (r: bool)
        requires
            self.wf(),
        ensures
            match cart_cpu_read_spec(self@, addr) {
                Some(v) => r && *final(data) == v,
                None => !r && *final(data) == *old(data),
            },
    {
        let mut mapped_addr: u32 = 0;
        if self.mapper.cpu_map_read(addr, &mut mapped_addr) {
            *data = self.vprg_memory[mapped_addr as usize];
            return true;
        }
        false
    }

    /// Offers a processor-side write to the strategy; under the simplest
    /// strategy program memory is read-only, so nothing is claimed.
    pub fn cpu_write(&mut self, addr: u16, data: u8) -> (r: bool)
        requires
            old(self).wf(),
        ensures
            final(self).wf(),
            final(self)@ == cart_cpu_write_spec(old(self)@, addr, data),
            r == (mapper_cpu_map_write(old(self)@.mapper, addr) is Some),
    {
        let mut mapped_addr: u32 = 0;
        if self.mapper.cpu_map_write(addr, &mut mapped_addr) {
            self.vprg_memory.set(mapped_addr as usize, data);
            return true;
        }
        false
    }

    /// Offers a graphics-side read to the strategy; on a claim, hands out
    /// the mapped graphics byte.
    pub fn ppu_read(&self, addr: u16, data: &mut u8) -> (r: bool)
        requires
            self.wf(),
        ensures
            match cart_ppu_read_spec(self@, addr) {
                Some(v) => r && *final(data) == v,
                None => !r && *final(data) == *old(data),
            },
    {
        let mut mapped_addr: u32 = 0;
        if self.mapper.ppu_map_read(addr, &mut mapped_addr) {
            *data = self.vchr_memory[mapped_addr as usize];
            return true;
        }
        false
    }

    /// Offers a graphics-side write to the strategy: claimed exactly when
    /// the cartridge substitutes RAM for graphics ROM.
    pub fn ppu_write(&mut self, addr: u16, data: u8) -> (r: bool)
        requires
            old(self).wf(),
        ensures
            final(self).wf(),
            final(self)@ == cart_ppu_write_spec(old(self)@, addr, data),
            r == (mapper_ppu_map_write(old(self)@.mapper, addr) is Some),
    {
        let mut mapped_addr: u32 = 0;
        if self.mapper.ppu_map_write(addr, &mut mapped_addr) {
            self.vchr_memory.set(mapped_addr as usize, data);
            return true;
        }
        false
    }
}

} // verus!
