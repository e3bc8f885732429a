use vstd::prelude::*;

verus! {

/// The fixed addresses and window bounds of the console's logical address map:
/// RAM in [0x0000, 0x1FFF] mirrored every 0x0800, the graphics ports in
/// [0x2000, 0x3FFF] mirrored every 8 bytes, the stack page at 0x0100 and the
/// reset vector at 0xFFFC.
pub struct AddrUtils;

impl AddrUtils {
    pub const RAM_SIZE: u32 = 2048;

    pub const CPU_RAM_ADDR_MAX: u16 = 0x1FFF;

    pub const CPU_RAM_ADDR_MIN: u16 = 0x0000;

    pub const CPU_STACK_BASE_ADDR: u16 = 0x0100;

    pub const CPU_START_ADDR: u16 = 0xFFFC;

    pub const PPU_RAM_ADDR_MAX: u16 = 0x3FFF;

    pub const PPU_RAM_ADDR_MIN: u16 = 0x2000;

    pub const PPU_CONTROL_ADDR: u16 = 0x0000;

    pub const PPU_MASK_ADDR: u16 = 0x0001;

    pub const PPU_STATUS_ADDR: u16 = 0x0002;

    pub const PPU_OAMADDRESS_ADDR: u16 = 0x0003;

    pub const PPU_OAMDATA_ADDR: u16 = 0x0004;

    pub const PPU_SCROLL_ADDR: u16 = 0x0005;

    pub const PPU_PPUADDRESS_ADDR: u16 = 0x0006;

    pub const PPU_PPUDATA_ADDR: u16 = 0x0007;
}

/// Low byte of a 16-bit value.
pub open spec fn lo8(t: u16) -> u8 {
    (t % 256) as u8
}

/// High byte of a 16-bit value.
pub open spec fn hi8(t: u16) -> u8 {
    (t / 256) as u8
}

/// The 256-byte page a 16-bit address lies in.
pub open spec fn page(a: u16) -> u16 {
    (a / 256) as u16
}

/// A 16-bit value assembled from a high and a low byte.
pub open spec fn mk16(hi: u8, lo: u8) -> u16 {
    (hi * 256 + lo) as u16
}

/// An arbitrary integer wrapped into 16 bits.
pub open spec fn wrap16(x: int) -> u16 {
    (x % 0x10000) as u16
}

/// An arbitrary integer wrapped into 8 bits.
pub open spec fn wrap8(x: int) -> u8 {
    (x % 0x100) as u8
}

/// An arbitrary integer wrapped into 32 bits.
pub open spec fn wrap32(x: int) -> u32 {
    (x % 0x1_0000_0000) as u32
}

/// An arbitrary integer wrapped into 64 bits.
pub open spec fn wrap64(x: int) -> u64 {
    (x % 0x1_0000_0000_0000_0000) as u64
}

/// Bit 7 of a byte, the sign bit of the machine's two's-complement values.
pub open spec fn bit7(v: u8) -> bool {
    v >= 0x80
}

/// Bit 7 of a 16-bit intermediate value.
pub open spec fn bit7_16(t: u16) -> bool {
    (t / 128) % 2 == 1
}

} // verus!
