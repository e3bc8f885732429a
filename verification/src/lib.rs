//! Cycle-faithful core of an 8-bit game console: a 6502-family CPU, its
//! memory-mapped bus, cartridge storage with bank mapping, and the graphics
//! co-processor's register file and scanline timer.
//!
//! Every routing, decoding and execution step is specified by ghost
//! transition functions and the executable code is proved to implement them.

pub mod addr_utils;
pub mod addrmode;
pub mod bus;
pub mod cartridge;
pub mod cpu6502;
pub mod cpu_debug;
pub mod cpu_flags;
pub mod cpu_ram;
pub mod disassembler;
pub mod instruction;
pub mod iodevice;
pub mod laws;
pub mod mapper;
pub mod nes;
pub mod operators;
pub mod ppu;
pub mod ppu2c02;
pub mod ppu_bus;
pub mod ppu_ram;
