use rusty_nes::bus::Bus;
use rusty_nes::cartridge::{Cartridge, INesHeader, RomError};
use rusty_nes::cpu_flags::CpuFlags;
use rusty_nes::cpu_ram::CpuRAM;
use rusty_nes::iodevice::IODevice;
use rusty_nes::nes::Nes;
use rusty_nes::ppu::Ppu;
use rusty_nes::ppu2c02::Ppu2c02RAM;
use rusty_nes::ppu_ram::{PpuRAM, PpuStatusFlag};

/// A blank image with a well-formed header: magic, bank counts, no
/// trainer, mapper identifier zero.
fn make_image(prg_banks: u8, chr_banks: u8) -> Vec<u8> {
    let mut image = vec![0u8; 16 + prg_banks as usize * 16384 + chr_banks as usize * 8192];
    image[0] = 0x4E;
    image[1] = 0x45;
    image[2] = 0x53;
    image[3] = 0x1A;
    image[4] = prg_banks;
    image[5] = chr_banks;
    image
}

fn prg_at(image: &mut Vec<u8>, offset: usize) -> &mut u8 {
    &mut image[16 + offset]
}

#[test]
fn header_fields_and_mapper_id() {
    let mut image = make_image(1, 1);
    image[6] = 0x18; // trainer bit and mapper low nibble 1
    image[7] = 0x20; // mapper high nibble 2
    let header = INesHeader::new(&image);
    assert!(header.has_trainer());
    assert_eq!(header.mapper_id(), 0x21);
    assert_eq!(header.prg_rom_chunks, 1);
    assert_eq!(header.chr_rom_chunks, 1);

    image[6] = 0x00;
    let header2 = INesHeader::new(&image);
    assert!(!header2.has_trainer());
    assert_eq!(header2.mapper_id(), 0x20);
}

#[test]
fn cartridge_image_loaded_byte_for_byte() {
    let mut image = make_image(1, 1);
    for i in 0..16384 {
        image[16 + i] = (i % 251) as u8;
    }
    for i in 0..8192 {
        image[16 + 16384 + i] = (i % 239) as u8;
    }
    let cart = Cartridge::from_bytes(&image).unwrap();
    assert_eq!(cart.vprg_memory.len(), 16384);
    assert_eq!(cart.vchr_memory.len(), 8192);
    for i in 0..16384 {
        assert_eq!(cart.vprg_memory[i], (i % 251) as u8);
    }
    for i in 0..8192 {
        assert_eq!(cart.vchr_memory[i], (i % 239) as u8);
    }
}

#[test]
fn cartridge_skips_trainer_block() {
    let mut image = make_image(1, 1);
    image[6] = 0x08; // trainer present
    let body = vec![0x55u8; 512];
    // splice the trainer in after the header
    let mut with_trainer = image[..16].to_vec();
    with_trainer.extend_from_slice(&body);
    with_trainer.extend_from_slice(&image[16..]);
    with_trainer[16 + 512] = 0xAB; // first program byte, after the trainer
    let cart = Cartridge::from_bytes(&with_trainer).unwrap();
    assert_eq!(cart.vprg_memory[0], 0xAB);
}

#[test]
fn rom_rejected_when_too_short_for_header() {
    let image = vec![0u8; 10];
    assert!(matches!(Cartridge::from_bytes(&image), Err(RomError::HeaderMissing)));
}

#[test]
fn rom_rejected_without_program_banks() {
    let image = make_image(0, 1);
    assert!(matches!(Cartridge::from_bytes(&image), Err(RomError::NoProgramBanks)));
}

#[test]
fn rom_rejected_on_length_mismatch() {
    let mut image = make_image(1, 1);
    image.push(0); // one byte too long
    assert!(matches!(Cartridge::from_bytes(&image), Err(RomError::SizeMismatch)));
    let mut short = make_image(1, 1);
    short.pop(); // one byte too short
    assert!(matches!(Cartridge::from_bytes(&short), Err(RomError::SizeMismatch)));
}

#[test]
fn nrom_single_bank_mirrors_across_window() {
    let mut image = make_image(1, 1);
    *prg_at(&mut image, 0x0000) = 0x11;
    *prg_at(&mut image, 0x0123) = 0x22;
    let cart = Cartridge::from_bytes(&image).unwrap();
    let mut lo: u8 = 0;
    let mut hi: u8 = 0;
    assert!(cart.cpu_read(0x8000, &mut lo));
    assert!(cart.cpu_read(0xC000, &mut hi));
    assert_eq!(lo, hi);
    assert_eq!(lo, 0x11);
    let mut a: u8 = 0;
    let mut b: u8 = 0;
    assert!(cart.cpu_read(0x8123, &mut a));
    assert!(cart.cpu_read(0xC123, &mut b));
    assert_eq!(a, 0x22);
    assert_eq!(b, 0x22);
}

#[test]
fn nrom_two_banks_resolve_differently() {
    let mut image = make_image(2, 1);
    *prg_at(&mut image, 0x0000) = 0x11;
    *prg_at(&mut image, 0x4000) = 0x99;
    let cart = Cartridge::from_bytes(&image).unwrap();
    let mut lo: u8 = 0;
    let mut hi: u8 = 0;
    assert!(cart.cpu_read(0x8000, &mut lo));
    assert!(cart.cpu_read(0xC000, &mut hi));
    assert_eq!(lo, 0x11);
    assert_eq!(hi, 0x99);
    assert_ne!(lo, hi);
}

#[test]
fn graphics_ram_substitute_only_without_banks() {
    let mut no_chr = make_image(1, 0);
    *prg_at(&mut no_chr, 0) = 0;
    let mut cart = Cartridge::from_bytes(&no_chr).unwrap();
    assert!(cart.ppu_write(0x0123, 0x77));
    let mut v: u8 = 0;
    assert!(cart.ppu_read(0x0123, &mut v));
    assert_eq!(v, 0x77);

    let with_chr = make_image(1, 1);
    let mut cart2 = Cartridge::from_bytes(&with_chr).unwrap();
    assert!(!cart2.ppu_write(0x0123, 0x77));
}

#[test]
fn reset_loads_vector_and_stack_pointer() {
    let mut image = make_image(1, 1);
    *prg_at(&mut image, 0x3FFC) = 0x34; // reset vector low byte
    *prg_at(&mut image, 0x3FFD) = 0x80; // reset vector high byte
    let cart = Cartridge::from_bytes(&image).unwrap();
    let mut nes = Nes::new();
    nes.insert_cartridge(cart);
    assert_eq!(nes.cpu.pc, 0x8034);
    assert_eq!(nes.cpu.stkp, 0xFD);
    assert_eq!(nes.cpu.cycles, 0);
    assert_eq!(nes.cpu.a, 0);
    assert_eq!(nes.cpu.x, 0);
    assert_eq!(nes.cpu.y, 0);
    // the status byte takes the vector's low byte, reproduced as observed
    assert_eq!(nes.cpu.status, 0x34);
}

#[test]
fn ram_addresses_mirror_every_2k() {
    let mut bus = Bus::new(CpuRAM::new(), Ppu2c02RAM::new(), Cartridge::new());
    bus.cpu_write(0x0805, 0xAB);
    assert_eq!(bus.cpu_read(0x0005), 0xAB);
    bus.cpu_write(0x0005, 0x21);
    assert_eq!(bus.cpu_read(0x0805), 0x21);
    assert_eq!(bus.cpu_read(0x1005), 0x21);
    assert_eq!(bus.cpu_read(0x1805), 0x21);
}

#[test]
fn graphics_registers_mirror_every_8() {
    let mut bus = Bus::new(CpuRAM::new(), Ppu2c02RAM::new(), Cartridge::new());
    bus.cpu_write(0x2008, 0x42); // control port through its first mirror
    assert_eq!(bus.ppu.ram.mem.control, 0x42);
    bus.cpu_write(0x2000, 0x17);
    assert_eq!(bus.ppu.ram.mem.control, 0x17);
    bus.cpu_write(0x3FF9, 0x23); // mask port through the last mirror
    assert_eq!(bus.ppu.ram.mem.mask, 0x23);
}

#[test]
fn status_read_composes_and_clears_vertical_blank() {
    let mut bus = Bus::new(CpuRAM::new(), Ppu2c02RAM::new(), Cartridge::new());
    bus.ppu.ram.mem.status = 0xE3; // all three status bits, plus low noise
    bus.ppu.ram.mem.data_buffer = 0x1F;
    let v = bus.cpu_read(0x2002);
    assert_eq!(v, 0xE0 | 0x1F);
    // the read cleared the vertical-blank bit
    assert_eq!(bus.ppu.ram.mem.status & 0x80, 0x00);
    // the address latch is left as it is (reproduced as observed)
    assert_eq!(bus.ppu.ram.mem.address_latch, 0);
}

#[test]
fn ppudata_name_table_one_read_latency() {
    let mut bus = Bus::new(CpuRAM::new(), Ppu2c02RAM::new(), Cartridge::new());
    // two-step address latch: high byte first
    bus.cpu_write(0x2006, 0x24);
    bus.cpu_write(0x2006, 0x00);
    bus.cpu_write(0x2007, 0x77); // name table cell 0x2400
    bus.cpu_write(0x2007, 0x88); // name table cell 0x2401
    // point back at 0x2400 and read twice
    bus.cpu_write(0x2006, 0x24);
    bus.cpu_write(0x2006, 0x00);
    let first = bus.cpu_read(0x2007);
    let second = bus.cpu_read(0x2007);
    let third = bus.cpu_read(0x2007);
    assert_eq!(first, 0x00); // the stale power-on buffer
    assert_eq!(second, 0x77); // the value at the originally addressed cell
    assert_eq!(third, 0x88);
}

#[test]
fn ppudata_palette_reads_are_immediate() {
    let mut bus = Bus::new(CpuRAM::new(), Ppu2c02RAM::new(), Cartridge::new());
    bus.cpu_write(0x2006, 0x3F);
    bus.cpu_write(0x2006, 0x05);
    bus.cpu_write(0x2007, 0x99); // palette cell 5
    bus.cpu_write(0x2006, 0x3F);
    bus.cpu_write(0x2006, 0x05);
    let v = bus.cpu_read(0x2007);
    assert_eq!(v, 0x99);
}

#[test]
fn palette_aliases_collapse() {
    let mut mem = PpuRAM::new();
    mem.write(0x3F10, 0x31);
    assert_eq!(mem.read(0x3F00, true), 0x31);
    mem.write(0x3F04, 0x32);
    assert_eq!(mem.read(0x3F14, true), 0x32);
    mem.write(0x3F18, 0x33);
    assert_eq!(mem.read(0x3F08, true), 0x33);
    mem.write(0x3F0C, 0x34);
    assert_eq!(mem.read(0x3F1C, true), 0x34);
}

#[test]
fn set_status_flag_toggles_one_bit() {
    let mut mem = PpuRAM::new();
    mem.set_status_flag(PpuStatusFlag::VERTICAL_BLANK, true);
    assert_eq!(mem.status, 0x80);
    mem.set_status_flag(PpuStatusFlag::SPRITE_ZERO_HIT, true);
    assert_eq!(mem.status, 0xC0);
    mem.set_status_flag(PpuStatusFlag::VERTICAL_BLANK, false);
    assert_eq!(mem.status, 0x40);
}

#[test]
fn timer_sets_vertical_blank_at_scanline_241() {
    let mut bus = Bus::new(CpuRAM::new(), Ppu2c02RAM::new(), Cartridge::new());
    let mut timer = Ppu::new();
    timer.scanline = 241;
    timer.cycle = 1;
    timer.clock(&mut bus);
    assert_eq!(bus.ppu.ram.mem.status & 0x80, 0x80);
    // and the pre-render line clears it again
    timer.scanline = -1;
    timer.cycle = 1;
    timer.clock(&mut bus);
    assert_eq!(bus.ppu.ram.mem.status & 0x80, 0x00);
}

#[test]
fn timer_wraps_into_a_new_frame() {
    let mut bus = Bus::new(CpuRAM::new(), Ppu2c02RAM::new(), Cartridge::new());
    let mut timer = Ppu::new();
    timer.scanline = 260;
    timer.cycle = 340;
    timer.clock(&mut bus);
    assert_eq!(timer.cycle, 0);
    assert_eq!(timer.scanline, -1);
    assert!(timer.frame_complete);
}

#[test]
fn runs_a_small_program_to_completion() {
    // LDA #$05; STA $0000; NOP
    let mut image = make_image(1, 1);
    *prg_at(&mut image, 0x0000) = 0xA9;
    *prg_at(&mut image, 0x0001) = 0x05;
    *prg_at(&mut image, 0x0002) = 0x8D;
    *prg_at(&mut image, 0x0003) = 0x00;
    *prg_at(&mut image, 0x0004) = 0x00;
    *prg_at(&mut image, 0x0005) = 0xEA;
    *prg_at(&mut image, 0x3FFC) = 0x00;
    *prg_at(&mut image, 0x3FFD) = 0x80;
    let cart = Cartridge::from_bytes(&image).unwrap();
    let mut nes = Nes::new();
    nes.insert_cartridge(cart);
    assert_eq!(nes.cpu.pc, 0x8000);
    nes.step();
    assert_eq!(nes.cpu.a, 0x05);
    assert_eq!(nes.cpu.cycles, 0);
    nes.step();
    assert_eq!(nes.bus.cpu_read(0x0000), 0x05);
    assert_eq!(nes.cpu.pc, 0x8005);
}

#[test]
fn irq_respects_interrupt_disable() {
    let mut image = make_image(1, 1);
    *prg_at(&mut image, 0x3FFE) = 0x21; // IRQ vector
    *prg_at(&mut image, 0x3FFF) = 0x84;
    let cart = Cartridge::from_bytes(&image).unwrap();
    let mut bus = Bus::new(CpuRAM::new(), Ppu2c02RAM::new(), cart);
    let mut cpu = rusty_nes::cpu6502::Cpu6502::new();
    cpu.stkp = 0xFD;
    cpu.pc = 0x8123;
    cpu.status = 0x04; // InterruptDisable set: the request is ignored
    cpu.irq(&mut bus);
    assert_eq!(cpu.pc, 0x8123);
    assert_eq!(cpu.cycles, 0);

    cpu.status = 0x00;
    cpu.irq(&mut bus);
    assert_eq!(cpu.pc, 0x8421);
    assert_eq!(cpu.cycles, 7);
    assert_eq!(cpu.get_flag(CpuFlags::I), 1);
    // return address went onto the stack, high byte first
    assert_eq!(bus.cpu_read(0x01FD), 0x81);
    assert_eq!(bus.cpu_read(0x01FC), 0x23);
}

#[test]
fn nmi_is_unconditional() {
    let mut image = make_image(1, 1);
    *prg_at(&mut image, 0x3FFA) = 0x55; // NMI vector
    *prg_at(&mut image, 0x3FFB) = 0x86;
    let cart = Cartridge::from_bytes(&image).unwrap();
    let mut bus = Bus::new(CpuRAM::new(), Ppu2c02RAM::new(), cart);
    let mut cpu = rusty_nes::cpu6502::Cpu6502::new();
    cpu.stkp = 0xFD;
    cpu.pc = 0x9000;
    cpu.status = 0x04; // set InterruptDisable does not mask it
    cpu.nmi(&mut bus);
    assert_eq!(cpu.pc, 0x8655);
    assert_eq!(cpu.cycles, 8);
}

#[test]
fn open_bus_reads_as_zero() {
    let mut bus = Bus::new(CpuRAM::new(), Ppu2c02RAM::new(), Cartridge::new());
    assert_eq!(bus.cpu_read(0x5000), 0x00);
    bus.cpu_write(0x5000, 0xFF); // ignored
    assert_eq!(bus.cpu_read(0x5000), 0x00);
}

#[test]
fn iodevice_routes_only_the_ram_window() {
    let mut io = IODevice::new(CpuRAM::new());
    io.cpu_write(0x0805, 0x3C);
    assert_eq!(io.cpu_read(0x0005), 0x3C);
    io.cpu_write(0x4000, 0x11); // outside the window: ignored
    assert_eq!(io.cpu_read(0x4000), 0x00);
}

#[test]
fn readonly_peek_leaves_the_data_port_alone() {
    let mut bus = Bus::new(CpuRAM::new(), Ppu2c02RAM::new(), Cartridge::new());
    bus.cpu_write(0x2006, 0x24);
    bus.cpu_write(0x2006, 0x00);
    bus.cpu_write(0x2007, 0x66);
    bus.cpu_write(0x2006, 0x24);
    bus.cpu_write(0x2006, 0x00);
    let before_addr = bus.ppu.ram.mem.ppu_address;
    let peeked = bus.cpu_peek(0x2007);
    assert_eq!(peeked, bus.ppu.ram.mem.data_buffer);
    assert_eq!(bus.ppu.ram.mem.ppu_address, before_addr);
    // a live read then still sees the one-read latency from the start
    let first = bus.cpu_read(0x2007);
    let second = bus.cpu_read(0x2007);
    assert_eq!(first, peeked);
    assert_eq!(second, 0x66);
}
