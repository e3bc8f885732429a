use rusty_nes::addrmode::AddrMode;
use rusty_nes::bus::Bus;
use rusty_nes::cartridge::Cartridge;
use rusty_nes::cpu_debug::CpuDebug;
use rusty_nes::cpu_ram::CpuRAM;
use rusty_nes::disassembler::Disassembler;
use rusty_nes::instruction::Instruction;
use rusty_nes::nes::Nes;
use rusty_nes::operators::Operator;
use rusty_nes::ppu2c02::Ppu2c02RAM;

#[test]
fn descriptor_table_reference_entries() {
    let brk = Instruction::from_opcode(0x00);
    assert_eq!(brk.get_cycles(), 7);
    assert_eq!(brk.get_name(), "BRK");
    assert!(matches!(brk.get_addrmode(), AddrMode::IMM));
    assert!(matches!(brk.operator, Operator::BRK));

    let nop = Instruction::from_opcode(0xEA);
    assert_eq!(nop.get_cycles(), 2);
    assert_eq!(nop.get_name(), "NOP");
    assert!(matches!(nop.get_addrmode(), AddrMode::IMP));

    let lda = Instruction::from_opcode(0xA9);
    assert_eq!(lda.get_cycles(), 2);
    assert_eq!(lda.get_name(), "LDA");
    assert!(matches!(lda.get_addrmode(), AddrMode::IMM));

    let jmp_abs = Instruction::from_opcode(0x4C);
    assert_eq!(jmp_abs.get_cycles(), 3);
    assert!(matches!(jmp_abs.get_addrmode(), AddrMode::ABS));

    let jmp_ind = Instruction::from_opcode(0x6C);
    assert_eq!(jmp_ind.get_cycles(), 5);
    assert!(matches!(jmp_ind.get_addrmode(), AddrMode::IND));

    let asl_abx = Instruction::from_opcode(0x1E);
    assert_eq!(asl_abx.get_cycles(), 7);
    assert!(matches!(asl_abx.get_addrmode(), AddrMode::ABX));

    let sta_izy = Instruction::from_opcode(0x91);
    assert_eq!(sta_izy.get_cycles(), 6);
    assert!(matches!(sta_izy.get_addrmode(), AddrMode::IZY));
}

#[test]
fn undocumented_opcodes_have_defined_placeholders() {
    let ill = Instruction::from_opcode(0x02);
    assert_eq!(ill.get_name(), "???");
    assert_eq!(ill.get_cycles(), 2);
    assert!(matches!(ill.operator, Operator::XXX));

    let wide_nop = Instruction::from_opcode(0x1C);
    assert_eq!(wide_nop.get_name(), "???");
    assert_eq!(wide_nop.get_cycles(), 4);
    assert!(matches!(wide_nop.operator, Operator::NOP));
}

#[test]
fn descriptor_lookup_is_stable() {
    // Two lookups of every opcode byte yield the same pair.
    let mut op: u16 = 0;
    while op <= 0xFF {
        let d1 = Instruction::from_opcode(op as u8);
        let d2 = Instruction::from_opcode(op as u8);
        assert_eq!(d1.get_cycles(), d2.get_cycles());
        assert_eq!(d1.get_name(), d2.get_name());
        assert!(d1.get_cycles() >= 2 && d1.get_cycles() <= 8);
        op += 1;
    }
}

#[test]
fn hex_formats_exact_digits() {
    assert_eq!(Disassembler::hex(0x1A2B, 4), "1A2B");
    assert_eq!(Disassembler::hex(0x00FF, 2), "FF");
    assert_eq!(Disassembler::hex(0x0005, 2), "05");
    assert_eq!(Disassembler::hex(0, 4), "0000");
    assert_eq!(Disassembler::hex(0xDEADBEEF, 8), "DEADBEEF");
    // only the low digits are kept
    assert_eq!(Disassembler::hex(0x1234, 2), "34");
}

#[test]
fn disassembles_a_small_program() {
    let mut bus = Bus::new(CpuRAM::new(), Ppu2c02RAM::new(), Cartridge::new());
    // LDA #$05; STA $0040; NOP — written into RAM at 0x0000
    bus.cpu_write(0x0000, 0xA9);
    bus.cpu_write(0x0001, 0x05);
    bus.cpu_write(0x0002, 0x8D);
    bus.cpu_write(0x0003, 0x40);
    bus.cpu_write(0x0004, 0x00);
    bus.cpu_write(0x0005, 0xEA);
    let (lines_map, instructions) = Disassembler::dissassemble(0x0000, 0x0005, &bus);
    assert_eq!(instructions.len(), 3);
    assert_eq!(lines_map[&0x0000], 0);
    assert_eq!(lines_map[&0x0002], 1);
    assert_eq!(lines_map[&0x0005], 2);
    assert!(instructions[0].contains("LDA"));
    assert!(instructions[0].contains("#0x05"));
    assert!(instructions[0].contains("{IMM}"));
    assert!(instructions[1].contains("STA"));
    assert!(instructions[1].contains("0x0040"));
    assert!(instructions[2].contains("NOP"));
}

#[test]
fn disassembly_reads_are_passive() {
    // Decoding over the graphics register window must not disturb the
    // data port's delayed-read buffer.
    let mut bus = Bus::new(CpuRAM::new(), Ppu2c02RAM::new(), Cartridge::new());
    bus.ppu.ram.mem.data_buffer = 0x5A;
    let before = bus.ppu.ram.mem.data_buffer;
    let (_m, _i) = Disassembler::dissassemble(0x2000, 0x2010, &bus);
    assert_eq!(bus.ppu.ram.mem.data_buffer, before);
}

#[test]
fn debug_panels_render() {
    let mut nes = Nes::new();
    nes.cpu.a = 173;
    nes.cpu.x = 45;
    nes.cpu.y = 7;
    nes.cpu.status = 0b1010_0101;
    nes.cpu.pc = 0x0000;
    let mut debug = CpuDebug::new(&nes);
    let regs = debug.get_debug_registers(&nes);
    assert!(regs.contains("Status: 10100101"));
    assert!(regs.contains("A: 0xAD [173]"));
    assert!(regs.contains("X: 0x2D [45]"));
    assert!(regs.contains("Y: 0x07 [7]"));
    assert!(regs.contains("StackPtr: 0x0000"));
    let code = debug.get_debug_code(&nes);
    assert!(code.contains("> 0x0000:"));
    let ram = debug.get_debug_ram(&nes, 0x0000, 2, 4);
    assert!(ram.contains("0x0000: 00 00 00 00"));
}
