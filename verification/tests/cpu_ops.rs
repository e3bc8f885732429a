use rusty_nes::bus::Bus;
use rusty_nes::cartridge::Cartridge;
use rusty_nes::cpu6502::Cpu6502;
use rusty_nes::cpu_flags::CpuFlags;
use rusty_nes::cpu_ram::CpuRAM;
use rusty_nes::operators::{
    ADC, AND, BCC, BIT, CMP, DEX, EOR, INC, JSR, LDA, LSR, ORA, PHA, PHP, PLA, PLP, ROL, ROR,
    RTS, SBC,
};
use rusty_nes::ppu2c02::Ppu2c02RAM;

fn fresh_bus() -> Bus {
    Bus::new(CpuRAM::new(), Ppu2c02RAM::new(), Cartridge::new())
}

/// A register file set up for an immediate-mode operation whose operand
/// byte sits in RAM at 0x0010.
fn cpu_with_operand(bus: &mut Bus, operand: u8) -> Cpu6502 {
    let mut cpu = Cpu6502::new();
    cpu.opcode = 0x69; // an immediate-mode entry, so fetch reads the bus
    cpu.addr_abs = 0x0010;
    bus.cpu_write(0x0010, operand);
    cpu
}

#[test]
fn adc_overflow_scenario() {
    // 0x50 + 0x50 with Carry clear: 0xA0, Overflow and Negative set,
    // Carry and Zero clear.
    let mut bus = fresh_bus();
    let mut cpu = cpu_with_operand(&mut bus, 0x50);
    cpu.a = 0x50;
    cpu.status = 0x00;
    let extra = ADC::execute(&mut cpu, &mut bus);
    assert_eq!(cpu.a, 0xA0);
    assert_eq!(cpu.get_flag(CpuFlags::V), 1);
    assert_eq!(cpu.get_flag(CpuFlags::C), 0);
    assert_eq!(cpu.get_flag(CpuFlags::N), 1);
    assert_eq!(cpu.get_flag(CpuFlags::Z), 0);
    assert_eq!(extra, 1);
}

#[test]
fn adc_carry_out_and_zero() {
    // 0xFF + 0x01 wraps to 0x00 with Carry set; no signed overflow.
    let mut bus = fresh_bus();
    let mut cpu = cpu_with_operand(&mut bus, 0x01);
    cpu.a = 0xFF;
    cpu.status = 0x00;
    ADC::execute(&mut cpu, &mut bus);
    assert_eq!(cpu.a, 0x00);
    assert_eq!(cpu.get_flag(CpuFlags::C), 1);
    assert_eq!(cpu.get_flag(CpuFlags::Z), 1);
    assert_eq!(cpu.get_flag(CpuFlags::V), 0);
}

#[test]
fn adc_uses_carry_in() {
    let mut bus = fresh_bus();
    let mut cpu = cpu_with_operand(&mut bus, 0x10);
    cpu.a = 0x01;
    cpu.status = 0x01; // Carry set
    ADC::execute(&mut cpu, &mut bus);
    assert_eq!(cpu.a, 0x12);
}

#[test]
fn sbc_basic() {
    // 0x50 - 0x10 with borrow clear (Carry set): 0x40, Carry stays set.
    let mut bus = fresh_bus();
    let mut cpu = cpu_with_operand(&mut bus, 0x10);
    cpu.a = 0x50;
    cpu.status = 0x01;
    SBC::execute(&mut cpu, &mut bus);
    assert_eq!(cpu.a, 0x40);
    assert_eq!(cpu.get_flag(CpuFlags::C), 1);
    assert_eq!(cpu.get_flag(CpuFlags::Z), 0);
}

#[test]
fn sbc_underflow_clears_carry() {
    // 0x10 - 0x20 wraps to 0xF0 and clears Carry.
    let mut bus = fresh_bus();
    let mut cpu = cpu_with_operand(&mut bus, 0x20);
    cpu.a = 0x10;
    cpu.status = 0x01;
    SBC::execute(&mut cpu, &mut bus);
    assert_eq!(cpu.a, 0xF0);
    assert_eq!(cpu.get_flag(CpuFlags::C), 0);
    assert_eq!(cpu.get_flag(CpuFlags::N), 1);
}

#[test]
fn branch_not_taken_costs_nothing() {
    let mut bus = fresh_bus();
    let mut cpu = Cpu6502::new();
    cpu.status = 0x01; // Carry set: BCC not taken
    cpu.pc = 0x0200;
    cpu.addr_rel = 0x0010;
    cpu.cycles = 2;
    BCC::execute(&mut cpu, &mut bus);
    assert_eq!(cpu.cycles, 2);
    assert_eq!(cpu.pc, 0x0200);
}

#[test]
fn branch_taken_same_page_costs_one() {
    let mut bus = fresh_bus();
    let mut cpu = Cpu6502::new();
    cpu.status = 0x00; // Carry clear: BCC taken
    cpu.pc = 0x0200;
    cpu.addr_rel = 0x0010;
    cpu.cycles = 2;
    BCC::execute(&mut cpu, &mut bus);
    assert_eq!(cpu.cycles, 3);
    assert_eq!(cpu.pc, 0x0210);
}

#[test]
fn branch_taken_page_cross_costs_two() {
    let mut bus = fresh_bus();
    let mut cpu = Cpu6502::new();
    cpu.status = 0x00;
    cpu.pc = 0x02F0;
    cpu.addr_rel = 0x0020;
    cpu.cycles = 2;
    BCC::execute(&mut cpu, &mut bus);
    assert_eq!(cpu.cycles, 4);
    assert_eq!(cpu.pc, 0x0310);
}

#[test]
fn branch_backwards_through_sign_extension() {
    // A relative offset of -2 (0xFE, sign-extended to 0xFFFE) lands two
    // bytes back through wrapping addition.
    let mut bus = fresh_bus();
    let mut cpu = Cpu6502::new();
    cpu.status = 0x00;
    cpu.pc = 0x0210;
    cpu.addr_rel = 0xFFFE;
    cpu.cycles = 2;
    BCC::execute(&mut cpu, &mut bus);
    assert_eq!(cpu.pc, 0x020E);
}

#[test]
fn cmp_sets_carry_when_register_not_below() {
    let mut bus = fresh_bus();
    let mut cpu = cpu_with_operand(&mut bus, 0x30);
    cpu.a = 0x40;
    CMP::execute(&mut cpu, &mut bus);
    assert_eq!(cpu.get_flag(CpuFlags::C), 1);
    assert_eq!(cpu.get_flag(CpuFlags::Z), 0);

    let mut bus2 = fresh_bus();
    let mut cpu2 = cpu_with_operand(&mut bus2, 0x41);
    cpu2.a = 0x40;
    CMP::execute(&mut cpu2, &mut bus2);
    assert_eq!(cpu2.get_flag(CpuFlags::C), 0);
    assert_eq!(cpu2.get_flag(CpuFlags::N), 1);
}

#[test]
fn logical_ops_and_flags() {
    let mut bus = fresh_bus();
    let mut cpu = cpu_with_operand(&mut bus, 0x0F);
    cpu.a = 0xF0;
    AND::execute(&mut cpu, &mut bus);
    assert_eq!(cpu.a, 0x00);
    assert_eq!(cpu.get_flag(CpuFlags::Z), 1);

    let mut bus2 = fresh_bus();
    let mut cpu2 = cpu_with_operand(&mut bus2, 0x0F);
    cpu2.a = 0xF0;
    ORA::execute(&mut cpu2, &mut bus2);
    assert_eq!(cpu2.a, 0xFF);
    assert_eq!(cpu2.get_flag(CpuFlags::N), 1);

    let mut bus3 = fresh_bus();
    let mut cpu3 = cpu_with_operand(&mut bus3, 0xFF);
    cpu3.a = 0xF0;
    EOR::execute(&mut cpu3, &mut bus3);
    assert_eq!(cpu3.a, 0x0F);
}

#[test]
fn bit_copies_operand_bits() {
    let mut bus = fresh_bus();
    let mut cpu = cpu_with_operand(&mut bus, 0xC0);
    cpu.a = 0x3F;
    BIT::execute(&mut cpu, &mut bus);
    assert_eq!(cpu.get_flag(CpuFlags::Z), 1); // 0x3F & 0xC0 == 0
    assert_eq!(cpu.get_flag(CpuFlags::N), 1); // bit 7 of the operand
    assert_eq!(cpu.get_flag(CpuFlags::V), 1); // bit 6 of the operand
}

#[test]
fn shifts_on_accumulator() {
    // Opcode 0x4A is LSR in implicit (accumulator) mode.
    let mut bus = fresh_bus();
    let mut cpu = Cpu6502::new();
    cpu.opcode = 0x4A;
    cpu.fetched = 0x05;
    cpu.a = 0x05;
    LSR::execute(&mut cpu, &mut bus);
    assert_eq!(cpu.a, 0x02);
    assert_eq!(cpu.get_flag(CpuFlags::C), 1);

    // Opcode 0x6A is ROR in accumulator mode; Carry rotates into bit 7.
    let mut bus2 = fresh_bus();
    let mut cpu2 = Cpu6502::new();
    cpu2.opcode = 0x6A;
    cpu2.fetched = 0x02;
    cpu2.a = 0x02;
    cpu2.status = 0x01;
    ROR::execute(&mut cpu2, &mut bus2);
    assert_eq!(cpu2.a, 0x81);
    assert_eq!(cpu2.get_flag(CpuFlags::C), 0);
}

#[test]
fn rol_reproduces_truncated_intermediate() {
    // The rotate-left intermediate keeps eight bits, so the top bit is
    // dropped and the outgoing Carry stays clear (reproduced as observed).
    let mut bus = fresh_bus();
    let mut cpu = Cpu6502::new();
    cpu.opcode = 0x2A; // ROL in accumulator mode
    cpu.fetched = 0x81;
    cpu.a = 0x81;
    cpu.status = 0x01;
    ROL::execute(&mut cpu, &mut bus);
    assert_eq!(cpu.a, 0x03);
    assert_eq!(cpu.get_flag(CpuFlags::C), 0);
}

#[test]
fn shift_writes_back_to_memory() {
    // Opcode 0x06 is ASL on a zero-page cell.
    let mut bus = fresh_bus();
    let mut cpu = Cpu6502::new();
    cpu.opcode = 0x06;
    cpu.addr_abs = 0x0040;
    bus.cpu_write(0x0040, 0x41);
    rusty_nes::operators::ASL::execute(&mut cpu, &mut bus);
    assert_eq!(bus.cpu_read(0x0040), 0x82);
}

#[test]
fn inc_wraps_memory_cell() {
    let mut bus = fresh_bus();
    let mut cpu = Cpu6502::new();
    cpu.opcode = 0xE6; // INC on a zero-page cell
    cpu.addr_abs = 0x0020;
    bus.cpu_write(0x0020, 0xFF);
    INC::execute(&mut cpu, &mut bus);
    assert_eq!(bus.cpu_read(0x0020), 0x00);
    assert_eq!(cpu.get_flag(CpuFlags::Z), 1);
}

#[test]
fn dex_wraps_register() {
    let mut bus = fresh_bus();
    let mut cpu = Cpu6502::new();
    cpu.x = 0x00;
    DEX::execute(&mut cpu, &mut bus);
    assert_eq!(cpu.x, 0xFF);
    assert_eq!(cpu.get_flag(CpuFlags::N), 1);
}

#[test]
fn lda_sets_zero_flag() {
    let mut bus = fresh_bus();
    let mut cpu = cpu_with_operand(&mut bus, 0x00);
    cpu.a = 0x55;
    LDA::execute(&mut cpu, &mut bus);
    assert_eq!(cpu.a, 0x00);
    assert_eq!(cpu.get_flag(CpuFlags::Z), 1);
}

#[test]
fn stack_push_pull_roundtrip() {
    let mut bus = fresh_bus();
    let mut cpu = Cpu6502::new();
    cpu.stkp = 0xFD;
    cpu.a = 0x77;
    PHA::execute(&mut cpu, &mut bus);
    assert_eq!(cpu.stkp, 0xFC);
    assert_eq!(bus.cpu_read(0x01FD), 0x77);
    cpu.a = 0x00;
    PLA::execute(&mut cpu, &mut bus);
    assert_eq!(cpu.stkp, 0xFD);
    assert_eq!(cpu.a, 0x77);
}

#[test]
fn php_pushes_with_break_and_unused_then_clears() {
    let mut bus = fresh_bus();
    let mut cpu = Cpu6502::new();
    cpu.stkp = 0xFD;
    cpu.status = 0x81; // Negative and Carry
    PHP::execute(&mut cpu, &mut bus);
    assert_eq!(bus.cpu_read(0x01FD), 0x81 | 0x10 | 0x20);
    assert_eq!(cpu.get_flag(CpuFlags::B), 0);
    assert_eq!(cpu.get_flag(CpuFlags::U), 0);
    PLP::execute(&mut cpu, &mut bus);
    // the pulled byte, with Unused forced set
    assert_eq!(cpu.status, 0x81 | 0x10 | 0x20);
}

#[test]
fn jsr_rts_roundtrip() {
    let mut bus = fresh_bus();
    let mut cpu = Cpu6502::new();
    cpu.stkp = 0xFD;
    cpu.pc = 0x0203; // as after consuming a three-byte call instruction
    cpu.addr_abs = 0x0300;
    JSR::execute(&mut cpu, &mut bus);
    assert_eq!(cpu.pc, 0x0300);
    RTS::execute(&mut cpu, &mut bus);
    assert_eq!(cpu.pc, 0x0203);
    assert_eq!(cpu.stkp, 0xFD);
}

#[test]
fn stack_pointer_wraps_on_push() {
    let mut bus = fresh_bus();
    let mut cpu = Cpu6502::new();
    cpu.stkp = 0x00;
    cpu.a = 0x12;
    PHA::execute(&mut cpu, &mut bus);
    assert_eq!(cpu.stkp, 0xFF);
    assert_eq!(bus.cpu_read(0x0100), 0x12);
}
