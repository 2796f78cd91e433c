use rustiic::bus::Bus;
use rustiic::cpu::CpuType;
use rustiic::cpu::SystemType;
use rustiic::disassembler::AddressingMode;
use rustiic::disassembler::Disassembler;
use rustiic::disassembler::SymbolTable;

#[test]
fn operand_bytes_per_mode() {
    assert_eq!(AddressingMode::Implied.operand_bytes(), 0);
    assert_eq!(AddressingMode::Accumulator.operand_bytes(), 0);
    assert_eq!(AddressingMode::Immediate.operand_bytes(), 1);
    assert_eq!(AddressingMode::ZeroPageIndirect.operand_bytes(), 1);
    assert_eq!(AddressingMode::Relative.operand_bytes(), 1);
    assert_eq!(AddressingMode::Absolute.operand_bytes(), 2);
    assert_eq!(AddressingMode::IndirectAbsolute.operand_bytes(), 2);
}

#[test]
fn disassemble_formats_the_trace_line() {
    let mut bus = Bus::new(SystemType::Generic, CpuType::CMOS65C02);
    bus.write_bytes(0x0000, &[0xA9, 0x42]);
    let line = Disassembler::disassemble(&bus, 0x0000);
    assert_eq!(line, "$0000  A9 42     -  LDA  #$42    ");
}

#[test]
fn disassemble_absolute_and_implied() {
    let mut bus = Bus::new(SystemType::Generic, CpuType::CMOS65C02);
    bus.write_bytes(0x0200, &[0x20, 0x34, 0x12, 0xEA]);
    let jsr = Disassembler::disassemble(&bus, 0x0200);
    assert_eq!(jsr, "$0200  20 34 12  -  JSR  $1234   ");
    let nop = Disassembler::disassemble(&bus, 0x0203);
    assert_eq!(nop, "$0203  EA        -  NOP          ");
}

#[test]
fn disassemble_relative_resolves_the_target() {
    let mut bus = Bus::new(SystemType::Generic, CpuType::CMOS65C02);
    // BNE +4 at $0300 resolves to $0306; BNE -2 to $0300.
    bus.write_bytes(0x0300, &[0xD0, 0x04]);
    assert_eq!(
        Disassembler::disassemble(&bus, 0x0300),
        "$0300  D0 04     -  BNE  $0306   "
    );
    bus.write_bytes(0x0300, &[0xD0, 0xFC]);
    assert_eq!(
        Disassembler::disassemble(&bus, 0x0300),
        "$0300  D0 FC     -  BNE  $02FE   "
    );
}

#[test]
fn format_operands_per_mode() {
    assert_eq!(
        Disassembler::format_operands(0, AddressingMode::Immediate, 0x42, 0),
        "#$42"
    );
    assert_eq!(
        Disassembler::format_operands(0, AddressingMode::IndirectX, 0x10, 0),
        "($10,X)"
    );
    assert_eq!(
        Disassembler::format_operands(0, AddressingMode::IndirectY, 0x10, 0),
        "($10),Y"
    );
    assert_eq!(
        Disassembler::format_operands(0, AddressingMode::AbsoluteX, 0x34, 0x12),
        "$1234,X"
    );
    assert_eq!(
        Disassembler::format_operands(0, AddressingMode::Accumulator, 0, 0),
        "A"
    );
}

#[test]
fn symbols_resolve_the_last_operand() {
    let mut table = SymbolTable::new();
    table.load_symbols(b"FF3A BELL\n0400 START\n");
    let line = "$0400  20 3A FF  -  JSR  $FF3A   ".to_string();
    // The last hex operand on the line is $FF3A, which resolves.
    assert_eq!(table.append_symbol(line), " ; BELL");
}

#[test]
fn symbols_without_a_match_clear_the_suffix() {
    let mut table = SymbolTable::new();
    table.load_symbols(b"FF3A BELL\n");
    let line = "$0400  20 00 60  -  JSR  $6000   ".to_string();
    assert_eq!(table.append_symbol(line), "");
}

#[test]
fn a_line_without_operands_passes_through() {
    let table = SymbolTable::new();
    let line = "no operands here".to_string();
    assert_eq!(table.append_symbol(line.clone()), line);
}

#[test]
fn later_symbol_entries_override_earlier_ones() {
    let mut table = SymbolTable::new();
    table.load_symbols(b"0400 OLD\n0400 NEW\n");
    let line = "$0400".to_string();
    assert_eq!(table.append_symbol(line), " ; NEW");
}

#[test]
fn unparsable_symbol_lines_are_skipped() {
    let mut table = SymbolTable::new();
    table.load_symbols(b"zzzz NOPE\n0400\n0400 GOOD extra\n");
    assert_eq!(table.append_symbol("$0400".to_string()), " ; GOOD");
}
