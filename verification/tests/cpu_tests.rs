use rustiic::cpu::CpuType;
use rustiic::cpu::SystemType;
use rustiic::cpu::CPU;
use rustiic::rom::ROM;

fn generic_cpu(cpu_type: CpuType) -> CPU {
    CPU::new(SystemType::Generic, cpu_type, 1_000_000)
}

fn set_reset_vector(cpu: &mut CPU, target: u16) {
    cpu.bus.write_byte(0xFFFC, (target & 0xFF) as u8);
    cpu.bus.write_byte(0xFFFD, (target >> 8) as u8);
}

fn set_irq_vector(cpu: &mut CPU, target: u16) {
    cpu.bus.write_byte(0xFFFE, (target & 0xFF) as u8);
    cpu.bus.write_byte(0xFFFF, (target >> 8) as u8);
}

#[test]
fn init_sets_registers_and_flags() {
    let mut cpu = generic_cpu(CpuType::CMOS65C02);
    cpu.init();
    assert_eq!(cpu.regs.a, 0xFF);
    assert_eq!(cpu.regs.x, 0xFF);
    assert_eq!(cpu.regs.y, 0xFF);
    assert_eq!(cpu.regs.sp, 0xFF);
    assert_ne!(cpu.p & 0x04, 0, "I must be set");
    assert_ne!(cpu.p & 0x20, 0, "U must be set");
    assert_eq!(cpu.p & 0x08, 0, "D must be clear on CMOS");
}

#[test]
fn init_on_nmos_also_clears_decimal() {
    let mut cpu = generic_cpu(CpuType::NMOS6502);
    cpu.init();
    assert_eq!(cpu.p & 0x08, 0);
}

#[test]
fn push_pop_round_trip() {
    let mut cpu = generic_cpu(CpuType::CMOS65C02);
    cpu.init();
    let sp_before = cpu.regs.sp;
    cpu.push_stack(0x42);
    assert_eq!(cpu.regs.sp, sp_before.wrapping_sub(1));
    let value = cpu.pop_stack();
    assert_eq!(value, 0x42);
    assert_eq!(cpu.regs.sp, sp_before);
}

#[test]
fn jsr_rts_round_trip() {
    let mut cpu = generic_cpu(CpuType::CMOS65C02);
    // JSR $0410 at $0400; RTS at $0410.
    cpu.bus.write_bytes(0x0400, &[0x20, 0x10, 0x04]);
    cpu.bus.write_byte(0x0410, 0x60);
    set_reset_vector(&mut cpu, 0x0400);
    cpu.init();
    assert_eq!(cpu.pc, 0x0400);
    cpu.step();
    assert_eq!(cpu.pc, 0x0410);
    cpu.step();
    assert_eq!(cpu.pc, 0x0403, "RTS must return to the byte after the JSR");
}

#[test]
fn adc_sbc_binary_round_trip() {
    let mut cpu = generic_cpu(CpuType::CMOS65C02);
    cpu.init();
    cpu.p = cpu.p & !0x08; // binary mode
    cpu.p = cpu.p | 0x01; // carry set
    cpu.regs.a = 0x10;
    cpu.adc(0x05);
    assert_eq!(cpu.regs.a, 0x16);
    assert_eq!(cpu.p & 0x01, 0, "no unsigned overflow: carry clear");
    cpu.sbc(0x05);
    // Carry after ADC differed from the initial carry, so A is restored
    // up to the changed carry-in: 0x16 + !0x05 + 0 == 0x10 (mod 256).
    assert_eq!(cpu.regs.a, 0x10);
    assert_ne!(cpu.p & 0x01, 0, "no borrow: carry set again");
}

#[test]
fn decimal_adc_scenario() {
    let mut cpu = generic_cpu(CpuType::CMOS65C02);
    cpu.init();
    cpu.p = cpu.p | 0x08; // D = 1
    cpu.p = cpu.p & !0x01; // C = 0
    cpu.regs.a = 0x15;
    cpu.adc(0x27);
    assert_eq!(cpu.regs.a, 0x42);
    assert_eq!(cpu.p & 0x01, 0, "no decimal carry");
    assert_eq!(cpu.p & 0x02, 0, "result is not zero");
}

#[test]
fn indirect_y_pointer_wraps_in_zero_page() {
    let mut cpu = generic_cpu(CpuType::CMOS65C02);
    cpu.init();
    // Operand $FF: pointer low from $00FF, high from $0000 (not $0100).
    cpu.bus.write_byte(0x0400, 0xFF);
    cpu.bus.write_byte(0x00FF, 0x34);
    cpu.bus.write_byte(0x0000, 0x12);
    cpu.bus.write_byte(0x0100, 0x77); // must not be used
    cpu.pc = 0x0400;
    cpu.regs.y = 0x01;
    let addr = cpu.fetch_indirect_y();
    assert_eq!(addr, 0x1235);
}

#[test]
fn jmp_indirect_page_wrap_nmos_vs_cmos() {
    // Pointer $02FF: the NMOS high byte comes from $0200, the CMOS one
    // from $0300.
    let mut nmos = generic_cpu(CpuType::NMOS6502);
    nmos.bus.write_bytes(0x0400, &[0x6C, 0xFF, 0x02]);
    nmos.bus.write_byte(0x02FF, 0x34);
    nmos.bus.write_byte(0x0200, 0x12);
    nmos.bus.write_byte(0x0300, 0x56);
    set_reset_vector(&mut nmos, 0x0400);
    nmos.init();
    nmos.step();
    assert_eq!(nmos.pc, 0x1234);

    let mut cmos = generic_cpu(CpuType::CMOS65C02);
    cmos.bus.write_bytes(0x0400, &[0x6C, 0xFF, 0x02]);
    cmos.bus.write_byte(0x02FF, 0x34);
    cmos.bus.write_byte(0x0200, 0x12);
    cmos.bus.write_byte(0x0300, 0x56);
    set_reset_vector(&mut cmos, 0x0400);
    cmos.init();
    cmos.step();
    assert_eq!(cmos.pc, 0x5634);
}

#[test]
fn load_store_brk_program() {
    let mut cpu = generic_cpu(CpuType::CMOS65C02);
    cpu.bus.write_bytes(0x0400, &[0xA9, 0x42, 0x85, 0x10, 0xA5, 0x10, 0x00]);
    set_reset_vector(&mut cpu, 0x0400);
    set_irq_vector(&mut cpu, 0x0500);
    cpu.init();
    cpu.step(); // LDA #$42
    assert_eq!(cpu.regs.a, 0x42);
    cpu.step(); // STA $10
    assert_eq!(cpu.bus.read_byte(0x0010), 0x42);
    cpu.step(); // LDA $10
    assert_eq!(cpu.regs.a, 0x42);
    let sp_before = cpu.regs.sp;
    let pc_before = cpu.pc;
    cpu.step(); // BRK requests the software interrupt
    cpu.step(); // the next step services it
    assert_eq!(cpu.pc, 0x0500, "BRK must vector through $FFFE");
    // PC+1 was pushed high then low, then P with B=1 and U=1.
    let pushed_p = cpu.bus.read_byte(0x0100 | sp_before.wrapping_sub(2) as u16);
    assert_ne!(pushed_p & 0x10, 0, "pushed P must carry B=1");
    assert_ne!(pushed_p & 0x20, 0, "pushed P must carry U=1");
    let hi = cpu.bus.read_byte(0x0100 | sp_before as u16) as u16;
    let lo = cpu.bus.read_byte(0x0100 | sp_before.wrapping_sub(1) as u16) as u16;
    // The BRK opcode byte sat at pc_before; the CPU had advanced past it
    // when the service pushed PC+1.
    assert_eq!((hi << 8) | lo, pc_before.wrapping_add(2));
}

#[test]
fn reset_vector_sets_entry_point() {
    let mut data = vec![0u8; 0x10000];
    data[0xFFFC] = 0x00;
    data[0xFFFD] = 0x06;
    let rom = ROM::load_from_bytes(&data, SystemType::Generic).unwrap();
    let mut cpu = generic_cpu(CpuType::CMOS65C02);
    cpu.load_rom(rom);
    cpu.init();
    assert_eq!(cpu.pc, 0x0600);
}

#[test]
fn feedback_port_requests_irq() {
    let mut cpu = generic_cpu(CpuType::CMOS65C02);
    cpu.bus.write_bytes(0x0400, &[0xEA, 0xEA]);
    set_reset_vector(&mut cpu, 0x0400);
    set_irq_vector(&mut cpu, 0x0700);
    cpu.init();
    cpu.p = cpu.p & !0x04; // unmask IRQ
    cpu.bus.write_byte(0xBFFC, 0x01);
    assert!(cpu.bus.interrupts.irq);
    assert_eq!(cpu.bus.read_byte(0xBFFC), 0x01, "the latch reads back");
    let sp_before = cpu.regs.sp;
    cpu.step(); // one step is exactly the acknowledgment
    assert_eq!(cpu.pc, 0x0700, "the step ends at the handler entry");
    assert_eq!(cpu.regs.sp, sp_before.wrapping_sub(3));
    let pushed_p = cpu.bus.read_byte(0x0100 | sp_before.wrapping_sub(2) as u16);
    assert_eq!(pushed_p & 0x10, 0, "pushed P must carry B=0 for IRQ");
    assert!(!cpu.bus.interrupts.irq, "servicing clears the line");
}

#[test]
fn cmos_bbr0_branches_on_clear_bit() {
    let mut cpu = generic_cpu(CpuType::CMOS65C02);
    // BBR0 $10,+2
    cpu.bus.write_bytes(0x0400, &[0x0F, 0x10, 0x02]);
    cpu.bus.write_byte(0x0010, 0xFE); // bit 0 clear: branch taken
    set_reset_vector(&mut cpu, 0x0400);
    cpu.init();
    cpu.step();
    assert_eq!(cpu.pc, 0x0405);

    let mut cpu2 = generic_cpu(CpuType::CMOS65C02);
    cpu2.bus.write_bytes(0x0400, &[0x0F, 0x10, 0x02]);
    cpu2.bus.write_byte(0x0010, 0x01); // bit 0 set: no branch
    set_reset_vector(&mut cpu2, 0x0400);
    cpu2.init();
    cpu2.step();
    assert_eq!(cpu2.pc, 0x0403);
}

#[test]
fn nmos_treats_bbr_as_a_two_byte_nop() {
    let mut cpu = generic_cpu(CpuType::NMOS6502);
    cpu.bus.write_bytes(0x0400, &[0x0F, 0x10, 0x02]);
    cpu.bus.write_byte(0x0010, 0xFE); // bit 0 clear - but not on this variant
    set_reset_vector(&mut cpu, 0x0400);
    cpu.init();
    cpu.step();
    assert_eq!(cpu.pc, 0x0402, "undefined here: skip the zero-page operand only");
}

#[test]
fn nmos_treats_zero_page_indirect_load_as_a_two_byte_nop() {
    let mut cpu = generic_cpu(CpuType::NMOS6502);
    cpu.bus.write_bytes(0x0400, &[0xB2, 0x10]);
    set_reset_vector(&mut cpu, 0x0400);
    cpu.init();
    let a_before = cpu.regs.a;
    cpu.step();
    assert_eq!(cpu.pc, 0x0402);
    assert_eq!(cpu.regs.a, a_before);
}

#[test]
fn wdc_stp_halts_and_wai_waits() {
    let mut cpu = CPU::new(SystemType::Generic, CpuType::WDC65C02S, 1_000_000);
    cpu.bus.write_bytes(0x0400, &[0xDB]);
    set_reset_vector(&mut cpu, 0x0400);
    cpu.init();
    cpu.step();
    assert!(cpu.bus.interrupts.halted);
    let pc = cpu.pc;
    cpu.step(); // halted: nothing moves
    assert_eq!(cpu.pc, pc);
}

#[test]
fn format_flags_spells_every_bit() {
    assert_eq!(rustiic::cpu::format_flags(0xFF), "NV-BDIZC");
    assert_eq!(rustiic::cpu::format_flags(0x00), "........");
    assert_eq!(rustiic::cpu::format_flags(0x34), "..-B.I..");
}

#[test]
fn undocumented_skip_opcodes_consume_their_bytes() {
    let mut cpu = generic_cpu(CpuType::CMOS65C02);
    cpu.bus.write_bytes(0x0400, &[0x02, 0x00, 0x5C, 0x00, 0x00]);
    set_reset_vector(&mut cpu, 0x0400);
    cpu.init();
    cpu.step(); // $02 skips one operand byte
    assert_eq!(cpu.pc, 0x0402);
    cpu.step(); // $5C skips two
    assert_eq!(cpu.pc, 0x0405);
}
