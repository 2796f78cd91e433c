use rustiic::bus::Bus;
use rustiic::cpu::CpuType;
use rustiic::cpu::SystemType;
use rustiic::cpu::CPU;
use rustiic::interrupts::InterruptController;
use rustiic::interrupts::InterruptType;
use rustiic::iou::IOU;
use rustiic::memory::Memory;
use rustiic::mmu::MMU;
use rustiic::rom::RomError;
use rustiic::rom::ROM;
use rustiic::util::ascii_to_apple_iic;
use rustiic::util::ior;
use rustiic::util::mem_state_to_string;
use rustiic::video::Video;

#[test]
fn memory_bank_read_write() {
    let mut m = Memory::new(0x100, "TEST".to_owned());
    assert_eq!(m.read_byte(0x10), 0x00);
    m.write_byte(0x10, 0xAB);
    assert_eq!(m.read_byte(0x10), 0xAB);
    // Out of range: reads return 0, writes are dropped.
    assert_eq!(m.read_byte(0x200), 0x00);
    m.write_byte(0x200, 0x55);
    assert_eq!(m.read_byte(0x200), 0x00);
}

#[test]
fn memory_load_bytes_copies_in_place() {
    let mut m = Memory::new(0x10, "TEST".to_owned());
    m.load_bytes(4, &[1, 2, 3]);
    assert_eq!(m.read_byte(4), 1);
    assert_eq!(m.read_byte(5), 2);
    assert_eq!(m.read_byte(6), 3);
    // A copy past the end is dropped whole.
    m.load_bytes(0x0E, &[9, 9, 9]);
    assert_eq!(m.read_byte(0x0E), 0);
}

#[test]
fn interrupt_priority_is_nmi_rst_brk_irq() {
    let mut ints = InterruptController::default();
    ints.request_irq();
    ints.request_brk();
    ints.request_nmi();
    let r = ints.handle_interrupt_with_vectors(0x1111, 0x2222, 0x3333);
    assert_eq!(r, Some((InterruptType::NMI, 0x1111)));
    // BRK is edge-triggered: arbitration clears it when it wins.
    ints.nmi = false;
    let r2 = ints.handle_interrupt_with_vectors(0x1111, 0x2222, 0x3333);
    assert_eq!(r2, Some((InterruptType::BRK, 0x3333)));
    assert!(!ints.brk);
    let r3 = ints.handle_interrupt_with_vectors(0x1111, 0x2222, 0x3333);
    assert_eq!(r3, Some((InterruptType::IRQ, 0x3333)));
}

#[test]
fn halted_controller_reports_nothing() {
    let mut ints = InterruptController::default();
    ints.request_irq();
    ints.enter_halt();
    assert_eq!(ints.handle_interrupt_with_vectors(1, 2, 3), None);
    assert_eq!(ints.status_string(), "I:.I...H");
}

#[test]
fn lc_write_enable_needs_two_consecutive_reads() {
    let mut iou = IOU::new();
    iou.ss_read(0xC081);
    assert_eq!(iou.mem_state & 0x40, 0, "one read must not enable writes");
    iou.ss_read(0xC081);
    assert_ne!(iou.mem_state & 0x40, 0, "the doubled read enables writes");
    iou.ss_read(0xC080);
    assert_eq!(iou.mem_state & 0x40, 0, "an unlatched read disables at once");
    // From a fresh power-up, one read of each latched switch in turn
    // never doubles, so the enable stays off.
    let mut iou2 = IOU::new();
    iou2.ss_read(0xC081);
    iou2.ss_read(0xC083);
    assert_eq!(iou2.mem_state & 0x40, 0);
}

#[test]
fn intervening_lc_read_resets_the_latch() {
    // A different $C08x read between two reads of the same latched
    // switch resets its counter: non-consecutive repeats never commit.
    let mut iou = IOU::new();
    iou.ss_read(0xC081);
    iou.ss_read(0xC083);
    iou.ss_read(0xC081);
    assert_eq!(iou.mem_state & 0x40, 0, "the pair must be consecutive");
    iou.ss_read(0xC081);
    assert_ne!(iou.mem_state & 0x40, 0, "now the pair is consecutive");
}

#[test]
fn page2_routes_writes_under_80store() {
    let mut bus = Bus::new(SystemType::AppleIIc, CpuType::CMOS65C02);
    bus.write_byte(0x0400, 0x11); // main text page
    bus.write_byte(0xC001, 0); // 80STORE on
    bus.read_byte(0xC055); // PAGE2 on
    bus.write_byte(0x0400, 0x22); // must land in the aux bank
    assert_eq!(bus.read_byte(0x0400), 0x22, "read and write route together");
    bus.read_byte(0xC054); // PAGE2 off: back to the main bank
    assert_eq!(bus.read_byte(0x0400), 0x11, "main kept its old byte");
}

#[test]
fn soft_switch_write_commits_immediately() {
    let mut iou = IOU::new();
    iou.ss_write(0xC081);
    assert_ne!(iou.mem_state & 0x40, 0, "writes commit without doubling");
    iou.ss_write(0xC008);
    assert_eq!(iou.mem_state & 0x01, 0);
    iou.ss_write(0xC009);
    assert_ne!(iou.mem_state & 0x01, 0);
}

#[test]
fn status_reads_report_bit_seven() {
    let mut iou = IOU::new();
    assert_eq!(iou.ss_read(0xC01A) & 0x80, 0x80, "text mode starts on");
    iou.ss_write(0xC001);
    assert_eq!(iou.ss_read(0xC018), 0x80);
    iou.ss_write(0xC000);
    assert_eq!(iou.ss_read(0xC018), 0x00);
}

#[test]
fn generic_bus_round_trips_every_plain_address() {
    let mut bus = Bus::new(SystemType::Generic, CpuType::CMOS65C02);
    bus.write_byte(0x1234, 0xAB);
    assert_eq!(bus.read_byte(0x1234), 0xAB);
    bus.write_byte(0x0000, 0x01);
    assert_eq!(bus.read_byte(0x0000), 0x01);
    // $BFFC latches instead of storing, and reads back the latch.
    bus.write_byte(0xBFFC, 0x03);
    assert_eq!(bus.read_byte(0xBFFC), 0x03);
    assert!(bus.interrupts.irq);
    assert!(bus.interrupts.nmi);
}

#[test]
fn peek_does_not_disturb_the_latch() {
    let mut bus = Bus::new(SystemType::AppleIIc, CpuType::CMOS65C02);
    bus.read_byte(0xC081);
    // A peek between the two reads must not reset the two-read counter.
    bus.peek_byte(0xC081);
    bus.read_byte(0xC081);
    assert_ne!(bus.iou.mem_state & 0x40, 0);
}

#[test]
fn apple_iic_language_card_write_and_readback() {
    let mut cpu = CPU::new(SystemType::AppleIIc, CpuType::CMOS65C02, 1_000_000);
    let mut image = vec![0u8; 0x8000];
    image[0x5000] = 0x5A; // ROM bank 2, offset $1000: the $D000 window
    let rom = ROM::load_from_bytes(&image, SystemType::AppleIIc).unwrap();
    cpu.load_rom(rom);
    cpu.init();

    // With LCRAM off, $D000 reads the active ROM bank at offset $1000.
    assert_eq!(cpu.bus.read_byte(0xD000), 0x5A);

    // Two consecutive reads of $C081 enable LC writes (read ROM).
    cpu.bus.read_byte(0xC081);
    cpu.bus.read_byte(0xC081);
    cpu.bus.write_byte(0xD000, 0xAA);

    // Two consecutive reads of $C083 turn LCRAM reads on: the written
    // byte comes back.
    cpu.bus.read_byte(0xC083);
    cpu.bus.read_byte(0xC083);
    assert_eq!(cpu.bus.read_byte(0xD000), 0xAA);

    // Back to ROM: the ROM byte reappears.
    cpu.bus.read_byte(0xC082);
    assert_eq!(cpu.bus.read_byte(0xD000), 0x5A);
}

#[test]
fn zero_page_follows_altzp_on_the_apple_iic() {
    let mut bus = Bus::new(SystemType::AppleIIc, CpuType::CMOS65C02);
    bus.write_byte(0x0080, 0x11);
    bus.write_byte(0xC009, 0); // ALTZP on: aux zero page
    assert_eq!(bus.read_byte(0x0080), 0x00);
    bus.write_byte(0x0080, 0x22);
    bus.write_byte(0xC008, 0); // back to main
    assert_eq!(bus.read_byte(0x0080), 0x11);
}

#[test]
fn rom_loader_rejects_empty_and_oversize() {
    assert!(matches!(
        ROM::load_from_bytes(&[], SystemType::Generic),
        Err(RomError::Empty)
    ));
    let big = vec![0u8; 0x8001];
    assert!(matches!(
        ROM::load_from_bytes(&big, SystemType::AppleIIc),
        Err(RomError::TooLarge)
    ));
    assert_eq!(RomError::Empty.message(), "ROM is empty");
}

#[test]
fn rom_loader_pads_with_ff() {
    let rom = ROM::load_from_bytes(&[1, 2, 3], SystemType::AppleIIc).unwrap();
    assert_eq!(rom.data.len(), 0x8000);
    assert_eq!(rom.data[0], 1);
    assert_eq!(rom.data[2], 3);
    assert_eq!(rom.data[3], 0xFF);
    assert_eq!(rom.data[0x7FFF], 0xFF);
}

#[test]
fn intel_hex_data_record_lands_in_the_image() {
    let text = b":02040000AABB95\n:00000001FF\n";
    let rom = ROM::load_from_intel(text, SystemType::Generic).unwrap();
    assert_eq!(rom.data.len(), 0x10000);
    assert_eq!(rom.data[0x0400], 0xAA);
    assert_eq!(rom.data[0x0401], 0xBB);
    assert_eq!(rom.data[0x0402], 0xFF);
}

#[test]
fn intel_hex_checksum_mismatch_is_a_hard_error() {
    let text = b":02040000AABB00\n";
    assert!(matches!(
        ROM::load_from_intel(text, SystemType::Generic),
        Err(RomError::ChecksumMismatch)
    ));
}

#[test]
fn intel_hex_malformed_line_is_rejected() {
    assert!(matches!(
        ROM::load_from_intel(b"02040000AABB95\n", SystemType::Generic),
        Err(RomError::InvalidHexFormat)
    ));
    assert!(matches!(
        ROM::load_from_intel(b":0204\n", SystemType::Generic),
        Err(RomError::InvalidHexFormat)
    ));
}

#[test]
fn intel_hex_segment_record_shifts_addresses() {
    // The segment value $0100, times sixteen, shifts the data to $1000.
    let text = b":020000020100FB\n:010000007788\n";
    let rom = ROM::load_from_intel(text, SystemType::Generic).unwrap();
    assert_eq!(rom.data[0x1000], 0x77);
}

#[test]
fn util_helpers_match_their_tables() {
    assert_eq!(ior(0x05), 0x80);
    assert_eq!(ior(0x00), 0x00);
    assert_eq!(ascii_to_apple_iic(b'A', false), 0xC1);
    assert_eq!(ascii_to_apple_iic(b'P', false), 0xD0);
    assert_eq!(ascii_to_apple_iic(b'0', false), 0xB0);
    assert_eq!(ascii_to_apple_iic(b' ', false), 0x20);
    assert_eq!(ascii_to_apple_iic(b'a', false), 0xC1);
    assert_eq!(ascii_to_apple_iic(0x07, false), 0xA0);
    assert_eq!(mem_state_to_string(0x20), "[.....B..]");
    assert_eq!(mem_state_to_string(0xFF), "[A8rwLBWR]");
}

#[test]
fn video_resizes_to_the_mode() {
    let video = Video::new();
    assert_eq!(video.get_dimensions(), (560, 192));
    let iou = {
        let mut iou = IOU::new();
        iou.ss_read(0xC050); // text off
        iou.ss_read(0xC056); // lo-res on
        iou
    };
    let mmu = MMU::new();
    let mut video2 = Video::new();
    assert!(video2.update(&iou, &mmu));
    assert_eq!(video2.get_dimensions(), (280, 48));
}

#[test]
fn video_font_must_be_exactly_one_bank() {
    let mut video = Video::new();
    assert!(!video.load_font(vec![0u8; 100]));
    assert!(video.load_font(vec![0u8; 4096]));
}

#[test]
fn cpu_tick_runs_the_program() {
    let mut cpu = CPU::new(SystemType::Generic, CpuType::CMOS65C02, 1_000_000);
    cpu.bus.write_bytes(0x0400, &[0xA9, 0x07, 0xEA]);
    cpu.bus.write_byte(0xFFFC, 0x00);
    cpu.bus.write_byte(0xFFFD, 0x04);
    cpu.init();
    cpu.tick();
    assert_eq!(cpu.regs.a, 0x07);
}
