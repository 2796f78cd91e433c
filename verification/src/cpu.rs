//! The execution engine: register file, status flags, fetch/decode/execute
//! for the documented opcodes of the NMOS 6502, CMOS 65C02 and WDC 65C02S,
//! interrupt servicing, and the stack operations.

use vstd::prelude::*;

use crate::bus::spec_bus_initial;
use crate::bus::spec_bus_read;
use crate::bus::spec_bus_read_word;
use crate::bus::spec_bus_write;
use crate::bus::spec_peek_word;
use crate::bus::Bus;
use crate::bus::BusView;
use crate::disassembler::SymbolTable;

verus! {

#[derive(Debug, Clone, Copy, PartialEq, Eq, Structural)]
pub enum SystemType {
    Generic,
    AppleIIc,
}

#[derive(Debug, Clone, Copy, PartialEq, Eq, Structural)]
pub enum CpuType {
    NMOS6502,
    CMOS65C02,
    WDC65C02S,
}

pub struct Registers {
    pub a: u8,
    pub x: u8,
    pub y: u8,
    pub sp: u8,
}

impl Default for Registers {
    fn default() -> (r: Self)
        ensures
            r == (Registers { a: 0u8, x: 0u8, y: 0u8, sp: 0u8 }),
    {
        Registers { a: 0, x: 0, y: 0, sp: 0 }
    }
}

/// Bit positions of the processor-status byte P.
pub struct Flags;

impl Flags {
    pub const CARRY: u8 = 0b0000_0001;

    pub const ZERO: u8 = 0b0000_0010;

    pub const IRQ_DISABLE: u8 = 0b0000_0100;

    pub const DECIMAL: u8 = 0b0000_1000;

    pub const BREAK: u8 = 0b0001_0000;

    pub const UNUSED: u8 = 0b0010_0000;

    pub const OVERFLOW: u8 = 0b0100_0000;

    pub const NEGATIVE: u8 = 0b1000_0000;
}

/// Whether a flag is set in the status byte.
pub open spec fn flag_set(p: u8, mask: u8) -> bool {
    p & mask == mask
}

/// The status byte with one flag forced on or off.
pub open spec fn spec_set_flag(p: u8, mask: u8, on: bool) -> u8 {
    if on {
        p | mask
    } else {
        p & !mask
    }
}

/// The status byte after a register load or ALU result: Z reflects a zero
/// value, N its top bit.
pub open spec fn spec_znf(p: u8, value: u8) -> u8 {
    spec_set_flag(spec_set_flag(p, Flags::ZERO, value == 0), Flags::NEGATIVE, value & 0x80 != 0)
}

/// Accumulator and status after ADC: binary addition with carry, or
/// nibble-wise BCD addition when the D flag is set; C is the carry out,
/// V the signed overflow of the binary sum, Z and N follow the result.
pub open spec fn spec_adc(p: u8, a: u8, value: u8) -> (u8, u8) {
    let carry_in: u8 = if flag_set(p, Flags::CARRY) {
        1u8
    } else {
        0u8
    };
    let sum: int = a + value + carry_in;
    let binary: u8 = (sum % 256) as u8;
    let decimal = flag_set(p, Flags::DECIMAL);
    let low0: u8 = (a & 0x0F).wrapping_add(value & 0x0F).wrapping_add(carry_in);
    let high0: u8 = (a >> 4).wrapping_add(value >> 4);
    let low1: u8 = if low0 > 9 {
        low0.wrapping_sub(10)
    } else {
        low0
    };
    let high1: u8 = if low0 > 9 {
        high0.wrapping_add(1)
    } else {
        high0
    };
    let high2: u8 = if high1 > 9 {
        high1.wrapping_sub(10)
    } else {
        high1
    };
    let a_after: u8 = if decimal {
        (high2 << 4) | (low1 & 0x0F)
    } else {
        binary
    };
    let carry_out: bool = if decimal {
        sum > 255 || high1 > 9
    } else {
        sum > 255
    };
    let overflow = ((a ^ value) & 0x80 == 0) && ((a ^ a_after) & 0x80 != 0);
    let p1 = spec_set_flag(p, Flags::CARRY, carry_out);
    let p2 = spec_set_flag(p1, Flags::OVERFLOW, overflow);
    let p3 = spec_set_flag(p2, Flags::ZERO, a_after == 0);
    let p4 = spec_set_flag(p3, Flags::NEGATIVE, a_after & 0x80 != 0);
    (a_after, p4)
}

/// Accumulator and status after SBC: binary subtraction via the one's
/// complement with carry as not-borrow, or nibble-wise BCD subtraction
/// when the D flag is set; V follows the binary rule, Z and N the result.
pub open spec fn spec_sbc(p: u8, a: u8, value: u8) -> (u8, u8) {
    let carry_in: u8 = if flag_set(p, Flags::CARRY) {
        1u8
    } else {
        0u8
    };
    let binary: int = a + (!value) + carry_in;
    let binary_u8: u8 = (binary % 256) as u8;
    let decimal = flag_set(p, Flags::DECIMAL);
    let low0: u8 = (a & 0x0F).wrapping_sub(value & 0x0F).wrapping_sub((1 - carry_in) as u8);
    let high0: u8 = (a >> 4).wrapping_sub(value >> 4);
    let low1: u8 = if low0 & 0x10 != 0 {
        low0.wrapping_sub(6) & 0x0F
    } else {
        low0
    };
    let high1: u8 = if low0 & 0x10 != 0 {
        high0.wrapping_sub(1)
    } else {
        high0
    };
    let high2: u8 = if high1 > 9 {
        high1.wrapping_sub(6) & 0x0F
    } else {
        high1
    };
    let a_after: u8 = if decimal {
        (high2 << 4) | (low1 & 0x0F)
    } else {
        binary_u8
    };
    let did_borrow: bool = if decimal {
        binary < 0x100 || high1 > 9
    } else {
        binary < 0x100
    };
    let overflow = ((a ^ value) & 0x80 != 0) && ((a ^ a_after) & 0x80 != 0);
    let p1 = spec_set_flag(p, Flags::CARRY, !did_borrow);
    let p2 = spec_set_flag(p1, Flags::OVERFLOW, overflow);
    let p3 = spec_set_flag(p2, Flags::ZERO, a_after == 0);
    let p4 = spec_set_flag(p3, Flags::NEGATIVE, a_after & 0x80 != 0);
    (a_after, p4)
}

/// Result and status of a left shift: the shifted-out top bit lands in C.
pub open spec fn spec_asl(p: u8, value: u8) -> (u8, u8) {
    let p1 = spec_set_flag(p, Flags::CARRY, value & 0x80 != 0);
    let result = value << 1;
    (result, spec_znf(p1, result))
}

/// Result and status of a right shift: the shifted-out low bit lands in C.
pub open spec fn spec_lsr(p: u8, value: u8) -> (u8, u8) {
    let p1 = spec_set_flag(p, Flags::CARRY, value & 0x01 != 0);
    let result = value >> 1;
    (result, spec_znf(p1, result))
}

/// Result and status of a rotate left: prior C folds into bit 0.
pub open spec fn spec_rol(p: u8, value: u8) -> (u8, u8) {
    let carry_in: u8 = if flag_set(p, Flags::CARRY) {
        1u8
    } else {
        0u8
    };
    let p1 = spec_set_flag(p, Flags::CARRY, value & 0x80 != 0);
    let result = (value << 1) | carry_in;
    (result, spec_znf(p1, result))
}

/// Result and status of a rotate right: prior C folds into bit 7.
pub open spec fn spec_ror(p: u8, value: u8) -> (u8, u8) {
    let carry_in: u8 = if flag_set(p, Flags::CARRY) {
        0x80u8
    } else {
        0u8
    };
    let p1 = spec_set_flag(p, Flags::CARRY, value & 0x01 != 0);
    let result = (value >> 1) | carry_in;
    (result, spec_znf(p1, result))
}

/// Status after a comparison: C iff register >= operand, Z and N of the
/// wrapped difference.
pub open spec fn spec_compare(p: u8, reg: u8, value: u8) -> u8 {
    let result = reg.wrapping_sub(value);
    let p1 = spec_set_flag(p, Flags::CARRY, reg >= value);
    let p2 = spec_set_flag(p1, Flags::ZERO, result == 0);
    spec_set_flag(p2, Flags::NEGATIVE, result & 0x80 != 0)
}

/// Status after BIT: Z from the masked accumulator, N and V copied from
/// bits 7 and 6 of the operand.
pub open spec fn spec_bit(p: u8, a: u8, value: u8) -> u8 {
    let p1 = spec_set_flag(p, Flags::ZERO, a & value == 0);
    let p2 = spec_set_flag(p1, Flags::NEGATIVE, value & 0x80 != 0);
    spec_set_flag(p2, Flags::OVERFLOW, value & 0x40 != 0)
}

/// The status byte a cold or warm start installs: I, B and U set;
/// D is cleared on the CMOS variants (it is already clear in the image).
pub open spec fn spec_init_flags(cpu_type: CpuType) -> u8 {
    if cpu_type == CpuType::NMOS6502 {
        0b0011_0100u8
    } else {
        0b0011_0100u8 & !Flags::DECIMAL
    }
}

/// The bit values behind the boot status byte, on both its variants.
proof fn lemma_init_flags_bits_values()
    by (bit_vector)
    ensures
        0b0011_0100u8 & 0b0000_0100u8 == 0b0000_0100u8,
        0b0011_0100u8 & 0b0010_0000u8 == 0b0010_0000u8,
        0b0011_0100u8 & 0b0000_1000u8 == 0u8,
        (0b0011_0100u8 & !0b0000_1000u8) & 0b0000_0100u8 == 0b0000_0100u8,
        (0b0011_0100u8 & !0b0000_1000u8) & 0b0010_0000u8 == 0b0010_0000u8,
        (0b0011_0100u8 & !0b0000_1000u8) & 0b0000_1000u8 == 0u8,
{
}

/// The boot status byte has I and U set and D clear, on every variant.
pub proof fn lemma_init_flags_bits(cpu_type: CpuType)
    ensures
        flag_set(spec_init_flags(cpu_type), Flags::IRQ_DISABLE),
        flag_set(spec_init_flags(cpu_type), Flags::UNUSED),
        !flag_set(spec_init_flags(cpu_type), Flags::DECIMAL),
{
    lemma_init_flags_bits_values();
}

/// The starting PC: a manual override wins; otherwise the reset vector at
/// $FFFC, unless it reads $FFFF, in which case a per-system default.
pub open spec fn spec_entry_point(c: CpuView) -> u16 {
    match c.entry_point_override {
        Some(entry) => entry,
        None => {
            let reset_vector = spec_peek_word(c.bus, 0xFFFC);
            if reset_vector != 0xFFFF {
                reset_vector
            } else {
                match c.system_type {
                    SystemType::AppleIIc => 0xC800,
                    SystemType::Generic => 0x0400,
                }
            }
        },
    }
}

/// The bus after one stack push and the pointer after it.
pub open spec fn spec_push(b: BusView, sp: u8, value: u8) -> BusView {
    spec_bus_write(b, 0x0100u16 | sp as u16, value).0
}

/// A stack access lands on page one: the or folds into plain addition, so
/// the address sits in $0100-$01FF, clear of the soft-switch page and the
/// feedback latch.
pub proof fn lemma_stack_addr(sp: u8)
    ensures
        (0x0100u16 | (sp as u16)) == 0x0100 + (sp as u16),
{
    assert((0x0100u16 | (sp as u16)) == 0x0100 + (sp as u16)) by (bit_vector);
}

/// The (zp,X) addressing helper: the operand plus X, wrapped in the zero
/// page, names a two-byte pointer that is read little-endian. The pair is
/// the bus after the three reads and the pointer read.
pub open spec fn spec_fetch_indirect_x(b: BusView, pc: u16, x: u8) -> (BusView, u16) {
    let f = spec_bus_read(b, pc);
    let zp_base = f.1.wrapping_add(x) as u16;
    let lo = spec_bus_read(f.0, zp_base);
    let hi = spec_bus_read(lo.0, zp_base.wrapping_add(1));
    (hi.0, (lo.1 + hi.1 * 0x100) as u16)
}

/// The (zp),Y addressing helper: the operand names a zero-page pointer
/// whose high byte is read at `(zp + 1) mod 256` - the pointer load wraps
/// inside the zero page - and Y is added to the loaded pointer.
pub open spec fn spec_fetch_indirect_y(b: BusView, pc: u16, y: u8) -> (BusView, u16) {
    let f = spec_bus_read(b, pc);
    let zp_addr = f.1 as u16;
    let lo = spec_bus_read(f.0, zp_addr);
    let hi = spec_bus_read(lo.0, zp_addr.wrapping_add(1) & 0xFF);
    let base = (lo.1 + hi.1 * 0x100) as u16;
    (hi.0, base.wrapping_add(y as u16))
}

/// The CPU after servicing (or declining) a pending interrupt, and whether
/// the step is thereby finished. The three vectors are read; arbitration
/// picks a source; a masked IRQ aborts; RST only loads the PC; the others
/// push PC (PC+1 for BRK) high then low, push P with U=1 and B set only
/// for BRK, set I, clear D on the CMOS variants, load the vector and clear
/// the source. Any servicing finishes the step: the handler's first
/// instruction runs on the next step.
pub open spec fn spec_handle_interrupt(c: CpuView) -> (CpuView, bool) {
    let nmi_vector = spec_peek_word(c.bus, 0xFFFA);
    let reset_vector = spec_peek_word(c.bus, 0xFFFC);
    let irq_vector = spec_peek_word(c.bus, 0xFFFE);
    match crate::interrupts::poll_choice(c.bus.interrupts) {
        None => (c, false),
        Some(kind) => {
            let ints1 = crate::interrupts::poll_state(c.bus.interrupts);
            let target_pc = crate::interrupts::poll_vector(
                kind,
                nmi_vector,
                reset_vector,
                irq_vector,
            );
            let c1 = (CpuView { bus: (BusView { interrupts: ints1, ..c.bus }), ..c });
            if flag_set(c.p, Flags::IRQ_DISABLE) && kind == crate::interrupts::InterruptType::IRQ {
                (c1, false)
            } else if kind == crate::interrupts::InterruptType::RST {
                ((CpuView { pc: target_pc, ..c1 }), true)
            } else {
                let pushed_pc: u16 = if kind == crate::interrupts::InterruptType::BRK {
                    c.pc.wrapping_add(1)
                } else {
                    c.pc
                };
                let b1 = spec_push(c1.bus, c.sp, (pushed_pc >> 8) as u8);
                let sp1 = c.sp.wrapping_sub(1);
                let b2 = spec_push(b1, sp1, (pushed_pc & 0xFF) as u8);
                let sp2 = sp1.wrapping_sub(1);
                let pushed_p = spec_set_flag(
                    c.p | Flags::UNUSED,
                    Flags::BREAK,
                    kind == crate::interrupts::InterruptType::BRK,
                );
                let b3 = spec_push(b2, sp2, pushed_p);
                let sp3 = sp2.wrapping_sub(1);
                let p1 = (c.p | Flags::IRQ_DISABLE) & !Flags::BREAK;
                let p2 = if c.cpu_type != CpuType::NMOS6502 {
                    p1 & !Flags::DECIMAL
                } else {
                    p1
                };
                let ints2 = if kind == crate::interrupts::InterruptType::IRQ {
                    (crate::interrupts::InterruptController { irq: false, waiting: false, ..ints1 })
                } else if kind == crate::interrupts::InterruptType::NMI {
                    (crate::interrupts::InterruptController { nmi: false, waiting: false, ..ints1 })
                } else {
                    (crate::interrupts::InterruptController { waiting: false, ..ints1 })
                };
                (
                    (CpuView {
                        bus: (BusView { interrupts: ints2, ..b3 }),
                        sp: sp3,
                        p: p2,
                        pc: target_pc,
                        ..c
                    }),
                    true,
                )
            }
        },
    }
}

/// One whole step: a pending interrupt is serviced first and ends the
/// step; a halted CPU does nothing; a waiting one resumes only when an
/// IRQ or NMI is pending (leaving the wait); otherwise the opcode at PC
/// is fetched and dispatched.
pub open spec fn spec_step(c: CpuView) -> CpuView {
    let h = spec_handle_interrupt(c);
    if h.1 {
        h.0
    } else {
        let c1 = h.0;
        if c1.bus.interrupts.halted {
            c1
        } else if c1.bus.interrupts.waiting && !(c1.bus.interrupts.irq
            || c1.bus.interrupts.nmi) {
            c1
        } else {
            let c2 = if c1.bus.interrupts.waiting {
                (CpuView {
                    bus: (BusView {
                        interrupts: (crate::interrupts::InterruptController {
                            waiting: false,
                            ..c1.bus.interrupts
                        }),
                        ..c1.bus
                    }),
                    ..c1
                })
            } else {
                c1
            };
            let f = spec_take1(c2);
            spec_decode_execute(f.0, f.1)
        }
    }
}

/// The IOU after the Apple IIc boot writes: 80STORE off, PAGE2 off, TEXT
/// on, the ROM bank toggled to its boot value, main zero page and stack.
pub open spec fn spec_soft_switch_init(b: BusView) -> BusView {
    let b1 = crate::bus::spec_iic_write(b, 0xC000, 0).0;
    let b2 = crate::bus::spec_iic_write(b1, 0xC054, 0).0;
    let b3 = crate::bus::spec_iic_write(b2, 0xC051, 0).0;
    let b4 = crate::bus::spec_iic_write(b3, 0xC028, 0).0;
    crate::bus::spec_iic_write(b4, 0xC008, 0).0
}

/// A cold boot: interrupts cleared, PC at OLDRST ($FF59) on the Apple IIc
/// and at the resolved entry point otherwise, A=X=Y=SP=0xFF, the boot
/// status byte, and on the Apple IIc the soft switches reset.
pub open spec fn spec_init(c: CpuView) -> CpuView {
    let ints = (crate::interrupts::InterruptController {
        nmi: false,
        irq: false,
        brk: false,
        reset: false,
        ..c.bus.interrupts
    });
    let c1 = (CpuView { bus: (BusView { interrupts: ints, ..c.bus }), ..c });
    let pc: u16 = if c.system_type == SystemType::AppleIIc {
        0xFF59u16
    } else {
        spec_entry_point(c1)
    };
    let c2 = (CpuView {
        pc,
        a: 0xFFu8,
        x: 0xFFu8,
        y: 0xFFu8,
        sp: 0xFFu8,
        p: spec_init_flags(c.cpu_type),
        ..c1
    });
    if c.system_type == SystemType::AppleIIc {
        (CpuView { bus: spec_soft_switch_init(c2.bus), ..c2 })
    } else {
        c2
    }
}

/// A warm reset: as `spec_init`, but the PC always comes from the resolved
/// entry point, on the Apple IIc too.
pub open spec fn spec_reset(c: CpuView) -> CpuView {
    let ints = (crate::interrupts::InterruptController {
        nmi: false,
        irq: false,
        brk: false,
        reset: false,
        ..c.bus.interrupts
    });
    let c1 = (CpuView { bus: (BusView { interrupts: ints, ..c.bus }), ..c });
    let c2 = (CpuView {
        pc: spec_entry_point(c1),
        a: 0xFFu8,
        x: 0xFFu8,
        y: 0xFFu8,
        sp: 0xFFu8,
        p: spec_init_flags(c.cpu_type),
        ..c1
    });
    if c.system_type == SystemType::AppleIIc {
        (CpuView { bus: spec_soft_switch_init(c2.bus), ..c2 })
    } else {
        c2
    }
}

/// One operand byte fetched: the CPU past it, and the byte.
pub open spec fn spec_take1(c: CpuView) -> (CpuView, u8) {
    let f = spec_bus_read(c.bus, c.pc);
    ((CpuView { pc: c.pc.wrapping_add(1), bus: f.0, ..c }), f.1)
}

/// One operand word fetched: the CPU past it, and the word.
pub open spec fn spec_take2(c: CpuView) -> (CpuView, u16) {
    let f = spec_bus_read_word(c.bus, c.pc);
    ((CpuView { pc: c.pc.wrapping_add(2), bus: f.0, ..c }), f.1)
}

/// A data read threaded through the CPU.
pub open spec fn spec_get(c: CpuView, addr: u16) -> (CpuView, u8) {
    let r = spec_bus_read(c.bus, addr);
    ((CpuView { bus: r.0, ..c }), r.1)
}

/// A pointer word read threaded through the CPU.
pub open spec fn spec_getw(c: CpuView, addr: u16) -> (CpuView, u16) {
    let r = spec_bus_read_word(c.bus, addr);
    ((CpuView { bus: r.0, ..c }), r.1)
}

/// A data write threaded through the CPU.
pub open spec fn spec_put(c: CpuView, addr: u16, value: u8) -> CpuView {
    (CpuView { bus: spec_bus_write(c.bus, addr, value).0, ..c })
}

/// A stack push threaded through the CPU.
pub open spec fn spec_push_cpu(c: CpuView, value: u8) -> CpuView {
    (CpuView { bus: spec_push(c.bus, c.sp, value), sp: c.sp.wrapping_sub(1), ..c })
}

/// A stack pop: the CPU after it, and the byte.
pub open spec fn spec_pop_cpu(c: CpuView) -> (CpuView, u8) {
    let sp1 = c.sp.wrapping_add(1);
    let r = spec_bus_read(c.bus, 0x0100u16 | sp1 as u16);
    ((CpuView { sp: sp1, bus: r.0, ..c }), r.1)
}

/// The (zp,X) helper threaded through the CPU.
pub open spec fn spec_ind_x(c: CpuView) -> (CpuView, u16) {
    let r = spec_fetch_indirect_x(c.bus, c.pc, c.x);
    ((CpuView { pc: c.pc.wrapping_add(1), bus: r.0, ..c }), r.1)
}

/// The (zp),Y helper threaded through the CPU.
pub open spec fn spec_ind_y(c: CpuView) -> (CpuView, u16) {
    let r = spec_fetch_indirect_y(c.bus, c.pc, c.y);
    ((CpuView { pc: c.pc.wrapping_add(1), bus: r.0, ..c }), r.1)
}

/// A shift or rotate applied: the CPU with the new flags, and the result.
pub open spec fn spec_asl_pair(c: CpuView, value: u8) -> (CpuView, u8) {
    ((CpuView { p: spec_asl(c.p, value).1, ..c }), spec_asl(c.p, value).0)
}

pub open spec fn spec_lsr_pair(c: CpuView, value: u8) -> (CpuView, u8) {
    ((CpuView { p: spec_lsr(c.p, value).1, ..c }), spec_lsr(c.p, value).0)
}

pub open spec fn spec_rol_pair(c: CpuView, value: u8) -> (CpuView, u8) {
    ((CpuView { p: spec_rol(c.p, value).1, ..c }), spec_rol(c.p, value).0)
}

pub open spec fn spec_ror_pair(c: CpuView, value: u8) -> (CpuView, u8) {
    ((CpuView { p: spec_ror(c.p, value).1, ..c }), spec_ror(c.p, value).0)
}

/// ADC applied to the accumulator and flags.
pub open spec fn spec_adc_cpu(c: CpuView, value: u8) -> CpuView {
    (CpuView { a: spec_adc(c.p, c.a, value).0, p: spec_adc(c.p, c.a, value).1, ..c })
}

/// SBC applied to the accumulator and flags.
pub open spec fn spec_sbc_cpu(c: CpuView, value: u8) -> CpuView {
    (CpuView { a: spec_sbc(c.p, c.a, value).0, p: spec_sbc(c.p, c.a, value).1, ..c })
}

/// A comparison applied to the flags.
pub open spec fn spec_cmp_cpu(c: CpuView, reg: u8, value: u8) -> CpuView {
    (CpuView { p: spec_compare(c.p, reg, value), ..c })
}

/// BIT applied to the flags.
pub open spec fn spec_bit_cpu(c: CpuView, value: u8) -> CpuView {
    (CpuView { p: spec_bit(c.p, c.a, value), ..c })
}

/// Z and N refreshed from a value.
pub open spec fn spec_znf_cpu(c: CpuView, value: u8) -> CpuView {
    (CpuView { p: spec_znf(c.p, value), ..c })
}

/// One flag forced on or off.
pub open spec fn spec_sf_cpu(c: CpuView, mask: u8, on: bool) -> CpuView {
    (CpuView { p: spec_set_flag(c.p, mask, on), ..c })
}

/// The opcodes whose execution rewrites the PC beyond consuming operand
/// bytes: the relative branches, the jumps, the subroutine and interrupt
/// returns, and the branch-on-bit family.
pub open spec fn spec_is_jump(op: u8) -> bool {
    op == 0x10 || op == 0x30 || op == 0x50 || op == 0x70 || op == 0x90 || op == 0xB0 || op
        == 0xD0 || op == 0xF0 || op == 0x80 || op == 0x4C || op == 0x6C || op == 0x7C || op
        == 0x20 || op == 0x60 || op == 0x40 || op == 0x0F || op == 0x1F || op == 0x2F || op
        == 0x3F || op == 0x4F || op == 0x5F || op == 0x6F || op == 0x7F || op == 0x8F || op
        == 0x9F || op == 0xAF || op == 0xBF || op == 0xCF || op == 0xDF || op == 0xEF || op
        == 0xFF
}

/// Operand bytes consumed for opcodes 0x00-0x0F.
pub open spec fn spec_consumed_x0(op: u8, t: CpuType) -> int {
    if op == 0x01 {
        1
    } else     if op == 0x02 {
        1
    } else     if op == 0x04 {
        1
    } else     if op == 0x05 {
        1
    } else     if op == 0x06 {
        1
    } else     if op == 0x07 {
        1
    } else     if op == 0x09 {
        1
    } else     if op == 0x0C {
        2
    } else     if op == 0x0D {
        2
    } else     if op == 0x0E {
        2
    } else     if op == 0x0F {
        if t == CpuType::NMOS6502 {
            1
        } else {
            2
        }
    } else {
        0
    }
}

/// Operand bytes consumed for opcodes 0x10-0x1F.
pub open spec fn spec_consumed_x1(op: u8, t: CpuType) -> int {
    if op == 0x10 {
        1
    } else     if op == 0x11 {
        1
    } else     if op == 0x12 {
        1
    } else     if op == 0x14 {
        1
    } else     if op == 0x15 {
        1
    } else     if op == 0x16 {
        1
    } else     if op == 0x17 {
        1
    } else     if op == 0x19 {
        2
    } else     if op == 0x1C {
        2
    } else     if op == 0x1D {
        2
    } else     if op == 0x1E {
        2
    } else     if op == 0x1F {
        if t == CpuType::NMOS6502 {
            1
        } else {
            2
        }
    } else {
        0
    }
}

/// Operand bytes consumed for opcodes 0x20-0x2F.
pub open spec fn spec_consumed_x2(op: u8, t: CpuType) -> int {
    if op == 0x20 {
        2
    } else     if op == 0x21 {
        1
    } else     if op == 0x22 {
        1
    } else     if op == 0x24 {
        1
    } else     if op == 0x25 {
        1
    } else     if op == 0x26 {
        1
    } else     if op == 0x27 {
        1
    } else     if op == 0x29 {
        1
    } else     if op == 0x2C {
        2
    } else     if op == 0x2D {
        2
    } else     if op == 0x2E {
        2
    } else     if op == 0x2F {
        if t == CpuType::NMOS6502 {
            1
        } else {
            2
        }
    } else {
        0
    }
}

/// Operand bytes consumed for opcodes 0x30-0x3F.
pub open spec fn spec_consumed_x3(op: u8, t: CpuType) -> int {
    if op == 0x30 {
        1
    } else     if op == 0x31 {
        1
    } else     if op == 0x32 {
        1
    } else     if op == 0x34 {
        1
    } else     if op == 0x35 {
        1
    } else     if op == 0x36 {
        1
    } else     if op == 0x37 {
        1
    } else     if op == 0x39 {
        2
    } else     if op == 0x3C {
        2
    } else     if op == 0x3D {
        2
    } else     if op == 0x3E {
        2
    } else     if op == 0x3F {
        if t == CpuType::NMOS6502 {
            1
        } else {
            2
        }
    } else {
        0
    }
}

/// Operand bytes consumed for opcodes 0x40-0x4F.
pub open spec fn spec_consumed_x4(op: u8, t: CpuType) -> int {
    if op == 0x41 {
        1
    } else     if op == 0x42 {
        1
    } else     if op == 0x44 {
        1
    } else     if op == 0x45 {
        1
    } else     if op == 0x46 {
        1
    } else     if op == 0x47 {
        1
    } else     if op == 0x49 {
        1
    } else     if op == 0x4C {
        2
    } else     if op == 0x4D {
        2
    } else     if op == 0x4E {
        2
    } else     if op == 0x4F {
        if t == CpuType::NMOS6502 {
            1
        } else {
            2
        }
    } else {
        0
    }
}

/// Operand bytes consumed for opcodes 0x50-0x5F.
pub open spec fn spec_consumed_x5(op: u8, t: CpuType) -> int {
    if op == 0x50 {
        1
    } else     if op == 0x51 {
        1
    } else     if op == 0x52 {
        1
    } else     if op == 0x54 {
        1
    } else     if op == 0x55 {
        1
    } else     if op == 0x56 {
        1
    } else     if op == 0x57 {
        1
    } else     if op == 0x59 {
        2
    } else     if op == 0x5C {
        2
    } else     if op == 0x5D {
        2
    } else     if op == 0x5E {
        2
    } else     if op == 0x5F {
        if t == CpuType::NMOS6502 {
            1
        } else {
            2
        }
    } else {
        0
    }
}

/// Operand bytes consumed for opcodes 0x60-0x6F.
pub open spec fn spec_consumed_x6(op: u8, t: CpuType) -> int {
    if op == 0x61 {
        1
    } else     if op == 0x62 {
        1
    } else     if op == 0x64 {
        1
    } else     if op == 0x65 {
        1
    } else     if op == 0x66 {
        1
    } else     if op == 0x67 {
        1
    } else     if op == 0x69 {
        1
    } else     if op == 0x6C {
        2
    } else     if op == 0x6D {
        2
    } else     if op == 0x6E {
        2
    } else     if op == 0x6F {
        if t == CpuType::NMOS6502 {
            1
        } else {
            2
        }
    } else {
        0
    }
}

/// Operand bytes consumed for opcodes 0x70-0x7F.
pub open spec fn spec_consumed_x7(op: u8, t: CpuType) -> int {
    if op == 0x70 {
        1
    } else     if op == 0x71 {
        1
    } else     if op == 0x72 {
        1
    } else     if op == 0x74 {
        1
    } else     if op == 0x75 {
        1
    } else     if op == 0x76 {
        1
    } else     if op == 0x77 {
        1
    } else     if op == 0x79 {
        2
    } else     if op == 0x7C {
        2
    } else     if op == 0x7D {
        2
    } else     if op == 0x7E {
        2
    } else     if op == 0x7F {
        if t == CpuType::NMOS6502 {
            1
        } else {
            2
        }
    } else {
        0
    }
}

/// Operand bytes consumed for opcodes 0x80-0x8F.
pub open spec fn spec_consumed_x8(op: u8, t: CpuType) -> int {
    if op == 0x80 {
        1
    } else     if op == 0x81 {
        1
    } else     if op == 0x82 {
        1
    } else     if op == 0x84 {
        1
    } else     if op == 0x85 {
        1
    } else     if op == 0x86 {
        1
    } else     if op == 0x87 {
        1
    } else     if op == 0x89 {
        1
    } else     if op == 0x8C {
        2
    } else     if op == 0x8D {
        2
    } else     if op == 0x8E {
        2
    } else     if op == 0x8F {
        if t == CpuType::NMOS6502 {
            1
        } else {
            2
        }
    } else {
        0
    }
}

/// Operand bytes consumed for opcodes 0x90-0x9F.
pub open spec fn spec_consumed_x9(op: u8, t: CpuType) -> int {
    if op == 0x90 {
        1
    } else     if op == 0x91 {
        1
    } else     if op == 0x92 {
        1
    } else     if op == 0x94 {
        1
    } else     if op == 0x95 {
        1
    } else     if op == 0x96 {
        1
    } else     if op == 0x97 {
        1
    } else     if op == 0x99 {
        2
    } else     if op == 0x9C {
        2
    } else     if op == 0x9D {
        2
    } else     if op == 0x9E {
        2
    } else     if op == 0x9F {
        if t == CpuType::NMOS6502 {
            1
        } else {
            2
        }
    } else {
        0
    }
}

/// Operand bytes consumed for opcodes 0xA0-0xAF.
pub open spec fn spec_consumed_xa(op: u8, t: CpuType) -> int {
    if op == 0xA0 {
        1
    } else     if op == 0xA1 {
        1
    } else     if op == 0xA2 {
        1
    } else     if op == 0xA4 {
        1
    } else     if op == 0xA5 {
        1
    } else     if op == 0xA6 {
        1
    } else     if op == 0xA7 {
        1
    } else     if op == 0xA9 {
        1
    } else     if op == 0xAC {
        2
    } else     if op == 0xAD {
        2
    } else     if op == 0xAE {
        2
    } else     if op == 0xAF {
        if t == CpuType::NMOS6502 {
            1
        } else {
            2
        }
    } else {
        0
    }
}

/// Operand bytes consumed for opcodes 0xB0-0xBF.
pub open spec fn spec_consumed_xb(op: u8, t: CpuType) -> int {
    if op == 0xB0 {
        1
    } else     if op == 0xB1 {
        1
    } else     if op == 0xB2 {
        1
    } else     if op == 0xB4 {
        1
    } else     if op == 0xB5 {
        1
    } else     if op == 0xB6 {
        1
    } else     if op == 0xB7 {
        1
    } else     if op == 0xB9 {
        2
    } else     if op == 0xBC {
        2
    } else     if op == 0xBD {
        2
    } else     if op == 0xBE {
        2
    } else     if op == 0xBF {
        if t == CpuType::NMOS6502 {
            1
        } else {
            2
        }
    } else {
        0
    }
}

/// Operand bytes consumed for opcodes 0xC0-0xCF.
pub open spec fn spec_consumed_xc(op: u8, t: CpuType) -> int {
    if op == 0xC0 {
        1
    } else     if op == 0xC1 {
        1
    } else     if op == 0xC2 {
        1
    } else     if op == 0xC4 {
        1
    } else     if op == 0xC5 {
        1
    } else     if op == 0xC6 {
        1
    } else     if op == 0xC7 {
        1
    } else     if op == 0xC9 {
        1
    } else     if op == 0xCC {
        2
    } else     if op == 0xCD {
        2
    } else     if op == 0xCE {
        2
    } else     if op == 0xCF {
        if t == CpuType::NMOS6502 {
            1
        } else {
            2
        }
    } else {
        0
    }
}

/// Operand bytes consumed for opcodes 0xD0-0xDF.
pub open spec fn spec_consumed_xd(op: u8, t: CpuType) -> int {
    if op == 0xD0 {
        1
    } else     if op == 0xD1 {
        1
    } else     if op == 0xD2 {
        1
    } else     if op == 0xD4 {
        1
    } else     if op == 0xD5 {
        1
    } else     if op == 0xD6 {
        1
    } else     if op == 0xD7 {
        1
    } else     if op == 0xD9 {
        2
    } else     if op == 0xDC {
        2
    } else     if op == 0xDD {
        2
    } else     if op == 0xDE {
        2
    } else     if op == 0xDF {
        if t == CpuType::NMOS6502 {
            1
        } else {
            2
        }
    } else {
        0
    }
}

/// Operand bytes consumed for opcodes 0xE0-0xEF.
pub open spec fn spec_consumed_xe(op: u8, t: CpuType) -> int {
    if op == 0xE0 {
        1
    } else     if op == 0xE1 {
        1
    } else     if op == 0xE2 {
        1
    } else     if op == 0xE4 {
        1
    } else     if op == 0xE5 {
        1
    } else     if op == 0xE6 {
        1
    } else     if op == 0xE7 {
        1
    } else     if op == 0xE9 {
        1
    } else     if op == 0xEC {
        2
    } else     if op == 0xED {
        2
    } else     if op == 0xEE {
        2
    } else     if op == 0xEF {
        if t == CpuType::NMOS6502 {
            1
        } else {
            2
        }
    } else {
        0
    }
}

/// Operand bytes consumed for opcodes 0xF0-0xFF.
pub open spec fn spec_consumed_xf(op: u8, t: CpuType) -> int {
    if op == 0xF0 {
        1
    } else     if op == 0xF1 {
        1
    } else     if op == 0xF2 {
        1
    } else     if op == 0xF4 {
        1
    } else     if op == 0xF5 {
        1
    } else     if op == 0xF6 {
        1
    } else     if op == 0xF7 {
        1
    } else     if op == 0xF9 {
        2
    } else     if op == 0xFC {
        2
    } else     if op == 0xFD {
        2
    } else     if op == 0xFE {
        2
    } else     if op == 0xFF {
        if t == CpuType::NMOS6502 {
            1
        } else {
            2
        }
    } else {
        0
    }
}

/// How many operand bytes the executor consumes after the opcode byte,
/// per opcode and variant. The zero-page-indirect load and store fetch
/// their operand only on the CMOS variants.
pub open spec fn spec_consumed_operands(op: u8, t: CpuType) -> int {
    if op < 0x10 {
        spec_consumed_x0(op, t)
    } else if op < 0x20 {
        spec_consumed_x1(op, t)
    } else if op < 0x30 {
        spec_consumed_x2(op, t)
    } else if op < 0x40 {
        spec_consumed_x3(op, t)
    } else if op < 0x50 {
        spec_consumed_x4(op, t)
    } else if op < 0x60 {
        spec_consumed_x5(op, t)
    } else if op < 0x70 {
        spec_consumed_x6(op, t)
    } else if op < 0x80 {
        spec_consumed_x7(op, t)
    } else if op < 0x90 {
        spec_consumed_x8(op, t)
    } else if op < 0xA0 {
        spec_consumed_x9(op, t)
    } else if op < 0xB0 {
        spec_consumed_xa(op, t)
    } else if op < 0xC0 {
        spec_consumed_xb(op, t)
    } else if op < 0xD0 {
        spec_consumed_xc(op, t)
    } else if op < 0xE0 {
        spec_consumed_xd(op, t)
    } else if op < 0xF0 {
        spec_consumed_xe(op, t)
    } else {
        spec_consumed_xf(op, t)
    }
}

/// JSR: the absolute target is fetched, the address of the last operand
/// byte (the return address minus one) is pushed high then low, and the
/// PC jumps to the target.
pub open spec fn spec_jsr(c: CpuView) -> CpuView {
    let fw = spec_bus_read_word(c.bus, c.pc);
    let pc1 = c.pc.wrapping_add(2);
    let ret = pc1.wrapping_sub(1);
    let b1 = spec_push(fw.0, c.sp, (ret >> 8) as u8);
    let sp1 = c.sp.wrapping_sub(1);
    let b2 = spec_push(b1, sp1, (ret & 0xFF) as u8);
    let sp2 = sp1.wrapping_sub(1);
    (CpuView { pc: fw.1, sp: sp2, bus: b2, ..c })
}

/// RTS: the return address is popped low then high and the PC lands one
/// byte past it - at the instruction following the JSR.
pub open spec fn spec_rts(c: CpuView) -> CpuView {
    let sp1 = c.sp.wrapping_add(1);
    let lo = spec_bus_read(c.bus, 0x0100u16 | sp1 as u16);
    let sp2 = sp1.wrapping_add(1);
    let hi = spec_bus_read(lo.0, 0x0100u16 | sp2 as u16);
    let ret = (lo.1 + hi.1 * 0x100) as u16;
    (CpuView { sp: sp2, bus: hi.0, pc: ret.wrapping_add(1), ..c })
}

/// JMP ($addr): the pointer is fetched; on the NMOS variant a pointer
/// ending in $FF reads its high byte from the start of the same page (the
/// documented wrap bug), on the CMOS variants from the next byte.
pub open spec fn spec_jmp_indirect(c: CpuView) -> CpuView {
    let fw = spec_bus_read_word(c.bus, c.pc);
    let addr = fw.1;
    let lo = spec_bus_read(fw.0, addr);
    let hi_addr: u16 = if c.cpu_type == CpuType::NMOS6502 && addr & 0x00FF == 0xFF {
        addr & 0xFF00
    } else {
        addr.wrapping_add(1)
    };
    let hi = spec_bus_read(lo.0, hi_addr);
    (CpuView { pc: ((lo.1 + hi.1 * 0x100) as u16), bus: hi.0, ..c })
}

#[verifier::opaque]
pub open spec fn spec_exec_00(c: CpuView, op: u8) -> CpuView {
    if op == 0x05 {
        let t1 = spec_take1(c);
        let addr = t1.1 as u16;
        let t2 = spec_get(t1.0, addr);
        let c3 = (CpuView { a: t2.0.a | t2.1, ..t2.0 });
        let c4 = spec_znf_cpu(c3, c3.a);
        c4
    } else if op == 0x06 {
        let t1 = spec_take1(c);
        let addr = t1.1 as u16;
        let t2 = spec_get(t1.0, addr);
        let value = t2.1;
        let t3 = spec_asl_pair(t2.0, value);
        let result = t3.1;
        let c4 = spec_put(t3.0, addr, result);
        c4
    } else if op == 0x04 {
        let t1 = spec_take1(c);
        let addr = t1.1 as u16;
        let t2 = spec_get(t1.0, addr);
        let value = t2.1;
        let c3 = spec_sf_cpu(t2.0, Flags::ZERO, (value & t2.0.a) == 0);
        let c4 = spec_put(c3, addr, value | c3.a);
        c4
    } else if op == 0x00 {
        let c1 = (CpuView { bus: (BusView { interrupts: (crate::interrupts::InterruptController { brk: true, ..c.bus.interrupts }), ..c.bus }), ..c });
        c1
    } else if op == 0x01 {
        let t1 = spec_take1(c);
        let zp_addr = t1.1.wrapping_add(t1.0.x);
        let t2 = spec_getw(t1.0, zp_addr as u16);
        let addr = t2.1;
        let t3 = spec_get(t2.0, addr);
        let value = t3.1;
        let c4 = (CpuView { a: t3.0.a | value, ..t3.0 });
        let c5 = spec_znf_cpu(c4, c4.a);
        c5
    } else if op == 0x03 {
        c
    } else if op == 0x02 {
        let c1 = (CpuView { pc: c.pc.wrapping_add(1), ..c });
        c1
    } else if op == 0x07 {
        let t1 = spec_take1(c);
        let addr = t1.1 as u16;
        let c2 = if t1.0.cpu_type != CpuType::NMOS6502 {
        let bit_n = (op >> 4) & 0b111;
        let mask = !(1u8 << bit_n);
        let t102 = spec_get(t1.0, addr);
        let value = t102.1;
        let result = value & mask;
        let c103 = spec_put(t102.0, addr, result);
        c103
    } else {
        t1.0
    };
        c2
    } else {
        c
    }
}

#[verifier::opaque]
pub open spec fn spec_exec_08(c: CpuView, op: u8) -> CpuView {
    if op == 0x08 {
        let pushed_p = (c.p | Flags::UNUSED) | Flags::BREAK;
        let c1 = spec_push_cpu(c, pushed_p);
        c1
    } else if op == 0x0D {
        let t1 = spec_take2(c);
        let addr = t1.1;
        let t2 = spec_get(t1.0, addr);
        let c3 = (CpuView { a: t2.0.a | t2.1, ..t2.0 });
        let c4 = spec_znf_cpu(c3, c3.a);
        c4
    } else if op == 0x0A {
        let a = c.a;
        let t1 = spec_asl_pair(c, a);
        let c2 = (CpuView { a: t1.1, ..t1.0 });
        c2
    } else if op == 0x0E {
        let t1 = spec_take2(c);
        let addr = t1.1;
        let t2 = spec_get(t1.0, addr);
        let value = t2.1;
        let t3 = spec_asl_pair(t2.0, value);
        let result = t3.1;
        let c4 = spec_put(t3.0, addr, result);
        c4
    } else if op == 0x0C {
        let t1 = spec_take2(c);
        let addr = t1.1;
        let t2 = spec_get(t1.0, addr);
        let value = t2.1;
        let c3 = spec_sf_cpu(t2.0, Flags::ZERO, (value & t2.0.a) == 0);
        let c4 = spec_put(c3, addr, value | c3.a);
        c4
    } else if op == 0x09 {
        let t1 = spec_take1(c);
        let value = t1.1;
        let c2 = (CpuView { a: t1.0.a | value, ..t1.0 });
        let c3 = spec_znf_cpu(c2, c2.a);
        c3
    } else if op == 0x0F {
        let t1 = spec_take1(c);
        let zp_addr = t1.1 as u16;
        let c2 = if t1.0.cpu_type != CpuType::NMOS6502 {
        let t102 = spec_take1(t1.0);
        let rel_offset = (t102.1 as i8) as i16;
        let t103 = spec_get(t102.0, zp_addr);
        let value = t103.1;
        let shift = (op.wrapping_sub(0x0F)) / 0x10;
        let bit = 1u8 << shift;
        let c104 = if (value & bit) == 0 {
        let c204 = (CpuView { pc: t103.0.pc.wrapping_add_signed(rel_offset), ..t103.0 });
        c204
    } else {
        t103.0
    };
        c104
    } else {
        t1.0
    };
        c2
    } else if op == 0x0B {
        c
    } else {
        c
    }
}

#[verifier::opaque]
pub open spec fn spec_exec_10(c: CpuView, op: u8) -> CpuView {
    if op == 0x14 {
        let t1 = spec_take1(c);
        let addr = t1.1 as u16;
        let t2 = spec_get(t1.0, addr);
        let value = t2.1;
        let c3 = spec_sf_cpu(t2.0, Flags::ZERO, (value & t2.0.a) == 0);
        let c4 = spec_put(c3, addr, value & !c3.a);
        c4
    } else if op == 0x10 {
        let t1 = spec_take1(c);
        let offset = t1.1 as i8;
        let c2 = if !(t1.0.p & Flags::NEGATIVE == Flags::NEGATIVE) {
        let c102 = (CpuView { pc: t1.0.pc.wrapping_add_signed(offset as i16), ..t1.0 });
        c102
    } else {
        t1.0
    };
        c2
    } else if op == 0x16 {
        let t1 = spec_take1(c);
        let addr = t1.1.wrapping_add(t1.0.x) as u16;
        let t2 = spec_get(t1.0, addr);
        let value = t2.1;
        let carry = value & 0x80 != 0;
        let value = value << 1;
        let c4 = spec_put(t2.0, addr, value);
        let c5 = spec_sf_cpu(c4, Flags::CARRY, carry);
        let c6 = spec_znf_cpu(c5, value);
        c6
    } else if op == 0x15 {
        let t1 = spec_take1(c);
        let addr = t1.1.wrapping_add(t1.0.x) as u16;
        let t2 = spec_get(t1.0, addr);
        let value = t2.1;
        let c3 = (CpuView { a: t2.0.a | value, ..t2.0 });
        let c4 = spec_znf_cpu(c3, c3.a);
        c4
    } else if op == 0x11 {
        let t1 = spec_take1(c);
        let zp_addr = t1.1 as u16;
        let t2 = spec_getw(t1.0, zp_addr);
        let addr = t2.1.wrapping_add(t2.0.y as u16);
        let t3 = spec_get(t2.0, addr);
        let value = t3.1;
        let c4 = (CpuView { a: t3.0.a | value, ..t3.0 });
        let c5 = spec_znf_cpu(c4, c4.a);
        c5
    } else if op == 0x13 {
        c
    } else if op == 0x17 {
        let t1 = spec_take1(c);
        let addr = t1.1 as u16;
        let c2 = if t1.0.cpu_type != CpuType::NMOS6502 {
        let bit_n = (op >> 4) & 0b111;
        let mask = !(1u8 << bit_n);
        let t102 = spec_get(t1.0, addr);
        let value = t102.1;
        let result = value & mask;
        let c103 = spec_put(t102.0, addr, result);
        c103
    } else {
        t1.0
    };
        c2
    } else if op == 0x12 {
        let t1 = spec_take1(c);
        let addr_ptr = t1.1 as u16;
        let t2 = spec_getw(t1.0, addr_ptr);
        let addr = t2.1;
        let t3 = spec_get(t2.0, addr);
        let value = t3.1;
        let c4 = (CpuView { a: t3.0.a | value, ..t3.0 });
        let c5 = spec_sf_cpu(c4, Flags::ZERO, c4.a == 0);
        let c6 = spec_sf_cpu(c5, Flags::NEGATIVE, (c5.a & 0x80) != 0);
        c6
    } else {
        c
    }
}

#[verifier::opaque]
pub open spec fn spec_exec_18(c: CpuView, op: u8) -> CpuView {
    if op == 0x1C {
        let t1 = spec_take2(c);
        let addr = t1.1;
        let t2 = spec_get(t1.0, addr);
        let value = t2.1;
        let c3 = spec_sf_cpu(t2.0, Flags::ZERO, (value & t2.0.a) == 0);
        let c4 = spec_put(c3, addr, value & !c3.a);
        c4
    } else if op == 0x18 {
        let c1 = (CpuView { p: c.p & !Flags::CARRY, ..c });
        c1
    } else if op == 0x1E {
        let t1 = spec_take2(c);
        let base_addr = t1.1;
        let addr = base_addr.wrapping_add(t1.0.x as u16);
        let t2 = spec_get(t1.0, addr);
        let value = t2.1;
        let new_carry = value & 0x80 != 0;
        let value = value << 1;
        let c4 = spec_put(t2.0, addr, value);
        let c5 = spec_sf_cpu(c4, Flags::CARRY, new_carry);
        let c6 = spec_znf_cpu(c5, value);
        c6
    } else if op == 0x1D {
        let t1 = spec_take2(c);
        let addr = t1.1.wrapping_add(t1.0.x as u16);
        let t2 = spec_get(t1.0, addr);
        let value = t2.1;
        let c3 = (CpuView { a: t2.0.a | value, ..t2.0 });
        let c4 = spec_znf_cpu(c3, c3.a);
        c4
    } else if op == 0x19 {
        let t1 = spec_take2(c);
        let addr = t1.1.wrapping_add(t1.0.y as u16);
        let t2 = spec_get(t1.0, addr);
        let value = t2.1;
        let c3 = (CpuView { a: t2.0.a | value, ..t2.0 });
        let c4 = spec_znf_cpu(c3, c3.a);
        c4
    } else if op == 0x1F {
        let t1 = spec_take1(c);
        let zp_addr = t1.1 as u16;
        let c2 = if t1.0.cpu_type != CpuType::NMOS6502 {
        let t102 = spec_take1(t1.0);
        let rel_offset = (t102.1 as i8) as i16;
        let t103 = spec_get(t102.0, zp_addr);
        let value = t103.1;
        let shift = (op.wrapping_sub(0x0F)) / 0x10;
        let bit = 1u8 << shift;
        let c104 = if (value & bit) == 0 {
        let c204 = (CpuView { pc: t103.0.pc.wrapping_add_signed(rel_offset), ..t103.0 });
        c204
    } else {
        t103.0
    };
        c104
    } else {
        t1.0
    };
        c2
    } else if op == 0x1B {
        c
    } else if op == 0x1A {
        let c1 = if c.cpu_type != CpuType::NMOS6502 {
        let c101 = (CpuView { a: c.a.wrapping_add(1), ..c });
        let c102 = spec_znf_cpu(c101, c101.a);
        c102
    } else {
        c
    };
        c1
    } else {
        c
    }
}

#[verifier::opaque]
pub open spec fn spec_exec_20(c: CpuView, op: u8) -> CpuView {
    if op == 0x25 {
        let t1 = spec_take1(c);
        let addr = t1.1 as u16;
        let t2 = spec_get(t1.0, addr);
        let c3 = (CpuView { a: t2.0.a & t2.1, ..t2.0 });
        let c4 = spec_znf_cpu(c3, c3.a);
        c4
    } else if op == 0x24 {
        let t1 = spec_take1(c);
        let addr = t1.1 as u16;
        let t2 = spec_get(t1.0, addr);
        let value = t2.1;
        let c3 = spec_bit_cpu(t2.0, value);
        c3
    } else if op == 0x26 {
        let t1 = spec_take1(c);
        let addr = t1.1 as u16;
        let t2 = spec_get(t1.0, addr);
        let value = t2.1;
        let t3 = spec_rol_pair(t2.0, value);
        let result = t3.1;
        let c4 = spec_put(t3.0, addr, result);
        c4
    } else if op == 0x20 {
        spec_jsr(c)
    } else if op == 0x21 {
        let t1 = spec_take1(c);
        let zp_addr = t1.1.wrapping_add(t1.0.x);
        let t2 = spec_getw(t1.0, zp_addr as u16);
        let addr = t2.1;
        let t3 = spec_get(t2.0, addr);
        let value = t3.1;
        let c4 = (CpuView { a: t3.0.a & value, ..t3.0 });
        let c5 = spec_znf_cpu(c4, c4.a);
        c5
    } else if op == 0x23 {
        c
    } else if op == 0x22 {
        let c1 = (CpuView { pc: c.pc.wrapping_add(1), ..c });
        c1
    } else if op == 0x27 {
        let t1 = spec_take1(c);
        let addr = t1.1 as u16;
        let c2 = if t1.0.cpu_type != CpuType::NMOS6502 {
        let bit_n = (op >> 4) & 0b111;
        let mask = !(1u8 << bit_n);
        let t102 = spec_get(t1.0, addr);
        let value = t102.1;
        let result = value & mask;
        let c103 = spec_put(t102.0, addr, result);
        c103
    } else {
        t1.0
    };
        c2
    } else {
        c
    }
}

#[verifier::opaque]
pub open spec fn spec_exec_28(c: CpuView, op: u8) -> CpuView {
    if op == 0x29 {
        let t1 = spec_take1(c);
        let value = t1.1;
        let c2 = (CpuView { a: t1.0.a & value, ..t1.0 });
        let c3 = spec_znf_cpu(c2, c2.a);
        c3
    } else if op == 0x2D {
        let t1 = spec_take2(c);
        let addr = t1.1;
        let t2 = spec_get(t1.0, addr);
        let c3 = (CpuView { a: t2.0.a & t2.1, ..t2.0 });
        let c4 = spec_znf_cpu(c3, c3.a);
        c4
    } else if op == 0x2C {
        let t1 = spec_take2(c);
        let addr = t1.1;
        let t2 = spec_get(t1.0, addr);
        let value = t2.1;
        let c3 = spec_bit_cpu(t2.0, value);
        c3
    } else if op == 0x2A {
        let a = c.a;
        let t1 = spec_rol_pair(c, a);
        let c2 = (CpuView { a: t1.1, ..t1.0 });
        c2
    } else if op == 0x2E {
        let t1 = spec_take2(c);
        let addr = t1.1;
        let t2 = spec_get(t1.0, addr);
        let value = t2.1;
        let t3 = spec_rol_pair(t2.0, value);
        let result = t3.1;
        let c4 = spec_put(t3.0, addr, result);
        c4
    } else if op == 0x28 {
        let t1 = spec_pop_cpu(c);
        let popped = t1.1;
        let restored_p = popped;
        let restored_p = restored_p | Flags::UNUSED;
        let restored_p = restored_p & !Flags::BREAK;
        let c4 = (CpuView { p: restored_p, ..t1.0 });
        c4
    } else if op == 0x2F {
        let t1 = spec_take1(c);
        let zp_addr = t1.1 as u16;
        let c2 = if t1.0.cpu_type != CpuType::NMOS6502 {
        let t102 = spec_take1(t1.0);
        let rel_offset = (t102.1 as i8) as i16;
        let t103 = spec_get(t102.0, zp_addr);
        let value = t103.1;
        let shift = (op.wrapping_sub(0x0F)) / 0x10;
        let bit = 1u8 << shift;
        let c104 = if (value & bit) == 0 {
        let c204 = (CpuView { pc: t103.0.pc.wrapping_add_signed(rel_offset), ..t103.0 });
        c204
    } else {
        t103.0
    };
        c104
    } else {
        t1.0
    };
        c2
    } else if op == 0x2B {
        c
    } else {
        c
    }
}

#[verifier::opaque]
pub open spec fn spec_exec_30(c: CpuView, op: u8) -> CpuView {
    if op == 0x34 {
        let t1 = spec_take1(c);
        let addr = t1.1.wrapping_add(t1.0.x) as u16;
        let t2 = spec_get(t1.0, addr);
        let value = t2.1;
        let c3 = spec_bit_cpu(t2.0, value);
        c3
    } else if op == 0x30 {
        let t1 = spec_take1(c);
        let offset = t1.1 as i8;
        let c2 = if t1.0.p & Flags::NEGATIVE == Flags::NEGATIVE {
        let c102 = (CpuView { pc: t1.0.pc.wrapping_add(offset as u16), ..t1.0 });
        c102
    } else {
        t1.0
    };
        c2
    } else if op == 0x36 {
        let t1 = spec_take1(c);
        let addr = t1.1.wrapping_add(t1.0.x) as u16;
        let t2 = spec_get(t1.0, addr);
        let value = t2.1;
        let old_carry = t2.0.p & Flags::CARRY == Flags::CARRY;
        let new_carry = value & 0x80 != 0;
        let value = (value << 1) | (if old_carry {
                    1
                } else {
                    0
                });
        let c4 = spec_put(t2.0, addr, value);
        let c5 = spec_sf_cpu(c4, Flags::CARRY, new_carry);
        let c6 = spec_znf_cpu(c5, value);
        c6
    } else if op == 0x35 {
        let t1 = spec_take1(c);
        let addr = t1.1.wrapping_add(t1.0.x);
        let t2 = spec_get(t1.0, addr as u16);
        let value = t2.1;
        let c3 = (CpuView { a: t2.0.a & value, ..t2.0 });
        let c4 = spec_znf_cpu(c3, c3.a);
        c4
    } else if op == 0x31 {
        let t1 = spec_take1(c);
        let zp_addr = t1.1 as u16;
        let t2 = spec_getw(t1.0, zp_addr);
        let base_addr = t2.1;
        let addr = base_addr.wrapping_add(t2.0.y as u16);
        let t3 = spec_get(t2.0, addr);
        let value = t3.1;
        let c4 = (CpuView { a: t3.0.a & value, ..t3.0 });
        let c5 = spec_znf_cpu(c4, c4.a);
        c5
    } else if op == 0x33 {
        c
    } else if op == 0x37 {
        let t1 = spec_take1(c);
        let addr = t1.1 as u16;
        let c2 = if t1.0.cpu_type != CpuType::NMOS6502 {
        let bit_n = (op >> 4) & 0b111;
        let mask = !(1u8 << bit_n);
        let t102 = spec_get(t1.0, addr);
        let value = t102.1;
        let result = value & mask;
        let c103 = spec_put(t102.0, addr, result);
        c103
    } else {
        t1.0
    };
        c2
    } else if op == 0x32 {
        let t1 = spec_take1(c);
        let addr_ptr = t1.1 as u16;
        let t2 = spec_getw(t1.0, addr_ptr);
        let addr = t2.1;
        let t3 = spec_get(t2.0, addr);
        let value = t3.1;
        let c4 = (CpuView { a: t3.0.a & value, ..t3.0 });
        let c5 = spec_sf_cpu(c4, Flags::ZERO, c4.a == 0);
        let c6 = spec_sf_cpu(c5, Flags::NEGATIVE, (c5.a & 0x80) != 0);
        c6
    } else {
        c
    }
}

#[verifier::opaque]
pub open spec fn spec_exec_38(c: CpuView, op: u8) -> CpuView {
    if op == 0x3C {
        let t1 = spec_take2(c);
        let addr = t1.1.wrapping_add(t1.0.x as u16);
        let t2 = spec_get(t1.0, addr);
        let value = t2.1;
        let c3 = spec_bit_cpu(t2.0, value);
        c3
    } else if op == 0x38 {
        let c1 = (CpuView { p: c.p | Flags::CARRY, ..c });
        c1
    } else if op == 0x3E {
        let t1 = spec_take2(c);
        let base_addr = t1.1;
        let addr = base_addr.wrapping_add(t1.0.x as u16);
        let t2 = spec_get(t1.0, addr);
        let value = t2.1;
        let new_carry = (value & 0x80) != 0;
        let value = (value << 1) | (if t2.0.p & Flags::CARRY == Flags::CARRY {
                    1
                } else {
                    0
                });
        let c4 = spec_put(t2.0, addr, value);
        let c5 = spec_sf_cpu(c4, Flags::CARRY, new_carry);
        let c6 = spec_znf_cpu(c5, value);
        c6
    } else if op == 0x3D {
        let t1 = spec_take2(c);
        let addr = t1.1.wrapping_add(t1.0.x as u16);
        let t2 = spec_get(t1.0, addr);
        let value = t2.1;
        let c3 = (CpuView { a: t2.0.a & value, ..t2.0 });
        let c4 = spec_znf_cpu(c3, c3.a);
        c4
    } else if op == 0x39 {
        let t1 = spec_take2(c);
        let addr = t1.1.wrapping_add(t1.0.y as u16);
        let t2 = spec_get(t1.0, addr);
        let value = t2.1;
        let c3 = (CpuView { a: t2.0.a & value, ..t2.0 });
        let c4 = spec_znf_cpu(c3, c3.a);
        c4
    } else if op == 0x3F {
        let t1 = spec_take1(c);
        let zp_addr = t1.1 as u16;
        let c2 = if t1.0.cpu_type != CpuType::NMOS6502 {
        let t102 = spec_take1(t1.0);
        let rel_offset = (t102.1 as i8) as i16;
        let t103 = spec_get(t102.0, zp_addr);
        let value = t103.1;
        let shift = (op.wrapping_sub(0x0F)) / 0x10;
        let bit = 1u8 << shift;
        let c104 = if (value & bit) == 0 {
        let c204 = (CpuView { pc: t103.0.pc.wrapping_add_signed(rel_offset), ..t103.0 });
        c204
    } else {
        t103.0
    };
        c104
    } else {
        t1.0
    };
        c2
    } else if op == 0x3B {
        c
    } else if op == 0x3A {
        let c1 = if c.cpu_type != CpuType::NMOS6502 {
        let c101 = (CpuView { a: c.a.wrapping_sub(1), ..c });
        let c102 = spec_znf_cpu(c101, c101.a);
        c102
    } else {
        c
    };
        c1
    } else {
        c
    }
}

#[verifier::opaque]
pub open spec fn spec_exec_40(c: CpuView, op: u8) -> CpuView {
    if op == 0x45 {
        let t1 = spec_take1(c);
        let addr = t1.1 as u16;
        let t2 = spec_get(t1.0, addr);
        let c3 = (CpuView { a: t2.0.a ^ t2.1, ..t2.0 });
        let c4 = spec_znf_cpu(c3, c3.a);
        c4
    } else if op == 0x46 {
        let t1 = spec_take1(c);
        let addr = t1.1 as u16;
        let t2 = spec_get(t1.0, addr);
        let value = t2.1;
        let t3 = spec_lsr_pair(t2.0, value);
        let result = t3.1;
        let c4 = spec_put(t3.0, addr, result);
        c4
    } else if op == 0x40 {
        let t1 = spec_pop_cpu(c);
        let restored_p = t1.1;
        let restored_p = restored_p | Flags::UNUSED;
        let restored_p = restored_p & !Flags::BREAK;
        let c4 = (CpuView { p: restored_p, ..t1.0 });
        let t5 = spec_pop_cpu(c4);
        let lo = t5.1 as u16;
        let t6 = spec_pop_cpu(t5.0);
        let hi = t6.1 as u16;
        let c7 = (CpuView { pc: (hi << 8) | lo, ..t6.0 });
        c7
    } else if op == 0x41 {
        let t1 = spec_take1(c);
        let zero_page_addr = t1.1.wrapping_add(t1.0.x);
        let t2 = spec_getw(t1.0, zero_page_addr as u16);
        let addr = t2.1;
        let t3 = spec_get(t2.0, addr);
        let value = t3.1;
        let c4 = (CpuView { a: t3.0.a ^ value, ..t3.0 });
        let c5 = spec_znf_cpu(c4, c4.a);
        c5
    } else if op == 0x43 {
        c
    } else if op == 0x42 {
        let c1 = (CpuView { pc: c.pc.wrapping_add(1), ..c });
        c1
    } else if op == 0x44 {
        let c1 = (CpuView { pc: c.pc.wrapping_add(1), ..c });
        c1
    } else if op == 0x47 {
        let t1 = spec_take1(c);
        let addr = t1.1 as u16;
        let c2 = if t1.0.cpu_type != CpuType::NMOS6502 {
        let bit_n = (op >> 4) & 0b111;
        let mask = !(1u8 << bit_n);
        let t102 = spec_get(t1.0, addr);
        let value = t102.1;
        let result = value & mask;
        let c103 = spec_put(t102.0, addr, result);
        c103
    } else {
        t1.0
    };
        c2
    } else {
        c
    }
}

#[verifier::opaque]
pub open spec fn spec_exec_48(c: CpuView, op: u8) -> CpuView {
    if op == 0x49 {
        let t1 = spec_take1(c);
        let value = t1.1;
        let c2 = (CpuView { a: t1.0.a ^ value, ..t1.0 });
        let c3 = spec_znf_cpu(c2, c2.a);
        c3
    } else if op == 0x4D {
        let t1 = spec_take2(c);
        let addr = t1.1;
        let t2 = spec_get(t1.0, addr);
        let c3 = (CpuView { a: t2.0.a ^ t2.1, ..t2.0 });
        let c4 = spec_znf_cpu(c3, c3.a);
        c4
    } else if op == 0x4A {
        let a = c.a;
        let t1 = spec_lsr_pair(c, a);
        let c2 = (CpuView { a: t1.1, ..t1.0 });
        c2
    } else if op == 0x4E {
        let t1 = spec_take2(c);
        let addr = t1.1;
        let t2 = spec_get(t1.0, addr);
        let value = t2.1;
        let t3 = spec_lsr_pair(t2.0, value);
        let result = t3.1;
        let c4 = spec_put(t3.0, addr, result);
        c4
    } else if op == 0x4C {
        let t1 = spec_take2(c);
        let target = t1.1;
        let c2 = (CpuView { pc: target, ..t1.0 });
        c2
    } else if op == 0x48 {
        let a = c.a;
        let c1 = spec_push_cpu(c, a);
        c1
    } else if op == 0x4F {
        let t1 = spec_take1(c);
        let zp_addr = t1.1 as u16;
        let c2 = if t1.0.cpu_type != CpuType::NMOS6502 {
        let t102 = spec_take1(t1.0);
        let rel_offset = (t102.1 as i8) as i16;
        let t103 = spec_get(t102.0, zp_addr);
        let value = t103.1;
        let shift = (op.wrapping_sub(0x0F)) / 0x10;
        let bit = 1u8 << shift;
        let c104 = if (value & bit) == 0 {
        let c204 = (CpuView { pc: t103.0.pc.wrapping_add_signed(rel_offset), ..t103.0 });
        c204
    } else {
        t103.0
    };
        c104
    } else {
        t1.0
    };
        c2
    } else if op == 0x4B {
        c
    } else {
        c
    }
}

#[verifier::opaque]
pub open spec fn spec_exec_50(c: CpuView, op: u8) -> CpuView {
    if op == 0x50 {
        let t1 = spec_take1(c);
        let offset = t1.1 as i8;
        let c2 = if !(t1.0.p & Flags::OVERFLOW == Flags::OVERFLOW) {
        let c102 = (CpuView { pc: t1.0.pc.wrapping_add(offset as u16), ..t1.0 });
        c102
    } else {
        t1.0
    };
        c2
    } else if op == 0x56 {
        let t1 = spec_take1(c);
        let addr = t1.1.wrapping_add(t1.0.x) as u16;
        let t2 = spec_get(t1.0, addr);
        let value = t2.1;
        let carry = value & 0x01 != 0;
        let value = value >> 1;
        let c4 = spec_put(t2.0, addr, value);
        let c5 = spec_sf_cpu(c4, Flags::CARRY, carry);
        let c6 = spec_znf_cpu(c5, value);
        c6
    } else if op == 0x55 {
        let t1 = spec_take1(c);
        let zp_addr = t1.1.wrapping_add(t1.0.x) as u16;
        let t2 = spec_get(t1.0, zp_addr);
        let value = t2.1;
        let c3 = (CpuView { a: t2.0.a ^ value, ..t2.0 });
        let c4 = spec_znf_cpu(c3, c3.a);
        c4
    } else if op == 0x51 {
        let t1 = spec_take1(c);
        let zero_page_addr = t1.1 as u16;
        let t2 = spec_getw(t1.0, zero_page_addr);
        let base_addr = t2.1;
        let addr = base_addr.wrapping_add(t2.0.y as u16);
        let t3 = spec_get(t2.0, addr);
        let value = t3.1;
        let c4 = (CpuView { a: t3.0.a ^ value, ..t3.0 });
        let c5 = spec_znf_cpu(c4, c4.a);
        c5
    } else if op == 0x53 {
        c
    } else if op == 0x54 {
        let c1 = (CpuView { pc: c.pc.wrapping_add(1), ..c });
        c1
    } else if op == 0x57 {
        let t1 = spec_take1(c);
        let addr = t1.1 as u16;
        let c2 = if t1.0.cpu_type != CpuType::NMOS6502 {
        let bit_n = (op >> 4) & 0b111;
        let mask = !(1u8 << bit_n);
        let t102 = spec_get(t1.0, addr);
        let value = t102.1;
        let result = value & mask;
        let c103 = spec_put(t102.0, addr, result);
        c103
    } else {
        t1.0
    };
        c2
    } else if op == 0x52 {
        let t1 = spec_take1(c);
        let addr_ptr = t1.1 as u16;
        let t2 = spec_getw(t1.0, addr_ptr);
        let addr = t2.1;
        let t3 = spec_get(t2.0, addr);
        let value = t3.1;
        let c4 = (CpuView { a: t3.0.a ^ value, ..t3.0 });
        let c5 = spec_sf_cpu(c4, Flags::ZERO, c4.a == 0);
        let c6 = spec_sf_cpu(c5, Flags::NEGATIVE, (c5.a & 0x80) != 0);
        c6
    } else {
        c
    }
}

#[verifier::opaque]
pub open spec fn spec_exec_58(c: CpuView, op: u8) -> CpuView {
    if op == 0x5A {
        let y = c.y;
        let c1 = spec_push_cpu(c, y);
        c1
    } else if op == 0x58 {
        let c1 = (CpuView { p: c.p & !Flags::IRQ_DISABLE, ..c });
        c1
    } else if op == 0x5E {
        let t1 = spec_take2(c);
        let base_addr = t1.1;
        let addr = base_addr.wrapping_add(t1.0.x as u16);
        let t2 = spec_get(t1.0, addr);
        let value = t2.1;
        let new_carry = value & 0x01 != 0;
        let value = value >> 1;
        let c4 = spec_put(t2.0, addr, value);
        let c5 = spec_sf_cpu(c4, Flags::CARRY, new_carry);
        let c6 = spec_znf_cpu(c5, value);
        c6
    } else if op == 0x5D {
        let t1 = spec_take2(c);
        let base_addr = t1.1;
        let addr = base_addr.wrapping_add(t1.0.x as u16);
        let t2 = spec_get(t1.0, addr);
        let value = t2.1;
        let c3 = (CpuView { a: t2.0.a ^ value, ..t2.0 });
        let c4 = spec_znf_cpu(c3, c3.a);
        c4
    } else if op == 0x59 {
        let t1 = spec_take2(c);
        let base_addr = t1.1;
        let addr = base_addr.wrapping_add(t1.0.y as u16);
        let t2 = spec_get(t1.0, addr);
        let value = t2.1;
        let c3 = (CpuView { a: t2.0.a ^ value, ..t2.0 });
        let c4 = spec_znf_cpu(c3, c3.a);
        c4
    } else if op == 0x5F {
        let t1 = spec_take1(c);
        let zp_addr = t1.1 as u16;
        let c2 = if t1.0.cpu_type != CpuType::NMOS6502 {
        let t102 = spec_take1(t1.0);
        let rel_offset = (t102.1 as i8) as i16;
        let t103 = spec_get(t102.0, zp_addr);
        let value = t103.1;
        let shift = (op.wrapping_sub(0x0F)) / 0x10;
        let bit = 1u8 << shift;
        let c104 = if (value & bit) == 0 {
        let c204 = (CpuView { pc: t103.0.pc.wrapping_add_signed(rel_offset), ..t103.0 });
        c204
    } else {
        t103.0
    };
        c104
    } else {
        t1.0
    };
        c2
    } else if op == 0x5B {
        c
    } else if op == 0x5C {
        let c1 = (CpuView { pc: c.pc.wrapping_add(2), ..c });
        c1
    } else {
        c
    }
}

#[verifier::opaque]
pub open spec fn spec_exec_60(c: CpuView, op: u8) -> CpuView {
    if op == 0x65 {
        let t1 = spec_take1(c);
        let addr = t1.1 as u16;
        let t2 = spec_get(t1.0, addr);
        let value = t2.1;
        let c3 = spec_adc_cpu(t2.0, value);
        c3
    } else if op == 0x66 {
        let t1 = spec_take1(c);
        let addr = t1.1 as u16;
        let t2 = spec_get(t1.0, addr);
        let value = t2.1;
        let t3 = spec_ror_pair(t2.0, value);
        let result = t3.1;
        let c4 = spec_put(t3.0, addr, result);
        c4
    } else if op == 0x60 {
        spec_rts(c)
    } else if op == 0x64 {
        let t1 = spec_take1(c);
        let addr = t1.1 as u16;
        let c2 = spec_put(t1.0, addr, 0x00);
        c2
    } else if op == 0x61 {
        let t1 = spec_ind_x(c);
        let addr = t1.1;
        let t2 = spec_get(t1.0, addr);
        let value = t2.1;
        let c3 = spec_adc_cpu(t2.0, value);
        c3
    } else if op == 0x63 {
        c
    } else if op == 0x62 {
        let c1 = (CpuView { pc: c.pc.wrapping_add(1), ..c });
        c1
    } else if op == 0x67 {
        let t1 = spec_take1(c);
        let addr = t1.1 as u16;
        let c2 = if t1.0.cpu_type != CpuType::NMOS6502 {
        let bit_n = (op >> 4) & 0b111;
        let mask = !(1u8 << bit_n);
        let t102 = spec_get(t1.0, addr);
        let value = t102.1;
        let result = value & mask;
        let c103 = spec_put(t102.0, addr, result);
        c103
    } else {
        t1.0
    };
        c2
    } else {
        c
    }
}

#[verifier::opaque]
pub open spec fn spec_exec_68(c: CpuView, op: u8) -> CpuView {
    if op == 0x69 {
        let t1 = spec_take1(c);
        let value = t1.1;
        let c2 = spec_adc_cpu(t1.0, value);
        c2
    } else if op == 0x6D {
        let t1 = spec_take2(c);
        let addr = t1.1;
        let t2 = spec_get(t1.0, addr);
        let value = t2.1;
        let c3 = spec_adc_cpu(t2.0, value);
        c3
    } else if op == 0x6A {
        let a = c.a;
        let t1 = spec_ror_pair(c, a);
        let c2 = (CpuView { a: t1.1, ..t1.0 });
        c2
    } else if op == 0x6E {
        let t1 = spec_take2(c);
        let addr = t1.1;
        let t2 = spec_get(t1.0, addr);
        let value = t2.1;
        let t3 = spec_ror_pair(t2.0, value);
        let result = t3.1;
        let c4 = spec_put(t3.0, addr, result);
        c4
    } else if op == 0x6C {
        spec_jmp_indirect(c)
    } else if op == 0x68 {
        let t1 = spec_pop_cpu(c);
        let c2 = (CpuView { a: t1.1, ..t1.0 });
        let c3 = spec_znf_cpu(c2, c2.a);
        c3
    } else if op == 0x6F {
        let t1 = spec_take1(c);
        let zp_addr = t1.1 as u16;
        let c2 = if t1.0.cpu_type != CpuType::NMOS6502 {
        let t102 = spec_take1(t1.0);
        let rel_offset = (t102.1 as i8) as i16;
        let t103 = spec_get(t102.0, zp_addr);
        let value = t103.1;
        let shift = (op.wrapping_sub(0x0F)) / 0x10;
        let bit = 1u8 << shift;
        let c104 = if (value & bit) == 0 {
        let c204 = (CpuView { pc: t103.0.pc.wrapping_add_signed(rel_offset), ..t103.0 });
        c204
    } else {
        t103.0
    };
        c104
    } else {
        t1.0
    };
        c2
    } else if op == 0x6B {
        c
    } else {
        c
    }
}

#[verifier::opaque]
pub open spec fn spec_exec_70(c: CpuView, op: u8) -> CpuView {
    if op == 0x74 {
        let t1 = spec_take1(c);
        let addr = ((t1.1 as u16 + t1.0.x as u16) as u16) & 0xFF;
        let c2 = spec_put(t1.0, addr, 0x00);
        c2
    } else if op == 0x70 {
        let t1 = spec_take1(c);
        let offset = t1.1 as i8;
        let c2 = if t1.0.p & Flags::OVERFLOW == Flags::OVERFLOW {
        let c102 = (CpuView { pc: t1.0.pc.wrapping_add(offset as u16), ..t1.0 });
        c102
    } else {
        t1.0
    };
        c2
    } else if op == 0x76 {
        let t1 = spec_take1(c);
        let addr = t1.1.wrapping_add(t1.0.x) as u16;
        let t2 = spec_get(t1.0, addr);
        let value = t2.1;
        let old_carry = t2.0.p & Flags::CARRY == Flags::CARRY;
        let new_carry = value & 0x01 != 0;
        let value = (value >> 1) | (if old_carry {
                    0x80
                } else {
                    0
                });
        let c4 = spec_put(t2.0, addr, value);
        let c5 = spec_sf_cpu(c4, Flags::CARRY, new_carry);
        let c6 = spec_znf_cpu(c5, value);
        c6
    } else if op == 0x75 {
        let t1 = spec_take1(c);
        let zp_addr = t1.1.wrapping_add(t1.0.x) as u16;
        let t2 = spec_get(t1.0, zp_addr);
        let value = t2.1;
        let c3 = spec_adc_cpu(t2.0, value);
        c3
    } else if op == 0x71 {
        let t1 = spec_ind_y(c);
        let addr = t1.1;
        let t2 = spec_get(t1.0, addr);
        let value = t2.1;
        let c3 = spec_adc_cpu(t2.0, value);
        c3
    } else if op == 0x73 {
        c
    } else if op == 0x77 {
        let t1 = spec_take1(c);
        let addr = t1.1 as u16;
        let c2 = if t1.0.cpu_type != CpuType::NMOS6502 {
        let bit_n = (op >> 4) & 0b111;
        let mask = !(1u8 << bit_n);
        let t102 = spec_get(t1.0, addr);
        let value = t102.1;
        let result = value & mask;
        let c103 = spec_put(t102.0, addr, result);
        c103
    } else {
        t1.0
    };
        c2
    } else if op == 0x72 {
        let t1 = spec_take1(c);
        let addr_ptr = t1.1 as u16;
        let t2 = spec_getw(t1.0, addr_ptr);
        let addr = t2.1;
        let t3 = spec_get(t2.0, addr);
        let value = t3.1;
        let c4 = spec_adc_cpu(t3.0, value);
        c4
    } else {
        c
    }
}

#[verifier::opaque]
pub open spec fn spec_exec_78(c: CpuView, op: u8) -> CpuView {
    if op == 0x7A {
        let t1 = spec_pop_cpu(c);
        let c2 = (CpuView { y: t1.1, ..t1.0 });
        let c3 = if c2.cpu_type == CpuType::CMOS65C02 || c2.cpu_type == CpuType::WDC65C02S {
        let y = c2.y;
        let c103 = spec_znf_cpu(c2, y);
        c103
    } else {
        c2
    };
        c3
    } else if op == 0x78 {
        let c1 = (CpuView { p: c.p | Flags::IRQ_DISABLE, ..c });
        c1
    } else if op == 0x7E {
        let t1 = spec_take2(c);
        let base_addr = t1.1;
        let addr = base_addr.wrapping_add(t1.0.x as u16);
        let t2 = spec_get(t1.0, addr);
        let value = t2.1;
        let new_carry = (value & 0x01) != 0;
        let value = (value >> 1) | ((if t2.0.p & Flags::CARRY == Flags::CARRY {
                    1u8
                } else {
                    0u8
                }) << 7);
        let c4 = spec_put(t2.0, addr, value);
        let c5 = spec_sf_cpu(c4, Flags::CARRY, new_carry);
        let c6 = spec_znf_cpu(c5, value);
        c6
    } else if op == 0x7D {
        let t1 = spec_take2(c);
        let base_addr = t1.1;
        let addr = base_addr.wrapping_add(t1.0.x as u16);
        let t2 = spec_get(t1.0, addr);
        let value = t2.1;
        let c3 = spec_adc_cpu(t2.0, value);
        c3
    } else if op == 0x79 {
        let t1 = spec_take2(c);
        let addr = t1.1.wrapping_add(t1.0.y as u16);
        let t2 = spec_get(t1.0, addr);
        let value = t2.1;
        let c3 = spec_adc_cpu(t2.0, value);
        c3
    } else if op == 0x7F {
        let t1 = spec_take1(c);
        let zp_addr = t1.1 as u16;
        let c2 = if t1.0.cpu_type != CpuType::NMOS6502 {
        let t102 = spec_take1(t1.0);
        let rel_offset = (t102.1 as i8) as i16;
        let t103 = spec_get(t102.0, zp_addr);
        let value = t103.1;
        let shift = (op.wrapping_sub(0x0F)) / 0x10;
        let bit = 1u8 << shift;
        let c104 = if (value & bit) == 0 {
        let c204 = (CpuView { pc: t103.0.pc.wrapping_add_signed(rel_offset), ..t103.0 });
        c204
    } else {
        t103.0
    };
        c104
    } else {
        t1.0
    };
        c2
    } else if op == 0x7C {
        let t1 = spec_take2(c);
        let base = t1.1;
        let addr = base.wrapping_add(t1.0.x as u16);
        let t2 = spec_get(t1.0, addr);
        let lo = t2.1 as u16;
        let t3 = spec_get(t2.0, addr.wrapping_add(1));
        let hi = t3.1 as u16;
        let c4 = (CpuView { pc: (hi << 8) | lo, ..t3.0 });
        c4
    } else if op == 0x7B {
        c
    } else {
        c
    }
}

#[verifier::opaque]
pub open spec fn spec_exec_80(c: CpuView, op: u8) -> CpuView {
    if op == 0x85 {
        let t1 = spec_take1(c);
        let addr = t1.1 as u16;
        let c2 = spec_put(t1.0, addr, t1.0.a);
        c2
    } else if op == 0x86 {
        let t1 = spec_take1(c);
        let addr = t1.1 as u16;
        let c2 = spec_put(t1.0, addr, t1.0.x);
        c2
    } else if op == 0x84 {
        let t1 = spec_take1(c);
        let addr = t1.1 as u16;
        let c2 = spec_put(t1.0, addr, t1.0.y);
        c2
    } else if op == 0x80 {
        let t1 = spec_take1(c);
        let offset = t1.1 as i8;
        let c2 = (CpuView { pc: t1.0.pc.wrapping_add_signed(offset as i16), ..t1.0 });
        c2
    } else if op == 0x81 {
        let t1 = spec_take1(c);
        let base_address = t1.1;
        let zp_addr = base_address.wrapping_add(t1.0.x) & 0xFF;
        let t2 = spec_getw(t1.0, zp_addr as u16);
        let effective_address = t2.1;
        let c3 = spec_put(t2.0, effective_address, t2.0.a);
        c3
    } else if op == 0x83 {
        c
    } else if op == 0x82 {
        let c1 = (CpuView { pc: c.pc.wrapping_add(1), ..c });
        c1
    } else if op == 0x87 {
        let t1 = spec_take1(c);
        let addr = t1.1 as u16;
        let c2 = if t1.0.cpu_type != CpuType::NMOS6502 {
        let bit_n = (op >> 4) & 0b111;
        let mask = 1u8 << bit_n;
        let t102 = spec_get(t1.0, addr);
        let value = t102.1;
        let result = value | mask;
        let c103 = spec_put(t102.0, addr, result);
        c103
    } else {
        t1.0
    };
        c2
    } else {
        c
    }
}

#[verifier::opaque]
pub open spec fn spec_exec_88(c: CpuView, op: u8) -> CpuView {
    if op == 0x8D {
        let t1 = spec_take2(c);
        let addr = t1.1;
        let value = t1.0.a;
        let c2 = spec_put(t1.0, addr, value);
        c2
    } else if op == 0x8E {
        let t1 = spec_take2(c);
        let addr = t1.1;
        let c2 = spec_put(t1.0, addr, t1.0.x);
        c2
    } else if op == 0x8C {
        let t1 = spec_take2(c);
        let addr = t1.1;
        let c2 = spec_put(t1.0, addr, t1.0.y);
        c2
    } else if op == 0x89 {
        let t1 = spec_take1(c);
        let value = t1.1;
        let c2 = spec_sf_cpu(t1.0, Flags::ZERO, (t1.0.a & value) == 0);
        c2
    } else if op == 0x88 {
        let c1 = (CpuView { y: c.y.wrapping_sub(1), ..c });
        let c2 = spec_znf_cpu(c1, c1.y);
        c2
    } else if op == 0x8A {
        let c1 = (CpuView { a: c.x, ..c });
        let c2 = spec_znf_cpu(c1, c1.a);
        c2
    } else if op == 0x8F {
        let t1 = spec_take1(c);
        let zp_addr = t1.1 as u16;
        let c2 = if t1.0.cpu_type != CpuType::NMOS6502 {
        let t102 = spec_take1(t1.0);
        let rel_offset = (t102.1 as i8) as i16;
        let t103 = spec_get(t102.0, zp_addr);
        let value = t103.1;
        let shift = (op.wrapping_sub(0x8F)) / 0x10;
        let bit = 1u8 << shift;
        let c104 = if (value & bit) != 0 {
        let c204 = (CpuView { pc: t103.0.pc.wrapping_add_signed(rel_offset), ..t103.0 });
        c204
    } else {
        t103.0
    };
        c104
    } else {
        t1.0
    };
        c2
    } else if op == 0x8B {
        c
    } else {
        c
    }
}

#[verifier::opaque]
pub open spec fn spec_exec_90(c: CpuView, op: u8) -> CpuView {
    if op == 0x90 {
        let t1 = spec_take1(c);
        let offset = t1.1 as i8;
        let c2 = if !(t1.0.p & Flags::CARRY == Flags::CARRY) {
        let c102 = (CpuView { pc: t1.0.pc.wrapping_add(offset as u16), ..t1.0 });
        c102
    } else {
        t1.0
    };
        c2
    } else if op == 0x96 {
        let t1 = spec_take1(c);
        let base_addr = t1.1 as u16;
        let addr = base_addr.wrapping_add(t1.0.y as u16) & 0x00FF;
        let c2 = spec_put(t1.0, addr, t1.0.x);
        c2
    } else if op == 0x94 {
        let t1 = spec_take1(c);
        let base = t1.1;
        let addr = base.wrapping_add(t1.0.x) as u16;
        let c2 = spec_put(t1.0, addr, t1.0.y);
        c2
    } else if op == 0x95 {
        let t1 = spec_take1(c);
        let base_address = t1.1 as u16;
        let effective_address = base_address.wrapping_add(t1.0.x as u16) & 0x00FF;
        let c2 = spec_put(t1.0, effective_address, t1.0.a);
        c2
    } else if op == 0x91 {
        let t1 = spec_take1(c);
        let base_address = t1.1;
        let t2 = spec_getw(t1.0, base_address as u16 & 0xFF);
        let pointer_address = t2.1;
        let effective_address = pointer_address.wrapping_add(t2.0.y as u16);
        let c3 = spec_put(t2.0, effective_address, t2.0.a);
        c3
    } else if op == 0x93 {
        c
    } else if op == 0x92 {
        let t1 = spec_take1(c);
        let zp_addr = t1.1 as u16;
        let c2 = if t1.0.cpu_type != CpuType::NMOS6502 {
        let t102 = spec_getw(t1.0, zp_addr);
        let indirect_addr = t102.1;
        let c103 = spec_put(t102.0, indirect_addr, t102.0.a);
        c103
    } else {
        t1.0
    };
        c2
    } else if op == 0x97 {
        let t1 = spec_take1(c);
        let addr = t1.1 as u16;
        let c2 = if t1.0.cpu_type != CpuType::NMOS6502 {
        let bit_n = (op >> 4) & 0b111;
        let mask = 1u8 << bit_n;
        let t102 = spec_get(t1.0, addr);
        let value = t102.1;
        let result = value | mask;
        let c103 = spec_put(t102.0, addr, result);
        c103
    } else {
        t1.0
    };
        c2
    } else {
        c
    }
}

#[verifier::opaque]
pub open spec fn spec_exec_98(c: CpuView, op: u8) -> CpuView {
    if op == 0x9C {
        let t1 = spec_take2(c);
        let addr = t1.1;
        let c2 = spec_put(t1.0, addr, 0x00);
        c2
    } else if op == 0x9E {
        let t1 = spec_take2(c);
        let addr = t1.1.wrapping_add(t1.0.x as u16);
        let c2 = spec_put(t1.0, addr, 0x00);
        c2
    } else if op == 0x9A {
        let c1 = (CpuView { sp: c.x, ..c });
        c1
    } else if op == 0x98 {
        let c1 = (CpuView { a: c.y, ..c });
        let c2 = spec_znf_cpu(c1, c1.a);
        c2
    } else if op == 0x99 {
        let t1 = spec_take2(c);
        let base_addr = t1.1;
        let addr = base_addr.wrapping_add(t1.0.y as u16);
        let addr = if base_addr < 0x100 {
                    addr & 0xFF
                } else {
                    addr
                };
        let c2 = spec_put(t1.0, addr, t1.0.a);
        c2
    } else if op == 0x9D {
        let t1 = spec_take2(c);
        let base_addr = t1.1;
        let addr = base_addr.wrapping_add(t1.0.x as u16);
        let c2 = spec_put(t1.0, addr, t1.0.a);
        c2
    } else if op == 0x9F {
        let t1 = spec_take1(c);
        let zp_addr = t1.1 as u16;
        let c2 = if t1.0.cpu_type != CpuType::NMOS6502 {
        let t102 = spec_take1(t1.0);
        let rel_offset = (t102.1 as i8) as i16;
        let t103 = spec_get(t102.0, zp_addr);
        let value = t103.1;
        let shift = (op.wrapping_sub(0x8F)) / 0x10;
        let bit = 1u8 << shift;
        let c104 = if (value & bit) != 0 {
        let c204 = (CpuView { pc: t103.0.pc.wrapping_add_signed(rel_offset), ..t103.0 });
        c204
    } else {
        t103.0
    };
        c104
    } else {
        t1.0
    };
        c2
    } else if op == 0x9B {
        c
    } else {
        c
    }
}

#[verifier::opaque]
pub open spec fn spec_exec_a0(c: CpuView, op: u8) -> CpuView {
    if op == 0xA5 {
        let t1 = spec_take1(c);
        let addr = t1.1 as u16;
        let t2 = spec_get(t1.0, addr);
        let c3 = (CpuView { a: t2.1, ..t2.0 });
        let c4 = spec_znf_cpu(c3, c3.a);
        c4
    } else if op == 0xA2 {
        let t1 = spec_take1(c);
        let value = t1.1;
        let c2 = (CpuView { x: value, ..t1.0 });
        let c3 = spec_znf_cpu(c2, c2.x);
        c3
    } else if op == 0xA6 {
        let t1 = spec_take1(c);
        let addr = t1.1 as u16;
        let t2 = spec_get(t1.0, addr);
        let value = t2.1;
        let c3 = (CpuView { x: value, ..t2.0 });
        let c4 = spec_znf_cpu(c3, c3.x);
        c4
    } else if op == 0xA0 {
        let t1 = spec_take1(c);
        let value = t1.1;
        let c2 = (CpuView { y: value, ..t1.0 });
        let c3 = spec_znf_cpu(c2, c2.y);
        c3
    } else if op == 0xA4 {
        let t1 = spec_take1(c);
        let addr = t1.1 as u16;
        let t2 = spec_get(t1.0, addr);
        let c3 = (CpuView { y: t2.1, ..t2.0 });
        let c4 = spec_znf_cpu(c3, c3.y);
        c4
    } else if op == 0xA1 {
        let t1 = spec_take1(c);
        let base_address = t1.1;
        let zp_addr = base_address.wrapping_add(t1.0.x) & 0xFF;
        let t2 = spec_getw(t1.0, zp_addr as u16);
        let effective_address = t2.1;
        let t3 = spec_get(t2.0, effective_address);
        let c4 = (CpuView { a: t3.1, ..t3.0 });
        let c5 = spec_znf_cpu(c4, c4.a);
        c5
    } else if op == 0xA3 {
        c
    } else if op == 0xA7 {
        let t1 = spec_take1(c);
        let addr = t1.1 as u16;
        let c2 = if t1.0.cpu_type != CpuType::NMOS6502 {
        let bit_n = (op >> 4) & 0b111;
        let mask = 1u8 << bit_n;
        let t102 = spec_get(t1.0, addr);
        let value = t102.1;
        let result = value | mask;
        let c103 = spec_put(t102.0, addr, result);
        c103
    } else {
        t1.0
    };
        c2
    } else {
        c
    }
}

#[verifier::opaque]
pub open spec fn spec_exec_a8(c: CpuView, op: u8) -> CpuView {
    if op == 0xA9 {
        let t1 = spec_take1(c);
        let value = t1.1;
        let c2 = (CpuView { a: value, ..t1.0 });
        let c3 = spec_znf_cpu(c2, c2.a);
        c3
    } else if op == 0xAD {
        let t1 = spec_take2(c);
        let addr = t1.1;
        let t2 = spec_get(t1.0, addr);
        let value = t2.1;
        let c3 = (CpuView { a: value, ..t2.0 });
        let c4 = spec_znf_cpu(c3, c3.a);
        c4
    } else if op == 0xAE {
        let t1 = spec_take2(c);
        let addr = t1.1;
        let t2 = spec_get(t1.0, addr);
        let c3 = (CpuView { x: t2.1, ..t2.0 });
        let c4 = spec_znf_cpu(c3, c3.x);
        c4
    } else if op == 0xAC {
        let t1 = spec_take2(c);
        let addr = t1.1;
        let t2 = spec_get(t1.0, addr);
        let c3 = (CpuView { y: t2.1, ..t2.0 });
        let c4 = spec_znf_cpu(c3, c3.y);
        c4
    } else if op == 0xAA {
        let c1 = (CpuView { x: c.a, ..c });
        let c2 = spec_znf_cpu(c1, c1.x);
        c2
    } else if op == 0xA8 {
        let c1 = (CpuView { y: c.a, ..c });
        let c2 = spec_znf_cpu(c1, c1.y);
        c2
    } else if op == 0xAF {
        let t1 = spec_take1(c);
        let zp_addr = t1.1 as u16;
        let c2 = if t1.0.cpu_type != CpuType::NMOS6502 {
        let t102 = spec_take1(t1.0);
        let rel_offset = (t102.1 as i8) as i16;
        let t103 = spec_get(t102.0, zp_addr);
        let value = t103.1;
        let shift = (op.wrapping_sub(0x8F)) / 0x10;
        let bit = 1u8 << shift;
        let c104 = if (value & bit) != 0 {
        let c204 = (CpuView { pc: t103.0.pc.wrapping_add_signed(rel_offset), ..t103.0 });
        c204
    } else {
        t103.0
    };
        c104
    } else {
        t1.0
    };
        c2
    } else if op == 0xAB {
        c
    } else {
        c
    }
}

#[verifier::opaque]
pub open spec fn spec_exec_b0(c: CpuView, op: u8) -> CpuView {
    if op == 0xB0 {
        let t1 = spec_take1(c);
        let offset = t1.1 as i8;
        let c2 = if t1.0.p & Flags::CARRY == Flags::CARRY {
        let c102 = (CpuView { pc: t1.0.pc.wrapping_add(offset as u16), ..t1.0 });
        c102
    } else {
        t1.0
    };
        c2
    } else if op == 0xB6 {
        let t1 = spec_take1(c);
        let base_addr = t1.1 as u16;
        let addr = base_addr.wrapping_add(t1.0.y as u16) & 0x00FF;
        let t2 = spec_get(t1.0, addr);
        let value = t2.1;
        let c3 = (CpuView { x: value, ..t2.0 });
        let c4 = spec_znf_cpu(c3, c3.x);
        c4
    } else if op == 0xB4 {
        let t1 = spec_take1(c);
        let base = t1.1;
        let addr = base.wrapping_add(t1.0.x) as u16;
        let t2 = spec_get(t1.0, addr);
        let value = t2.1;
        let c3 = (CpuView { y: value, ..t2.0 });
        let c4 = spec_znf_cpu(c3, c3.y);
        c4
    } else if op == 0xB5 {
        let t1 = spec_take1(c);
        let base = t1.1;
        let addr = (base.wrapping_add(t1.0.x) & 0xFF) as u16;
        let t2 = spec_get(t1.0, addr);
        let value = t2.1;
        let c3 = (CpuView { a: value, ..t2.0 });
        let c4 = spec_znf_cpu(c3, c3.a);
        c4
    } else if op == 0xB1 {
        let t1 = spec_take1(c);
        let base_address = t1.1;
        let t2 = spec_getw(t1.0, base_address as u16 & 0xFF);
        let pointer_address = t2.1;
        let effective_address = pointer_address.wrapping_add(t2.0.y as u16);
        let t3 = spec_get(t2.0, effective_address);
        let value = t3.1;
        let c4 = (CpuView { a: value, ..t3.0 });
        let c5 = spec_znf_cpu(c4, c4.a);
        c5
    } else if op == 0xB3 {
        c
    } else if op == 0xB2 {
        let t1 = spec_take1(c);
        let zp_addr = t1.1 as u16;
        let c2 = if t1.0.cpu_type != CpuType::NMOS6502 {
        let t102 = spec_getw(t1.0, zp_addr);
        let indirect_addr = t102.1;
        let t103 = spec_get(t102.0, indirect_addr);
        let c104 = (CpuView { a: t103.1, ..t103.0 });
        let c105 = spec_znf_cpu(c104, c104.a);
        c105
    } else {
        t1.0
    };
        c2
    } else if op == 0xB7 {
        let t1 = spec_take1(c);
        let addr = t1.1 as u16;
        let c2 = if t1.0.cpu_type != CpuType::NMOS6502 {
        let bit_n = (op >> 4) & 0b111;
        let mask = 1u8 << bit_n;
        let t102 = spec_get(t1.0, addr);
        let value = t102.1;
        let result = value | mask;
        let c103 = spec_put(t102.0, addr, result);
        c103
    } else {
        t1.0
    };
        c2
    } else {
        c
    }
}

#[verifier::opaque]
pub open spec fn spec_exec_b8(c: CpuView, op: u8) -> CpuView {
    if op == 0xBC {
        let t1 = spec_take2(c);
        let addr = t1.1.wrapping_add(t1.0.x as u16);
        let t2 = spec_get(t1.0, addr);
        let c3 = (CpuView { y: t2.1, ..t2.0 });
        let c4 = spec_znf_cpu(c3, c3.y);
        c4
    } else if op == 0xBA {
        let c1 = (CpuView { x: c.sp, ..c });
        let c2 = spec_znf_cpu(c1, c1.x);
        c2
    } else if op == 0xBD {
        let t1 = spec_take2(c);
        let base_addr = t1.1;
        let addr = base_addr.wrapping_add(t1.0.x as u16);
        let t2 = spec_get(t1.0, addr);
        let value = t2.1;
        let c3 = (CpuView { a: value, ..t2.0 });
        let c4 = spec_znf_cpu(c3, c3.a);
        c4
    } else if op == 0xB8 {
        let c1 = (CpuView { p: c.p & !Flags::OVERFLOW, ..c });
        c1
    } else if op == 0xBE {
        let t1 = spec_take2(c);
        let base_addr = t1.1;
        let addr = base_addr.wrapping_add(t1.0.y as u16);
        let t2 = spec_get(t1.0, addr);
        let value = t2.1;
        let c3 = (CpuView { x: value, ..t2.0 });
        let c4 = spec_znf_cpu(c3, c3.x);
        c4
    } else if op == 0xB9 {
        let t1 = spec_take2(c);
        let base_addr = t1.1;
        let addr = base_addr.wrapping_add(t1.0.y as u16);
        let t2 = spec_get(t1.0, addr);
        let value = t2.1;
        let c3 = (CpuView { a: value, ..t2.0 });
        let c4 = spec_znf_cpu(c3, c3.a);
        c4
    } else if op == 0xBF {
        let t1 = spec_take1(c);
        let zp_addr = t1.1 as u16;
        let c2 = if t1.0.cpu_type != CpuType::NMOS6502 {
        let t102 = spec_take1(t1.0);
        let rel_offset = (t102.1 as i8) as i16;
        let t103 = spec_get(t102.0, zp_addr);
        let value = t103.1;
        let shift = (op.wrapping_sub(0x8F)) / 0x10;
        let bit = 1u8 << shift;
        let c104 = if (value & bit) != 0 {
        let c204 = (CpuView { pc: t103.0.pc.wrapping_add_signed(rel_offset), ..t103.0 });
        c204
    } else {
        t103.0
    };
        c104
    } else {
        t1.0
    };
        c2
    } else if op == 0xBB {
        c
    } else {
        c
    }
}

#[verifier::opaque]
pub open spec fn spec_exec_c0(c: CpuView, op: u8) -> CpuView {
    if op == 0xC5 {
        let t1 = spec_take1(c);
        let addr = t1.1 as u16;
        let t2 = spec_get(t1.0, addr);
        let value = t2.1;
        let a = t2.0.a;
        let c3 = spec_cmp_cpu(t2.0, a, value);
        c3
    } else if op == 0xC0 {
        let t1 = spec_take1(c);
        let value = t1.1;
        let result = t1.0.y.wrapping_sub(value);
        let c2 = spec_sf_cpu(t1.0, Flags::ZERO, t1.0.y == value);
        let c3 = spec_sf_cpu(c2, Flags::NEGATIVE, result & 0x80 != 0);
        let c4 = spec_sf_cpu(c3, Flags::CARRY, c3.y >= value);
        c4
    } else if op == 0xC4 {
        let t1 = spec_take1(c);
        let addr = t1.1 as u16;
        let t2 = spec_get(t1.0, addr);
        let value = t2.1;
        let y = t2.0.y;
        let c3 = spec_cmp_cpu(t2.0, y, value);
        c3
    } else if op == 0xC1 {
        let t1 = spec_take1(c);
        let base_addr = t1.1.wrapping_add(t1.0.x) as u16;
        let t2 = spec_getw(t1.0, base_addr);
        let addr = t2.1;
        let t3 = spec_get(t2.0, addr);
        let value = t3.1;
        let a = t3.0.a;
        let c4 = spec_cmp_cpu(t3.0, a, value);
        c4
    } else if op == 0xC6 {
        let t1 = spec_take1(c);
        let addr = t1.1 as u16;
        let t2 = spec_get(t1.0, addr);
        let value = t2.1;
        let value = value.wrapping_sub(1);
        let c4 = spec_put(t2.0, addr, value);
        let c5 = spec_znf_cpu(c4, value);
        c5
    } else if op == 0xC3 {
        c
    } else if op == 0xC2 {
        let c1 = (CpuView { pc: c.pc.wrapping_add(1), ..c });
        c1
    } else if op == 0xC7 {
        let t1 = spec_take1(c);
        let addr = t1.1 as u16;
        let c2 = if t1.0.cpu_type != CpuType::NMOS6502 {
        let bit_n = (op >> 4) & 0b111;
        let mask = 1u8 << bit_n;
        let t102 = spec_get(t1.0, addr);
        let value = t102.1;
        let result = value | mask;
        let c103 = spec_put(t102.0, addr, result);
        c103
    } else {
        t1.0
    };
        c2
    } else {
        c
    }
}

#[verifier::opaque]
pub open spec fn spec_exec_c8(c: CpuView, op: u8) -> CpuView {
    if op == 0xC9 {
        let t1 = spec_take1(c);
        let value = t1.1;
        let a = t1.0.a;
        let c2 = spec_cmp_cpu(t1.0, a, value);
        c2
    } else if op == 0xCD {
        let t1 = spec_take2(c);
        let addr = t1.1;
        let t2 = spec_get(t1.0, addr);
        let value = t2.1;
        let a = t2.0.a;
        let c3 = spec_cmp_cpu(t2.0, a, value);
        c3
    } else if op == 0xCC {
        let t1 = spec_take2(c);
        let addr = t1.1;
        let t2 = spec_get(t1.0, addr);
        let value = t2.1;
        let y = t2.0.y;
        let c3 = spec_cmp_cpu(t2.0, y, value);
        c3
    } else if op == 0xCB {
        let c1 = if c.cpu_type == CpuType::WDC65C02S {
        let c101 = (CpuView { bus: (BusView { interrupts: (crate::interrupts::InterruptController { waiting: true, ..c.bus.interrupts }), ..c.bus }), ..c });
        c101
    } else {
        c
    };
        c1
    } else if op == 0xCA {
        let c1 = (CpuView { x: c.x.wrapping_sub(1), ..c });
        let c2 = spec_znf_cpu(c1, c1.x);
        c2
    } else if op == 0xC8 {
        let c1 = (CpuView { y: c.y.wrapping_add(1), ..c });
        let c2 = spec_znf_cpu(c1, c1.y);
        c2
    } else if op == 0xCE {
        let t1 = spec_take2(c);
        let addr = t1.1;
        let t2 = spec_get(t1.0, addr);
        let value = t2.1;
        let value = value.wrapping_sub(1);
        let c4 = spec_put(t2.0, addr, value);
        let c5 = spec_znf_cpu(c4, value);
        c5
    } else if op == 0xCF {
        let t1 = spec_take1(c);
        let zp_addr = t1.1 as u16;
        let c2 = if t1.0.cpu_type != CpuType::NMOS6502 {
        let t102 = spec_take1(t1.0);
        let rel_offset = (t102.1 as i8) as i16;
        let t103 = spec_get(t102.0, zp_addr);
        let value = t103.1;
        let shift = (op.wrapping_sub(0x8F)) / 0x10;
        let bit = 1u8 << shift;
        let c104 = if (value & bit) != 0 {
        let c204 = (CpuView { pc: t103.0.pc.wrapping_add_signed(rel_offset), ..t103.0 });
        c204
    } else {
        t103.0
    };
        c104
    } else {
        t1.0
    };
        c2
    } else {
        c
    }
}

#[verifier::opaque]
pub open spec fn spec_exec_d0(c: CpuView, op: u8) -> CpuView {
    if op == 0xD0 {
        let t1 = spec_take1(c);
        let offset = t1.1 as i8;
        let c2 = if !(t1.0.p & Flags::ZERO == Flags::ZERO) {
        let c102 = (CpuView { pc: t1.0.pc.wrapping_add_signed(offset as i16), ..t1.0 });
        c102
    } else {
        t1.0
    };
        c2
    } else if op == 0xD5 {
        let t1 = spec_take1(c);
        let base = t1.1;
        let addr = (base.wrapping_add(t1.0.x) & 0xFF) as u16;
        let t2 = spec_get(t1.0, addr);
        let value = t2.1;
        let a = t2.0.a;
        let c3 = spec_cmp_cpu(t2.0, a, value);
        c3
    } else if op == 0xD1 {
        let t1 = spec_take1(c);
        let base_addr = t1.1 as u16;
        let t2 = spec_getw(t1.0, base_addr);
        let addr = t2.1.wrapping_add(t2.0.y as u16);
        let t3 = spec_get(t2.0, addr);
        let value = t3.1;
        let a = t3.0.a;
        let c4 = spec_cmp_cpu(t3.0, a, value);
        c4
    } else if op == 0xD6 {
        let t1 = spec_take1(c);
        let addr = t1.1.wrapping_add(t1.0.x) as u16;
        let t2 = spec_get(t1.0, addr);
        let value = t2.1.wrapping_sub(1);
        let c3 = spec_put(t2.0, addr, value);
        let c4 = spec_znf_cpu(c3, value);
        c4
    } else if op == 0xD3 {
        c
    } else if op == 0xD4 {
        let c1 = (CpuView { pc: c.pc.wrapping_add(1), ..c });
        c1
    } else if op == 0xD7 {
        let t1 = spec_take1(c);
        let addr = t1.1 as u16;
        let c2 = if t1.0.cpu_type != CpuType::NMOS6502 {
        let bit_n = (op >> 4) & 0b111;
        let mask = 1u8 << bit_n;
        let t102 = spec_get(t1.0, addr);
        let value = t102.1;
        let result = value | mask;
        let c103 = spec_put(t102.0, addr, result);
        c103
    } else {
        t1.0
    };
        c2
    } else if op == 0xD2 {
        let t1 = spec_take1(c);
        let addr_ptr = t1.1 as u16;
        let t2 = spec_getw(t1.0, addr_ptr);
        let addr = t2.1;
        let t3 = spec_get(t2.0, addr);
        let value = t3.1;
        let result = t3.0.a.wrapping_sub(value);
        let c4 = spec_sf_cpu(t3.0, Flags::CARRY, t3.0.a >= value);
        let c5 = spec_sf_cpu(c4, Flags::ZERO, c4.a == value);
        let c6 = spec_sf_cpu(c5, Flags::NEGATIVE, (result & 0x80) != 0);
        c6
    } else {
        c
    }
}

#[verifier::opaque]
pub open spec fn spec_exec_d8(c: CpuView, op: u8) -> CpuView {
    if op == 0xDA {
        let x = c.x;
        let c1 = spec_push_cpu(c, x);
        c1
    } else if op == 0xDB {
        let c1 = if c.cpu_type == CpuType::WDC65C02S {
        let c101 = (CpuView { bus: (BusView { interrupts: (crate::interrupts::InterruptController { halted: true, ..c.bus.interrupts }), ..c.bus }), ..c });
        c101
    } else {
        c
    };
        c1
    } else if op == 0xD8 {
        let c1 = (CpuView { p: c.p & !Flags::DECIMAL, ..c });
        c1
    } else if op == 0xD9 {
        let t1 = spec_take2(c);
        let base_addr = t1.1;
        let addr = base_addr.wrapping_add(t1.0.y as u16);
        let t2 = spec_get(t1.0, addr);
        let value = t2.1;
        let a = t2.0.a;
        let c3 = spec_cmp_cpu(t2.0, a, value);
        c3
    } else if op == 0xDD {
        let t1 = spec_take2(c);
        let base_addr = t1.1;
        let addr = base_addr.wrapping_add(t1.0.x as u16);
        let t2 = spec_get(t1.0, addr);
        let value = t2.1;
        let a = t2.0.a;
        let c3 = spec_cmp_cpu(t2.0, a, value);
        c3
    } else if op == 0xDE {
        let t1 = spec_take2(c);
        let base_addr = t1.1;
        let addr = base_addr.wrapping_add(t1.0.x as u16);
        let t2 = spec_get(t1.0, addr);
        let value = t2.1.wrapping_sub(1);
        let c3 = spec_put(t2.0, addr, value);
        let c4 = spec_znf_cpu(c3, value);
        c4
    } else if op == 0xDF {
        let t1 = spec_take1(c);
        let zp_addr = t1.1 as u16;
        let c2 = if t1.0.cpu_type != CpuType::NMOS6502 {
        let t102 = spec_take1(t1.0);
        let rel_offset = (t102.1 as i8) as i16;
        let t103 = spec_get(t102.0, zp_addr);
        let value = t103.1;
        let shift = (op.wrapping_sub(0x8F)) / 0x10;
        let bit = 1u8 << shift;
        let c104 = if (value & bit) != 0 {
        let c204 = (CpuView { pc: t103.0.pc.wrapping_add_signed(rel_offset), ..t103.0 });
        c204
    } else {
        t103.0
    };
        c104
    } else {
        t1.0
    };
        c2
    } else if op == 0xDC {
        let c1 = (CpuView { pc: c.pc.wrapping_add(2), ..c });
        c1
    } else {
        c
    }
}

#[verifier::opaque]
pub open spec fn spec_exec_e0(c: CpuView, op: u8) -> CpuView {
    if op == 0xE5 {
        let t1 = spec_take1(c);
        let addr = t1.1 as u16;
        let t2 = spec_get(t1.0, addr);
        let value = t2.1;
        let c3 = spec_sbc_cpu(t2.0, value);
        c3
    } else if op == 0xE0 {
        let t1 = spec_take1(c);
        let value = t1.1;
        let x = t1.0.x;
        let c2 = spec_cmp_cpu(t1.0, x, value);
        c2
    } else if op == 0xE4 {
        let t1 = spec_take1(c);
        let addr = t1.1 as u16;
        let t2 = spec_get(t1.0, addr);
        let value = t2.1;
        let x = t2.0.x;
        let c3 = spec_cmp_cpu(t2.0, x, value);
        c3
    } else if op == 0xE6 {
        let t1 = spec_take1(c);
        let addr = t1.1 as u16;
        let t2 = spec_get(t1.0, addr);
        let value = t2.1;
        let value = value.wrapping_add(1);
        let c4 = spec_put(t2.0, addr, value);
        let c5 = spec_znf_cpu(c4, value);
        c5
    } else if op == 0xE1 {
        let t1 = spec_ind_x(c);
        let addr = t1.1;
        let t2 = spec_get(t1.0, addr);
        let value = t2.1;
        let c3 = spec_sbc_cpu(t2.0, value);
        c3
    } else if op == 0xE3 {
        c
    } else if op == 0xE2 {
        let c1 = (CpuView { pc: c.pc.wrapping_add(1), ..c });
        c1
    } else if op == 0xE7 {
        let t1 = spec_take1(c);
        let addr = t1.1 as u16;
        let c2 = if t1.0.cpu_type != CpuType::NMOS6502 {
        let bit_n = (op >> 4) & 0b111;
        let mask = 1u8 << bit_n;
        let t102 = spec_get(t1.0, addr);
        let value = t102.1;
        let result = value | mask;
        let c103 = spec_put(t102.0, addr, result);
        c103
    } else {
        t1.0
    };
        c2
    } else {
        c
    }
}

#[verifier::opaque]
pub open spec fn spec_exec_e8(c: CpuView, op: u8) -> CpuView {
    if op == 0xE9 {
        let t1 = spec_take1(c);
        let value = t1.1;
        let c2 = spec_sbc_cpu(t1.0, value);
        c2
    } else if op == 0xED {
        let t1 = spec_take2(c);
        let addr = t1.1;
        let t2 = spec_get(t1.0, addr);
        let value = t2.1;
        let c3 = spec_sbc_cpu(t2.0, value);
        c3
    } else if op == 0xEC {
        let t1 = spec_take2(c);
        let addr = t1.1;
        let t2 = spec_get(t1.0, addr);
        let value = t2.1;
        let x = t2.0.x;
        let c3 = spec_cmp_cpu(t2.0, x, value);
        c3
    } else if op == 0xEA {
        c
    } else if op == 0xE8 {
        let c1 = (CpuView { x: c.x.wrapping_add(1), ..c });
        let c2 = spec_znf_cpu(c1, c1.x);
        c2
    } else if op == 0xEE {
        let t1 = spec_take2(c);
        let addr = t1.1;
        let t2 = spec_get(t1.0, addr);
        let value = t2.1;
        let value = value.wrapping_add(1);
        let c4 = spec_put(t2.0, addr, value);
        let c5 = spec_znf_cpu(c4, value);
        c5
    } else if op == 0xEF {
        let t1 = spec_take1(c);
        let zp_addr = t1.1 as u16;
        let c2 = if t1.0.cpu_type != CpuType::NMOS6502 {
        let t102 = spec_take1(t1.0);
        let rel_offset = (t102.1 as i8) as i16;
        let t103 = spec_get(t102.0, zp_addr);
        let value = t103.1;
        let shift = (op.wrapping_sub(0x8F)) / 0x10;
        let bit = 1u8 << shift;
        let c104 = if (value & bit) != 0 {
        let c204 = (CpuView { pc: t103.0.pc.wrapping_add_signed(rel_offset), ..t103.0 });
        c204
    } else {
        t103.0
    };
        c104
    } else {
        t1.0
    };
        c2
    } else if op == 0xEB {
        c
    } else {
        c
    }
}

#[verifier::opaque]
pub open spec fn spec_exec_f0(c: CpuView, op: u8) -> CpuView {
    if op == 0xF0 {
        let t1 = spec_take1(c);
        let offset = t1.1 as i8;
        let c2 = if t1.0.p & Flags::ZERO == Flags::ZERO {
        let c102 = (CpuView { pc: t1.0.pc.wrapping_add_signed(offset as i16), ..t1.0 });
        c102
    } else {
        t1.0
    };
        c2
    } else if op == 0xF6 {
        let t1 = spec_take1(c);
        let base_addr = t1.1;
        let addr = base_addr.wrapping_add(t1.0.x) as u16;
        let t2 = spec_get(t1.0, addr);
        let value = t2.1;
        let value = value.wrapping_add(1);
        let c4 = spec_put(t2.0, addr, value);
        let c5 = spec_znf_cpu(c4, value);
        c5
    } else if op == 0xF5 {
        let t1 = spec_take1(c);
        let zp_addr = t1.1.wrapping_add(t1.0.x) as u16;
        let t2 = spec_get(t1.0, zp_addr);
        let value = t2.1;
        let c3 = spec_sbc_cpu(t2.0, value);
        c3
    } else if op == 0xF1 {
        let t1 = spec_ind_y(c);
        let addr = t1.1;
        let t2 = spec_get(t1.0, addr);
        let value = t2.1;
        let c3 = spec_sbc_cpu(t2.0, value);
        c3
    } else if op == 0xF3 {
        c
    } else if op == 0xF4 {
        let c1 = (CpuView { pc: c.pc.wrapping_add(1), ..c });
        c1
    } else if op == 0xF7 {
        let t1 = spec_take1(c);
        let addr = t1.1 as u16;
        let c2 = if t1.0.cpu_type != CpuType::NMOS6502 {
        let bit_n = (op >> 4) & 0b111;
        let mask = 1u8 << bit_n;
        let t102 = spec_get(t1.0, addr);
        let value = t102.1;
        let result = value | mask;
        let c103 = spec_put(t102.0, addr, result);
        c103
    } else {
        t1.0
    };
        c2
    } else if op == 0xF2 {
        let t1 = spec_take1(c);
        let addr_ptr = t1.1 as u16;
        let t2 = spec_getw(t1.0, addr_ptr);
        let addr = t2.1;
        let t3 = spec_get(t2.0, addr);
        let value = t3.1;
        let c4 = spec_sbc_cpu(t3.0, value);
        c4
    } else {
        c
    }
}

#[verifier::opaque]
pub open spec fn spec_exec_f8(c: CpuView, op: u8) -> CpuView {
    if op == 0xFA {
        let t1 = spec_pop_cpu(c);
        let c2 = (CpuView { x: t1.1, ..t1.0 });
        let c3 = if c2.cpu_type == CpuType::CMOS65C02 || c2.cpu_type == CpuType::WDC65C02S {
        let x = c2.x;
        let c103 = spec_znf_cpu(c2, x);
        c103
    } else {
        c2
    };
        c3
    } else if op == 0xF8 {
        let c1 = (CpuView { p: c.p | Flags::DECIMAL, ..c });
        c1
    } else if op == 0xFE {
        let t1 = spec_take2(c);
        let addr = t1.1.wrapping_add(t1.0.x as u16);
        let t2 = spec_get(t1.0, addr);
        let value = t2.1.wrapping_add(1);
        let c3 = spec_put(t2.0, addr, value);
        let c4 = spec_znf_cpu(c3, value);
        c4
    } else if op == 0xFD {
        let t1 = spec_take2(c);
        let base_addr = t1.1;
        let addr = base_addr.wrapping_add(t1.0.x as u16);
        let t2 = spec_get(t1.0, addr);
        let value = t2.1;
        let c3 = spec_sbc_cpu(t2.0, value);
        c3
    } else if op == 0xF9 {
        let t1 = spec_take2(c);
        let addr = t1.1.wrapping_add(t1.0.y as u16);
        let t2 = spec_get(t1.0, addr);
        let value = t2.1;
        let c3 = spec_sbc_cpu(t2.0, value);
        c3
    } else if op == 0xFF {
        let t1 = spec_take1(c);
        let zp_addr = t1.1 as u16;
        let c2 = if t1.0.cpu_type != CpuType::NMOS6502 {
        let t102 = spec_take1(t1.0);
        let rel_offset = (t102.1 as i8) as i16;
        let t103 = spec_get(t102.0, zp_addr);
        let value = t103.1;
        let shift = (op.wrapping_sub(0x8F)) / 0x10;
        let bit = 1u8 << shift;
        let c104 = if (value & bit) != 0 {
        let c204 = (CpuView { pc: t103.0.pc.wrapping_add_signed(rel_offset), ..t103.0 });
        c204
    } else {
        t103.0
    };
        c104
    } else {
        t1.0
    };
        c2
    } else if op == 0xFB {
        c
    } else if op == 0xFC {
        let c1 = (CpuView { pc: c.pc.wrapping_add(2), ..c });
        c1
    } else {
        c
    }
}

/// What one dispatched opcode does to the whole CPU: the spec-level
/// reading of the executor, opcode by opcode.
pub open spec fn spec_decode_execute(c: CpuView, op: u8) -> CpuView {
    if op < 0x08 {
        spec_exec_00(c, op)
    }
     else if op < 0x10 {
        spec_exec_08(c, op)
    }
     else if op < 0x18 {
        spec_exec_10(c, op)
    }
     else if op < 0x20 {
        spec_exec_18(c, op)
    }
     else if op < 0x28 {
        spec_exec_20(c, op)
    }
     else if op < 0x30 {
        spec_exec_28(c, op)
    }
     else if op < 0x38 {
        spec_exec_30(c, op)
    }
     else if op < 0x40 {
        spec_exec_38(c, op)
    }
     else if op < 0x48 {
        spec_exec_40(c, op)
    }
     else if op < 0x50 {
        spec_exec_48(c, op)
    }
     else if op < 0x58 {
        spec_exec_50(c, op)
    }
     else if op < 0x60 {
        spec_exec_58(c, op)
    }
     else if op < 0x68 {
        spec_exec_60(c, op)
    }
     else if op < 0x70 {
        spec_exec_68(c, op)
    }
     else if op < 0x78 {
        spec_exec_70(c, op)
    }
     else if op < 0x80 {
        spec_exec_78(c, op)
    }
     else if op < 0x88 {
        spec_exec_80(c, op)
    }
     else if op < 0x90 {
        spec_exec_88(c, op)
    }
     else if op < 0x98 {
        spec_exec_90(c, op)
    }
     else if op < 0xA0 {
        spec_exec_98(c, op)
    }
     else if op < 0xA8 {
        spec_exec_a0(c, op)
    }
     else if op < 0xB0 {
        spec_exec_a8(c, op)
    }
     else if op < 0xB8 {
        spec_exec_b0(c, op)
    }
     else if op < 0xC0 {
        spec_exec_b8(c, op)
    }
     else if op < 0xC8 {
        spec_exec_c0(c, op)
    }
     else if op < 0xD0 {
        spec_exec_c8(c, op)
    }
     else if op < 0xD8 {
        spec_exec_d0(c, op)
    }
     else if op < 0xE0 {
        spec_exec_d8(c, op)
    }
     else if op < 0xE8 {
        spec_exec_e0(c, op)
    }
     else if op < 0xF0 {
        spec_exec_e8(c, op)
    }
     else if op < 0xF8 {
        spec_exec_f0(c, op)
    }
     else {
        spec_exec_f8(c, op)
    }
}

/// Everything the execution engine owns, for contracts: the configuration,
/// the whole bus, the register file, PC and P, the entry override, and the
/// trace bookkeeping values.
pub ghost struct CpuView {
    pub system_type: SystemType,
    pub cpu_type: CpuType,
    pub bus: BusView,
    pub a: u8,
    pub x: u8,
    pub y: u8,
    pub sp: u8,
    pub pc: u16,
    pub p: u8,
    pub entry_point_override: Option<u16>,
    pub symbol_table: SymbolTable,
    pub last_frame_time: std::time::Instant,
}

pub struct CPU {
    pub system_type: SystemType,
    pub cpu_type: CpuType,
    pub bus: Bus,
    pub regs: Registers,
    pub pc: u16,
    /// The processor-status byte; see `Flags` for its bit positions.
    pub p: u8,
    pub symbol_table: SymbolTable,
    pub last_frame_time: std::time::Instant,
    pub entry_point_override: Option<u16>,
}

impl View for CPU {
    type V = CpuView;

    open spec fn view(&self) -> CpuView {
        CpuView {
            system_type: self.system_type,
            cpu_type: self.cpu_type,
            bus: self.bus@,
            a: self.regs.a,
            x: self.regs.x,
            y: self.regs.y,
            sp: self.regs.sp,
            pc: self.pc,
            p: self.p,
            entry_point_override: self.entry_point_override,
            symbol_table: self.symbol_table,
            last_frame_time: self.last_frame_time,
        }
    }
}

impl CPU {
    pub fn new(system_type: SystemType, cpu_type: CpuType, _target_hz: u32) -> (r: CPU)
        ensures
            r@.system_type == system_type,
            r@.cpu_type == cpu_type,
            spec_bus_initial(r@.bus, system_type),
            r@.bus.video.wf(),
            r@.a == 0u8,
            r@.x == 0u8,
            r@.y == 0u8,
            r@.sp == 0u8,
            r@.pc == 0u16,
            r@.p == 0b0011_0110u8,
            r@.entry_point_override == Option::<u16>::None,
            r@.symbol_table.spec_symbols() == Seq::<(u16, Seq<u8>)>::empty(),

    {
        CPU {
            system_type,
            cpu_type,
            bus: Bus::new(system_type, cpu_type),
            pc: 0,
            p: 0b0011_0110,
            regs: Registers::default(),
            entry_point_override: None,
            last_frame_time: std::time::Instant::now(),
            symbol_table: SymbolTable::new(),
        }
    }

    pub fn resolve_entry_point(&self) -> (r: u16)
        ensures
            r == spec_entry_point(self@),
    {
        if let Some(entry) = self.entry_point_override {
            return entry;
        }

        let reset_vector = self.bus.peek_word(0xFFFC);
        if reset_vector != 0xFFFF {
            return reset_vector;
        }

        match self.system_type {
            SystemType::AppleIIc => 0xC800,
            SystemType::Generic => 0x0400,
        }
    }

    pub fn load_rom(&mut self, rom: crate::rom::ROM)
        requires
            rom.data@.len() >= crate::rom::rom_max_size(old(self)@.bus.system_type),
        ensures
            final(self)@ == (CpuView { bus: final(self)@.bus, ..old(self)@ }),
            old(self)@.bus.system_type == SystemType::AppleIIc ==> final(self)@.bus
                == (BusView {
                mmu: (crate::mmu::MmuView {
                    rom1: crate::memory::bank_load(
                        old(self)@.bus.mmu.rom1,
                        0,
                        rom.data@.subrange(0, 0x4000),
                    ),
                    rom2: crate::memory::bank_load(
                        old(self)@.bus.mmu.rom2,
                        0,
                        rom.data@.subrange(0x4000, 0x8000),
                    ),
                    ..old(self)@.bus.mmu
                }),
                ..old(self)@.bus
            }),
            old(self)@.bus.system_type != SystemType::AppleIIc ==> final(self)@.bus
                == (BusView {
                ram: crate::memory::bank_load(
                    old(self)@.bus.ram,
                    0,
                    rom.data@.subrange(0, 0x10000),
                ),
                ..old(self)@.bus
            }),
    {
        self.bus.load_rom(rom);
    }

    /// Cold boot. Afterwards P has I=1 and U=1 (with D=0 on every
    /// variant), A=X=Y=SP=0xFF, pending interrupts are cleared, and the PC
    /// is at OLDRST on the Apple IIc or the resolved entry point otherwise.
    pub fn init(&mut self)
        ensures
            final(self)@ == spec_init(old(self)@),
            flag_set(final(self)@.p, Flags::IRQ_DISABLE),
            flag_set(final(self)@.p, Flags::UNUSED),
            !flag_set(final(self)@.p, Flags::DECIMAL),
            final(self)@.a == 0xFFu8,
            final(self)@.x == 0xFFu8,
            final(self)@.y == 0xFFu8,
            final(self)@.sp == 0xFFu8,
    {
        self.bus.init_mmu();

        self.bus.interrupts.clear_all();

        if self.system_type == SystemType::AppleIIc {
            self.pc = 0xFF59;
        } else {
            self.pc = self.resolve_entry_point();
        }

        self.initialize_registers();
        self.initialize_flags();

        if self.system_type == SystemType::AppleIIc {
            self.initialize_soft_switches();
        }

        proof {
            lemma_init_flags_bits(self.cpu_type);
        }
    }

    /// Warm reset: like `init`, but the PC always comes from the resolved
    /// entry point.
    pub fn reset(&mut self)
        ensures
            final(self)@ == spec_reset(old(self)@),
    {
        self.bus.interrupts.clear_all();

        self.pc = self.resolve_entry_point();

        self.initialize_registers();
        self.initialize_flags();

        if self.system_type == SystemType::AppleIIc {
            self.initialize_soft_switches();
        }
    }

    /// Resets the soft switches to the Apple IIc power-on state.
    fn initialize_soft_switches(&mut self)
        ensures
            final(self)@ == (CpuView { bus: spec_soft_switch_init(old(self)@.bus), ..old(self)@ }),
    {
        self.bus.handle_iic_write(0xC000, 0);
        self.bus.handle_iic_write(0xC054, 0);
        self.bus.handle_iic_write(0xC051, 0);

        self.bus.handle_iic_write(0xC028, 0);
        self.bus.handle_iic_write(0xC008, 0);
    }

    /// Polls the interrupt controller and runs the vectored servicing
    /// sequence; the result says whether this finishes the step.
    fn handle_interrupt(&mut self) -> (r: bool)
        ensures
            final(self)@ == spec_handle_interrupt(old(self)@).0,
            r == spec_handle_interrupt(old(self)@).1,
    {
        let nmi_vector = self.bus.peek_word(0xFFFA);
        let reset_vector = self.bus.peek_word(0xFFFC);
        let irq_vector = self.bus.peek_word(0xFFFE);

        if let Some((interrupt_type, target_pc)) = self.bus.interrupts.handle_interrupt_with_vectors(
            nmi_vector,
            reset_vector,
            irq_vector,
        ) {
            if self.p & Flags::IRQ_DISABLE == Flags::IRQ_DISABLE && interrupt_type
                == crate::interrupts::InterruptType::IRQ {
                return false;
            }

            if interrupt_type == crate::interrupts::InterruptType::RST {
                self.pc = target_pc;
                return true;
            }

            let pushed_pc = match interrupt_type {
                crate::interrupts::InterruptType::BRK => self.pc.wrapping_add(1),
                _ => self.pc,
            };

            proof {
                lemma_stack_addr(self.regs.sp);
                lemma_stack_addr(self.regs.sp.wrapping_sub(1));
                lemma_stack_addr(self.regs.sp.wrapping_sub(1).wrapping_sub(1));
            }
            self.push_stack((pushed_pc >> 8) as u8);
            self.push_stack((pushed_pc & 0xFF) as u8);

            let mut pushed_p = self.p | Flags::UNUSED;
            pushed_p = if interrupt_type == crate::interrupts::InterruptType::BRK {
                pushed_p | Flags::BREAK
            } else {
                pushed_p & !Flags::BREAK
            };

            self.push_stack(pushed_p);

            self.p = self.p | Flags::IRQ_DISABLE;
            self.p = self.p & !Flags::BREAK;

            if self.cpu_type != CpuType::NMOS6502 {
                self.p = self.p & !Flags::DECIMAL;
            }

            self.pc = target_pc;

            if interrupt_type == crate::interrupts::InterruptType::IRQ {
                self.bus.interrupts.irq = false;
                self.bus.interrupts.leave_wait();
                return true;
            }

            if interrupt_type == crate::interrupts::InterruptType::NMI {
                self.bus.interrupts.nmi = false;
                self.bus.interrupts.leave_wait();
                return true;
            }

            self.bus.interrupts.leave_wait();

            return true;
        }
        false
    }

    pub fn fetch_indirect_x(&mut self) -> (r: u16)
        ensures
            final(self)@ == (CpuView {
                pc: old(self)@.pc.wrapping_add(1),
                bus: spec_fetch_indirect_x(old(self)@.bus, old(self)@.pc, old(self)@.x).0,
                ..old(self)@
            }),
            r == spec_fetch_indirect_x(old(self)@.bus, old(self)@.pc, old(self)@.x).1,
    {
        let zp_base = self.fetch_byte().wrapping_add(self.regs.x) as u16;
        let lo = self.bus.read_byte(zp_base) as u16;
        let hi = self.bus.read_byte(zp_base.wrapping_add(1)) as u16;
        proof {
            crate::util::lemma_word_combine(hi, lo);
        }
        (hi << 8) | lo
    }

    /// The high byte of the zero-page pointer is read at `(zp + 1) mod
    /// 256`: with a $FF operand it comes from $0000, not $0100.
    pub fn fetch_indirect_y(&mut self) -> (r: u16)
        ensures
            final(self)@ == (CpuView {
                pc: old(self)@.pc.wrapping_add(1),
                bus: spec_fetch_indirect_y(old(self)@.bus, old(self)@.pc, old(self)@.y).0,
                ..old(self)@
            }),
            r == spec_fetch_indirect_y(old(self)@.bus, old(self)@.pc, old(self)@.y).1,
    {
        let zp_addr = self.fetch_byte() as u16;
        let low_byte = self.bus.read_byte(zp_addr) as u16;
        let high_byte = self.bus.read_byte(zp_addr.wrapping_add(1) & 0xFF) as u16;
        proof {
            crate::util::lemma_word_combine(high_byte, low_byte);
        }
        let base_addr = (high_byte << 8) | low_byte;

        let addr = base_addr.wrapping_add(self.regs.y as u16);

        addr
    }

    /// Forces one flag of the status byte on or off.
    fn set_flag(&mut self, mask: u8, on: bool)
        ensures
            final(self)@ == (CpuView { p: spec_set_flag(old(self)@.p, mask, on), ..old(self)@ }),
    {
        if on {
            self.p = self.p | mask;
        } else {
            self.p = self.p & !mask;
        }
    }

    fn initialize_registers(&mut self)
        ensures
            final(self)@ == (CpuView { a: 0xFFu8, x: 0xFFu8, y: 0xFFu8, sp: 0xFFu8, ..old(self)@ }),
    {
        self.regs.a = 0xFF;
        self.regs.x = 0xFF;
        self.regs.y = 0xFF;
        self.regs.sp = 0xFF;
    }

    fn initialize_flags(&mut self)
        ensures
            final(self)@ == (CpuView { p: spec_init_flags(old(self)@.cpu_type), ..old(self)@ }),
    {
        self.p = 0b0011_0100;
        if self.cpu_type != CpuType::NMOS6502 {
            self.p = self.p & !Flags::DECIMAL;
        }
    }

    pub fn fetch_byte(&mut self) -> (r: u8)
        ensures
            final(self)@ == (CpuView {
                pc: old(self)@.pc.wrapping_add(1),
                bus: spec_bus_read(old(self)@.bus, old(self)@.pc).0,
                ..old(self)@
            }),
            r == spec_bus_read(old(self)@.bus, old(self)@.pc).1,
    {
        let byte = self.bus.read_byte(self.pc);
        self.pc = self.pc.wrapping_add(1);
        byte
    }

    pub fn fetch_word(&mut self) -> (r: u16)
        ensures
            final(self)@ == (CpuView {
                pc: old(self)@.pc.wrapping_add(2),
                bus: spec_bus_read_word(old(self)@.bus, old(self)@.pc).0,
                ..old(self)@
            }),
            r == spec_bus_read_word(old(self)@.bus, old(self)@.pc).1,
    {
        let lo = self.fetch_byte() as u16;
        let hi = self.fetch_byte() as u16;
        proof {
            crate::util::lemma_word_combine(hi, lo);
        }
        let word = (hi << 8) | lo;

        word
    }

    pub fn push_stack(&mut self, value: u8)
        ensures
            final(self)@ == (CpuView {
                bus: spec_push(old(self)@.bus, old(self)@.sp, value),
                sp: old(self)@.sp.wrapping_sub(1),
                ..old(self)@
            }),
    {
        self.bus.write_byte(0x0100 | self.regs.sp as u16, value);
        self.regs.sp = self.regs.sp.wrapping_sub(1);
    }

    pub fn pop_stack(&mut self) -> (r: u8)
        ensures
            final(self)@ == (CpuView {
                sp: old(self)@.sp.wrapping_add(1),
                bus: spec_bus_read(
                    old(self)@.bus,
                    0x0100u16 | old(self)@.sp.wrapping_add(1) as u16,
                ).0,
                ..old(self)@
            }),
            r == spec_bus_read(
                old(self)@.bus,
                0x0100u16 | old(self)@.sp.wrapping_add(1) as u16,
            ).1,
    {
        self.regs.sp = self.regs.sp.wrapping_add(1);
        self.bus.read_byte(0x0100 | self.regs.sp as u16)
    }

    pub fn update_zero_and_negative_flags(&mut self, value: u8)
        ensures
            final(self)@ == (CpuView { p: spec_znf(old(self)@.p, value), ..old(self)@ }),
    {
        self.set_flag(Flags::ZERO, value == 0);
        self.set_flag(Flags::NEGATIVE, value & 0b1000_0000 != 0);
    }

    pub fn execute_bit(&mut self, value: u8)
        ensures
            final(self)@ == (CpuView {
                p: spec_bit(old(self)@.p, old(self)@.a, value),
                ..old(self)@
            }),
    {
        self.set_flag(Flags::ZERO, (self.regs.a & value) == 0);
        self.set_flag(Flags::NEGATIVE, (value & 0x80) != 0);
        self.set_flag(Flags::OVERFLOW, (value & 0x40) != 0);
    }

    pub fn adc(&mut self, value: u8)
        ensures
            final(self)@ == (CpuView {
                a: spec_adc(old(self)@.p, old(self)@.a, value).0,
                p: spec_adc(old(self)@.p, old(self)@.a, value).1,
                ..old(self)@
            }),
    {
        let carry_in: u8 = if self.p & Flags::CARRY == Flags::CARRY {
            1
        } else {
            0
        };
        let a_before = self.regs.a;
        let sum_16: u16 = a_before as u16 + value as u16 + carry_in as u16;
        let mut a_after: u8 = (sum_16 & 0xFF) as u8;
        let mut carry_out = sum_16 > 0xFF;
        proof {
            assert(sum_16 & 0xFF == sum_16 % 256) by (bit_vector);
        }

        if self.p & Flags::DECIMAL == Flags::DECIMAL {
            let mut low_nibble = (a_before & 0x0F).wrapping_add(value & 0x0F).wrapping_add(
                carry_in,
            );
            let mut high_nibble = (a_before >> 4).wrapping_add(value >> 4);

            if low_nibble > 9 {
                low_nibble = low_nibble.wrapping_sub(10);
                high_nibble = high_nibble.wrapping_add(1);
            }

            if high_nibble > 9 {
                high_nibble = high_nibble.wrapping_sub(10);
                carry_out = true;
            }

            a_after = (high_nibble << 4) | (low_nibble & 0x0F);
        }

        self.regs.a = a_after;

        self.set_flag(Flags::CARRY, carry_out);

        let overflow = ((a_before ^ value) & 0x80 == 0) && ((a_before ^ a_after) & 0x80 != 0);
        self.set_flag(Flags::OVERFLOW, overflow);

        self.set_flag(Flags::ZERO, self.regs.a == 0);
        self.set_flag(Flags::NEGATIVE, (self.regs.a & 0x80) != 0);
    }

    pub fn sbc(&mut self, value: u8)
        ensures
            final(self)@ == (CpuView {
                a: spec_sbc(old(self)@.p, old(self)@.a, value).0,
                p: spec_sbc(old(self)@.p, old(self)@.a, value).1,
                ..old(self)@
            }),
    {
        let carry_in: u8 = if self.p & Flags::CARRY == Flags::CARRY {
            1
        } else {
            0
        };
        let a_before = self.regs.a;
        let value_complement = !value;

        let binary_result: u16 = (a_before as u16) + (value_complement as u16)
            + carry_in as u16;
        let mut temp_result: u8 = (binary_result & 0xFF) as u8;
        let mut did_borrow = binary_result < 0x100;
        proof {
            assert(binary_result & 0xFF == binary_result % 256) by (bit_vector);
        }

        if self.p & Flags::DECIMAL == Flags::DECIMAL {
            let mut low_nibble = (a_before & 0x0F).wrapping_sub(value & 0x0F).wrapping_sub(
                1 - carry_in,
            );
            let mut high_nibble = (a_before >> 4).wrapping_sub(value >> 4);

            if low_nibble & 0x10 != 0 {
                low_nibble = low_nibble.wrapping_sub(6) & 0x0F;
                high_nibble = high_nibble.wrapping_sub(1);
            }

            if high_nibble > 9 {
                high_nibble = high_nibble.wrapping_sub(6) & 0x0F;
                did_borrow = true;
            }

            temp_result = (high_nibble << 4) | (low_nibble & 0x0F);
        }

        self.regs.a = temp_result;

        let carry_set = !did_borrow;
        self.set_flag(Flags::CARRY, carry_set);

        let overflow = ((a_before ^ value) & 0x80 != 0) && ((a_before ^ temp_result) & 0x80
            != 0);
        self.set_flag(Flags::OVERFLOW, overflow);

        self.set_flag(Flags::ZERO, self.regs.a == 0);
        self.set_flag(Flags::NEGATIVE, self.regs.a & 0x80 != 0);
    }

    pub fn asl(&mut self, value: u8) -> (r: u8)
        ensures
            final(self)@ == (CpuView { p: spec_asl(old(self)@.p, value).1, ..old(self)@ }),
            r == spec_asl(old(self)@.p, value).0,
    {
        self.set_flag(Flags::CARRY, value & 0b1000_0000 != 0);
        let result = value << 1;
        self.update_zero_and_negative_flags(result);
        result
    }

    pub fn lsr(&mut self, value: u8) -> (r: u8)
        ensures
            final(self)@ == (CpuView { p: spec_lsr(old(self)@.p, value).1, ..old(self)@ }),
            r == spec_lsr(old(self)@.p, value).0,
    {
        self.set_flag(Flags::CARRY, value & 0b0000_0001 != 0);
        let result = value >> 1;
        self.update_zero_and_negative_flags(result);
        result
    }

    pub fn rol(&mut self, value: u8) -> (r: u8)
        ensures
            final(self)@ == (CpuView { p: spec_rol(old(self)@.p, value).1, ..old(self)@ }),
            r == spec_rol(old(self)@.p, value).0,
    {
        let carry_in: u8 = if self.p & Flags::CARRY == Flags::CARRY {
            1
        } else {
            0
        };
        self.set_flag(Flags::CARRY, value & 0b1000_0000 != 0);
        let result = (value << 1) | carry_in;
        self.update_zero_and_negative_flags(result);
        result
    }

    pub fn ror(&mut self, value: u8) -> (r: u8)
        ensures
            final(self)@ == (CpuView { p: spec_ror(old(self)@.p, value).1, ..old(self)@ }),
            r == spec_ror(old(self)@.p, value).0,
    {
        let carry_in: u8 = if self.p & Flags::CARRY == Flags::CARRY {
            0b1000_0000
        } else {
            0
        };
        self.set_flag(Flags::CARRY, value & 0b0000_0001 != 0);
        let result = (value >> 1) | carry_in;
        self.update_zero_and_negative_flags(result);
        result
    }

    pub fn compare(&mut self, reg: u8, value: u8)
        ensures
            final(self)@ == (CpuView { p: spec_compare(old(self)@.p, reg, value), ..old(self)@ }),
    {
        let result = reg.wrapping_sub(value);

        self.set_flag(Flags::CARRY, reg >= value);
        self.set_flag(Flags::ZERO, result == 0);
        self.set_flag(Flags::NEGATIVE, (result & 0x80) != 0);
    }

    /// One host-paced step: one `step`, then, if sixteen or more
    /// milliseconds of wall time have passed since the last notification,
    /// a video redraw. What the clock returns is outside any contract.
    pub fn tick(&mut self)
        requires
            old(self)@.bus.video.wf(),
        ensures
            final(self)@.system_type == old(self)@.system_type,
            final(self)@.cpu_type == old(self)@.cpu_type,
            final(self)@.entry_point_override == old(self)@.entry_point_override,
            final(self)@.bus.video.wf(),
            ({
                let s = spec_step(old(self)@);
                ||| final(self)@ == s
                ||| (final(self)@ == (CpuView {
                    bus: (BusView { video: final(self)@.bus.video, ..s.bus }),
                    last_frame_time: final(self)@.last_frame_time,
                    ..s
                }) && final(self)@.bus.video.spec_width()
                    == crate::video::spec_update_width(s.bus.iou.video_mode)
                    && final(self)@.bus.video.spec_height()
                    == crate::video::spec_update_height(s.bus.iou.video_mode))
            }),
    {
        self.step();

        let elapsed = self.last_frame_time.elapsed();

        if elapsed.as_millis() >= 16 {
            self.bus.video_update();
            self.last_frame_time = std::time::Instant::now();
        }
    }

    /// Runs one instruction: fetches a pending interrupt first; a halted
    /// CPU does nothing; a waiting one resumes only when an IRQ or NMI is
    /// pending. Otherwise the opcode at PC is fetched and dispatched.
    pub fn step(&mut self)
        ensures
            final(self)@ == spec_step(old(self)@),
            final(self)@.system_type == old(self)@.system_type,
            final(self)@.cpu_type == old(self)@.cpu_type,
            final(self)@.entry_point_override == old(self)@.entry_point_override,
            final(self)@.last_frame_time == old(self)@.last_frame_time,
            final(self)@.bus.video == old(self)@.bus.video,
    {
        if self.handle_interrupt() {
            return;
        }

        if self.bus.interrupts.halted {
            return;
        }

        if self.bus.interrupts.waiting {
            if self.bus.interrupts.irq || self.bus.interrupts.nmi {
                self.bus.interrupts.leave_wait();
            } else {
                return;
            }
        }

        let opcode = self.fetch_byte();

        self.decode_execute(opcode);
    }

    /// Dispatches one fetched opcode. The contract pins the whole effect
    /// of every opcode to the spec-level interpreter, opcode by opcode,
    /// along with the operand bytes each non-jumping opcode consumes and
    /// the named semantics of JSR, RTS and the indirect JMP. The opcode
    /// space is handled in small blocks to keep each proof tractable.
    fn decode_execute(&mut self, opcode: u8)
        ensures
            final(self)@ == spec_decode_execute(old(self)@, opcode),
            final(self)@.system_type == old(self)@.system_type,
            final(self)@.cpu_type == old(self)@.cpu_type,
            final(self)@.entry_point_override == old(self)@.entry_point_override,
            final(self)@.symbol_table == old(self)@.symbol_table,
            final(self)@.last_frame_time == old(self)@.last_frame_time,
            final(self)@.bus.video == old(self)@.bus.video,
            !spec_is_jump(opcode) ==> final(self)@.pc == old(self)@.pc.wrapping_add(
                spec_consumed_operands(opcode, old(self)@.cpu_type) as u16,
            ),
            opcode == 0x20 ==> final(self)@ == spec_jsr(old(self)@),
            opcode == 0x60 ==> final(self)@ == spec_rts(old(self)@),
            opcode == 0x6C ==> final(self)@ == spec_jmp_indirect(old(self)@),
    {
        if opcode < 0x08 {
            self.decode_00(opcode)
        } else if opcode < 0x10 {
            self.decode_08(opcode)
        } else if opcode < 0x18 {
            self.decode_10(opcode)
        } else if opcode < 0x20 {
            self.decode_18(opcode)
        } else if opcode < 0x24 {
            self.decode_20(opcode)
        } else if opcode < 0x28 {
            self.decode_24(opcode)
        } else if opcode < 0x2C {
            self.decode_28(opcode)
        } else if opcode < 0x2E {
            self.decode_2c(opcode)
        } else if opcode < 0x30 {
            self.decode_2e(opcode)
        } else if opcode < 0x38 {
            self.decode_30(opcode)
        } else if opcode < 0x40 {
            self.decode_38(opcode)
        } else if opcode < 0x48 {
            self.decode_40(opcode)
        } else if opcode < 0x50 {
            self.decode_48(opcode)
        } else if opcode < 0x58 {
            self.decode_50(opcode)
        } else if opcode < 0x60 {
            self.decode_58(opcode)
        } else if opcode < 0x68 {
            self.decode_60(opcode)
        } else if opcode < 0x70 {
            self.decode_68(opcode)
        } else if opcode < 0x78 {
            self.decode_70(opcode)
        } else if opcode < 0x80 {
            self.decode_78(opcode)
        } else if opcode < 0x88 {
            self.decode_80(opcode)
        } else if opcode < 0x90 {
            self.decode_88(opcode)
        } else if opcode < 0x98 {
            self.decode_90(opcode)
        } else if opcode < 0xA0 {
            self.decode_98(opcode)
        } else if opcode < 0xA8 {
            self.decode_a0(opcode)
        } else if opcode < 0xB0 {
            self.decode_a8(opcode)
        } else if opcode < 0xB8 {
            self.decode_b0(opcode)
        } else if opcode < 0xC0 {
            self.decode_b8(opcode)
        } else if opcode < 0xC8 {
            self.decode_c0(opcode)
        } else if opcode < 0xD0 {
            self.decode_c8(opcode)
        } else if opcode < 0xD8 {
            self.decode_d0(opcode)
        } else if opcode < 0xE0 {
            self.decode_d8(opcode)
        } else if opcode < 0xE8 {
            self.decode_e0(opcode)
        } else if opcode < 0xF0 {
            self.decode_e8(opcode)
        } else if opcode < 0xF8 {
            self.decode_f0(opcode)
        } else {
            self.decode_f8(opcode)
        }
    }

    #[verifier::rlimit(100)]
    #[verifier::spinoff_prover]
    fn decode_00(&mut self, opcode: u8)
        requires
            0x00 <= opcode <= 0x07,
        ensures
            final(self)@ == spec_exec_00(old(self)@, opcode),
            final(self)@.system_type == old(self)@.system_type,
            final(self)@.cpu_type == old(self)@.cpu_type,
            final(self)@.entry_point_override == old(self)@.entry_point_override,
            final(self)@.symbol_table == old(self)@.symbol_table,
            final(self)@.last_frame_time == old(self)@.last_frame_time,
            final(self)@.bus.video == old(self)@.bus.video,
            !spec_is_jump(opcode) ==> final(self)@.pc == old(self)@.pc.wrapping_add(
                spec_consumed_operands(opcode, old(self)@.cpu_type) as u16,
            ),
    {
        proof {
            reveal(spec_exec_00);
        }
        match opcode {
            0x05 => {
                let addr = self.fetch_byte() as u16;
                self.regs.a = self.regs.a | self.bus.read_byte(addr);
                self.update_zero_and_negative_flags(self.regs.a);
            },

            0x06 => {
                let addr = self.fetch_byte() as u16;
                let value = self.bus.read_byte(addr);
                let result = self.asl(value);
                self.bus.write_byte(addr, result);
            },

            0x04 => {
                let addr = self.fetch_byte() as u16;
                let value = self.bus.read_byte(addr);
                self.set_flag(Flags::ZERO, (value & self.regs.a) == 0);
                self.bus.write_byte(addr, value | self.regs.a);
            },

            0x00 => {
                self.bus.interrupts.request_brk();
            },

            0x01 => {
                let zp_addr = self.fetch_byte().wrapping_add(self.regs.x);
                let addr = self.bus.read_word(zp_addr as u16);
                let value = self.bus.read_byte(addr);
                self.regs.a = self.regs.a | value;

                self.update_zero_and_negative_flags(self.regs.a);
            },

            0x03 => {
            },

            0x02 => {
                self.pc = self.pc.wrapping_add(1);
            },

            0x07 => {
                let addr = self.fetch_byte() as u16;
                if self.cpu_type != CpuType::NMOS6502 {
                    let bit_n = (opcode >> 4) & 0b111;
                    proof {
                        assert((opcode >> 4) & 0b111 < 8) by (bit_vector);
                    }
                    let mask = !(1u8 << bit_n);

                    let value = self.bus.read_byte(addr);
                    let result = value & mask;
                    self.bus.write_byte(addr, result);
                }
            },

            _ => {
            },
        }
    }

    #[verifier::rlimit(100)]
    #[verifier::spinoff_prover]
    fn decode_08(&mut self, opcode: u8)
        requires
            0x08 <= opcode <= 0x0F,
        ensures
            final(self)@ == spec_exec_08(old(self)@, opcode),
            final(self)@.system_type == old(self)@.system_type,
            final(self)@.cpu_type == old(self)@.cpu_type,
            final(self)@.entry_point_override == old(self)@.entry_point_override,
            final(self)@.symbol_table == old(self)@.symbol_table,
            final(self)@.last_frame_time == old(self)@.last_frame_time,
            final(self)@.bus.video == old(self)@.bus.video,
            !spec_is_jump(opcode) ==> final(self)@.pc == old(self)@.pc.wrapping_add(
                spec_consumed_operands(opcode, old(self)@.cpu_type) as u16,
            ),
    {
        proof {
            reveal(spec_exec_08);
        }
        match opcode {
            0x08 => {
                let pushed_p = (self.p | Flags::UNUSED) | Flags::BREAK;

                self.push_stack(pushed_p);
            },

            0x0D => {
                let addr = self.fetch_word();
                self.regs.a = self.regs.a | self.bus.read_byte(addr);
                self.update_zero_and_negative_flags(self.regs.a);
            },

            0x0A => {
                let a = self.regs.a;
                self.regs.a = self.asl(a);
            },

            0x0E => {
                let addr = self.fetch_word();
                let value = self.bus.read_byte(addr);
                let result = self.asl(value);
                self.bus.write_byte(addr, result);
            },

            0x0C => {
                let addr = self.fetch_word();
                let value = self.bus.read_byte(addr);
                self.set_flag(Flags::ZERO, (value & self.regs.a) == 0);
                self.bus.write_byte(addr, value | self.regs.a);
            },

            0x09 => {
                let value = self.fetch_byte();
                self.regs.a = self.regs.a | value;
                self.update_zero_and_negative_flags(self.regs.a);
            },

            0x0F => {
                let zp_addr = self.fetch_byte() as u16;
                if self.cpu_type != CpuType::NMOS6502 {
                    let rel_offset: i16 = (self.fetch_byte() as i8) as i16;
                    let value = self.bus.read_byte(zp_addr);
                    let shift = (opcode.wrapping_sub(0x0F)) / 0x10;
                    let bit = 1u8 << shift;

                    if (value & bit) == 0 {
                        self.pc = self.pc.wrapping_add_signed(rel_offset);
                    }
                }
            },

            0x0B => {
            },

            _ => {
            },
        }
    }

    #[verifier::rlimit(100)]
    #[verifier::spinoff_prover]
    fn decode_10(&mut self, opcode: u8)
        requires
            0x10 <= opcode <= 0x17,
        ensures
            final(self)@ == spec_exec_10(old(self)@, opcode),
            final(self)@.system_type == old(self)@.system_type,
            final(self)@.cpu_type == old(self)@.cpu_type,
            final(self)@.entry_point_override == old(self)@.entry_point_override,
            final(self)@.symbol_table == old(self)@.symbol_table,
            final(self)@.last_frame_time == old(self)@.last_frame_time,
            final(self)@.bus.video == old(self)@.bus.video,
            !spec_is_jump(opcode) ==> final(self)@.pc == old(self)@.pc.wrapping_add(
                spec_consumed_operands(opcode, old(self)@.cpu_type) as u16,
            ),
    {
        proof {
            reveal(spec_exec_10);
        }
        match opcode {
            0x14 => {
                let addr = self.fetch_byte() as u16;
                let value = self.bus.read_byte(addr);
                self.set_flag(Flags::ZERO, (value & self.regs.a) == 0);
                self.bus.write_byte(addr, value & !self.regs.a);
            },

            0x10 => {
                let offset: i8 = self.fetch_byte() as i8;

                if !(self.p & Flags::NEGATIVE == Flags::NEGATIVE) {
                    self.pc = self.pc.wrapping_add_signed(offset as i16);
                }
            },

            0x16 => {
                let addr = self.fetch_byte().wrapping_add(self.regs.x) as u16;
                let mut value = self.bus.read_byte(addr);

                let carry = value & 0x80 != 0;
                value = value << 1;

                self.bus.write_byte(addr, value);

                self.set_flag(Flags::CARRY, carry);
                self.update_zero_and_negative_flags(value);
            },

            0x15 => {
                let addr = self.fetch_byte().wrapping_add(self.regs.x) as u16;
                let value = self.bus.read_byte(addr);
                self.regs.a = self.regs.a | value;

                self.update_zero_and_negative_flags(self.regs.a);
            },

            0x11 => {
                let zp_addr = self.fetch_byte() as u16;
                let addr = self.bus.read_word(zp_addr).wrapping_add(self.regs.y as u16);
                let value = self.bus.read_byte(addr);
                self.regs.a = self.regs.a | value;

                self.update_zero_and_negative_flags(self.regs.a);
            },

            0x13 => {
            },

            0x17 => {
                let addr = self.fetch_byte() as u16;
                if self.cpu_type != CpuType::NMOS6502 {
                    let bit_n = (opcode >> 4) & 0b111;
                    proof {
                        assert((opcode >> 4) & 0b111 < 8) by (bit_vector);
                    }
                    let mask = !(1u8 << bit_n);

                    let value = self.bus.read_byte(addr);
                    let result = value & mask;
                    self.bus.write_byte(addr, result);
                }
            },

            0x12 => {
                let addr_ptr = self.fetch_byte() as u16;

                let addr = self.bus.read_word(addr_ptr);
                let value = self.bus.read_byte(addr);

                self.regs.a = self.regs.a | value;

                self.set_flag(Flags::ZERO, self.regs.a == 0);
                self.set_flag(Flags::NEGATIVE, (self.regs.a & 0x80) != 0);
            },

            _ => {
            },
        }
    }

    #[verifier::rlimit(100)]
    #[verifier::spinoff_prover]
    fn decode_18(&mut self, opcode: u8)
        requires
            0x18 <= opcode <= 0x1F,
        ensures
            final(self)@ == spec_exec_18(old(self)@, opcode),
            final(self)@.system_type == old(self)@.system_type,
            final(self)@.cpu_type == old(self)@.cpu_type,
            final(self)@.entry_point_override == old(self)@.entry_point_override,
            final(self)@.symbol_table == old(self)@.symbol_table,
            final(self)@.last_frame_time == old(self)@.last_frame_time,
            final(self)@.bus.video == old(self)@.bus.video,
            !spec_is_jump(opcode) ==> final(self)@.pc == old(self)@.pc.wrapping_add(
                spec_consumed_operands(opcode, old(self)@.cpu_type) as u16,
            ),
    {
        proof {
            reveal(spec_exec_18);
        }
        match opcode {
            0x1C => {
                let addr = self.fetch_word();
                let value = self.bus.read_byte(addr);
                self.set_flag(Flags::ZERO, (value & self.regs.a) == 0);
                self.bus.write_byte(addr, value & !self.regs.a);
                        
            },

            0x18 => {
                self.p = self.p & !Flags::CARRY;
                        
            },

            0x1E => {
                let base_addr = self.fetch_word();
                let addr = base_addr.wrapping_add(self.regs.x as u16);
                let mut value = self.bus.read_byte(addr);

                let new_carry = value & 0x80 != 0;

                value = value << 1;

                self.bus.write_byte(addr, value);

                self.set_flag(Flags::CARRY, new_carry);
                self.update_zero_and_negative_flags(value);
                        
            },

            0x1D => {
                let addr = self.fetch_word().wrapping_add(self.regs.x as u16);
                let value = self.bus.read_byte(addr);
                self.regs.a = self.regs.a | value;

                self.update_zero_and_negative_flags(self.regs.a);
                        
            },

            0x19 => {
                let addr = self.fetch_word().wrapping_add(self.regs.y as u16);
                let value = self.bus.read_byte(addr);
                self.regs.a = self.regs.a | value;

                self.update_zero_and_negative_flags(self.regs.a);
                        
            },

            0x1F => {
                let zp_addr = self.fetch_byte() as u16;
                if self.cpu_type != CpuType::NMOS6502 {
                    let rel_offset: i16 = (self.fetch_byte() as i8) as i16;
                    let value = self.bus.read_byte(zp_addr);
                    let shift = (opcode.wrapping_sub(0x0F)) / 0x10;
                    let bit = 1u8 << shift;

                    if (value & bit) == 0 {
                        self.pc = self.pc.wrapping_add_signed(rel_offset);
                    }
                }
                        
            },

            0x1B => {
                        
            },

            0x1A => {
                if self.cpu_type != CpuType::NMOS6502 {
                    self.regs.a = self.regs.a.wrapping_add(1);
                    self.update_zero_and_negative_flags(self.regs.a);
                }
                        
            },

            _ => {
            },
        }
    }

    #[verifier::rlimit(100)]
    #[verifier::spinoff_prover]
    #[verifier::rlimit(100)]
    #[verifier::spinoff_prover]
    fn decode_20(&mut self, opcode: u8)
        requires
            0x20 <= opcode <= 0x23,
        ensures
            final(self)@ == spec_exec_20(old(self)@, opcode),
            final(self)@.system_type == old(self)@.system_type,
            final(self)@.cpu_type == old(self)@.cpu_type,
            final(self)@.entry_point_override == old(self)@.entry_point_override,
            final(self)@.symbol_table == old(self)@.symbol_table,
            final(self)@.last_frame_time == old(self)@.last_frame_time,
            final(self)@.bus.video == old(self)@.bus.video,
            !spec_is_jump(opcode) ==> final(self)@.pc == old(self)@.pc.wrapping_add(
                spec_consumed_operands(opcode, old(self)@.cpu_type) as u16,
            ),
            opcode == 0x20 ==> final(self)@ == spec_jsr(old(self)@),
    {
        proof {
            reveal(spec_exec_20);
        }
        match opcode {
            0x20 => {
                let addr = self.fetch_word();

                self.pc = self.pc.wrapping_sub(1);
                self.push_stack((self.pc >> 8) as u8);
                self.push_stack((self.pc & 0xFF) as u8);

                self.pc = addr;
            },

            0x21 => {
                let zp_addr = self.fetch_byte().wrapping_add(self.regs.x);
                let addr = self.bus.read_word(zp_addr as u16);
                let value = self.bus.read_byte(addr);
                self.regs.a = self.regs.a & value;

                self.update_zero_and_negative_flags(self.regs.a);
            },

            0x23 => {
            },

            0x22 => {
                self.pc = self.pc.wrapping_add(1);
            },

            _ => {
            },
        }
    }

    #[verifier::rlimit(100)]
    #[verifier::spinoff_prover]
    fn decode_24(&mut self, opcode: u8)
        requires
            0x24 <= opcode <= 0x27,
        ensures
            final(self)@ == spec_exec_20(old(self)@, opcode),
            final(self)@.system_type == old(self)@.system_type,
            final(self)@.cpu_type == old(self)@.cpu_type,
            final(self)@.entry_point_override == old(self)@.entry_point_override,
            final(self)@.symbol_table == old(self)@.symbol_table,
            final(self)@.last_frame_time == old(self)@.last_frame_time,
            final(self)@.bus.video == old(self)@.bus.video,
            !spec_is_jump(opcode) ==> final(self)@.pc == old(self)@.pc.wrapping_add(
                spec_consumed_operands(opcode, old(self)@.cpu_type) as u16,
            ),
    {
        proof {
            reveal(spec_exec_20);
        }
        match opcode {
            0x25 => {
                let addr = self.fetch_byte() as u16;
                self.regs.a = self.regs.a & self.bus.read_byte(addr);
                self.update_zero_and_negative_flags(self.regs.a);
            },

            0x24 => {
                let addr = self.fetch_byte() as u16;
                let value = self.bus.read_byte(addr);
                self.execute_bit(value);
            },

            0x26 => {
                let addr = self.fetch_byte() as u16;
                let value = self.bus.read_byte(addr);
                let result = self.rol(value);
                self.bus.write_byte(addr, result);
            },

            0x27 => {
                let addr = self.fetch_byte() as u16;
                if self.cpu_type != CpuType::NMOS6502 {
                    let bit_n = (opcode >> 4) & 0b111;
                    proof {
                        assert((opcode >> 4) & 0b111 < 8) by (bit_vector);
                    }
                    let mask = !(1u8 << bit_n);

                    let value = self.bus.read_byte(addr);
                    let result = value & mask;
                    self.bus.write_byte(addr, result);
                }
            },

            _ => {
            },
        }
    }

    #[verifier::rlimit(100)]
    #[verifier::spinoff_prover]
    fn decode_28(&mut self, opcode: u8)
        requires
            0x28 <= opcode <= 0x2B,
        ensures
            final(self)@ == spec_exec_28(old(self)@, opcode),
            final(self)@.system_type == old(self)@.system_type,
            final(self)@.cpu_type == old(self)@.cpu_type,
            final(self)@.entry_point_override == old(self)@.entry_point_override,
            final(self)@.symbol_table == old(self)@.symbol_table,
            final(self)@.last_frame_time == old(self)@.last_frame_time,
            final(self)@.bus.video == old(self)@.bus.video,
            !spec_is_jump(opcode) ==> final(self)@.pc == old(self)@.pc.wrapping_add(
                spec_consumed_operands(opcode, old(self)@.cpu_type) as u16,
            ),
    {
        proof {
            reveal(spec_exec_28);
        }
        match opcode {
            0x29 => {
                let value = self.fetch_byte();
                self.regs.a = self.regs.a & value;
                self.update_zero_and_negative_flags(self.regs.a);
            },

            0x2A => {
                let a = self.regs.a;
                self.regs.a = self.rol(a);
            },

            0x28 => {
                let popped = self.pop_stack();
                let mut restored_p = popped;

                restored_p = restored_p | Flags::UNUSED;
                restored_p = restored_p & !Flags::BREAK;

                self.p = restored_p;
            },

            0x2B => {
            },

            _ => {
            },
        }
    }

    #[verifier::rlimit(100)]
    #[verifier::spinoff_prover]
    fn decode_2c(&mut self, opcode: u8)
        requires
            0x2C <= opcode <= 0x2D,
        ensures
            final(self)@ == spec_exec_28(old(self)@, opcode),
            final(self)@.system_type == old(self)@.system_type,
            final(self)@.cpu_type == old(self)@.cpu_type,
            final(self)@.entry_point_override == old(self)@.entry_point_override,
            final(self)@.symbol_table == old(self)@.symbol_table,
            final(self)@.last_frame_time == old(self)@.last_frame_time,
            final(self)@.bus.video == old(self)@.bus.video,
            !spec_is_jump(opcode) ==> final(self)@.pc == old(self)@.pc.wrapping_add(
                spec_consumed_operands(opcode, old(self)@.cpu_type) as u16,
            ),
    {
        proof {
            reveal(spec_exec_28);
        }
        match opcode {
            0x2D => {
                let addr = self.fetch_word();
                self.regs.a = self.regs.a & self.bus.read_byte(addr);
                self.update_zero_and_negative_flags(self.regs.a);
            },

            0x2C => {
                let addr = self.fetch_word();
                let value = self.bus.read_byte(addr);
                self.execute_bit(value);
            },

            _ => {
            },
        }
    }

    #[verifier::rlimit(100)]
    #[verifier::spinoff_prover]
    fn decode_2e(&mut self, opcode: u8)
        requires
            0x2E <= opcode <= 0x2F,
        ensures
            final(self)@ == spec_exec_28(old(self)@, opcode),
            final(self)@.system_type == old(self)@.system_type,
            final(self)@.cpu_type == old(self)@.cpu_type,
            final(self)@.entry_point_override == old(self)@.entry_point_override,
            final(self)@.symbol_table == old(self)@.symbol_table,
            final(self)@.last_frame_time == old(self)@.last_frame_time,
            final(self)@.bus.video == old(self)@.bus.video,
            !spec_is_jump(opcode) ==> final(self)@.pc == old(self)@.pc.wrapping_add(
                spec_consumed_operands(opcode, old(self)@.cpu_type) as u16,
            ),
    {
        proof {
            reveal(spec_exec_28);
        }
        match opcode {
            0x2E => {
                let addr = self.fetch_word();
                let value = self.bus.read_byte(addr);
                let result = self.rol(value);
                self.bus.write_byte(addr, result);
            },

            0x2F => {
                let zp_addr = self.fetch_byte() as u16;
                if self.cpu_type != CpuType::NMOS6502 {
                    let rel_offset: i16 = (self.fetch_byte() as i8) as i16;
                    let value = self.bus.read_byte(zp_addr);
                    let shift = (opcode.wrapping_sub(0x0F)) / 0x10;
                    let bit = 1u8 << shift;

                    if (value & bit) == 0 {
                        self.pc = self.pc.wrapping_add_signed(rel_offset);
                    }
                }
            },

            _ => {
            },
        }
    }

    #[verifier::rlimit(100)]
    #[verifier::spinoff_prover]
    fn decode_30(&mut self, opcode: u8)
        requires
            0x30 <= opcode <= 0x37,
        ensures
            final(self)@ == spec_exec_30(old(self)@, opcode),
            final(self)@.system_type == old(self)@.system_type,
            final(self)@.cpu_type == old(self)@.cpu_type,
            final(self)@.entry_point_override == old(self)@.entry_point_override,
            final(self)@.symbol_table == old(self)@.symbol_table,
            final(self)@.last_frame_time == old(self)@.last_frame_time,
            final(self)@.bus.video == old(self)@.bus.video,
            !spec_is_jump(opcode) ==> final(self)@.pc == old(self)@.pc.wrapping_add(
                spec_consumed_operands(opcode, old(self)@.cpu_type) as u16,
            ),
    {
        proof {
            reveal(spec_exec_30);
        }
        match opcode {
            0x34 => {
                let addr = self.fetch_byte().wrapping_add(self.regs.x) as u16;
                let value = self.bus.read_byte(addr);
                self.execute_bit(value);
            },

            0x30 => {
                let offset: i8 = self.fetch_byte() as i8;
                if self.p & Flags::NEGATIVE == Flags::NEGATIVE {
                    self.pc = self.pc.wrapping_add(offset as u16);
                }
            },

            0x36 => {
                let addr = self.fetch_byte().wrapping_add(self.regs.x) as u16;
                let mut value = self.bus.read_byte(addr);

                let old_carry = self.p & Flags::CARRY == Flags::CARRY;
                let new_carry = value & 0x80 != 0;

                value = (value << 1) | (if old_carry {
                    1
                } else {
                    0
                });

                self.bus.write_byte(addr, value);

                self.set_flag(Flags::CARRY, new_carry);
                self.update_zero_and_negative_flags(value);
            },

            0x35 => {
                let addr = self.fetch_byte().wrapping_add(self.regs.x);
                let value = self.bus.read_byte(addr as u16);
                self.regs.a = self.regs.a & value;

                self.update_zero_and_negative_flags(self.regs.a);
            },

            0x31 => {
                let zp_addr = self.fetch_byte() as u16;
                let base_addr = self.bus.read_word(zp_addr);
                let addr = base_addr.wrapping_add(self.regs.y as u16);
                let value = self.bus.read_byte(addr);
                self.regs.a = self.regs.a & value;

                self.update_zero_and_negative_flags(self.regs.a);
            },

            0x33 => {
            },

            0x37 => {
                let addr = self.fetch_byte() as u16;
                if self.cpu_type != CpuType::NMOS6502 {
                    let bit_n = (opcode >> 4) & 0b111;
                    proof {
                        assert((opcode >> 4) & 0b111 < 8) by (bit_vector);
                    }
                    let mask = !(1u8 << bit_n);

                    let value = self.bus.read_byte(addr);
                    let result = value & mask;
                    self.bus.write_byte(addr, result);
                }
            },

            0x32 => {
                let addr_ptr = self.fetch_byte() as u16;
                let addr = self.bus.read_word(addr_ptr);
                let value = self.bus.read_byte(addr);

                self.regs.a = self.regs.a & value;

                self.set_flag(Flags::ZERO, self.regs.a == 0);
                self.set_flag(Flags::NEGATIVE, (self.regs.a & 0x80) != 0);
            },

            _ => {
            },
        }
    }

    #[verifier::rlimit(100)]
    #[verifier::spinoff_prover]
    fn decode_38(&mut self, opcode: u8)
        requires
            0x38 <= opcode <= 0x3F,
        ensures
            final(self)@ == spec_exec_38(old(self)@, opcode),
            final(self)@.system_type == old(self)@.system_type,
            final(self)@.cpu_type == old(self)@.cpu_type,
            final(self)@.entry_point_override == old(self)@.entry_point_override,
            final(self)@.symbol_table == old(self)@.symbol_table,
            final(self)@.last_frame_time == old(self)@.last_frame_time,
            final(self)@.bus.video == old(self)@.bus.video,
            !spec_is_jump(opcode) ==> final(self)@.pc == old(self)@.pc.wrapping_add(
                spec_consumed_operands(opcode, old(self)@.cpu_type) as u16,
            ),
    {
        proof {
            reveal(spec_exec_38);
        }
        match opcode {
            0x3C => {
                let addr = self.fetch_word().wrapping_add(self.regs.x as u16);
                let value = self.bus.read_byte(addr);
                self.execute_bit(value);
            },

            0x38 => {
                self.p = self.p | Flags::CARRY;
            },

            0x3E => {
                let base_addr = self.fetch_word();
                let addr = base_addr.wrapping_add(self.regs.x as u16);
                let mut value = self.bus.read_byte(addr);

                let new_carry = (value & 0x80) != 0;

                value = (value << 1) | (if self.p & Flags::CARRY == Flags::CARRY {
                    1
                } else {
                    0
                });

                self.bus.write_byte(addr, value);

                self.set_flag(Flags::CARRY, new_carry);
                self.update_zero_and_negative_flags(value);
            },

            0x3D => {
                let addr = self.fetch_word().wrapping_add(self.regs.x as u16);
                let value = self.bus.read_byte(addr);
                self.regs.a = self.regs.a & value;

                self.update_zero_and_negative_flags(self.regs.a);
            },

            0x39 => {
                let addr = self.fetch_word().wrapping_add(self.regs.y as u16);
                let value = self.bus.read_byte(addr);
                self.regs.a = self.regs.a & value;

                self.update_zero_and_negative_flags(self.regs.a);
            },

            0x3F => {
                let zp_addr = self.fetch_byte() as u16;
                if self.cpu_type != CpuType::NMOS6502 {
                    let rel_offset: i16 = (self.fetch_byte() as i8) as i16;
                    let value = self.bus.read_byte(zp_addr);
                    let shift = (opcode.wrapping_sub(0x0F)) / 0x10;
                    let bit = 1u8 << shift;

                    if (value & bit) == 0 {
                        self.pc = self.pc.wrapping_add_signed(rel_offset);
                    }
                }
            },

            0x3B => {
            },

            0x3A => {
                if self.cpu_type != CpuType::NMOS6502 {
                    self.regs.a = self.regs.a.wrapping_sub(1);
                    self.update_zero_and_negative_flags(self.regs.a);
                }
            },

            _ => {
            },
        }
    }

    #[verifier::rlimit(100)]
    #[verifier::spinoff_prover]
    fn decode_40(&mut self, opcode: u8)
        requires
            0x40 <= opcode <= 0x47,
        ensures
            final(self)@ == spec_exec_40(old(self)@, opcode),
            final(self)@.system_type == old(self)@.system_type,
            final(self)@.cpu_type == old(self)@.cpu_type,
            final(self)@.entry_point_override == old(self)@.entry_point_override,
            final(self)@.symbol_table == old(self)@.symbol_table,
            final(self)@.last_frame_time == old(self)@.last_frame_time,
            final(self)@.bus.video == old(self)@.bus.video,
            !spec_is_jump(opcode) ==> final(self)@.pc == old(self)@.pc.wrapping_add(
                spec_consumed_operands(opcode, old(self)@.cpu_type) as u16,
            ),
    {
        proof {
            reveal(spec_exec_40);
        }
        match opcode {
            0x45 => {
                let addr = self.fetch_byte() as u16;
                self.regs.a = self.regs.a ^ self.bus.read_byte(addr);
                self.update_zero_and_negative_flags(self.regs.a);
            },

            0x46 => {
                let addr = self.fetch_byte() as u16;
                let value = self.bus.read_byte(addr);
                let result = self.lsr(value);
                self.bus.write_byte(addr, result);
            },

            0x40 => {
                let mut restored_p = self.pop_stack();
                restored_p = restored_p | Flags::UNUSED;
                restored_p = restored_p & !Flags::BREAK;
                self.p = restored_p;

                let lo = self.pop_stack() as u16;
                let hi = self.pop_stack() as u16;
                proof {
                    crate::util::lemma_word_combine(hi, lo);
                }
                self.pc = (hi << 8) | lo;
            },

            0x41 => {
                let zero_page_addr = self.fetch_byte().wrapping_add(self.regs.x);
                let addr = self.bus.read_word(zero_page_addr as u16);
                let value = self.bus.read_byte(addr);
                self.regs.a = self.regs.a ^ value;

                self.update_zero_and_negative_flags(self.regs.a);
            },

            0x43 => {
            },

            0x42 => {
                self.pc = self.pc.wrapping_add(1);
            },

            0x44 => {
                self.pc = self.pc.wrapping_add(1);
            },

            0x47 => {
                let addr = self.fetch_byte() as u16;
                if self.cpu_type != CpuType::NMOS6502 {
                    let bit_n = (opcode >> 4) & 0b111;
                    proof {
                        assert((opcode >> 4) & 0b111 < 8) by (bit_vector);
                    }
                    let mask = !(1u8 << bit_n);

                    let value = self.bus.read_byte(addr);
                    let result = value & mask;
                    self.bus.write_byte(addr, result);
                }
            },

            _ => {
            },
        }
    }

    #[verifier::rlimit(100)]
    #[verifier::spinoff_prover]
    fn decode_48(&mut self, opcode: u8)
        requires
            0x48 <= opcode <= 0x4F,
        ensures
            final(self)@ == spec_exec_48(old(self)@, opcode),
            final(self)@.system_type == old(self)@.system_type,
            final(self)@.cpu_type == old(self)@.cpu_type,
            final(self)@.entry_point_override == old(self)@.entry_point_override,
            final(self)@.symbol_table == old(self)@.symbol_table,
            final(self)@.last_frame_time == old(self)@.last_frame_time,
            final(self)@.bus.video == old(self)@.bus.video,
            !spec_is_jump(opcode) ==> final(self)@.pc == old(self)@.pc.wrapping_add(
                spec_consumed_operands(opcode, old(self)@.cpu_type) as u16,
            ),
    {
        proof {
            reveal(spec_exec_48);
        }
        match opcode {
            0x49 => {
                let value = self.fetch_byte();
                self.regs.a = self.regs.a ^ value;
                self.update_zero_and_negative_flags(self.regs.a);
            },

            0x4D => {
                let addr = self.fetch_word();
                self.regs.a = self.regs.a ^ self.bus.read_byte(addr);
                self.update_zero_and_negative_flags(self.regs.a);
            },

            0x4A => {
                let a = self.regs.a;
                self.regs.a = self.lsr(a);
            },

            0x4E => {
                let addr = self.fetch_word();
                let value = self.bus.read_byte(addr);
                let result = self.lsr(value);
                self.bus.write_byte(addr, result);
            },

            0x4C => {
                let target = self.fetch_word();
                self.pc = target;
            },

            0x48 => {
                let a = self.regs.a;
                self.push_stack(a);
            },

            0x4F => {
                let zp_addr = self.fetch_byte() as u16;
                if self.cpu_type != CpuType::NMOS6502 {
                    let rel_offset: i16 = (self.fetch_byte() as i8) as i16;
                    let value = self.bus.read_byte(zp_addr);
                    let shift = (opcode.wrapping_sub(0x0F)) / 0x10;
                    let bit = 1u8 << shift;

                    if (value & bit) == 0 {
                        self.pc = self.pc.wrapping_add_signed(rel_offset);
                    }
                }
            },

            0x4B => {
            },

            _ => {
            },
        }
    }

    #[verifier::rlimit(100)]
    #[verifier::spinoff_prover]
    fn decode_50(&mut self, opcode: u8)
        requires
            0x50 <= opcode <= 0x57,
        ensures
            final(self)@ == spec_exec_50(old(self)@, opcode),
            final(self)@.system_type == old(self)@.system_type,
            final(self)@.cpu_type == old(self)@.cpu_type,
            final(self)@.entry_point_override == old(self)@.entry_point_override,
            final(self)@.symbol_table == old(self)@.symbol_table,
            final(self)@.last_frame_time == old(self)@.last_frame_time,
            final(self)@.bus.video == old(self)@.bus.video,
            !spec_is_jump(opcode) ==> final(self)@.pc == old(self)@.pc.wrapping_add(
                spec_consumed_operands(opcode, old(self)@.cpu_type) as u16,
            ),
    {
        proof {
            reveal(spec_exec_50);
        }
        match opcode {
            0x50 => {
                let offset: i8 = self.fetch_byte() as i8;
                if !(self.p & Flags::OVERFLOW == Flags::OVERFLOW) {
                    self.pc = self.pc.wrapping_add(offset as u16);
                }
            },

            0x56 => {
                let addr = self.fetch_byte().wrapping_add(self.regs.x) as u16;
                let mut value = self.bus.read_byte(addr);

                let carry = value & 0x01 != 0;
                value = value >> 1;

                self.bus.write_byte(addr, value);

                self.set_flag(Flags::CARRY, carry);
                self.update_zero_and_negative_flags(value);
            },

            0x55 => {
                let zp_addr = self.fetch_byte().wrapping_add(self.regs.x) as u16;
                let value = self.bus.read_byte(zp_addr);
                self.regs.a = self.regs.a ^ value;

                self.update_zero_and_negative_flags(self.regs.a);
            },

            0x51 => {
                let zero_page_addr = self.fetch_byte() as u16;
                let base_addr = self.bus.read_word(zero_page_addr);
                let addr = base_addr.wrapping_add(self.regs.y as u16);
                let value = self.bus.read_byte(addr);
                self.regs.a = self.regs.a ^ value;

                self.update_zero_and_negative_flags(self.regs.a);
            },

            0x53 => {
            },

            0x54 => {
                self.pc = self.pc.wrapping_add(1);
            },

            0x57 => {
                let addr = self.fetch_byte() as u16;
                if self.cpu_type != CpuType::NMOS6502 {
                    let bit_n = (opcode >> 4) & 0b111;
                    proof {
                        assert((opcode >> 4) & 0b111 < 8) by (bit_vector);
                    }
                    let mask = !(1u8 << bit_n);

                    let value = self.bus.read_byte(addr);
                    let result = value & mask;
                    self.bus.write_byte(addr, result);
                }
            },

            0x52 => {
                let addr_ptr = self.fetch_byte() as u16;

                let addr = self.bus.read_word(addr_ptr);
                let value = self.bus.read_byte(addr);

                self.regs.a = self.regs.a ^ value;

                self.set_flag(Flags::ZERO, self.regs.a == 0);
                self.set_flag(Flags::NEGATIVE, (self.regs.a & 0x80) != 0);
            },

            _ => {
            },
        }
    }

    #[verifier::rlimit(100)]
    #[verifier::spinoff_prover]
    fn decode_58(&mut self, opcode: u8)
        requires
            0x58 <= opcode <= 0x5F,
        ensures
            final(self)@ == spec_exec_58(old(self)@, opcode),
            final(self)@.system_type == old(self)@.system_type,
            final(self)@.cpu_type == old(self)@.cpu_type,
            final(self)@.entry_point_override == old(self)@.entry_point_override,
            final(self)@.symbol_table == old(self)@.symbol_table,
            final(self)@.last_frame_time == old(self)@.last_frame_time,
            final(self)@.bus.video == old(self)@.bus.video,
            !spec_is_jump(opcode) ==> final(self)@.pc == old(self)@.pc.wrapping_add(
                spec_consumed_operands(opcode, old(self)@.cpu_type) as u16,
            ),
    {
        proof {
            reveal(spec_exec_58);
        }
        match opcode {
            0x5A => {
                let y = self.regs.y;
                self.push_stack(y);
            },

            0x58 => {
                self.p = self.p & !Flags::IRQ_DISABLE;
            },

            0x5E => {
                let base_addr = self.fetch_word();
                let addr = base_addr.wrapping_add(self.regs.x as u16);
                let mut value = self.bus.read_byte(addr);

                let new_carry = value & 0x01 != 0;

                value = value >> 1;

                self.bus.write_byte(addr, value);

                self.set_flag(Flags::CARRY, new_carry);
                self.update_zero_and_negative_flags(value);
            },

            0x5D => {
                let base_addr = self.fetch_word();
                let addr = base_addr.wrapping_add(self.regs.x as u16);
                let value = self.bus.read_byte(addr);
                self.regs.a = self.regs.a ^ value;

                self.update_zero_and_negative_flags(self.regs.a);
            },

            0x59 => {
                let base_addr = self.fetch_word();
                let addr = base_addr.wrapping_add(self.regs.y as u16);
                let value = self.bus.read_byte(addr);
                self.regs.a = self.regs.a ^ value;

                self.update_zero_and_negative_flags(self.regs.a);
            },

            0x5F => {
                let zp_addr = self.fetch_byte() as u16;
                if self.cpu_type != CpuType::NMOS6502 {
                    let rel_offset: i16 = (self.fetch_byte() as i8) as i16;
                    let value = self.bus.read_byte(zp_addr);
                    let shift = (opcode.wrapping_sub(0x0F)) / 0x10;
                    let bit = 1u8 << shift;

                    if (value & bit) == 0 {
                        self.pc = self.pc.wrapping_add_signed(rel_offset);
                    }
                }
            },

            0x5B => {
            },

            0x5C => {
                self.pc = self.pc.wrapping_add(2);
            },

            _ => {
            },
        }
    }

    #[verifier::rlimit(100)]
    #[verifier::spinoff_prover]
    fn decode_60(&mut self, opcode: u8)
        requires
            0x60 <= opcode <= 0x67,
        ensures
            final(self)@ == spec_exec_60(old(self)@, opcode),
            final(self)@.system_type == old(self)@.system_type,
            final(self)@.cpu_type == old(self)@.cpu_type,
            final(self)@.entry_point_override == old(self)@.entry_point_override,
            final(self)@.symbol_table == old(self)@.symbol_table,
            final(self)@.last_frame_time == old(self)@.last_frame_time,
            final(self)@.bus.video == old(self)@.bus.video,
            !spec_is_jump(opcode) ==> final(self)@.pc == old(self)@.pc.wrapping_add(
                spec_consumed_operands(opcode, old(self)@.cpu_type) as u16,
            ),
            opcode == 0x60 ==> final(self)@ == spec_rts(old(self)@),
    {
        proof {
            reveal(spec_exec_60);
        }
        match opcode {
            0x65 => {
                let addr = self.fetch_byte() as u16;
                let value = self.bus.read_byte(addr);
                self.adc(value);
            },

            0x66 => {
                let addr = self.fetch_byte() as u16;
                let value = self.bus.read_byte(addr);
                let result = self.ror(value);
                self.bus.write_byte(addr, result);
            },

            0x60 => {
                let low = self.pop_stack() as u16;
                let high = self.pop_stack() as u16;
                proof {
                    crate::util::lemma_word_combine(high, low);
                }
                let return_addr = (high << 8) | low;
                self.pc = return_addr.wrapping_add(1);
            },

            0x64 => {
                let addr = self.fetch_byte() as u16;
                self.bus.write_byte(addr, 0x00);
            },

            0x61 => {
                let addr = self.fetch_indirect_x();
                let value = self.bus.read_byte(addr);
                self.adc(value);
            },

            0x63 => {
            },

            0x62 => {
                self.pc = self.pc.wrapping_add(1);
            },

            0x67 => {
                let addr = self.fetch_byte() as u16;
                if self.cpu_type != CpuType::NMOS6502 {
                    let bit_n = (opcode >> 4) & 0b111;
                    proof {
                        assert((opcode >> 4) & 0b111 < 8) by (bit_vector);
                    }
                    let mask = !(1u8 << bit_n);

                    let value = self.bus.read_byte(addr);
                    let result = value & mask;
                    self.bus.write_byte(addr, result);
                }
            },

            _ => {
            },
        }
    }

    #[verifier::rlimit(100)]
    #[verifier::spinoff_prover]
    fn decode_68(&mut self, opcode: u8)
        requires
            0x68 <= opcode <= 0x6F,
        ensures
            final(self)@ == spec_exec_68(old(self)@, opcode),
            final(self)@.system_type == old(self)@.system_type,
            final(self)@.cpu_type == old(self)@.cpu_type,
            final(self)@.entry_point_override == old(self)@.entry_point_override,
            final(self)@.symbol_table == old(self)@.symbol_table,
            final(self)@.last_frame_time == old(self)@.last_frame_time,
            final(self)@.bus.video == old(self)@.bus.video,
            !spec_is_jump(opcode) ==> final(self)@.pc == old(self)@.pc.wrapping_add(
                spec_consumed_operands(opcode, old(self)@.cpu_type) as u16,
            ),
            opcode == 0x6C ==> final(self)@ == spec_jmp_indirect(old(self)@),
    {
        proof {
            reveal(spec_exec_68);
        }
        match opcode {
            0x69 => {
                let value = self.fetch_byte();
                self.adc(value);
            },

            0x6D => {
                let addr = self.fetch_word();
                let value = self.bus.read_byte(addr);
                self.adc(value);
            },

            0x6A => {
                let a = self.regs.a;
                self.regs.a = self.ror(a);
            },

            0x6E => {
                let addr = self.fetch_word();
                let value = self.bus.read_byte(addr);
                let result = self.ror(value);
                self.bus.write_byte(addr, result);
            },

            0x6C => {
                let addr = self.fetch_word();
                let lo = self.bus.read_byte(addr) as u16;
                let hi = if self.cpu_type == CpuType::NMOS6502 && addr & 0x00FF == 0xFF {
                    // The NMOS wrap bug: the high byte comes from the
                    // start of the pointer's own page.
                    self.bus.read_byte(addr & 0xFF00) as u16
                } else {
                    self.bus.read_byte(addr.wrapping_add(1)) as u16
                };
                proof {
                    crate::util::lemma_word_combine(hi, lo);
                }

                self.pc = (hi << 8) | lo;
            },

            0x68 => {
                self.regs.a = self.pop_stack();
                self.update_zero_and_negative_flags(self.regs.a);
            },

            0x6F => {
                let zp_addr = self.fetch_byte() as u16;
                if self.cpu_type != CpuType::NMOS6502 {
                    let rel_offset: i16 = (self.fetch_byte() as i8) as i16;
                    let value = self.bus.read_byte(zp_addr);
                    let shift = (opcode.wrapping_sub(0x0F)) / 0x10;
                    let bit = 1u8 << shift;

                    if (value & bit) == 0 {
                        self.pc = self.pc.wrapping_add_signed(rel_offset);
                    }
                }
            },

            0x6B => {
            },

            _ => {
            },
        }
    }

    #[verifier::rlimit(100)]
    #[verifier::spinoff_prover]
    fn decode_70(&mut self, opcode: u8)
        requires
            0x70 <= opcode <= 0x77,
        ensures
            final(self)@ == spec_exec_70(old(self)@, opcode),
            final(self)@.system_type == old(self)@.system_type,
            final(self)@.cpu_type == old(self)@.cpu_type,
            final(self)@.entry_point_override == old(self)@.entry_point_override,
            final(self)@.symbol_table == old(self)@.symbol_table,
            final(self)@.last_frame_time == old(self)@.last_frame_time,
            final(self)@.bus.video == old(self)@.bus.video,
            !spec_is_jump(opcode) ==> final(self)@.pc == old(self)@.pc.wrapping_add(
                spec_consumed_operands(opcode, old(self)@.cpu_type) as u16,
            ),
    {
        proof {
            reveal(spec_exec_70);
        }
        match opcode {
            0x74 => {
                let addr = (self.fetch_byte() as u16 + self.regs.x as u16) & 0xFF;
                self.bus.write_byte(addr, 0x00);
            },

            0x70 => {
                let offset: i8 = self.fetch_byte() as i8;
                if self.p & Flags::OVERFLOW == Flags::OVERFLOW {
                    self.pc = self.pc.wrapping_add(offset as u16);
                }
            },

            0x76 => {
                let addr = self.fetch_byte().wrapping_add(self.regs.x) as u16;
                let mut value = self.bus.read_byte(addr);

                let old_carry = self.p & Flags::CARRY == Flags::CARRY;
                let new_carry = value & 0x01 != 0;

                value = (value >> 1) | (if old_carry {
                    0x80
                } else {
                    0
                });

                self.bus.write_byte(addr, value);

                self.set_flag(Flags::CARRY, new_carry);
                self.update_zero_and_negative_flags(value);
            },

            0x75 => {
                let zp_addr = self.fetch_byte().wrapping_add(self.regs.x) as u16;
                let value = self.bus.read_byte(zp_addr);
                self.adc(value);
            },

            0x71 => {
                let addr = self.fetch_indirect_y();
                let value = self.bus.read_byte(addr);
                self.adc(value);
            },

            0x73 => {
            },

            0x77 => {
                let addr = self.fetch_byte() as u16;
                if self.cpu_type != CpuType::NMOS6502 {
                    let bit_n = (opcode >> 4) & 0b111;
                    proof {
                        assert((opcode >> 4) & 0b111 < 8) by (bit_vector);
                    }
                    let mask = !(1u8 << bit_n);

                    let value = self.bus.read_byte(addr);
                    let result = value & mask;
                    self.bus.write_byte(addr, result);
                }
            },

            0x72 => {
                let addr_ptr = self.fetch_byte() as u16;

                let addr = self.bus.read_word(addr_ptr);
                let value = self.bus.read_byte(addr);

                self.adc(value);
            },

            _ => {
            },
        }
    }

    #[verifier::rlimit(100)]
    #[verifier::spinoff_prover]
    fn decode_78(&mut self, opcode: u8)
        requires
            0x78 <= opcode <= 0x7F,
        ensures
            final(self)@ == spec_exec_78(old(self)@, opcode),
            final(self)@.system_type == old(self)@.system_type,
            final(self)@.cpu_type == old(self)@.cpu_type,
            final(self)@.entry_point_override == old(self)@.entry_point_override,
            final(self)@.symbol_table == old(self)@.symbol_table,
            final(self)@.last_frame_time == old(self)@.last_frame_time,
            final(self)@.bus.video == old(self)@.bus.video,
            !spec_is_jump(opcode) ==> final(self)@.pc == old(self)@.pc.wrapping_add(
                spec_consumed_operands(opcode, old(self)@.cpu_type) as u16,
            ),
    {
        proof {
            reveal(spec_exec_78);
        }
        match opcode {
            0x7A => {
                self.regs.y = self.pop_stack();

                if self.cpu_type == CpuType::CMOS65C02 || self.cpu_type == CpuType::WDC65C02S {
                    let y = self.regs.y;
                    self.update_zero_and_negative_flags(y);
                }
            },

            0x78 => {
                self.p = self.p | Flags::IRQ_DISABLE;
            },

            0x7E => {
                let base_addr = self.fetch_word();
                let addr = base_addr.wrapping_add(self.regs.x as u16);
                let mut value = self.bus.read_byte(addr);

                let new_carry = (value & 0x01) != 0;

                value = (value >> 1) | ((if self.p & Flags::CARRY == Flags::CARRY {
                    1u8
                } else {
                    0u8
                }) << 7);

                self.bus.write_byte(addr, value);

                self.set_flag(Flags::CARRY, new_carry);
                self.update_zero_and_negative_flags(value);
            },

            0x7D => {
                let base_addr = self.fetch_word();
                let addr = base_addr.wrapping_add(self.regs.x as u16);
                let value = self.bus.read_byte(addr);
                self.adc(value);
            },

            0x79 => {
                let addr = self.fetch_word().wrapping_add(self.regs.y as u16);
                let value = self.bus.read_byte(addr);
                self.adc(value);
            },

            0x7F => {
                let zp_addr = self.fetch_byte() as u16;
                if self.cpu_type != CpuType::NMOS6502 {
                    let rel_offset: i16 = (self.fetch_byte() as i8) as i16;
                    let value = self.bus.read_byte(zp_addr);
                    let shift = (opcode.wrapping_sub(0x0F)) / 0x10;
                    let bit = 1u8 << shift;

                    if (value & bit) == 0 {
                        self.pc = self.pc.wrapping_add_signed(rel_offset);
                    }
                }
            },

            0x7C => {
                let base = self.fetch_word();
                let addr = base.wrapping_add(self.regs.x as u16);
                let lo = self.bus.read_byte(addr) as u16;
                let hi = self.bus.read_byte(addr.wrapping_add(1)) as u16;
                self.pc = (hi << 8) | lo;
            },

            0x7B => {
            },

            _ => {
            },
        }
    }

    #[verifier::rlimit(100)]
    #[verifier::spinoff_prover]
    fn decode_80(&mut self, opcode: u8)
        requires
            0x80 <= opcode <= 0x87,
        ensures
            final(self)@ == spec_exec_80(old(self)@, opcode),
            final(self)@.system_type == old(self)@.system_type,
            final(self)@.cpu_type == old(self)@.cpu_type,
            final(self)@.entry_point_override == old(self)@.entry_point_override,
            final(self)@.symbol_table == old(self)@.symbol_table,
            final(self)@.last_frame_time == old(self)@.last_frame_time,
            final(self)@.bus.video == old(self)@.bus.video,
            !spec_is_jump(opcode) ==> final(self)@.pc == old(self)@.pc.wrapping_add(
                spec_consumed_operands(opcode, old(self)@.cpu_type) as u16,
            ),
    {
        proof {
            reveal(spec_exec_80);
        }
        match opcode {
            0x85 => {
                let addr = self.fetch_byte() as u16;
                self.bus.write_byte(addr, self.regs.a);
            },

            0x86 => {
                let addr = self.fetch_byte() as u16;
                self.bus.write_byte(addr, self.regs.x);
            },

            0x84 => {
                let addr = self.fetch_byte() as u16;
                self.bus.write_byte(addr, self.regs.y);
            },

            0x80 => {
                let offset: i8 = self.fetch_byte() as i8;
                self.pc = self.pc.wrapping_add_signed(offset as i16);
            },

            0x81 => {
                let base_address = self.fetch_byte();
                let zp_addr = base_address.wrapping_add(self.regs.x) & 0xFF;
                let effective_address = self.bus.read_word(zp_addr as u16);

                self.bus.write_byte(effective_address, self.regs.a);
            },

            0x83 => {
            },

            0x82 => {
                self.pc = self.pc.wrapping_add(1);
            },

            0x87 => {
                let addr = self.fetch_byte() as u16;
                if self.cpu_type != CpuType::NMOS6502 {
                    let bit_n = (opcode >> 4) & 0b111;
                    proof {
                        assert((opcode >> 4) & 0b111 < 8) by (bit_vector);
                    }
                    let mask = 1u8 << bit_n;

                    let value = self.bus.read_byte(addr);
                    let result = value | mask;
                    self.bus.write_byte(addr, result);
                }
            },

            _ => {
            },
        }
    }

    #[verifier::rlimit(100)]
    #[verifier::spinoff_prover]
    fn decode_88(&mut self, opcode: u8)
        requires
            0x88 <= opcode <= 0x8F,
        ensures
            final(self)@ == spec_exec_88(old(self)@, opcode),
            final(self)@.system_type == old(self)@.system_type,
            final(self)@.cpu_type == old(self)@.cpu_type,
            final(self)@.entry_point_override == old(self)@.entry_point_override,
            final(self)@.symbol_table == old(self)@.symbol_table,
            final(self)@.last_frame_time == old(self)@.last_frame_time,
            final(self)@.bus.video == old(self)@.bus.video,
            !spec_is_jump(opcode) ==> final(self)@.pc == old(self)@.pc.wrapping_add(
                spec_consumed_operands(opcode, old(self)@.cpu_type) as u16,
            ),
    {
        proof {
            reveal(spec_exec_88);
        }
        match opcode {
            0x8D => {
                let addr = self.fetch_word();
                let value = self.regs.a;
                self.bus.write_byte(addr, value);
            },

            0x8E => {
                let addr = self.fetch_word();
                self.bus.write_byte(addr, self.regs.x);
            },

            0x8C => {
                let addr = self.fetch_word();
                self.bus.write_byte(addr, self.regs.y);
            },

            0x89 => {
                let value = self.fetch_byte();
                self.set_flag(Flags::ZERO, (self.regs.a & value) == 0);
            },

            0x88 => {
                self.regs.y = self.regs.y.wrapping_sub(1);
                self.update_zero_and_negative_flags(self.regs.y);
            },

            0x8A => {
                self.regs.a = self.regs.x;
                self.update_zero_and_negative_flags(self.regs.a);
            },

            0x8F => {
                let zp_addr = self.fetch_byte() as u16;
                if self.cpu_type != CpuType::NMOS6502 {
                    let rel_offset: i16 = (self.fetch_byte() as i8) as i16;
                    let value = self.bus.read_byte(zp_addr);
                    let shift = (opcode.wrapping_sub(0x8F)) / 0x10;
                    let bit = 1u8 << shift;

                    if (value & bit) != 0 {
                        self.pc = self.pc.wrapping_add_signed(rel_offset);
                    }
                }
            },

            0x8B => {
            },

            _ => {
            },
        }
    }

    #[verifier::rlimit(100)]
    #[verifier::spinoff_prover]
    fn decode_90(&mut self, opcode: u8)
        requires
            0x90 <= opcode <= 0x97,
        ensures
            final(self)@ == spec_exec_90(old(self)@, opcode),
            final(self)@.system_type == old(self)@.system_type,
            final(self)@.cpu_type == old(self)@.cpu_type,
            final(self)@.entry_point_override == old(self)@.entry_point_override,
            final(self)@.symbol_table == old(self)@.symbol_table,
            final(self)@.last_frame_time == old(self)@.last_frame_time,
            final(self)@.bus.video == old(self)@.bus.video,
            !spec_is_jump(opcode) ==> final(self)@.pc == old(self)@.pc.wrapping_add(
                spec_consumed_operands(opcode, old(self)@.cpu_type) as u16,
            ),
    {
        proof {
            reveal(spec_exec_90);
        }
        match opcode {
            0x90 => {
                let offset: i8 = self.fetch_byte() as i8;
                if !(self.p & Flags::CARRY == Flags::CARRY) {
                    self.pc = self.pc.wrapping_add(offset as u16);
                }
            
            },

            0x96 => {
                let base_addr = self.fetch_byte() as u16;
                let addr = base_addr.wrapping_add(self.regs.y as u16) & 0x00FF;

                self.bus.write_byte(addr, self.regs.x);
            
            },

            0x94 => {
                let base = self.fetch_byte();
                let addr = base.wrapping_add(self.regs.x) as u16;
                self.bus.write_byte(addr, self.regs.y);
            
            },

            0x95 => {
                let base_address = self.fetch_byte() as u16;
                let effective_address = base_address.wrapping_add(self.regs.x as u16) & 0x00FF;
                self.bus.write_byte(effective_address, self.regs.a);
            
            },

            0x91 => {
                let base_address = self.fetch_byte();
                let pointer_address = self.bus.read_word(base_address as u16 & 0xFF);

                let effective_address = pointer_address.wrapping_add(self.regs.y as u16);
                self.bus.write_byte(effective_address, self.regs.a);
            
            },

            0x93 => {
            
            },

            0x92 => {
                let zp_addr = self.fetch_byte() as u16;
                if self.cpu_type != CpuType::NMOS6502 {
                    let indirect_addr = self.bus.read_word(zp_addr);
                    self.bus.write_byte(indirect_addr, self.regs.a);
                }
            },

            0x97 => {
                let addr = self.fetch_byte() as u16;
                if self.cpu_type != CpuType::NMOS6502 {
                    let bit_n = (opcode >> 4) & 0b111;
                    proof {
                        assert((opcode >> 4) & 0b111 < 8) by (bit_vector);
                    }
                    let mask = 1u8 << bit_n;

                    let value = self.bus.read_byte(addr);
                    let result = value | mask;
                    self.bus.write_byte(addr, result);
                }
            
            },

            _ => {
            },
        }
    }

    #[verifier::rlimit(100)]
    #[verifier::spinoff_prover]
    fn decode_98(&mut self, opcode: u8)
        requires
            0x98 <= opcode <= 0x9F,
        ensures
            final(self)@ == spec_exec_98(old(self)@, opcode),
            final(self)@.system_type == old(self)@.system_type,
            final(self)@.cpu_type == old(self)@.cpu_type,
            final(self)@.entry_point_override == old(self)@.entry_point_override,
            final(self)@.symbol_table == old(self)@.symbol_table,
            final(self)@.last_frame_time == old(self)@.last_frame_time,
            final(self)@.bus.video == old(self)@.bus.video,
            !spec_is_jump(opcode) ==> final(self)@.pc == old(self)@.pc.wrapping_add(
                spec_consumed_operands(opcode, old(self)@.cpu_type) as u16,
            ),
    {
        proof {
            reveal(spec_exec_98);
        }
        match opcode {
            0x9C => {
                let addr = self.fetch_word();
                self.bus.write_byte(addr, 0x00);
            },

            0x9E => {
                let addr = self.fetch_word().wrapping_add(self.regs.x as u16);
                self.bus.write_byte(addr, 0x00);
            },

            0x9A => {
                self.regs.sp = self.regs.x;
            },

            0x98 => {
                self.regs.a = self.regs.y;
                self.update_zero_and_negative_flags(self.regs.a);
            },

            0x99 => {
                let base_addr = self.fetch_word();
                let addr = base_addr.wrapping_add(self.regs.y as u16);

                let addr = if base_addr < 0x100 {
                    addr & 0xFF
                } else {
                    addr
                };

                self.bus.write_byte(addr, self.regs.a);
            },

            0x9D => {
                let base_addr = self.fetch_word();
                let addr = base_addr.wrapping_add(self.regs.x as u16);

                self.bus.write_byte(addr, self.regs.a);
            },

            0x9F => {
                let zp_addr = self.fetch_byte() as u16;
                if self.cpu_type != CpuType::NMOS6502 {
                    let rel_offset: i16 = (self.fetch_byte() as i8) as i16;
                    let value = self.bus.read_byte(zp_addr);
                    let shift = (opcode.wrapping_sub(0x8F)) / 0x10;
                    let bit = 1u8 << shift;

                    if (value & bit) != 0 {
                        self.pc = self.pc.wrapping_add_signed(rel_offset);
                    }
                }
            },

            0x9B => {
            },

            _ => {
            },
        }
    }

    #[verifier::rlimit(100)]
    #[verifier::spinoff_prover]
    fn decode_a0(&mut self, opcode: u8)
        requires
            0xA0 <= opcode <= 0xA7,
        ensures
            final(self)@ == spec_exec_a0(old(self)@, opcode),
            final(self)@.system_type == old(self)@.system_type,
            final(self)@.cpu_type == old(self)@.cpu_type,
            final(self)@.entry_point_override == old(self)@.entry_point_override,
            final(self)@.symbol_table == old(self)@.symbol_table,
            final(self)@.last_frame_time == old(self)@.last_frame_time,
            final(self)@.bus.video == old(self)@.bus.video,
            !spec_is_jump(opcode) ==> final(self)@.pc == old(self)@.pc.wrapping_add(
                spec_consumed_operands(opcode, old(self)@.cpu_type) as u16,
            ),
    {
        proof {
            reveal(spec_exec_a0);
        }
        match opcode {
            0xA5 => {
                let addr = self.fetch_byte() as u16;
                self.regs.a = self.bus.read_byte(addr);
                self.update_zero_and_negative_flags(self.regs.a);
            },

            0xA2 => {
                let value = self.fetch_byte();
                self.regs.x = value;
                self.update_zero_and_negative_flags(self.regs.x);
            },

            0xA6 => {
                let addr = self.fetch_byte() as u16;
                let value = self.bus.read_byte(addr);
                self.regs.x = value;
                self.update_zero_and_negative_flags(self.regs.x);
            },

            0xA0 => {
                let value = self.fetch_byte();
                self.regs.y = value;
                self.update_zero_and_negative_flags(self.regs.y);
            },

            0xA4 => {
                let addr = self.fetch_byte() as u16;
                self.regs.y = self.bus.read_byte(addr);
                self.update_zero_and_negative_flags(self.regs.y);
            },

            0xA1 => {
                let base_address = self.fetch_byte();
                let zp_addr = base_address.wrapping_add(self.regs.x) & 0xFF;
                let effective_address = self.bus.read_word(zp_addr as u16);
                self.regs.a = self.bus.read_byte(effective_address);
                self.update_zero_and_negative_flags(self.regs.a);
            },

            0xA3 => {
            },

            0xA7 => {
                let addr = self.fetch_byte() as u16;
                if self.cpu_type != CpuType::NMOS6502 {
                    let bit_n = (opcode >> 4) & 0b111;
                    proof {
                        assert((opcode >> 4) & 0b111 < 8) by (bit_vector);
                    }
                    let mask = 1u8 << bit_n;

                    let value = self.bus.read_byte(addr);
                    let result = value | mask;
                    self.bus.write_byte(addr, result);
                }
            },

            _ => {
            },
        }
    }

    #[verifier::rlimit(100)]
    #[verifier::spinoff_prover]
    fn decode_a8(&mut self, opcode: u8)
        requires
            0xA8 <= opcode <= 0xAF,
        ensures
            final(self)@ == spec_exec_a8(old(self)@, opcode),
            final(self)@.system_type == old(self)@.system_type,
            final(self)@.cpu_type == old(self)@.cpu_type,
            final(self)@.entry_point_override == old(self)@.entry_point_override,
            final(self)@.symbol_table == old(self)@.symbol_table,
            final(self)@.last_frame_time == old(self)@.last_frame_time,
            final(self)@.bus.video == old(self)@.bus.video,
            !spec_is_jump(opcode) ==> final(self)@.pc == old(self)@.pc.wrapping_add(
                spec_consumed_operands(opcode, old(self)@.cpu_type) as u16,
            ),
    {
        proof {
            reveal(spec_exec_a8);
        }
        match opcode {
            0xA9 => {
                let value = self.fetch_byte();
                self.regs.a = value;
                self.update_zero_and_negative_flags(self.regs.a);
            },

            0xAD => {
                let addr = self.fetch_word();
                let value = self.bus.read_byte(addr);
                self.regs.a = value;
                self.update_zero_and_negative_flags(self.regs.a);
            },

            0xAE => {
                let addr = self.fetch_word();
                self.regs.x = self.bus.read_byte(addr);
                self.update_zero_and_negative_flags(self.regs.x);
            },

            0xAC => {
                let addr = self.fetch_word();
                self.regs.y = self.bus.read_byte(addr);
                self.update_zero_and_negative_flags(self.regs.y);
            },

            0xAA => {
                self.regs.x = self.regs.a;
                self.update_zero_and_negative_flags(self.regs.x);
            },

            0xA8 => {
                self.regs.y = self.regs.a;
                self.update_zero_and_negative_flags(self.regs.y);
            },

            0xAF => {
                let zp_addr = self.fetch_byte() as u16;
                if self.cpu_type != CpuType::NMOS6502 {
                    let rel_offset: i16 = (self.fetch_byte() as i8) as i16;
                    let value = self.bus.read_byte(zp_addr);
                    let shift = (opcode.wrapping_sub(0x8F)) / 0x10;
                    let bit = 1u8 << shift;

                    if (value & bit) != 0 {
                        self.pc = self.pc.wrapping_add_signed(rel_offset);
                    }
                }
            },

            0xAB => {
            },

            _ => {
            },
        }
    }

    #[verifier::rlimit(100)]
    #[verifier::spinoff_prover]
    fn decode_b0(&mut self, opcode: u8)
        requires
            0xB0 <= opcode <= 0xB7,
        ensures
            final(self)@ == spec_exec_b0(old(self)@, opcode),
            final(self)@.system_type == old(self)@.system_type,
            final(self)@.cpu_type == old(self)@.cpu_type,
            final(self)@.entry_point_override == old(self)@.entry_point_override,
            final(self)@.symbol_table == old(self)@.symbol_table,
            final(self)@.last_frame_time == old(self)@.last_frame_time,
            final(self)@.bus.video == old(self)@.bus.video,
            !spec_is_jump(opcode) ==> final(self)@.pc == old(self)@.pc.wrapping_add(
                spec_consumed_operands(opcode, old(self)@.cpu_type) as u16,
            ),
    {
        proof {
            reveal(spec_exec_b0);
        }
        match opcode {
            0xB0 => {
                let offset: i8 = self.fetch_byte() as i8;

                if self.p & Flags::CARRY == Flags::CARRY {
                    self.pc = self.pc.wrapping_add(offset as u16);
                }
            },

            0xB6 => {
                let base_addr = self.fetch_byte() as u16;
                let addr = base_addr.wrapping_add(self.regs.y as u16) & 0x00FF;
                let value = self.bus.read_byte(addr);

                self.regs.x = value;
                self.update_zero_and_negative_flags(self.regs.x);
            },

            0xB4 => {
                let base = self.fetch_byte();
                let addr = base.wrapping_add(self.regs.x) as u16;
                let value = self.bus.read_byte(addr);
                self.regs.y = value;
                self.update_zero_and_negative_flags(self.regs.y);
            },

            0xB5 => {
                let base = self.fetch_byte();
                let addr = (base.wrapping_add(self.regs.x) & 0xFF) as u16;
                let value = self.bus.read_byte(addr);
                self.regs.a = value;
                self.update_zero_and_negative_flags(self.regs.a);
            },

            0xB1 => {
                let base_address = self.fetch_byte();
                let pointer_address = self.bus.read_word(base_address as u16 & 0xFF);

                let effective_address = pointer_address.wrapping_add(self.regs.y as u16);
                let value = self.bus.read_byte(effective_address);

                self.regs.a = value;
                self.update_zero_and_negative_flags(self.regs.a);
            },

            0xB3 => {
            },

            0xB2 => {
                let zp_addr = self.fetch_byte() as u16;
                if self.cpu_type != CpuType::NMOS6502 {
                    let indirect_addr = self.bus.read_word(zp_addr);
                    self.regs.a = self.bus.read_byte(indirect_addr);
                    self.update_zero_and_negative_flags(self.regs.a);
                }
            },

            0xB7 => {
                let addr = self.fetch_byte() as u16;
                if self.cpu_type != CpuType::NMOS6502 {
                    let bit_n = (opcode >> 4) & 0b111;
                    proof {
                        assert((opcode >> 4) & 0b111 < 8) by (bit_vector);
                    }
                    let mask = 1u8 << bit_n;

                    let value = self.bus.read_byte(addr);
                    let result = value | mask;
                    self.bus.write_byte(addr, result);
                }
            },

            _ => {
            },
        }
    }

    #[verifier::rlimit(100)]
    #[verifier::spinoff_prover]
    fn decode_b8(&mut self, opcode: u8)
        requires
            0xB8 <= opcode <= 0xBF,
        ensures
            final(self)@ == spec_exec_b8(old(self)@, opcode),
            final(self)@.system_type == old(self)@.system_type,
            final(self)@.cpu_type == old(self)@.cpu_type,
            final(self)@.entry_point_override == old(self)@.entry_point_override,
            final(self)@.symbol_table == old(self)@.symbol_table,
            final(self)@.last_frame_time == old(self)@.last_frame_time,
            final(self)@.bus.video == old(self)@.bus.video,
            !spec_is_jump(opcode) ==> final(self)@.pc == old(self)@.pc.wrapping_add(
                spec_consumed_operands(opcode, old(self)@.cpu_type) as u16,
            ),
    {
        proof {
            reveal(spec_exec_b8);
        }
        match opcode {
            0xBC => {
                let addr = self.fetch_word().wrapping_add(self.regs.x as u16);
                self.regs.y = self.bus.read_byte(addr);
                self.update_zero_and_negative_flags(self.regs.y);
            
            },

            0xBA => {
                self.regs.x = self.regs.sp;
                self.update_zero_and_negative_flags(self.regs.x);
            
            },

            0xBD => {
                let base_addr = self.fetch_word();
                let addr = base_addr.wrapping_add(self.regs.x as u16);

                let value = self.bus.read_byte(addr);
                self.regs.a = value;
                self.update_zero_and_negative_flags(self.regs.a);
            
            },

            0xB8 => {
                self.p = self.p & !Flags::OVERFLOW;
            
            },

            0xBE => {
                let base_addr = self.fetch_word();
                let addr = base_addr.wrapping_add(self.regs.y as u16);
                let value = self.bus.read_byte(addr);
                self.regs.x = value;
                self.update_zero_and_negative_flags(self.regs.x);
            
            },

            0xB9 => {
                let base_addr = self.fetch_word();
                let addr = base_addr.wrapping_add(self.regs.y as u16);
                let value = self.bus.read_byte(addr);
                self.regs.a = value;
                self.update_zero_and_negative_flags(self.regs.a);
            
            },

            0xBF => {
                let zp_addr = self.fetch_byte() as u16;
                if self.cpu_type != CpuType::NMOS6502 {
                    let rel_offset: i16 = (self.fetch_byte() as i8) as i16;
                    let value = self.bus.read_byte(zp_addr);
                    let shift = (opcode.wrapping_sub(0x8F)) / 0x10;
                    let bit = 1u8 << shift;

                    if (value & bit) != 0 {
                        self.pc = self.pc.wrapping_add_signed(rel_offset);
                    }
                }
            
            },

            0xBB => {
            
            },

            _ => {
            },
        }
    }

    #[verifier::rlimit(100)]
    #[verifier::spinoff_prover]
    fn decode_c0(&mut self, opcode: u8)
        requires
            0xC0 <= opcode <= 0xC7,
        ensures
            final(self)@ == spec_exec_c0(old(self)@, opcode),
            final(self)@.system_type == old(self)@.system_type,
            final(self)@.cpu_type == old(self)@.cpu_type,
            final(self)@.entry_point_override == old(self)@.entry_point_override,
            final(self)@.symbol_table == old(self)@.symbol_table,
            final(self)@.last_frame_time == old(self)@.last_frame_time,
            final(self)@.bus.video == old(self)@.bus.video,
            !spec_is_jump(opcode) ==> final(self)@.pc == old(self)@.pc.wrapping_add(
                spec_consumed_operands(opcode, old(self)@.cpu_type) as u16,
            ),
    {
        proof {
            reveal(spec_exec_c0);
        }
        match opcode {
            0xC5 => {
                let addr = self.fetch_byte() as u16;
                let value = self.bus.read_byte(addr);
                let a = self.regs.a;
                self.compare(a, value);
            },

            0xC0 => {
                let value = self.fetch_byte();
                let result = self.regs.y.wrapping_sub(value);
                self.set_flag(Flags::ZERO, self.regs.y == value);
                self.set_flag(Flags::NEGATIVE, result & 0x80 != 0);
                self.set_flag(Flags::CARRY, self.regs.y >= value);
            },

            0xC4 => {
                let addr = self.fetch_byte() as u16;
                let value = self.bus.read_byte(addr);
                let y = self.regs.y;
                self.compare(y, value);
            },

            0xC1 => {
                let base_addr = self.fetch_byte().wrapping_add(self.regs.x) as u16;
                let addr = self.bus.read_word(base_addr);
                let value = self.bus.read_byte(addr);

                let a = self.regs.a;
                self.compare(a, value);
            },

            0xC6 => {
                let addr = self.fetch_byte() as u16;
                let mut value = self.bus.read_byte(addr);

                value = value.wrapping_sub(1);

                self.bus.write_byte(addr, value);
                self.update_zero_and_negative_flags(value);
            },

            0xC3 => {
            },

            0xC2 => {
                self.pc = self.pc.wrapping_add(1);
            },

            0xC7 => {
                let addr = self.fetch_byte() as u16;
                if self.cpu_type != CpuType::NMOS6502 {
                    let bit_n = (opcode >> 4) & 0b111;
                    proof {
                        assert((opcode >> 4) & 0b111 < 8) by (bit_vector);
                    }
                    let mask = 1u8 << bit_n;

                    let value = self.bus.read_byte(addr);
                    let result = value | mask;
                    self.bus.write_byte(addr, result);
                }
            },

            _ => {
            },
        }
    }

    #[verifier::rlimit(100)]
    #[verifier::spinoff_prover]
    fn decode_c8(&mut self, opcode: u8)
        requires
            0xC8 <= opcode <= 0xCF,
        ensures
            final(self)@ == spec_exec_c8(old(self)@, opcode),
            final(self)@.system_type == old(self)@.system_type,
            final(self)@.cpu_type == old(self)@.cpu_type,
            final(self)@.entry_point_override == old(self)@.entry_point_override,
            final(self)@.symbol_table == old(self)@.symbol_table,
            final(self)@.last_frame_time == old(self)@.last_frame_time,
            final(self)@.bus.video == old(self)@.bus.video,
            !spec_is_jump(opcode) ==> final(self)@.pc == old(self)@.pc.wrapping_add(
                spec_consumed_operands(opcode, old(self)@.cpu_type) as u16,
            ),
    {
        proof {
            reveal(spec_exec_c8);
        }
        match opcode {
            0xC9 => {
                let value = self.fetch_byte();
                let a = self.regs.a;
                self.compare(a, value);
            },

            0xCD => {
                let addr = self.fetch_word();
                let value = self.bus.read_byte(addr);
                let a = self.regs.a;
                self.compare(a, value);
            },

            0xCC => {
                let addr = self.fetch_word();
                let value = self.bus.read_byte(addr);
                let y = self.regs.y;
                self.compare(y, value);
            },

            0xCB => {
                if self.cpu_type == CpuType::WDC65C02S {
                    self.bus.interrupts.enter_wait();
                }
            },

            0xCA => {
                self.regs.x = self.regs.x.wrapping_sub(1);
                self.update_zero_and_negative_flags(self.regs.x);
            },

            0xC8 => {
                self.regs.y = self.regs.y.wrapping_add(1);
                self.update_zero_and_negative_flags(self.regs.y);
            },

            0xCE => {
                let addr = self.fetch_word();
                let mut value = self.bus.read_byte(addr);

                value = value.wrapping_sub(1);

                self.bus.write_byte(addr, value);
                self.update_zero_and_negative_flags(value);
            },

            0xCF => {
                let zp_addr = self.fetch_byte() as u16;
                if self.cpu_type != CpuType::NMOS6502 {
                    let rel_offset: i16 = (self.fetch_byte() as i8) as i16;
                    let value = self.bus.read_byte(zp_addr);
                    let shift = (opcode.wrapping_sub(0x8F)) / 0x10;
                    let bit = 1u8 << shift;

                    if (value & bit) != 0 {
                        self.pc = self.pc.wrapping_add_signed(rel_offset);
                    }
                }
            },

            _ => {
            },
        }
    }

    #[verifier::rlimit(100)]
    #[verifier::spinoff_prover]
    fn decode_d0(&mut self, opcode: u8)
        requires
            0xD0 <= opcode <= 0xD7,
        ensures
            final(self)@ == spec_exec_d0(old(self)@, opcode),
            final(self)@.system_type == old(self)@.system_type,
            final(self)@.cpu_type == old(self)@.cpu_type,
            final(self)@.entry_point_override == old(self)@.entry_point_override,
            final(self)@.symbol_table == old(self)@.symbol_table,
            final(self)@.last_frame_time == old(self)@.last_frame_time,
            final(self)@.bus.video == old(self)@.bus.video,
            !spec_is_jump(opcode) ==> final(self)@.pc == old(self)@.pc.wrapping_add(
                spec_consumed_operands(opcode, old(self)@.cpu_type) as u16,
            ),
    {
        proof {
            reveal(spec_exec_d0);
        }
        match opcode {
            0xD0 => {
                let offset: i8 = self.fetch_byte() as i8;
                if !(self.p & Flags::ZERO == Flags::ZERO) {
                    self.pc = self.pc.wrapping_add_signed(offset as i16);
                }
            },

            0xD5 => {
                let base = self.fetch_byte();
                let addr = (base.wrapping_add(self.regs.x) & 0xFF) as u16;
                let value = self.bus.read_byte(addr);
                let a = self.regs.a;
                self.compare(a, value);
            },

            0xD1 => {
                let base_addr = self.fetch_byte() as u16;
                let addr = self.bus.read_word(base_addr).wrapping_add(self.regs.y as u16);
                let value = self.bus.read_byte(addr);

                let a = self.regs.a;
                self.compare(a, value);
            },

            0xD6 => {
                let addr = self.fetch_byte().wrapping_add(self.regs.x) as u16;
                let value = self.bus.read_byte(addr).wrapping_sub(1);
                self.bus.write_byte(addr, value);

                self.update_zero_and_negative_flags(value);
            },

            0xD3 => {
            },

            0xD4 => {
                self.pc = self.pc.wrapping_add(1);
            },

            0xD7 => {
                let addr = self.fetch_byte() as u16;
                if self.cpu_type != CpuType::NMOS6502 {
                    let bit_n = (opcode >> 4) & 0b111;
                    proof {
                        assert((opcode >> 4) & 0b111 < 8) by (bit_vector);
                    }
                    let mask = 1u8 << bit_n;

                    let value = self.bus.read_byte(addr);
                    let result = value | mask;
                    self.bus.write_byte(addr, result);
                }
            },

            0xD2 => {
                let addr_ptr = self.fetch_byte() as u16;
                let addr = self.bus.read_word(addr_ptr);
                let value = self.bus.read_byte(addr);

                let result = self.regs.a.wrapping_sub(value);

                self.set_flag(Flags::CARRY, self.regs.a >= value);
                self.set_flag(Flags::ZERO, self.regs.a == value);
                self.set_flag(Flags::NEGATIVE, (result & 0x80) != 0);
            },

            _ => {
            },
        }
    }

    #[verifier::rlimit(100)]
    #[verifier::spinoff_prover]
    fn decode_d8(&mut self, opcode: u8)
        requires
            0xD8 <= opcode <= 0xDF,
        ensures
            final(self)@ == spec_exec_d8(old(self)@, opcode),
            final(self)@.system_type == old(self)@.system_type,
            final(self)@.cpu_type == old(self)@.cpu_type,
            final(self)@.entry_point_override == old(self)@.entry_point_override,
            final(self)@.symbol_table == old(self)@.symbol_table,
            final(self)@.last_frame_time == old(self)@.last_frame_time,
            final(self)@.bus.video == old(self)@.bus.video,
            !spec_is_jump(opcode) ==> final(self)@.pc == old(self)@.pc.wrapping_add(
                spec_consumed_operands(opcode, old(self)@.cpu_type) as u16,
            ),
    {
        proof {
            reveal(spec_exec_d8);
        }
        match opcode {
            0xDA => {
                let x = self.regs.x;
                self.push_stack(x);
            },

            0xDB => {
                if self.cpu_type == CpuType::WDC65C02S {
                    self.bus.interrupts.enter_halt();
                }
            },

            0xD8 => {
                self.p = self.p & !Flags::DECIMAL;
            },

            0xD9 => {
                let base_addr = self.fetch_word();
                let addr = base_addr.wrapping_add(self.regs.y as u16);
                let value = self.bus.read_byte(addr);
                let a = self.regs.a;
                self.compare(a, value);
            },

            0xDD => {
                let base_addr = self.fetch_word();
                let addr = base_addr.wrapping_add(self.regs.x as u16);
                let value = self.bus.read_byte(addr);

                let a = self.regs.a;
                self.compare(a, value);
            },

            0xDE => {
                let base_addr = self.fetch_word();
                let addr = base_addr.wrapping_add(self.regs.x as u16);
                let value = self.bus.read_byte(addr).wrapping_sub(1);
                self.bus.write_byte(addr, value);

                self.update_zero_and_negative_flags(value);
            },

            0xDF => {
                let zp_addr = self.fetch_byte() as u16;
                if self.cpu_type != CpuType::NMOS6502 {
                    let rel_offset: i16 = (self.fetch_byte() as i8) as i16;
                    let value = self.bus.read_byte(zp_addr);
                    let shift = (opcode.wrapping_sub(0x8F)) / 0x10;
                    let bit = 1u8 << shift;

                    if (value & bit) != 0 {
                        self.pc = self.pc.wrapping_add_signed(rel_offset);
                    }
                }
            },

            0xDC => {
                self.pc = self.pc.wrapping_add(2);
            },

            _ => {
            },
        }
    }

    #[verifier::rlimit(100)]
    #[verifier::spinoff_prover]
    fn decode_e0(&mut self, opcode: u8)
        requires
            0xE0 <= opcode <= 0xE7,
        ensures
            final(self)@ == spec_exec_e0(old(self)@, opcode),
            final(self)@.system_type == old(self)@.system_type,
            final(self)@.cpu_type == old(self)@.cpu_type,
            final(self)@.entry_point_override == old(self)@.entry_point_override,
            final(self)@.symbol_table == old(self)@.symbol_table,
            final(self)@.last_frame_time == old(self)@.last_frame_time,
            final(self)@.bus.video == old(self)@.bus.video,
            !spec_is_jump(opcode) ==> final(self)@.pc == old(self)@.pc.wrapping_add(
                spec_consumed_operands(opcode, old(self)@.cpu_type) as u16,
            ),
    {
        proof {
            reveal(spec_exec_e0);
        }
        match opcode {
            0xE5 => {
                let addr = self.fetch_byte() as u16;
                let value = self.bus.read_byte(addr);
                self.sbc(value);
            },

            0xE0 => {
                let value = self.fetch_byte();
                let x = self.regs.x;
                self.compare(x, value);
            },

            0xE4 => {
                let addr = self.fetch_byte() as u16;
                let value = self.bus.read_byte(addr);
                let x = self.regs.x;
                self.compare(x, value);
            },

            0xE6 => {
                let addr = self.fetch_byte() as u16;
                let mut value = self.bus.read_byte(addr);

                value = value.wrapping_add(1);

                self.bus.write_byte(addr, value);
                self.update_zero_and_negative_flags(value);
            },

            0xE1 => {
                let addr = self.fetch_indirect_x();
                let value = self.bus.read_byte(addr);
                self.sbc(value);
            },

            0xE3 => {
            },

            0xE2 => {
                self.pc = self.pc.wrapping_add(1);
            },

            0xE7 => {
                let addr = self.fetch_byte() as u16;
                if self.cpu_type != CpuType::NMOS6502 {
                    let bit_n = (opcode >> 4) & 0b111;
                    proof {
                        assert((opcode >> 4) & 0b111 < 8) by (bit_vector);
                    }
                    let mask = 1u8 << bit_n;

                    let value = self.bus.read_byte(addr);
                    let result = value | mask;
                    self.bus.write_byte(addr, result);
                }
            },

            _ => {
            },
        }
    }

    #[verifier::rlimit(100)]
    #[verifier::spinoff_prover]
    fn decode_e8(&mut self, opcode: u8)
        requires
            0xE8 <= opcode <= 0xEF,
        ensures
            final(self)@ == spec_exec_e8(old(self)@, opcode),
            final(self)@.system_type == old(self)@.system_type,
            final(self)@.cpu_type == old(self)@.cpu_type,
            final(self)@.entry_point_override == old(self)@.entry_point_override,
            final(self)@.symbol_table == old(self)@.symbol_table,
            final(self)@.last_frame_time == old(self)@.last_frame_time,
            final(self)@.bus.video == old(self)@.bus.video,
            !spec_is_jump(opcode) ==> final(self)@.pc == old(self)@.pc.wrapping_add(
                spec_consumed_operands(opcode, old(self)@.cpu_type) as u16,
            ),
    {
        proof {
            reveal(spec_exec_e8);
        }
        match opcode {
            0xE9 => {
                let value = self.fetch_byte();
                self.sbc(value);
            },

            0xED => {
                let addr = self.fetch_word();
                let value = self.bus.read_byte(addr);
                self.sbc(value);
            },

            0xEC => {
                let addr = self.fetch_word();
                let value = self.bus.read_byte(addr);
                let x = self.regs.x;
                self.compare(x, value);
            },

            0xEA => {
                // NOP
            },

            0xE8 => {
                self.regs.x = self.regs.x.wrapping_add(1);
                self.update_zero_and_negative_flags(self.regs.x);
            },

            0xEE => {
                let addr = self.fetch_word();
                let mut value = self.bus.read_byte(addr);

                value = value.wrapping_add(1);

                self.bus.write_byte(addr, value);
                self.update_zero_and_negative_flags(value);
            },

            0xEF => {
                let zp_addr = self.fetch_byte() as u16;
                if self.cpu_type != CpuType::NMOS6502 {
                    let rel_offset: i16 = (self.fetch_byte() as i8) as i16;
                    let value = self.bus.read_byte(zp_addr);
                    let shift = (opcode.wrapping_sub(0x8F)) / 0x10;
                    let bit = 1u8 << shift;

                    if (value & bit) != 0 {
                        self.pc = self.pc.wrapping_add_signed(rel_offset);
                    }
                }
            },

            0xEB => {
            },

            _ => {
            },
        }
    }

    #[verifier::rlimit(100)]
    #[verifier::spinoff_prover]
    fn decode_f0(&mut self, opcode: u8)
        requires
            0xF0 <= opcode <= 0xF7,
        ensures
            final(self)@ == spec_exec_f0(old(self)@, opcode),
            final(self)@.system_type == old(self)@.system_type,
            final(self)@.cpu_type == old(self)@.cpu_type,
            final(self)@.entry_point_override == old(self)@.entry_point_override,
            final(self)@.symbol_table == old(self)@.symbol_table,
            final(self)@.last_frame_time == old(self)@.last_frame_time,
            final(self)@.bus.video == old(self)@.bus.video,
            !spec_is_jump(opcode) ==> final(self)@.pc == old(self)@.pc.wrapping_add(
                spec_consumed_operands(opcode, old(self)@.cpu_type) as u16,
            ),
    {
        proof {
            reveal(spec_exec_f0);
        }
        match opcode {
            0xF0 => {
                let offset: i8 = self.fetch_byte() as i8;
                if self.p & Flags::ZERO == Flags::ZERO {
                    self.pc = self.pc.wrapping_add_signed(offset as i16);
                }
            },

            0xF6 => {
                let base_addr = self.fetch_byte();
                let addr = base_addr.wrapping_add(self.regs.x) as u16;

                let mut value = self.bus.read_byte(addr);
                value = value.wrapping_add(1);

                self.bus.write_byte(addr, value);
                self.update_zero_and_negative_flags(value);
            },

            0xF5 => {
                let zp_addr = self.fetch_byte().wrapping_add(self.regs.x) as u16;
                let value = self.bus.read_byte(zp_addr);
                self.sbc(value);
            },

            0xF1 => {
                let addr = self.fetch_indirect_y();
                let value = self.bus.read_byte(addr);
                self.sbc(value);
            },

            0xF3 => {
            },

            0xF4 => {
                self.pc = self.pc.wrapping_add(1);
            },

            0xF7 => {
                let addr = self.fetch_byte() as u16;
                if self.cpu_type != CpuType::NMOS6502 {
                    let bit_n = (opcode >> 4) & 0b111;
                    proof {
                        assert((opcode >> 4) & 0b111 < 8) by (bit_vector);
                    }
                    let mask = 1u8 << bit_n;

                    let value = self.bus.read_byte(addr);
                    let result = value | mask;
                    self.bus.write_byte(addr, result);
                }
            },

            0xF2 => {
                let addr_ptr = self.fetch_byte() as u16;

                let addr = self.bus.read_word(addr_ptr);
                let value = self.bus.read_byte(addr);

                self.sbc(value);
            },

            _ => {
            },
        }
    }

    #[verifier::rlimit(100)]
    #[verifier::spinoff_prover]
    fn decode_f8(&mut self, opcode: u8)
        requires
            0xF8 <= opcode <= 0xFF,
        ensures
            final(self)@ == spec_exec_f8(old(self)@, opcode),
            final(self)@.system_type == old(self)@.system_type,
            final(self)@.cpu_type == old(self)@.cpu_type,
            final(self)@.entry_point_override == old(self)@.entry_point_override,
            final(self)@.symbol_table == old(self)@.symbol_table,
            final(self)@.last_frame_time == old(self)@.last_frame_time,
            final(self)@.bus.video == old(self)@.bus.video,
            !spec_is_jump(opcode) ==> final(self)@.pc == old(self)@.pc.wrapping_add(
                spec_consumed_operands(opcode, old(self)@.cpu_type) as u16,
            ),
    {
        proof {
            reveal(spec_exec_f8);
        }
        match opcode {
            0xFA => {
                self.regs.x = self.pop_stack();

                if self.cpu_type == CpuType::CMOS65C02 || self.cpu_type == CpuType::WDC65C02S {
                    let x = self.regs.x;
                    self.update_zero_and_negative_flags(x);
                }
            },

            0xF8 => {
                self.p = self.p | Flags::DECIMAL;
            },

            0xFE => {
                let addr = self.fetch_word().wrapping_add(self.regs.x as u16);
                let value = self.bus.read_byte(addr).wrapping_add(1);
                self.bus.write_byte(addr, value);
                self.update_zero_and_negative_flags(value);
            },

            0xFD => {
                let base_addr = self.fetch_word();
                let addr = base_addr.wrapping_add(self.regs.x as u16);
                let value = self.bus.read_byte(addr);
                self.sbc(value);
            },

            0xF9 => {
                let addr = self.fetch_word().wrapping_add(self.regs.y as u16);
                let value = self.bus.read_byte(addr);
                self.sbc(value);
            },

            0xFF => {
                let zp_addr = self.fetch_byte() as u16;
                if self.cpu_type != CpuType::NMOS6502 {
                    let rel_offset: i16 = (self.fetch_byte() as i8) as i16;
                    let value = self.bus.read_byte(zp_addr);
                    let shift = (opcode.wrapping_sub(0x8F)) / 0x10;
                    let bit = 1u8 << shift;

                    if (value & bit) != 0 {
                        self.pc = self.pc.wrapping_add_signed(rel_offset);
                    }
                }
            },

            0xFB => {
            },

            0xFC => {
                self.pc = self.pc.wrapping_add(2);
            },

            _ => {
            },
        }
    }

}

/// The characters of the status-flag display: a letter per set flag in the
/// order N V - B D I Z C, a dot per clear one.
pub open spec fn flags_bytes(flags: u8) -> Seq<u8> {
    seq![
        (if flags & Flags::NEGATIVE != 0 { ('N' as u8) } else { ('.' as u8) }),
        (if flags & Flags::OVERFLOW != 0 { ('V' as u8) } else { ('.' as u8) }),
        (if flags & Flags::UNUSED != 0 { ('-' as u8) } else { ('.' as u8) }),
        (if flags & Flags::BREAK != 0 { ('B' as u8) } else { ('.' as u8) }),
        (if flags & Flags::DECIMAL != 0 { ('D' as u8) } else { ('.' as u8) }),
        (if flags & Flags::IRQ_DISABLE != 0 { ('I' as u8) } else { ('.' as u8) }),
        (if flags & Flags::ZERO != 0 { ('Z' as u8) } else { ('.' as u8) }),
        (if flags & Flags::CARRY != 0 { ('C' as u8) } else { ('.' as u8) }),
    ]
}

pub fn format_flags(flags: u8) -> (r: String)
    ensures
        r@ == crate::util::ascii_view(flags_bytes(flags)),
{
    let mut bytes: Vec<u8> = Vec::new();
    bytes.push(if flags & Flags::NEGATIVE != 0 { ('N' as u8) } else { ('.' as u8) });
    bytes.push(if flags & Flags::OVERFLOW != 0 { ('V' as u8) } else { ('.' as u8) });
    bytes.push(if flags & Flags::UNUSED != 0 { ('-' as u8) } else { ('.' as u8) });
    bytes.push(if flags & Flags::BREAK != 0 { ('B' as u8) } else { ('.' as u8) });
    bytes.push(if flags & Flags::DECIMAL != 0 { ('D' as u8) } else { ('.' as u8) });
    bytes.push(if flags & Flags::IRQ_DISABLE != 0 { ('I' as u8) } else { ('.' as u8) });
    bytes.push(if flags & Flags::ZERO != 0 { ('Z' as u8) } else { ('.' as u8) });
    bytes.push(if flags & Flags::CARRY != 0 { ('C' as u8) } else { ('.' as u8) });
    proof {
        assert(bytes@ =~= flags_bytes(flags));
    }
    crate::util::ascii_string(bytes)
}

/// Setting one flag leaves every disjoint flag bit alone.
proof fn lemma_sf_other(p: u8, m1: u8, m2: u8, on: bool)
    requires
        m1 & m2 == 0,
    ensures
        spec_set_flag(p, m2, on) & m1 == p & m1,
{
    if on {
        assert(m1 & m2 == 0 ==> (p | m2) & m1 == p & m1) by (bit_vector);
    } else {
        assert(m1 & m2 == 0 ==> (p & !m2) & m1 == p & m1) by (bit_vector);
    }
}

/// Setting one flag makes exactly that flag read back.
proof fn lemma_sf_same(p: u8, m: u8, on: bool)
    requires
        m != 0,
    ensures
        flag_set(spec_set_flag(p, m, on), m) == on,
{
    if on {
        assert((p | m) & m == m) by (bit_vector);
    } else {
        assert(m != 0 ==> (p & !m) & m != m) by (bit_vector);
    }
}

/// The flag masks are nonzero and pairwise disjoint where the ALU writes.
proof fn lemma_flag_mask_consts()
    by (bit_vector)
    ensures
        0x01u8 & 0x40u8 == 0,
        0x01u8 & 0x02u8 == 0,
        0x01u8 & 0x80u8 == 0,
        0x08u8 & 0x01u8 == 0,
        0x08u8 & 0x40u8 == 0,
        0x08u8 & 0x02u8 == 0,
        0x08u8 & 0x80u8 == 0,
{
}

/// The numeric carry-in the ALU takes from the status byte.
pub open spec fn spec_carry_in(p: u8) -> int {
    if flag_set(p, Flags::CARRY) {
        1
    } else {
        0
    }
}

/// What binary-mode ADC computes: the wrapped sum of A, the operand and
/// the carry-in; the carry flag afterwards reports the unsigned overflow,
/// and the D flag is untouched.
pub proof fn lemma_adc_binary(p: u8, a: u8, m: u8)
    requires
        !flag_set(p, Flags::DECIMAL),
    ensures
        spec_adc(p, a, m).0 == ((a + m + spec_carry_in(p)) % 256) as u8,
        flag_set(spec_adc(p, a, m).1, Flags::CARRY) == (a + m + spec_carry_in(p) > 255),
        flag_set(spec_adc(p, a, m).1, Flags::DECIMAL) == flag_set(p, Flags::DECIMAL),
{
    lemma_flag_mask_consts();
    let co = a + m + spec_carry_in(p) > 255;
    let a1 = spec_adc(p, a, m).0;
    let ov = ((a ^ m) & 0x80 == 0) && ((a ^ a1) & 0x80 != 0);
    let p1 = spec_set_flag(p, Flags::CARRY, co);
    let p2 = spec_set_flag(p1, Flags::OVERFLOW, ov);
    let p3 = spec_set_flag(p2, Flags::ZERO, a1 == 0);
    lemma_sf_same(p, Flags::CARRY, co);
    lemma_sf_other(p1, Flags::CARRY, Flags::OVERFLOW, ov);
    lemma_sf_other(p2, Flags::CARRY, Flags::ZERO, a1 == 0);
    lemma_sf_other(p3, Flags::CARRY, Flags::NEGATIVE, a1 & 0x80 != 0);
    lemma_sf_other(p, Flags::DECIMAL, Flags::CARRY, co);
    lemma_sf_other(p1, Flags::DECIMAL, Flags::OVERFLOW, ov);
    lemma_sf_other(p2, Flags::DECIMAL, Flags::ZERO, a1 == 0);
    lemma_sf_other(p3, Flags::DECIMAL, Flags::NEGATIVE, a1 & 0x80 != 0);
}

/// What binary-mode SBC computes: A plus the one's complement of the
/// operand plus the carry-in, wrapped; the carry flag afterwards is the
/// not-borrow, and the D flag is untouched.
pub proof fn lemma_sbc_binary(p: u8, a: u8, m: u8)
    requires
        !flag_set(p, Flags::DECIMAL),
    ensures
        spec_sbc(p, a, m).0 == ((a + (255 - m) + spec_carry_in(p)) % 256) as u8,
        flag_set(spec_sbc(p, a, m).1, Flags::CARRY) == (a + (255 - m) + spec_carry_in(p)
            >= 256),
        flag_set(spec_sbc(p, a, m).1, Flags::DECIMAL) == flag_set(p, Flags::DECIMAL),
{
    lemma_flag_mask_consts();
    assert(!m == (255 - m) as u8) by (bit_vector);
    let ci = spec_carry_in(p);
    let bw = !(a + (255 - m) + ci >= 256);
    let a1 = spec_sbc(p, a, m).0;
    let ov = ((a ^ m) & 0x80 != 0) && ((a ^ a1) & 0x80 != 0);
    let p1 = spec_set_flag(p, Flags::CARRY, !bw);
    let p2 = spec_set_flag(p1, Flags::OVERFLOW, ov);
    let p3 = spec_set_flag(p2, Flags::ZERO, a1 == 0);
    lemma_sf_same(p, Flags::CARRY, !bw);
    lemma_sf_other(p1, Flags::CARRY, Flags::OVERFLOW, ov);
    lemma_sf_other(p2, Flags::CARRY, Flags::ZERO, a1 == 0);
    lemma_sf_other(p3, Flags::CARRY, Flags::NEGATIVE, a1 & 0x80 != 0);
    lemma_sf_other(p, Flags::DECIMAL, Flags::CARRY, !bw);
    lemma_sf_other(p1, Flags::DECIMAL, Flags::OVERFLOW, ov);
    lemma_sf_other(p2, Flags::DECIMAL, Flags::ZERO, a1 == 0);
    lemma_sf_other(p3, Flags::DECIMAL, Flags::NEGATIVE, a1 & 0x80 != 0);
}

/// ADC then SBC of the same operand in binary mode. The accumulator is
/// restored exactly when the carry ADC leaves differs from the carry it
/// was given; in particular, with the carry set and no unsigned overflow
/// in the addition, A comes back and the carry after SBC equals the
/// initial carry.
pub proof fn lemma_adc_sbc_round_trip(p: u8, a: u8, m: u8)
    requires
        !flag_set(p, Flags::DECIMAL),
    ensures
        ({
            let step1 = spec_adc(p, a, m);
            let step2 = spec_sbc(step1.1, step1.0, m);
            (step2.0 == a) <==> (flag_set(step1.1, Flags::CARRY) != flag_set(
                p,
                Flags::CARRY,
            ))
        }),
        flag_set(p, Flags::CARRY) && a + m + 1 <= 255 ==> ({
            let step1 = spec_adc(p, a, m);
            let step2 = spec_sbc(step1.1, step1.0, m);
            step2.0 == a && flag_set(step2.1, Flags::CARRY) == flag_set(p, Flags::CARRY)
        }),
{
    lemma_adc_binary(p, a, m);
    let ci = spec_carry_in(p);
    let sum = a + m + ci;
    let step1 = spec_adc(p, a, m);
    let a1 = step1.0;
    let p1 = step1.1;
    lemma_sbc_binary(p1, a1, m);
    let c1 = spec_carry_in(p1);
    assert(a1 == sum % 256);
    assert(c1 == 1 <==> sum > 255);
    let total = a1 + (255 - m) + c1;
    assert(spec_sbc(p1, a1, m).0 == (total % 256) as u8);
    if sum > 255 {
        assert(a1 == sum - 256);
        assert(total == a + ci);
        assert((total % 256) as u8 == a <==> ci == 0);
    } else {
        assert(a1 == sum);
        assert(total == a + ci + 255);
        if ci == 1 {
            assert(total == a + 256);
            assert((a + 256) % 256 == a) by (nonlinear_arith);
        } else {
            assert(total == a + 255);
            assert((a + 255) % 256 != a) by (nonlinear_arith)
                requires
                    0 <= a < 256,
            ;
        }
    }
}

/// Push/pop round trip: popping immediately after pushing returns the
/// pushed byte with the stack pointer restored, on either system.
pub proof fn lemma_push_pop_round_trip(b: BusView, sp: u8, v: u8)
    requires
        b.wf(),
    ensures
        sp.wrapping_sub(1).wrapping_add(1) == sp,
        spec_bus_read(spec_push(b, sp, v), 0x0100u16 | sp as u16).1 == v,
{
    lemma_stack_addr(sp);
    crate::bus::lemma_bus_write_read_round_trip(b, 0x0100u16 | sp as u16, v);
}

/// A write to one stack slot does not disturb a read of another.
proof fn lemma_stack_write_other(b: BusView, sp_w: u8, sp_r: u8, v: u8)
    requires
        b.wf(),
        sp_w != sp_r,
    ensures
        spec_bus_read(spec_push(b, sp_w, v), 0x0100u16 | sp_r as u16).1 == spec_bus_read(
            b,
            0x0100u16 | sp_r as u16,
        ).1,
{
    lemma_stack_addr(sp_w);
    lemma_stack_addr(sp_r);
}

/// JSR/RTS round trip: an RTS executed right after a JSR returns the PC
/// to the instruction following the JSR - two bytes past the operand
/// position the JSR decoded from.
pub proof fn lemma_jsr_rts_round_trip(c: CpuView)
    requires
        c.bus.wf(),
    ensures
        spec_rts(spec_jsr(c)).pc == c.pc.wrapping_add(2),
{
    let fw = spec_bus_read_word(c.bus, c.pc);
    let ret = c.pc.wrapping_add(2).wrapping_sub(1);
    let hi_byte = (ret >> 8) as u8;
    let lo_byte = (ret & 0xFF) as u8;
    let sp1 = c.sp.wrapping_sub(1);
    let b1 = spec_push(fw.0, c.sp, hi_byte);
    let b2 = spec_push(b1, sp1, lo_byte);

    assert(fw.0.wf());
    assert(b1.wf()) by {
        lemma_stack_addr(c.sp);
    }

    // RTS pops at sp1 + 1 == sp (the low byte's slot is sp1 itself after
    // the second push; the pops read sp1+1 == ... ) - the two pop
    // addresses are the two pushed slots.
    let jsr_sp = spec_jsr(c).sp;
    assert(jsr_sp == sp1.wrapping_sub(1));
    let pop1 = jsr_sp.wrapping_add(1);
    let pop2 = pop1.wrapping_add(1);
    assert(pop1 == sp1);
    assert(pop2 == c.sp);

    // Reading the low byte back: the slot sp1 was written last.
    lemma_push_pop_round_trip(b1, sp1, lo_byte);
    // Reading the high byte back: the second push went to a different slot.
    lemma_push_pop_round_trip(fw.0, c.sp, hi_byte);
    lemma_stack_write_other(b1, sp1, c.sp, lo_byte);
    // The second pop must also see past the first pop's read, which has
    // no side effect on the stack page.
    lemma_stack_addr(sp1);
    lemma_stack_addr(c.sp);
    assert(spec_bus_read(b2, 0x0100u16 | sp1 as u16).0 == b2);

    let lo = spec_bus_read(b2, 0x0100u16 | sp1 as u16).1;
    let hi = spec_bus_read(b2, 0x0100u16 | c.sp as u16).1;
    assert(lo == lo_byte);
    assert(hi == hi_byte);
    assert(ret as int == hi_byte * 0x100 + lo_byte) by {
        assert(((ret >> 8) as u8) * 0x100 + ((ret & 0xFF) as u8) == ret) by (bit_vector);
    }
}

/// The (zp),Y pointer load wraps inside the zero page: a $FF operand puts
/// the pointer high byte at $0000, not $0100.
pub proof fn lemma_indirect_y_zero_page_wrap(b: BusView, pc: u16, y: u8)
    requires
        spec_bus_read(b, pc).1 == 0xFF,
    ensures
        ({
            let f = spec_bus_read(b, pc);
            let lo = spec_bus_read(f.0, 0xFF);
            let hi = spec_bus_read(lo.0, 0x0000);
            spec_fetch_indirect_y(b, pc, y).1 == ((lo.1 + hi.1 * 0x100) as u16).wrapping_add(
                y as u16,
            )
        }),
{
    assert((0xFFu16).wrapping_add(1) & 0xFF == 0) by (bit_vector);
}

/// The indirect-JMP page boundary: with a pointer whose low byte is $FF,
/// the NMOS variant reads the target high byte from the start of the
/// pointer's own page, the CMOS variants from the following address.
pub proof fn lemma_jmp_indirect_page_wrap(c: CpuView)
    requires
        spec_bus_read_word(c.bus, c.pc).1 & 0x00FF == 0xFF,
    ensures
        ({
            let fw = spec_bus_read_word(c.bus, c.pc);
            let ptr = fw.1;
            let lo = spec_bus_read(fw.0, ptr);
            c.cpu_type == CpuType::NMOS6502 ==> spec_jmp_indirect(c).pc as int == lo.1
                + spec_bus_read(lo.0, (ptr - 0xFF) as u16).1 * 0x100
        }),
        ({
            let fw = spec_bus_read_word(c.bus, c.pc);
            let ptr = fw.1;
            let lo = spec_bus_read(fw.0, ptr);
            c.cpu_type != CpuType::NMOS6502 ==> spec_jmp_indirect(c).pc as int == lo.1
                + spec_bus_read(lo.0, ptr.wrapping_add(1)).1 * 0x100
        }),
{
    let ptr = spec_bus_read_word(c.bus, c.pc).1;
    assert(ptr & 0x00FF == 0xFF ==> (ptr & 0xFF00) == ptr - 0xFF && ptr >= 0xFF)
        by (bit_vector);
}

/// The branch-on-bit-clear family on the CMOS variants: after the
/// zero-page and relative operands are fetched and the zero-page byte is
/// read, the PC moves by the relative operand exactly when the opcode's
/// bit of that byte is clear, and otherwise rests just past the operands.
pub proof fn lemma_bbr_branches_on_clear_bit(c: CpuView, op: u8)
    requires
        c.cpu_type != CpuType::NMOS6502,
        op == 0x0F || op == 0x1F || op == 0x2F || op == 0x3F || op == 0x4F || op == 0x5F
            || op == 0x6F || op == 0x7F,
    ensures
        ({
            let operand = spec_take1(c);
            let rel = spec_take1(operand.0);
            let probe = spec_get(rel.0, operand.1 as u16);
            let taken = probe.1 & (1u8 << ((op.wrapping_sub(0x0F)) / 0x10)) == 0;
            spec_decode_execute(c, op).pc == (if taken {
                probe.0.pc.wrapping_add_signed((rel.1 as i8) as i16)
            } else {
                probe.0.pc
            })
        }),
{
    reveal(spec_exec_08);
    reveal(spec_exec_18);
    reveal(spec_exec_28);
    reveal(spec_exec_38);
    reveal(spec_exec_48);
    reveal(spec_exec_58);
    reveal(spec_exec_68);
    reveal(spec_exec_78);
}

// What the host pacing relies on from the standard clock. Nothing is
// promised of the values: elapsed time depends on the wall clock.
#[verifier::external_type_specification]
#[verifier::external_body]
pub struct ExInstant(std::time::Instant);

/// Relies on `std::time::Instant::now`: an opaque monotonic timestamp.
pub assume_specification[ std::time::Instant::now ]() -> std::time::Instant;

/// Relies on `std::time::Instant::elapsed`: the time since the timestamp.
pub assume_specification[ std::time::Instant::elapsed ](t: &std::time::Instant)
    -> std::time::Duration;

/// Relies on `std::time::Duration::as_millis`: the duration in whole
/// milliseconds.
pub assume_specification[ std::time::Duration::as_millis ](d: &std::time::Duration) -> u128;

} // verus!
