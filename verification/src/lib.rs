//! Core of an Apple IIc emulator: a 65C02-family CPU, the interrupt
//! controller it drives, the MMU/bank switcher, the I/O unit that decodes
//! the soft-switch page, the bus that binds them, and a one-line
//! disassembler that agrees with the CPU's opcode table.

pub mod bus;
pub mod cpu;
pub mod disassembler;
pub mod interrupts;
pub mod memory;
pub mod iou;
pub mod mmu;
pub mod rom;
pub mod util;
pub mod video;
