//! The memory management unit: two ROM banks, main and auxiliary RAM, four
//! Language Card banks, and the decode that resolves every non-soft-switch
//! address to one of them under the current memory-state byte.

use vstd::prelude::*;

use crate::iou::bits_set;
use crate::iou::IOU;
use crate::memory::bank_read;
use crate::memory::bank_write;
use crate::memory::Memory;
use crate::rom::ROM;
use crate::video::VideoModeMask;

verus! {

/// Bit positions of the memory-state byte.
pub struct MemStateMask;

impl MemStateMask {
    /// Initial state.
    pub const INIT: u8 = 0b0010_0000;

    /// Zero page and stack in auxiliary (1) or main (0) RAM.
    pub const ALTZP: u8 = 0b0000_0001;

    /// Composite of 80STORE and PAGE2.
    pub const P280STORE: u8 = 0b0000_0010;

    /// Reads from auxiliary (1) or main (0) RAM.
    pub const RAMRD: u8 = 0b0000_0100;

    /// Writes to auxiliary (1) or main (0) RAM.
    pub const RAMWRT: u8 = 0b0000_1000;

    /// High memory reads from Language Card RAM (1) or ROM (0).
    pub const LCRAM: u8 = 0b0001_0000;

    /// $D000 resolves to bank 2 (1) or bank 1 (0).
    pub const RDBNK: u8 = 0b0010_0000;

    /// Language Card writes enabled (1) or read-only (0).
    pub const WRITE: u8 = 0b0100_0000;

    /// Reads from ROM bank 2 (1) or bank 1 (0).
    pub const ALTROM: u8 = 0b1000_0000;
}

/// The sub-field of the memory-state byte that the $C080-$C08F latches drive.
pub const LCRAMMODEMASK: u8 = 0b0111_0000;

/// The LCRAMMODE value each $C080-$C08F soft switch selects.
pub struct LcRamMode;

impl LcRamMode {
    /// Read RAM; no write; $D000 bank 2.
    pub const C080: u8 = MemStateMask::RDBNK | MemStateMask::LCRAM;

    /// Read ROM; write RAM; $D000 bank 2.
    pub const C081: u8 = MemStateMask::RDBNK | MemStateMask::WRITE;

    /// Read ROM; no write; $D000 bank 2.
    pub const C082: u8 = MemStateMask::RDBNK;

    /// Read and write RAM; $D000 bank 2.
    pub const C083: u8 = MemStateMask::RDBNK | MemStateMask::LCRAM | MemStateMask::WRITE;

    /// Read RAM; no write; $D000 bank 1.
    pub const C088: u8 = MemStateMask::LCRAM;

    /// Read ROM; write RAM; $D000 bank 1.
    pub const C089: u8 = MemStateMask::WRITE;

    /// Read ROM; no write; $D000 bank 1.
    pub const C08A: u8 = 0x00;

    /// Read and write RAM; $D000 bank 1.
    pub const C08B: u8 = MemStateMask::LCRAM | MemStateMask::WRITE;

    /// Read RAM bank 1; no write.
    pub const C08C: u8 = MemStateMask::LCRAM;

    /// Read ROM; write RAM bank 1.
    pub const C08D: u8 = MemStateMask::WRITE;

    /// Read ROM; no write.
    pub const C08E: u8 = 0x00;

    /// Read and write RAM bank 1.
    pub const C08F: u8 = MemStateMask::LCRAM | MemStateMask::WRITE;
}

/// The contents of every bank the MMU owns.
pub ghost struct MmuView {
    pub rom1: Seq<u8>,
    pub rom2: Seq<u8>,
    pub main: Seq<u8>,
    pub aux: Seq<u8>,
    pub lc_main1: Seq<u8>,
    pub lc_main2: Seq<u8>,
    pub lc_aux1: Seq<u8>,
    pub lc_aux2: Seq<u8>,
}

impl MmuView {
    /// Every bank has its fixed size: 16 KiB per ROM bank, 64 KiB per RAM
    /// bank, 4 KiB per Language Card bank.
    pub open spec fn wf(self) -> bool {
        &&& self.rom1.len() == 0x4000
        &&& self.rom2.len() == 0x4000
        &&& self.main.len() == 0x10000
        &&& self.aux.len() == 0x10000
        &&& self.lc_main1.len() == 0x1000
        &&& self.lc_main2.len() == 0x1000
        &&& self.lc_aux1.len() == 0x1000
        &&& self.lc_aux2.len() == 0x1000
    }
}

/// The Language Card bank an index selects: bit 0 is the $D000 bank, bit 1
/// chooses main versus auxiliary.
pub open spec fn lc_bank(m: MmuView, idx: int) -> Seq<u8> {
    if idx == 0 {
        m.lc_main1
    } else if idx == 1 {
        m.lc_main2
    } else if idx == 2 {
        m.lc_aux1
    } else {
        m.lc_aux2
    }
}

/// `lc_bank` with its selected bank replaced.
pub open spec fn lc_bank_set(m: MmuView, idx: int, bank: Seq<u8>) -> MmuView {
    if idx == 0 {
        (MmuView { lc_main1: bank, ..m })
    } else if idx == 1 {
        (MmuView { lc_main2: bank, ..m })
    } else if idx == 2 {
        (MmuView { lc_aux1: bank, ..m })
    } else {
        (MmuView { lc_aux2: bank, ..m })
    }
}

/// The Language Card bank index the memory-state byte selects for reads.
pub open spec fn lc_read_index(mem_state: u8) -> int {
    (if bits_set(mem_state, MemStateMask::RDBNK) {
        1int
    } else {
        0int
    }) + (if bits_set(mem_state, MemStateMask::RAMRD) {
        2int
    } else {
        0int
    })
}

/// The Language Card bank index the memory-state byte selects for writes.
pub open spec fn lc_write_index(mem_state: u8) -> int {
    (if bits_set(mem_state, MemStateMask::RDBNK) {
        1int
    } else {
        0int
    }) + (if bits_set(mem_state, MemStateMask::RAMWRT) {
        2int
    } else {
        0int
    })
}

/// The byte a read of `addr` resolves to, decoded in the documented order:
/// zero page and stack follow ALTZP; the display pages follow PAGE2 while
/// 80STORE is on; general RAM follows RAMRD; $C100-$FFFF resolve to
/// Language Card RAM or ROM under LCRAM, RDBNK and ALTROM; the soft-switch
/// page $C000-$C0FF is not the MMU's and reads 0.
pub open spec fn mmu_read(
    m: MmuView,
    mem_state: u8,
    is_page2: bool,
    is_80store: bool,
    addr: u16,
) -> u8 {
    let altzp = bits_set(mem_state, MemStateMask::ALTZP);
    let altrom = bits_set(mem_state, MemStateMask::ALTROM);
    let lcram = bits_set(mem_state, MemStateMask::LCRAM);
    let ramrd = bits_set(mem_state, MemStateMask::RAMRD);
    if addr < 0x0200 {
        bank_read(if altzp { m.aux } else { m.main }, addr)
    } else if ((0x0400 <= addr && addr <= 0x07FF) || (0x2000 <= addr && addr <= 0x3FFF))
        && is_80store {
        bank_read(if is_page2 { m.aux } else { m.main }, addr)
    } else if addr <= 0xBFFF {
        bank_read(if ramrd { m.aux } else { m.main }, addr)
    } else if 0xC100 <= addr && addr <= 0xCFFF {
        if lcram {
            bank_read(lc_bank(m, lc_read_index(mem_state)), (addr - 0xC100) as u16)
        } else {
            bank_read(if altrom { m.rom2 } else { m.rom1 }, (addr - 0xC000) as u16)
        }
    } else if 0xD000 <= addr && addr <= 0xDFFF {
        if lcram {
            bank_read(lc_bank(m, lc_read_index(mem_state)), (addr - 0xD000) as u16)
        } else {
            bank_read(if altrom { m.rom2 } else { m.rom1 }, (addr - 0xC000) as u16)
        }
    } else if 0xE000 <= addr {
        if lcram {
            bank_read(if altzp { m.aux } else { m.main }, addr)
        } else {
            bank_read(if altrom { m.rom2 } else { m.rom1 }, (addr - 0xC000) as u16)
        }
    } else {
        0u8
    }
}

/// The banks after a write of `value` at `addr`, mirroring `mmu_read` with
/// RAMWRT in place of RAMRD; Language Card and high-memory writes are
/// dropped while WRITE is off, and the soft-switch page is untouched.
pub open spec fn mmu_write(
    m: MmuView,
    addr: u16,
    value: u8,
    mem_state: u8,
    is_80store: bool,
    is_page2: bool,
) -> MmuView {
    let altzp = bits_set(mem_state, MemStateMask::ALTZP);
    let ramwrt = bits_set(mem_state, MemStateMask::RAMWRT);
    let write = bits_set(mem_state, MemStateMask::WRITE);
    if addr < 0x0200 {
        if altzp {
            (MmuView { aux: bank_write(m.aux, addr, value), ..m })
        } else {
            (MmuView { main: bank_write(m.main, addr, value), ..m })
        }
    } else if ((0x0400 <= addr && addr <= 0x07FF) || (0x2000 <= addr && addr <= 0x3FFF))
        && is_80store {
        if is_page2 {
            (MmuView { aux: bank_write(m.aux, addr, value), ..m })
        } else {
            (MmuView { main: bank_write(m.main, addr, value), ..m })
        }
    } else if addr <= 0xBFFF {
        if ramwrt {
            (MmuView { aux: bank_write(m.aux, addr, value), ..m })
        } else {
            (MmuView { main: bank_write(m.main, addr, value), ..m })
        }
    } else if 0xC100 <= addr && addr <= 0xCFFF {
        if write {
            lc_bank_set(
                m,
                lc_write_index(mem_state),
                bank_write(lc_bank(m, lc_write_index(mem_state)), (addr - 0xC100) as u16, value),
            )
        } else {
            m
        }
    } else if 0xD000 <= addr && addr <= 0xDFFF {
        if write {
            lc_bank_set(
                m,
                lc_write_index(mem_state),
                bank_write(lc_bank(m, lc_write_index(mem_state)), (addr - 0xD000) as u16, value),
            )
        } else {
            m
        }
    } else if 0xE000 <= addr {
        if write {
            if altzp {
                (MmuView { aux: bank_write(m.aux, addr, value), ..m })
            } else {
                (MmuView { main: bank_write(m.main, addr, value), ..m })
            }
        } else {
            m
        }
    } else {
        m
    }
}

pub struct MMU {
    rom1: Memory,
    rom2: Memory,
    ram_main: Memory,
    ram_aux: Memory,
    lc_main1: Memory,
    lc_main2: Memory,
    lc_aux1: Memory,
    lc_aux2: Memory,
}

impl View for MMU {
    type V = MmuView;

    closed spec fn view(&self) -> MmuView {
        MmuView {
            rom1: self.rom1@,
            rom2: self.rom2@,
            main: self.ram_main@,
            aux: self.ram_aux@,
            lc_main1: self.lc_main1@,
            lc_main2: self.lc_main2@,
            lc_aux1: self.lc_aux1@,
            lc_aux2: self.lc_aux2@,
        }
    }
}

impl MMU {
    pub fn new() -> (r: MMU)
        ensures
            r@.wf(),
            r@.rom1 == Seq::new(0x4000nat, |i: int| 0u8),
            r@.rom2 == Seq::new(0x4000nat, |i: int| 0u8),
            r@.main == Seq::new(0x10000nat, |i: int| 0u8),
            r@.aux == Seq::new(0x10000nat, |i: int| 0u8),
            r@.lc_main1 == Seq::new(0x1000nat, |i: int| 0u8),
            r@.lc_main2 == Seq::new(0x1000nat, |i: int| 0u8),
            r@.lc_aux1 == Seq::new(0x1000nat, |i: int| 0u8),
            r@.lc_aux2 == Seq::new(0x1000nat, |i: int| 0u8),
    {
        MMU {
            rom1: Memory::new(0x4000, "ROM1".to_owned()),
            rom2: Memory::new(0x4000, "ROM2".to_owned()),
            ram_main: Memory::new(0x10000, "RAMMAIN".to_owned()),
            ram_aux: Memory::new(0x10000, "RAMAUX".to_owned()),
            lc_main1: Memory::new(0x1000, "LCMAIN1".to_owned()),
            lc_main2: Memory::new(0x1000, "LCMAIN2".to_owned()),
            lc_aux1: Memory::new(0x1000, "LCAUX1".to_owned()),
            lc_aux2: Memory::new(0x1000, "LCAUX2".to_owned()),
        }
    }

    /// Splits a 32 KiB image into the two 16 KiB ROM banks.
    pub fn load_rom(&mut self, rom: ROM)
        requires
            rom.data@.len() >= 0x8000,
        ensures
            final(self)@ == (MmuView {
                rom1: crate::memory::bank_load(
                    old(self)@.rom1,
                    0,
                    rom.data@.subrange(0, 0x4000),
                ),
                rom2: crate::memory::bank_load(
                    old(self)@.rom2,
                    0,
                    rom.data@.subrange(0x4000, 0x8000),
                ),
                ..old(self)@
            }),
    {
        self.rom1.load_range(0, &rom.data, 0, 0x4000);
        self.rom2.load_range(0, &rom.data, 0x4000, 0x4000);
    }

    pub fn read_aux_byte(&self, addr: u16) -> (r: u8)
        ensures
            r == bank_read(self@.aux, addr),
    {
        self.ram_aux.read_byte(addr)
    }

    pub fn read_byte(&self, iou: &IOU, addr: u16) -> (r: u8)
        ensures
            r == mmu_read(
                self@,
                iou.mem_state,
                bits_set(iou.video_mode, VideoModeMask::PAGE2),
                iou.is_80store,
                addr,
            ),
    {
        let mem_state = iou.mem_state;
        let is_page2 = iou.video_mode & VideoModeMask::PAGE2 == VideoModeMask::PAGE2;
        let is_80store = iou.is_80store;

        let altzp = mem_state & MemStateMask::ALTZP == MemStateMask::ALTZP;
        let altrom = mem_state & MemStateMask::ALTROM == MemStateMask::ALTROM;
        let lcram = mem_state & MemStateMask::LCRAM == MemStateMask::LCRAM;
        let bank2 = mem_state & MemStateMask::RDBNK == MemStateMask::RDBNK;
        let ramrd = mem_state & MemStateMask::RAMRD == MemStateMask::RAMRD;

        if addr < 0x0200 {
            if altzp {
                self.ram_aux.read_byte(addr)
            } else {
                self.ram_main.read_byte(addr)
            }
        } else if ((0x0400 <= addr && addr <= 0x07FF) || (0x2000 <= addr && addr <= 0x3FFF))
            && is_80store {
            if is_page2 {
                self.ram_aux.read_byte(addr)
            } else {
                self.ram_main.read_byte(addr)
            }
        } else if addr <= 0xBFFF {
            if ramrd {
                self.ram_aux.read_byte(addr)
            } else {
                self.ram_main.read_byte(addr)
            }
        } else if 0xC100 <= addr && addr <= 0xCFFF {
            if lcram {
                self.lc_read_bank(bank2, ramrd).read_byte(addr - 0xC100)
            } else if altrom {
                self.rom2.read_byte(addr - 0xC000)
            } else {
                self.rom1.read_byte(addr - 0xC000)
            }
        } else if 0xD000 <= addr && addr <= 0xDFFF {
            if lcram {
                self.lc_read_bank(bank2, ramrd).read_byte(addr - 0xD000)
            } else if altrom {
                self.rom2.read_byte(addr - 0xC000)
            } else {
                self.rom1.read_byte(addr - 0xC000)
            }
        } else if 0xE000 <= addr {
            if lcram {
                if altzp {
                    self.ram_aux.read_byte(addr)
                } else {
                    self.ram_main.read_byte(addr)
                }
            } else if altrom {
                self.rom2.read_byte(addr - 0xC000)
            } else {
                self.rom1.read_byte(addr - 0xC000)
            }
        } else {
            0x00
        }
    }

    /// The Language Card bank selected by the RDBNK bit and an aux flag.
    fn lc_read_bank(&self, bank2: bool, aux: bool) -> (r: &Memory)
        ensures
            r@ == lc_bank(
                self@,
                (if bank2 { 1int } else { 0int }) + (if aux { 2int } else { 0int }),
            ),
    {
        if aux {
            if bank2 {
                &self.lc_aux2
            } else {
                &self.lc_aux1
            }
        } else {
            if bank2 {
                &self.lc_main2
            } else {
                &self.lc_main1
            }
        }
    }

    pub fn write_byte(
        &mut self,
        addr: u16,
        value: u8,
        mem_state: u8,
        is_80store: bool,
        is_page2: bool,
    ) -> (r: u8)
        ensures
            final(self)@ == mmu_write(old(self)@, addr, value, mem_state, is_80store, is_page2),
            r == 0u8,
    {
        let altzp = mem_state & MemStateMask::ALTZP == MemStateMask::ALTZP;
        let bank2 = mem_state & MemStateMask::RDBNK == MemStateMask::RDBNK;
        let ramwrt = mem_state & MemStateMask::RAMWRT == MemStateMask::RAMWRT;
        let write = mem_state & MemStateMask::WRITE == MemStateMask::WRITE;

        if addr < 0x0200 {
            if altzp {
                self.ram_aux.write_byte(addr, value)
            } else {
                self.ram_main.write_byte(addr, value)
            }
        } else if ((0x0400 <= addr && addr <= 0x07FF) || (0x2000 <= addr && addr <= 0x3FFF))
            && is_80store {
            if is_page2 {
                self.ram_aux.write_byte(addr, value)
            } else {
                self.ram_main.write_byte(addr, value)
            }
        } else if addr <= 0xBFFF {
            if ramwrt {
                self.ram_aux.write_byte(addr, value)
            } else {
                self.ram_main.write_byte(addr, value)
            }
        } else if 0xC100 <= addr && addr <= 0xCFFF {
            if write {
                self.lc_write(bank2, ramwrt, addr - 0xC100, value)
            } else {
                0x00
            }
        } else if 0xD000 <= addr && addr <= 0xDFFF {
            if write {
                self.lc_write(bank2, ramwrt, addr - 0xD000, value)
            } else {
                0x00
            }
        } else if 0xE000 <= addr {
            if write {
                if altzp {
                    self.ram_aux.write_byte(addr, value)
                } else {
                    self.ram_main.write_byte(addr, value)
                }
            } else {
                0x00
            }
        } else {
            0x00
        }
    }

    /// Writes into the Language Card bank selected by RDBNK and an aux flag.
    fn lc_write(&mut self, bank2: bool, aux: bool, offset: u16, value: u8) -> (r: u8)
        ensures
            final(self)@ == lc_bank_set(
                old(self)@,
                (if bank2 { 1int } else { 0int }) + (if aux { 2int } else { 0int }),
                bank_write(
                    lc_bank(
                        old(self)@,
                        (if bank2 { 1int } else { 0int }) + (if aux { 2int } else { 0int }),
                    ),
                    offset,
                    value,
                ),
            ),
            r == 0u8,
    {
        if aux {
            if bank2 {
                self.lc_aux2.write_byte(offset, value)
            } else {
                self.lc_aux1.write_byte(offset, value)
            }
        } else {
            if bank2 {
                self.lc_main2.write_byte(offset, value)
            } else {
                self.lc_main1.write_byte(offset, value)
            }
        }
    }
}

} // verus!
