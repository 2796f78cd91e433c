//! The top-level address decoder. On the Apple IIc target, $C000-$C0FF
//! goes to the IOU and everything else to the MMU; on the Generic test
//! target, addresses go to flat RAM, with $BFFC acting as a debug feedback
//! register whose bit 0 requests an IRQ and bit 1 an NMI.

use vstd::prelude::*;

use crate::cpu::CpuType;
use crate::cpu::SystemType;
use crate::interrupts::InterruptController;
use crate::iou::bits_set;
use crate::iou::spec_ss_read;
use crate::iou::spec_ss_write;
use crate::iou::IOU;
use crate::memory::bank_load;
use crate::memory::bank_read;
use crate::memory::bank_write;
use crate::memory::Memory;
use crate::mmu::mmu_read;
use crate::mmu::mmu_write;
use crate::mmu::MmuView;
use crate::mmu::MMU;
use crate::rom::rom_max_size;
use crate::rom::ROM;
use crate::util::ascii_view;
use crate::util::mem_state_bytes;
use crate::video::Video;
use crate::video::VideoModeMask;

verus! {

/// Everything on the bus that reads and writes can touch: the system type,
/// the IOU state, the MMU banks, the flat RAM of the Generic target, the
/// interrupt controller, and the feedback latch.
pub ghost struct BusView {
    pub system_type: SystemType,
    pub iou: IOU,
    pub mmu: MmuView,
    pub ram: Seq<u8>,
    pub interrupts: InterruptController,
    pub video: Video,
    pub i_port: u8,
}

/// The flat-RAM size of each system: the Generic target decodes a full
/// 64 KiB; the Apple IIc keeps two 48 KiB banks on the side.
pub open spec fn bus_ram_size(system_type: SystemType) -> int {
    match system_type {
        SystemType::Generic => 0x10000,
        SystemType::AppleIIc => 0x18000,
    }
}

impl BusView {
    pub open spec fn wf(self) -> bool {
        &&& self.mmu.wf()
        &&& self.ram.len() == bus_ram_size(self.system_type)
    }
}

/// An Apple IIc read: the soft-switch page goes to the IOU, with its side
/// effects; all other addresses resolve through the MMU and leave the
/// state alone.
pub open spec fn spec_iic_read(b: BusView, addr: u16) -> (BusView, u8) {
    if 0xC000 <= addr && addr <= 0xC0FF {
        let r = spec_ss_read(b.iou, addr);
        ((BusView { iou: r.0, ..b }), r.1)
    } else {
        (
            b,
            mmu_read(
                b.mmu,
                b.iou.mem_state,
                bits_set(b.iou.video_mode, VideoModeMask::PAGE2),
                b.iou.is_80store,
                addr,
            ),
        )
    }
}

/// An Apple IIc write: the soft-switch page goes to the IOU (the value is
/// ignored there); all other addresses go through the MMU, with PAGE2
/// selecting the display bank while 80STORE is on, exactly as reads do.
pub open spec fn spec_iic_write(b: BusView, addr: u16, value: u8) -> (BusView, u8) {
    if 0xC000 <= addr && addr <= 0xC0FF {
        let r = spec_ss_write(b.iou, addr);
        ((BusView { iou: r.0, ..b }), r.1)
    } else {
        (
            (BusView {
                mmu: mmu_write(
                    b.mmu,
                    addr,
                    value,
                    b.iou.mem_state,
                    b.iou.is_80store,
                    bits_set(b.iou.video_mode, VideoModeMask::PAGE2),
                ),
                ..b
            }),
            0u8,
        )
    }
}

/// What one bus read does: dispatch to the IOU or MMU on the Apple IIc;
/// on Generic, $BFFC reads back the feedback latch and all else flat RAM.
pub open spec fn spec_bus_read(b: BusView, addr: u16) -> (BusView, u8) {
    if b.system_type == SystemType::AppleIIc {
        spec_iic_read(b, addr)
    } else {
        if addr == 0xBFFC {
            (b, b.i_port)
        } else {
            (b, bank_read(b.ram, addr))
        }
    }
}

/// What one bus write does; a Generic write to $BFFC latches the value and
/// requests an IRQ on bit 0 and an NMI on bit 1 instead of storing it.
pub open spec fn spec_bus_write(b: BusView, addr: u16, value: u8) -> (BusView, u8) {
    if b.system_type == SystemType::AppleIIc {
        spec_iic_write(b, addr, value)
    } else {
        if addr == 0xBFFC {
            let ints0 = b.interrupts;
            let ints1 = if value & 0x01 != 0 {
                (InterruptController { irq: true, waiting: false, ..ints0 })
            } else {
                ints0
            };
            let ints2 = if value & 0x02 != 0 {
                (InterruptController { nmi: true, waiting: false, ..ints1 })
            } else {
                ints1
            };
            ((BusView { i_port: value, interrupts: ints2, ..b }), 0u8)
        } else {
            ((BusView { ram: bank_write(b.ram, addr, value), ..b }), 0u8)
        }
    }
}

/// A 16-bit value reduced to the address space, as wrapping address
/// arithmetic produces it.
pub open spec fn wrap16(a: int) -> u16 {
    (a % 0x10000) as u16
}

/// The little-endian word at `addr` as two plain value peeks spell it,
/// with no state threaded between them.
pub open spec fn spec_peek_word(b: BusView, addr: u16) -> u16 {
    (spec_bus_read(b, addr).1 + spec_bus_read(b, addr.wrapping_add(1)).1 * 0x100) as u16
}

/// The little-endian word two consecutive bus reads yield, low byte first,
/// the high byte's address wrapping, together with the state they leave.
pub open spec fn spec_bus_read_word(b: BusView, addr: u16) -> (BusView, u16) {
    let lo = spec_bus_read(b, addr);
    let hi = spec_bus_read(lo.0, addr.wrapping_add(1));
    (hi.0, (lo.1 + hi.1 * 0x100) as u16)
}

/// The bus after writing a run of bytes at consecutive (wrapping)
/// addresses, first byte first.
pub open spec fn spec_bus_write_seq(b: BusView, start: u16, bytes: Seq<u8>) -> BusView
    decreases bytes.len(),
{
    if bytes.len() == 0 {
        b
    } else {
        spec_bus_write_seq(
            spec_bus_write(b, start, bytes[0]).0,
            wrap16(start + 1),
            bytes.drop_first(),
        )
    }
}

/// A wrapping step from `start` by a truncated index lands where the
/// full index does, modulo the address space.
proof fn lemma_wrap_index(start: u16, i: usize)
    ensures
        start.wrapping_add(i as u16) == wrap16(start + i),
{
    assert((i as u16) as int == (i as int) % 0x10000) by (bit_vector);
    assert((start as int + (i as int) % 0x10000) % 0x10000 == (start as int + i as int)
        % 0x10000) by (nonlinear_arith);
}

/// Writing one more byte after a run lands at the address just past it.
pub proof fn lemma_bus_write_seq_snoc(b: BusView, start: u16, bytes: Seq<u8>, value: u8)
    ensures
        spec_bus_write_seq(b, start, bytes.push(value)) == spec_bus_write(
            spec_bus_write_seq(b, start, bytes),
            wrap16(start + bytes.len()),
            value,
        ).0,
    decreases bytes.len(),
{
    let pv = bytes.push(value);
    if bytes.len() == 0 {
        assert(bytes =~= Seq::<u8>::empty());
        assert(spec_bus_write_seq(b, start, bytes) == b);
        assert(pv[0] == value);
        assert(pv.drop_first() =~= Seq::<u8>::empty());
        assert(wrap16(start + 0) == start) by {
            assert((start as int) % 0x10000 == start as int);
        }
        let b1 = spec_bus_write(b, start, value).0;
        assert(spec_bus_write_seq(b, start, pv) == spec_bus_write_seq(
            b1,
            wrap16(start + 1),
            pv.drop_first(),
        ));
        assert(spec_bus_write_seq(b1, wrap16(start + 1), pv.drop_first()) == b1);
    } else {
        assert(pv[0] == bytes[0]);
        assert(pv.drop_first() =~= bytes.drop_first().push(value));
        let b1 = spec_bus_write(b, start, bytes[0]).0;
        let start1 = wrap16(start + 1);
        lemma_bus_write_seq_snoc(b1, start1, bytes.drop_first(), value);
        assert(spec_bus_write_seq(b, start, pv) == spec_bus_write_seq(
            b1,
            start1,
            bytes.drop_first().push(value),
        ));
        assert(spec_bus_write_seq(b, start, bytes) == spec_bus_write_seq(
            b1,
            start1,
            bytes.drop_first(),
        ));
        assert(wrap16(start1 + bytes.drop_first().len()) == wrap16(start + bytes.len())) by {
            assert(start1 == (start + 1) % 0x10000);
            assert(((start + 1) % 0x10000 + (bytes.len() - 1)) % 0x10000 == (start
                + bytes.len()) % 0x10000) by (nonlinear_arith);
        }
    }
}

pub struct Bus {
    pub system_type: SystemType,
    pub iou: IOU,
    pub mmu: MMU,
    pub bus_ram: Memory,
    pub interrupts: InterruptController,
    pub video: Video,
    /// The debug IRQ/NMI feedback latch of the Generic target.
    pub i_port: u8,
}

impl View for Bus {
    type V = BusView;

    open spec fn view(&self) -> BusView {
        BusView {
            system_type: self.system_type,
            iou: self.iou,
            mmu: self.mmu@,
            ram: self.bus_ram@,
            interrupts: self.interrupts,
            video: self.video,
            i_port: self.i_port,
        }
    }
}

/// What a freshly built bus looks like: every bank zeroed, the IOU in its
/// power-up state, no interrupt pending, the feedback latch clear.
pub open spec fn spec_bus_initial(b: BusView, system_type: SystemType) -> bool {
    &&& b.wf()
    &&& b.system_type == system_type
    &&& b.iou == crate::iou::spec_iou_initial()
    &&& b.mmu.rom1 == Seq::new(0x4000nat, |i: int| 0u8)
    &&& b.mmu.rom2 == Seq::new(0x4000nat, |i: int| 0u8)
    &&& b.mmu.main == Seq::new(0x10000nat, |i: int| 0u8)
    &&& b.mmu.aux == Seq::new(0x10000nat, |i: int| 0u8)
    &&& b.mmu.lc_main1 == Seq::new(0x1000nat, |i: int| 0u8)
    &&& b.mmu.lc_main2 == Seq::new(0x1000nat, |i: int| 0u8)
    &&& b.mmu.lc_aux1 == Seq::new(0x1000nat, |i: int| 0u8)
    &&& b.mmu.lc_aux2 == Seq::new(0x1000nat, |i: int| 0u8)
    &&& b.ram == Seq::new(bus_ram_size(system_type) as nat, |i: int| 0u8)
    &&& b.interrupts == (InterruptController {
        nmi: false,
        irq: false,
        brk: false,
        reset: false,
        waiting: false,
        halted: false,
    })
    &&& b.i_port == 0u8
}

impl Bus {
    pub fn new(system_type: SystemType, _cpu_type: CpuType) -> (r: Bus)
        ensures
            spec_bus_initial(r@, system_type),
            r@.video.wf(),
            r@.video.spec_width() == 560,
            r@.video.spec_height() == 192,
    {
        let memory_size: usize = match system_type {
            SystemType::Generic => 0x10000,
            SystemType::AppleIIc => 0x18000,
        };

        Bus {
            system_type,
            iou: IOU::new(),
            mmu: MMU::new(),
            interrupts: InterruptController::default(),
            video: Video::new(),
            bus_ram: Memory::new(memory_size, "BUSRAM".to_owned()),
            i_port: 0,
        }
    }

    /// Redraws the video output for the current mode.
    pub fn video_update(&mut self)
        requires
            old(self)@.video.wf(),
        ensures
            final(self)@ == (BusView { video: final(self)@.video, ..old(self)@ }),
            final(self)@.video.wf(),
            final(self)@.video.spec_width() == crate::video::spec_update_width(
                old(self)@.iou.video_mode,
            ),
            final(self)@.video.spec_height() == crate::video::spec_update_height(
                old(self)@.iou.video_mode,
            ),
    {
        self.video.update(&self.iou, &self.mmu);
    }

    pub fn init_mmu(&mut self)
        ensures
            *final(self) == *old(self),
    {
    }

    pub fn mmu_mem_state_to_string(&self) -> (r: String)
        ensures
            r@ == ascii_view(mem_state_bytes(self@.iou.mem_state)),
    {
        crate::util::mem_state_to_string(self.iou.mem_state)
    }

    /// Loads a ROM image: into the MMU's two banks on the Apple IIc, into
    /// flat RAM on Generic. The image must fill the target region.
    pub fn load_rom(&mut self, rom: ROM)
        requires
            rom.data@.len() >= rom_max_size(old(self)@.system_type),
        ensures
            old(self)@.system_type == SystemType::AppleIIc ==> final(self)@ == (BusView {
                mmu: (MmuView {
                    rom1: bank_load(old(self)@.mmu.rom1, 0, rom.data@.subrange(0, 0x4000)),
                    rom2: bank_load(
                        old(self)@.mmu.rom2,
                        0,
                        rom.data@.subrange(0x4000, 0x8000),
                    ),
                    ..old(self)@.mmu
                }),
                ..old(self)@
            }),
            old(self)@.system_type != SystemType::AppleIIc ==> final(self)@ == (BusView {
                ram: bank_load(old(self)@.ram, 0, rom.data@.subrange(0, 0x10000)),
                ..old(self)@
            })
    {
        if self.system_type == SystemType::AppleIIc {
            self.mmu.load_rom(rom);
        } else {
            self.bus_ram.load_range(0, &rom.data, 0, 0x10000);
        }
    }

    pub fn read_byte(&mut self, addr: u16) -> (r: u8)
        ensures
            final(self)@ == spec_bus_read(old(self)@, addr).0,
            r == spec_bus_read(old(self)@, addr).1
    {
        if self.system_type == SystemType::AppleIIc {
            self.handle_iic_read(addr)
        } else {
            if addr == 0xBFFC {
                self.i_port
            } else {
                self.bus_ram.read_byte(addr)
            }
        }
    }

    /// The byte `read_byte` would return, without the read's side effects.
    pub fn peek_byte(&self, addr: u16) -> (r: u8)
        ensures
            r == spec_bus_read(self@, addr).1,
    {
        if self.system_type == SystemType::AppleIIc {
            if addr >= 0xC000 && addr <= 0xC0FF {
                self.iou.peek(addr)
            } else {
                self.mmu.read_byte(&self.iou, addr)
            }
        } else {
            if addr == 0xBFFC {
                self.i_port
            } else {
                self.bus_ram.read_byte(addr)
            }
        }
    }

    pub fn read_word(&mut self, addr: u16) -> (r: u16)
        ensures
            final(self)@ == spec_bus_read_word(old(self)@, addr).0,
            r == spec_bus_read_word(old(self)@, addr).1
    {
        let lo = self.read_byte(addr) as u16;
        let hi = self.read_byte(addr.wrapping_add(1)) as u16;
        proof {
            crate::util::lemma_word_combine(hi, lo);
        }
        (hi << 8) | lo
    }

    /// The word two byte peeks at `addr` and `addr + 1` spell, low byte
    /// first. Outside the soft-switch page this equals what `read_word`
    /// returns, since plain reads leave the bus alone.
    pub fn peek_word(&self, addr: u16) -> (r: u16)
        ensures
            r == spec_peek_word(self@, addr),
    {
        let lo = self.peek_byte(addr) as u16;
        let hi = self.peek_byte(addr.wrapping_add(1)) as u16;
        proof {
            crate::util::lemma_word_combine(hi, lo);
        }
        (hi << 8) | lo
    }

    pub fn write_byte(&mut self, addr: u16, value: u8) -> (r: u8)
        ensures
            final(self)@ == spec_bus_write(old(self)@, addr, value).0,
            r == spec_bus_write(old(self)@, addr, value).1
    {
        if self.system_type == SystemType::AppleIIc {
            self.handle_iic_write(addr, value)
        } else {
            match addr {
                0xBFFC => {
                    self.i_port = value;

                    let irq_triggered = value & 0x01 != 0;
                    let nmi_triggered = value & 0x02 != 0;

                    if irq_triggered {
                        self.interrupts.request_irq();
                    }

                    if nmi_triggered {
                        self.interrupts.request_nmi();
                    }

                    0x00
                },
                _ => self.bus_ram.write_byte(addr, value),
            }
        }
    }

    pub fn write_bytes(&mut self, start: u16, bytes: &[u8])
        ensures
            final(self)@ == spec_bus_write_seq(old(self)@, start, bytes@)
    {
        proof {
            assert(bytes@.take(0) =~= Seq::<u8>::empty());
        }
        let mut i: usize = 0;
        while i < bytes.len()
            invariant
                i <= bytes@.len(),
                self@ == spec_bus_write_seq(old(self)@, start, bytes@.take(i as int)),
                self.video == old(self).video,
            decreases bytes@.len() - i,
        {
            let b = bytes[i];
            proof {
                lemma_bus_write_seq_snoc(old(self)@, start, bytes@.take(i as int), b);
                assert(bytes@.take(i as int).push(b) =~= bytes@.take(i + 1));
                lemma_wrap_index(start, i);
            }
            self.write_byte(start.wrapping_add(i as u16), b);
            i = i + 1;
        }
        proof {
            assert(bytes@.take(bytes@.len() as int) =~= bytes@);
        }
    }

    pub fn handle_iic_read(&mut self, addr: u16) -> (r: u8)
        ensures
            final(self)@ == spec_iic_read(old(self)@, addr).0,
            r == spec_iic_read(old(self)@, addr).1
    {
        if addr >= 0xC000 && addr <= 0xC0FF {
            self.iou.ss_read(addr)
        } else {
            self.mmu.read_byte(&self.iou, addr)
        }
    }

    pub fn handle_iic_write(&mut self, addr: u16, value: u8) -> (r: u8)
        ensures
            final(self)@ == spec_iic_write(old(self)@, addr, value).0,
            r == spec_iic_write(old(self)@, addr, value).1
    {
        if addr >= 0xC000 && addr <= 0xC0FF {
            self.iou.ss_write(addr)
        } else {
            self.mmu.write_byte(
                addr,
                value,
                self.iou.mem_state,
                self.iou.is_80store,
                self.iou.video_mode & VideoModeMask::PAGE2 == VideoModeMask::PAGE2,
            )
        }
    }
}

/// The memory-state byte routes a read of `addr` to the very bank a write
/// of `addr` lands in, and permits the write. On Generic every address
/// qualifies: flat RAM reads back its writes, and the $BFFC latch reads
/// back the value written to it.
pub open spec fn bus_route_ok(b: BusView, addr: u16) -> bool {
    if b.system_type != SystemType::AppleIIc {
        true
    } else {
        let ms = b.iou.mem_state;
        let rd = bits_set(ms, crate::mmu::MemStateMask::RAMRD);
        let wrt = bits_set(ms, crate::mmu::MemStateMask::RAMWRT);
        let lcram = bits_set(ms, crate::mmu::MemStateMask::LCRAM);
        let wren = bits_set(ms, crate::mmu::MemStateMask::WRITE);
        if addr < 0x0200 {
            true
        } else if ((0x0400 <= addr && addr <= 0x07FF) || (0x2000 <= addr && addr <= 0x3FFF))
            && b.iou.is_80store {
            true
        } else if addr <= 0xBFFF {
            rd == wrt
        } else if 0xC100 <= addr && addr <= 0xDFFF {
            wren && lcram && rd == wrt
        } else {
            wren && lcram
        }
    }
}

/// Write/read round trip over the bus: for every address outside the
/// soft-switch page, writing a byte and reading it back returns that byte
/// whenever the current memory-state byte routes the same bank for read
/// and write and WRITE/LCRAM permit the write.
pub proof fn lemma_bus_write_read_round_trip(b: BusView, addr: u16, value: u8)
    requires
        b.wf(),
        !(0xC000 <= addr && addr <= 0xC0FF),
        bus_route_ok(b, addr),
    ensures
        spec_bus_read(spec_bus_write(b, addr, value).0, addr).1 == value,
{
}

} // verus!
