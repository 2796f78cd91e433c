//! The I/O unit: decodes the 256 soft-switch addresses $C000-$C0FF for reads
//! and writes, driving the memory-state byte, the video mode, 80STORE and
//! IOUDIS. The $C081/3/9/B/D/F latches enable Language Card writes only on
//! the second consecutive read of the same address.

use vstd::prelude::*;

use crate::mmu::LcRamMode;
use crate::mmu::MemStateMask;
use crate::mmu::LCRAMMODEMASK;
use crate::video::VideoMode;
use crate::video::VideoModeMask;

verus! {

pub struct IOU {
    pub mem_state: u8,
    pub c081_rr: (u16, u8),
    pub c083_rr: (u16, u8),
    pub c089_rr: (u16, u8),
    pub c08b_rr: (u16, u8),
    pub c08d_rr: (u16, u8),
    pub c08f_rr: (u16, u8),
    pub is_80store: bool,
    pub ioudis: bool,
    pub video_mode: u8,
    pub last_key: u8,
    pub key_ready: bool,
}

/// Whether every bit of `mask` is set in `v`.
pub open spec fn bits_set(v: u8, mask: u8) -> bool {
    v & mask == mask
}

/// A status-read result: bit 7 reflects the queried flag, bits 6..0 are 0.
pub open spec fn bit7(b: bool) -> u8 {
    if b {
        0x80u8
    } else {
        0x00u8
    }
}

/// The memory-state byte with its LCRAMMODE sub-field rewritten to `mode`.
pub open spec fn lc_mode_set(ms: u8, mode: u8) -> u8 {
    (ms & !LCRAMMODEMASK) | (mode & LCRAMMODEMASK)
}

/// A two-read counter after one more read of `addr`: it advances only on a
/// repeat of the same address and saturates at two, where it stays.
pub open spec fn rr_bump(rr: (u16, u8), addr: u16) -> (u16, u8) {
    if rr.0 == addr {
        (addr, if rr.1 < 2 { (rr.1 + 1) as u8 } else { 2u8 })
    } else {
        (addr, 1u8)
    }
}

/// The two-read counter that guards `addr`, for the six latched switches.
pub open spec fn rr_of(s: IOU, addr: u16) -> (u16, u8) {
    if addr == 0xC081 {
        s.c081_rr
    } else if addr == 0xC083 {
        s.c083_rr
    } else if addr == 0xC089 {
        s.c089_rr
    } else if addr == 0xC08B {
        s.c08b_rr
    } else if addr == 0xC08D {
        s.c08d_rr
    } else {
        s.c08f_rr
    }
}

/// The IOU with the counter that guards `addr` replaced by `rr`.
pub open spec fn with_rr(s: IOU, addr: u16, rr: (u16, u8)) -> IOU {
    if addr == 0xC081 {
        (IOU { c081_rr: rr, ..s })
    } else if addr == 0xC083 {
        (IOU { c083_rr: rr, ..s })
    } else if addr == 0xC089 {
        (IOU { c089_rr: rr, ..s })
    } else if addr == 0xC08B {
        (IOU { c08b_rr: rr, ..s })
    } else if addr == 0xC08D {
        (IOU { c08d_rr: rr, ..s })
    } else {
        (IOU { c08f_rr: rr, ..s })
    }
}

/// The IOU with every two-read counter idle, as a read of any other
/// $C08x address leaves them.
pub open spec fn rr_reset(s: IOU) -> IOU {
    IOU {
        c081_rr: (0x0000u16, 0u8),
        c083_rr: (0x0000u16, 0u8),
        c089_rr: (0x0000u16, 0u8),
        c08b_rr: (0x0000u16, 0u8),
        c08d_rr: (0x0000u16, 0u8),
        c08f_rr: (0x0000u16, 0u8),
        ..s
    }
}

/// One read of an unlatched $C08x switch: the mode commits at once (its
/// WRITE bit is clear), and every two-read counter resets.
pub open spec fn lc_unlatched_read(s: IOU, mode: u8) -> IOU {
    (IOU { mem_state: lc_mode_set(s.mem_state, mode), ..rr_reset(s) })
}

/// One read of a latched LC switch: every other counter resets, this
/// switch's counter advances, and the mode commits - with its WRITE bit
/// held clear unless this is the second consecutive read of the same
/// address.
pub open spec fn lc_latch_read(s: IOU, addr: u16, mode: u8) -> IOU {
    let rr = rr_bump(rr_of(s, addr), addr);
    let s1 = with_rr(rr_reset(s), addr, rr);
    if rr.1 >= 2 {
        (IOU { mem_state: lc_mode_set(s.mem_state, mode), ..s1 })
    } else {
        (IOU { mem_state: lc_mode_set(s.mem_state, mode & !MemStateMask::WRITE), ..s1 })
    }
}

/// The IOU after a soft-switch read at `addr`, paired with the byte the read
/// returns. Unhandled addresses leave the state alone and return 0.
pub open spec fn spec_ss_read(s: IOU, addr: u16) -> (IOU, u8) {
    if addr == 0xC018 {
        (s, bit7(s.is_80store))
    } else if addr == 0xC07E {
        (s, bit7(s.ioudis))
    } else if addr == 0xC07F {
        (s, bit7(bits_set(s.video_mode, VideoModeMask::DHIRES)))
    } else if addr == 0xC080 {
        (lc_unlatched_read(s, LcRamMode::C080), 0u8)
    } else if addr == 0xC081 {
        (lc_latch_read(s, addr, LcRamMode::C081), 0u8)
    } else if addr == 0xC082 {
        (lc_unlatched_read(s, LcRamMode::C082), 0u8)
    } else if addr == 0xC083 {
        (lc_latch_read(s, addr, LcRamMode::C083), 0u8)
    } else if addr == 0xC088 {
        (lc_unlatched_read(s, LcRamMode::C088), 0u8)
    } else if addr == 0xC089 {
        (lc_latch_read(s, addr, LcRamMode::C089), 0u8)
    } else if addr == 0xC08A {
        (lc_unlatched_read(s, LcRamMode::C08A), 0u8)
    } else if addr == 0xC08B {
        (lc_latch_read(s, addr, LcRamMode::C08B), 0u8)
    } else if addr == 0xC08C {
        (lc_unlatched_read(s, LcRamMode::C08C), 0u8)
    } else if addr == 0xC08D {
        (lc_latch_read(s, addr, LcRamMode::C08D), 0u8)
    } else if addr == 0xC08E {
        (lc_unlatched_read(s, LcRamMode::C08E), 0u8)
    } else if addr == 0xC08F {
        (lc_latch_read(s, addr, LcRamMode::C08F), 0u8)
    } else if addr == 0xC011 {
        (s, bit7(bits_set(s.mem_state, MemStateMask::RDBNK)))
    } else if addr == 0xC012 {
        (s, bit7(bits_set(s.mem_state, MemStateMask::LCRAM)))
    } else if addr == 0xC013 {
        (s, bit7(bits_set(s.mem_state, MemStateMask::RAMRD)))
    } else if addr == 0xC014 {
        (s, bit7(bits_set(s.mem_state, MemStateMask::RAMWRT)))
    } else if addr == 0xC016 {
        (s, bit7(bits_set(s.mem_state, MemStateMask::ALTZP)))
    } else if addr == 0xC01A {
        (s, bit7(bits_set(s.video_mode, VideoModeMask::TEXT)))
    } else if addr == 0xC01B {
        (s, bit7(bits_set(s.video_mode, VideoModeMask::MIXED)))
    } else if addr == 0xC01C {
        (s, bit7(bits_set(s.video_mode, VideoModeMask::PAGE2)))
    } else if addr == 0xC01D {
        (s, bit7(bits_set(s.video_mode, VideoModeMask::HIRES)))
    } else if addr == 0xC01E {
        (s, bit7(bits_set(s.video_mode, VideoModeMask::ALTCHAR)))
    } else if addr == 0xC01F {
        (s, bit7(bits_set(s.video_mode, VideoModeMask::COL80)))
    } else if addr == 0xC050 {
        let vm = s.video_mode & !VideoModeMask::TEXT;
        ((IOU { video_mode: vm, ..s }), vm)
    } else if addr == 0xC051 {
        let vm = s.video_mode | VideoModeMask::TEXT;
        ((IOU { video_mode: vm, ..s }), vm)
    } else if addr == 0xC052 {
        let vm = s.video_mode & !VideoModeMask::MIXED;
        ((IOU { video_mode: vm, ..s }), vm)
    } else if addr == 0xC053 {
        let vm = s.video_mode | VideoModeMask::MIXED;
        ((IOU { video_mode: vm, ..s }), vm)
    } else if addr == 0xC054 {
        let vm = s.video_mode & !VideoModeMask::PAGE2;
        ((IOU { video_mode: vm, ..s }), vm)
    } else if addr == 0xC055 {
        let vm = s.video_mode | VideoModeMask::PAGE2;
        ((IOU { video_mode: vm, ..s }), vm)
    } else if addr == 0xC056 {
        let vm = (s.video_mode & !(VideoModeMask::HIRES | VideoModeMask::DHIRES))
            | VideoModeMask::LORES;
        ((IOU { video_mode: vm, ..s }), vm)
    } else if addr == 0xC057 {
        let vm = (s.video_mode & !VideoModeMask::LORES) | VideoModeMask::HIRES;
        ((IOU { video_mode: vm, ..s }), vm)
    } else if addr == 0xC05E {
        if s.ioudis {
            (s, 0u8)
        } else {
            let vm = s.video_mode | VideoModeMask::DHIRES;
            ((IOU { video_mode: vm, ..s }), vm)
        }
    } else if addr == 0xC05F {
        if s.ioudis {
            (s, 0u8)
        } else {
            let vm = s.video_mode & !VideoModeMask::DHIRES;
            ((IOU { video_mode: vm, ..s }), vm)
        }
    } else if addr == 0xC060 {
        (s, bit7(bits_set(s.video_mode, VideoModeMask::COL80)))
    } else {
        (s, 0u8)
    }
}

/// The IOU after a soft-switch write at `addr`, paired with the returned
/// byte. LC mode writes commit immediately; the written value is ignored by
/// every switch in this page.
pub open spec fn spec_ss_write(s: IOU, addr: u16) -> (IOU, u8) {
    if addr == 0xC000 {
        ((IOU { is_80store: false, ..s }), 0u8)
    } else if addr == 0xC001 {
        ((IOU { is_80store: true, ..s }), 0u8)
    } else if addr == 0xC00C {
        let vm = s.video_mode & !VideoModeMask::COL80;
        ((IOU { video_mode: vm, ..s }), vm)
    } else if addr == 0xC00D {
        let vm = s.video_mode | VideoModeMask::COL80;
        ((IOU { video_mode: vm, ..s }), vm)
    } else if addr == 0xC00E {
        let vm = s.video_mode & !VideoModeMask::ALTCHAR;
        ((IOU { video_mode: vm, ..s }), vm)
    } else if addr == 0xC00F {
        let vm = s.video_mode | VideoModeMask::ALTCHAR;
        ((IOU { video_mode: vm, ..s }), vm)
    } else if addr == 0xC080 {
        ((IOU { mem_state: lc_mode_set(s.mem_state, LcRamMode::C080), ..s }), 0u8)
    } else if addr == 0xC081 {
        ((IOU { mem_state: lc_mode_set(s.mem_state, LcRamMode::C081), ..s }), 0u8)
    } else if addr == 0xC082 {
        ((IOU { mem_state: lc_mode_set(s.mem_state, LcRamMode::C082), ..s }), 0u8)
    } else if addr == 0xC083 {
        ((IOU { mem_state: lc_mode_set(s.mem_state, LcRamMode::C083), ..s }), 0u8)
    } else if addr == 0xC088 {
        ((IOU { mem_state: lc_mode_set(s.mem_state, LcRamMode::C088), ..s }), 0u8)
    } else if addr == 0xC089 {
        ((IOU { mem_state: lc_mode_set(s.mem_state, LcRamMode::C089), ..s }), 0u8)
    } else if addr == 0xC08A {
        ((IOU { mem_state: lc_mode_set(s.mem_state, LcRamMode::C08A), ..s }), 0u8)
    } else if addr == 0xC08B {
        ((IOU { mem_state: lc_mode_set(s.mem_state, LcRamMode::C08B), ..s }), 0u8)
    } else if addr == 0xC08C {
        ((IOU { mem_state: lc_mode_set(s.mem_state, LcRamMode::C08C), ..s }), 0u8)
    } else if addr == 0xC08D {
        ((IOU { mem_state: lc_mode_set(s.mem_state, LcRamMode::C08D), ..s }), 0u8)
    } else if addr == 0xC08E {
        ((IOU { mem_state: lc_mode_set(s.mem_state, LcRamMode::C08E), ..s }), 0u8)
    } else if addr == 0xC08F {
        ((IOU { mem_state: lc_mode_set(s.mem_state, LcRamMode::C08F), ..s }), 0u8)
    } else if addr == 0xC07E {
        ((IOU { ioudis: false, ..s }), 0u8)
    } else if addr == 0xC07F {
        ((IOU { ioudis: true, ..s }), 0u8)
    } else if addr == 0xC008 {
        let ms = s.mem_state & !MemStateMask::ALTZP;
        ((IOU { mem_state: ms, ..s }), ms)
    } else if addr == 0xC009 {
        let ms = s.mem_state | MemStateMask::ALTZP;
        ((IOU { mem_state: ms, ..s }), ms)
    } else if addr == 0xC002 {
        let ms = s.mem_state & !MemStateMask::RAMRD;
        ((IOU { mem_state: ms, ..s }), ms)
    } else if addr == 0xC003 {
        let ms = s.mem_state | MemStateMask::RAMRD;
        ((IOU { mem_state: ms, ..s }), ms)
    } else if addr == 0xC004 {
        let ms = s.mem_state & !MemStateMask::RAMWRT;
        ((IOU { mem_state: ms, ..s }), ms)
    } else if addr == 0xC005 {
        let ms = s.mem_state | MemStateMask::RAMWRT;
        ((IOU { mem_state: ms, ..s }), ms)
    } else if addr == 0xC028 {
        let ms = s.mem_state ^ MemStateMask::ALTROM;
        ((IOU { mem_state: ms, ..s }), ms)
    } else if addr == 0xC050 {
        let vm = s.video_mode & !VideoModeMask::TEXT;
        ((IOU { video_mode: vm, ..s }), vm)
    } else if addr == 0xC051 {
        let vm = s.video_mode | VideoModeMask::TEXT;
        ((IOU { video_mode: vm, ..s }), vm)
    } else if addr == 0xC052 {
        let vm = s.video_mode & !VideoModeMask::MIXED;
        ((IOU { video_mode: vm, ..s }), vm)
    } else if addr == 0xC053 {
        let vm = s.video_mode | VideoModeMask::MIXED;
        ((IOU { video_mode: vm, ..s }), vm)
    } else if addr == 0xC054 {
        let vm = s.video_mode & !VideoModeMask::PAGE2;
        ((IOU { video_mode: vm, ..s }), vm)
    } else if addr == 0xC055 {
        let vm = s.video_mode | VideoModeMask::PAGE2;
        ((IOU { video_mode: vm, ..s }), vm)
    } else if addr == 0xC056 {
        let vm = (s.video_mode & !(VideoModeMask::HIRES | VideoModeMask::DHIRES))
            | VideoModeMask::LORES;
        ((IOU { video_mode: vm, ..s }), vm)
    } else if addr == 0xC057 {
        let vm = (s.video_mode & !VideoModeMask::LORES) | VideoModeMask::HIRES;
        ((IOU { video_mode: vm, ..s }), vm)
    } else if addr == 0xC078 {
        ((IOU { ioudis: true, ..s }), 0u8)
    } else if addr == 0xC079 {
        ((IOU { ioudis: false, ..s }), 0u8)
    } else if addr == 0xC05E {
        if s.ioudis {
            (s, 0u8)
        } else {
            let vm = s.video_mode | VideoModeMask::DHIRES;
            ((IOU { video_mode: vm, ..s }), vm)
        }
    } else if addr == 0xC05F {
        if s.ioudis {
            (s, 0u8)
        } else {
            let vm = s.video_mode & !VideoModeMask::DHIRES;
            ((IOU { video_mode: vm, ..s }), vm)
        }
    } else {
        (s, 0u8)
    }
}

/// The $C08x switches that commit their LC mode on every read.
pub open spec fn is_unlatched_lc(addr: u16) -> bool {
    addr == 0xC080 || addr == 0xC082 || addr == 0xC088 || addr == 0xC08A || addr == 0xC08C
        || addr == 0xC08E
}

/// The $C08x switches guarded by a two-read latch.
pub open spec fn is_latched_lc(addr: u16) -> bool {
    addr == 0xC081 || addr == 0xC083 || addr == 0xC089 || addr == 0xC08B || addr == 0xC08D
        || addr == 0xC08F
}

/// A read of `addr` is the second consecutive read of the same latched
/// switch: its counter already saw `addr` at least once.
pub open spec fn is_doubling_read(s: IOU, addr: u16) -> bool {
    is_latched_lc(addr) && rr_of(s, addr).0 == addr && rr_of(s, addr).1 >= 1
}

/// Rewriting the LCRAMMODE sub-field leaves the WRITE bit clear for each
/// unlatched mode and for each latched mode with WRITE masked off, and
/// set for each full latched mode.
proof fn lemma_lc_mode_write_bit(ms: u8)
    by (bit_vector)
    ensures
        ((ms & !0x70u8) | ((0x20u8 | 0x10u8) & 0x70u8)) & 0x40u8 == 0u8,
        ((ms & !0x70u8) | (0x20u8 & 0x70u8)) & 0x40u8 == 0u8,
        ((ms & !0x70u8) | (0x10u8 & 0x70u8)) & 0x40u8 == 0u8,
        ((ms & !0x70u8) | (0x00u8 & 0x70u8)) & 0x40u8 == 0u8,
        ((ms & !0x70u8) | ((0x20u8 | 0x40u8) & 0x70u8)) & 0x40u8 == 0x40u8,
        ((ms & !0x70u8) | ((0x20u8 | 0x10u8 | 0x40u8) & 0x70u8)) & 0x40u8 == 0x40u8,
        ((ms & !0x70u8) | (0x40u8 & 0x70u8)) & 0x40u8 == 0x40u8,
        ((ms & !0x70u8) | ((0x10u8 | 0x40u8) & 0x70u8)) & 0x40u8 == 0x40u8,
        ((ms & !0x70u8) | (((0x20u8 | 0x40u8) & !0x40u8) & 0x70u8)) & 0x40u8 == 0u8,
        ((ms & !0x70u8) | (((0x20u8 | 0x10u8 | 0x40u8) & !0x40u8) & 0x70u8)) & 0x40u8 == 0u8,
        ((ms & !0x70u8) | ((0x40u8 & !0x40u8) & 0x70u8)) & 0x40u8 == 0u8,
        ((ms & !0x70u8) | (((0x10u8 | 0x40u8) & !0x40u8) & 0x70u8)) & 0x40u8 == 0u8,
{
}

/// The two-read law of the Language Card write enable. After any $C08x
/// read other than the second consecutive read of the same latched
/// address, LC-write enable is off; only that doubling read turns it on.
/// Every $C08x read resets the counters of the other switches, so the
/// doubling must be consecutive among $C08x reads; and no other
/// soft-switch read touches the memory-state byte at all.
pub proof fn lemma_lc_write_two_read_law(s: IOU, addr: u16)
    ensures
        (is_unlatched_lc(addr) || (is_latched_lc(addr) && !is_doubling_read(s, addr)))
            ==> spec_ss_read(s, addr).0.mem_state & MemStateMask::WRITE == 0,
        is_doubling_read(s, addr) ==> spec_ss_read(s, addr).0.mem_state & MemStateMask::WRITE
            == MemStateMask::WRITE,
        is_unlatched_lc(addr) || is_latched_lc(addr) ==> forall|other: u16|
            is_latched_lc(other) && other != addr ==> (#[trigger] rr_of(
                spec_ss_read(s, addr).0,
                other,
            )).1 == 0,
        !is_unlatched_lc(addr) && !is_latched_lc(addr) ==> spec_ss_read(s, addr).0.mem_state
            == s.mem_state,
{
    lemma_lc_mode_write_bit(s.mem_state);
}

/// The state the IOU powers up in: the initial memory-state byte, idle
/// latches, 80STORE and IOUDIS off, text mode, no key pending.
pub open spec fn spec_iou_initial() -> IOU {
    IOU {
        mem_state: MemStateMask::INIT,
        c081_rr: (0x0000u16, 0u8),
        c083_rr: (0x0000u16, 0u8),
        c089_rr: (0x0000u16, 0u8),
        c08b_rr: (0x0000u16, 0u8),
        c08d_rr: (0x0000u16, 0u8),
        c08f_rr: (0x0000u16, 0u8),
        is_80store: false,
        ioudis: false,
        video_mode: VideoMode::TEXT,
        last_key: 0u8,
        key_ready: false,
    }
}

impl IOU {
    pub fn new() -> (r: IOU)
        ensures
            r == spec_iou_initial(),
    {
        IOU {
            mem_state: MemStateMask::INIT,
            c081_rr: (0x0000, 0),
            c083_rr: (0x0000, 0),
            c089_rr: (0x0000, 0),
            c08b_rr: (0x0000, 0),
            c08d_rr: (0x0000, 0),
            c08f_rr: (0x0000, 0),
            is_80store: false,
            ioudis: false,
            video_mode: VideoMode::TEXT,
            last_key: 0,
            key_ready: false,
        }
    }

    fn set_lc_mode(&mut self, mode: u8) -> (r: u8)
        ensures
            *final(self) == (IOU { mem_state: lc_mode_set(old(self).mem_state, mode), ..*old(self) }),
            r == 0u8,
    {
        self.mem_state = (self.mem_state & !LCRAMMODEMASK) | (mode & LCRAMMODEMASK);
        0x00
    }

    /// Clears every two-read counter, as any $C08x read does to the
    /// switches it is not doubling.
    fn reset_counters(&mut self)
        ensures
            *final(self) == rr_reset(*old(self)),
    {
        self.c081_rr = (0x0000, 0);
        self.c083_rr = (0x0000, 0);
        self.c089_rr = (0x0000, 0);
        self.c08b_rr = (0x0000, 0);
        self.c08d_rr = (0x0000, 0);
        self.c08f_rr = (0x0000, 0);
    }

    /// One read of an unlatched $C08x switch.
    fn lc_unlatched(&mut self, mode: u8) -> (r: u8)
        ensures
            *final(self) == lc_unlatched_read(*old(self), mode),
            r == 0u8,
    {
        self.reset_counters();
        self.mem_state = (self.mem_state & !LCRAMMODEMASK) | (mode & LCRAMMODEMASK);
        0x00
    }

    fn lc_latch_c081(&mut self, addr: u16) -> (r: u8)
        requires
            addr == 0xC081,
        ensures
            *final(self) == lc_latch_read(*old(self), addr, LcRamMode::C081),
            r == 0u8,
    {
        let (last, cnt) = self.c081_rr;
        let ncnt: u8 = if last == addr { if cnt < 2 { cnt + 1 } else { 2 } } else { 1 };
        self.reset_counters();
        self.c081_rr = (addr, ncnt);
        if ncnt >= 2 {
            self.mem_state = (self.mem_state & !LCRAMMODEMASK) | (LcRamMode::C081 & LCRAMMODEMASK);
        } else {
            self.mem_state = (self.mem_state & !LCRAMMODEMASK) | ((LcRamMode::C081
                & !MemStateMask::WRITE) & LCRAMMODEMASK);
        }
        0x00
    }

    fn lc_latch_c083(&mut self, addr: u16) -> (r: u8)
        requires
            addr == 0xC083,
        ensures
            *final(self) == lc_latch_read(*old(self), addr, LcRamMode::C083),
            r == 0u8,
    {
        let (last, cnt) = self.c083_rr;
        let ncnt: u8 = if last == addr { if cnt < 2 { cnt + 1 } else { 2 } } else { 1 };
        self.reset_counters();
        self.c083_rr = (addr, ncnt);
        if ncnt >= 2 {
            self.mem_state = (self.mem_state & !LCRAMMODEMASK) | (LcRamMode::C083 & LCRAMMODEMASK);
        } else {
            self.mem_state = (self.mem_state & !LCRAMMODEMASK) | ((LcRamMode::C083
                & !MemStateMask::WRITE) & LCRAMMODEMASK);
        }
        0x00
    }

    fn lc_latch_c089(&mut self, addr: u16) -> (r: u8)
        requires
            addr == 0xC089,
        ensures
            *final(self) == lc_latch_read(*old(self), addr, LcRamMode::C089),
            r == 0u8,
    {
        let (last, cnt) = self.c089_rr;
        let ncnt: u8 = if last == addr { if cnt < 2 { cnt + 1 } else { 2 } } else { 1 };
        self.reset_counters();
        self.c089_rr = (addr, ncnt);
        if ncnt >= 2 {
            self.mem_state = (self.mem_state & !LCRAMMODEMASK) | (LcRamMode::C089 & LCRAMMODEMASK);
        } else {
            self.mem_state = (self.mem_state & !LCRAMMODEMASK) | ((LcRamMode::C089
                & !MemStateMask::WRITE) & LCRAMMODEMASK);
        }
        0x00
    }

    fn lc_latch_c08b(&mut self, addr: u16) -> (r: u8)
        requires
            addr == 0xC08B,
        ensures
            *final(self) == lc_latch_read(*old(self), addr, LcRamMode::C08B),
            r == 0u8,
    {
        let (last, cnt) = self.c08b_rr;
        let ncnt: u8 = if last == addr { if cnt < 2 { cnt + 1 } else { 2 } } else { 1 };
        self.reset_counters();
        self.c08b_rr = (addr, ncnt);
        if ncnt >= 2 {
            self.mem_state = (self.mem_state & !LCRAMMODEMASK) | (LcRamMode::C08B & LCRAMMODEMASK);
        } else {
            self.mem_state = (self.mem_state & !LCRAMMODEMASK) | ((LcRamMode::C08B
                & !MemStateMask::WRITE) & LCRAMMODEMASK);
        }
        0x00
    }

    fn lc_latch_c08d(&mut self, addr: u16) -> (r: u8)
        requires
            addr == 0xC08D,
        ensures
            *final(self) == lc_latch_read(*old(self), addr, LcRamMode::C08D),
            r == 0u8,
    {
        let (last, cnt) = self.c08d_rr;
        let ncnt: u8 = if last == addr { if cnt < 2 { cnt + 1 } else { 2 } } else { 1 };
        self.reset_counters();
        self.c08d_rr = (addr, ncnt);
        if ncnt >= 2 {
            self.mem_state = (self.mem_state & !LCRAMMODEMASK) | (LcRamMode::C08D & LCRAMMODEMASK);
        } else {
            self.mem_state = (self.mem_state & !LCRAMMODEMASK) | ((LcRamMode::C08D
                & !MemStateMask::WRITE) & LCRAMMODEMASK);
        }
        0x00
    }

    fn lc_latch_c08f(&mut self, addr: u16) -> (r: u8)
        requires
            addr == 0xC08F,
        ensures
            *final(self) == lc_latch_read(*old(self), addr, LcRamMode::C08F),
            r == 0u8,
    {
        let (last, cnt) = self.c08f_rr;
        let ncnt: u8 = if last == addr { if cnt < 2 { cnt + 1 } else { 2 } } else { 1 };
        self.reset_counters();
        self.c08f_rr = (addr, ncnt);
        if ncnt >= 2 {
            self.mem_state = (self.mem_state & !LCRAMMODEMASK) | (LcRamMode::C08F & LCRAMMODEMASK);
        } else {
            self.mem_state = (self.mem_state & !LCRAMMODEMASK) | ((LcRamMode::C08F
                & !MemStateMask::WRITE) & LCRAMMODEMASK);
        }
        0x00
    }

    pub fn ss_read(&mut self, addr: u16) -> (r: u8)
        ensures
            *final(self) == spec_ss_read(*old(self), addr).0,
            r == spec_ss_read(*old(self), addr).1,
    {
        match addr {
            0xC018 => if self.is_80store { 0x80 } else { 0x00 },
            0xC07E => if self.ioudis { 0x80 } else { 0x00 },
            0xC07F => if self.video_mode & VideoModeMask::DHIRES == VideoModeMask::DHIRES {
                0x80
            } else {
                0x00
            },

            0xC080 => self.lc_unlatched(LcRamMode::C080),
            0xC081 => self.lc_latch_c081(addr),
            0xC082 => self.lc_unlatched(LcRamMode::C082),
            0xC083 => self.lc_latch_c083(addr),
            0xC088 => self.lc_unlatched(LcRamMode::C088),
            0xC089 => self.lc_latch_c089(addr),
            0xC08A => self.lc_unlatched(LcRamMode::C08A),
            0xC08B => self.lc_latch_c08b(addr),
            0xC08C => self.lc_unlatched(LcRamMode::C08C),
            0xC08D => self.lc_latch_c08d(addr),
            0xC08E => self.lc_unlatched(LcRamMode::C08E),
            0xC08F => self.lc_latch_c08f(addr),

            0xC011 => if self.mem_state & MemStateMask::RDBNK == MemStateMask::RDBNK {
                0x80
            } else {
                0x00
            },
            0xC012 => if self.mem_state & MemStateMask::LCRAM == MemStateMask::LCRAM {
                0x80
            } else {
                0x00
            },
            0xC013 => if self.mem_state & MemStateMask::RAMRD == MemStateMask::RAMRD {
                0x80
            } else {
                0x00
            },
            0xC014 => if self.mem_state & MemStateMask::RAMWRT == MemStateMask::RAMWRT {
                0x80
            } else {
                0x00
            },
            0xC016 => if self.mem_state & MemStateMask::ALTZP == MemStateMask::ALTZP {
                0x80
            } else {
                0x00
            },

            0xC01A => if self.video_mode & VideoModeMask::TEXT == VideoModeMask::TEXT {
                0x80
            } else {
                0x00
            },
            0xC01B => if self.video_mode & VideoModeMask::MIXED == VideoModeMask::MIXED {
                0x80
            } else {
                0x00
            },
            0xC01C => if self.video_mode & VideoModeMask::PAGE2 == VideoModeMask::PAGE2 {
                0x80
            } else {
                0x00
            },
            0xC01D => if self.video_mode & VideoModeMask::HIRES == VideoModeMask::HIRES {
                0x80
            } else {
                0x00
            },
            0xC01E => if self.video_mode & VideoModeMask::ALTCHAR == VideoModeMask::ALTCHAR {
                0x80
            } else {
                0x00
            },
            0xC01F => if self.video_mode & VideoModeMask::COL80 == VideoModeMask::COL80 {
                0x80
            } else {
                0x00
            },

            0xC050 => {
                self.video_mode = self.video_mode & !VideoModeMask::TEXT;
                self.video_mode
            },
            0xC051 => {
                self.video_mode = self.video_mode | VideoModeMask::TEXT;
                self.video_mode
            },
            0xC052 => {
                self.video_mode = self.video_mode & !VideoModeMask::MIXED;
                self.video_mode
            },
            0xC053 => {
                self.video_mode = self.video_mode | VideoModeMask::MIXED;
                self.video_mode
            },
            0xC054 => {
                self.video_mode = self.video_mode & !VideoModeMask::PAGE2;
                self.video_mode
            },
            0xC055 => {
                self.video_mode = self.video_mode | VideoModeMask::PAGE2;
                self.video_mode
            },
            0xC056 => {
                self.video_mode = (self.video_mode
                    & !(VideoModeMask::HIRES | VideoModeMask::DHIRES)) | VideoModeMask::LORES;
                self.video_mode
            },
            0xC057 => {
                self.video_mode = (self.video_mode & !VideoModeMask::LORES)
                    | VideoModeMask::HIRES;
                self.video_mode
            },

            0xC05E => if self.ioudis {
                0x00
            } else {
                self.video_mode = self.video_mode | VideoModeMask::DHIRES;
                self.video_mode
            },
            0xC05F => if self.ioudis {
                0x00
            } else {
                self.video_mode = self.video_mode & !VideoModeMask::DHIRES;
                self.video_mode
            },

            0xC060 => if self.video_mode & VideoModeMask::COL80 == VideoModeMask::COL80 {
                0x80
            } else {
                0x00
            },

            _ => 0x00,
        }
    }

    /// The byte a soft-switch read at `addr` would return, without the
    /// read's side effects; the trace disassembler peeks through this.
    pub fn peek(&self, addr: u16) -> (r: u8)
        ensures
            r == spec_ss_read(*self, addr).1,
    {
        match addr {
            0xC018 => if self.is_80store { 0x80 } else { 0x00 },
            0xC07E => if self.ioudis { 0x80 } else { 0x00 },
            0xC07F => if self.video_mode & VideoModeMask::DHIRES == VideoModeMask::DHIRES {
                0x80
            } else {
                0x00
            },

            0xC011 => if self.mem_state & MemStateMask::RDBNK == MemStateMask::RDBNK {
                0x80
            } else {
                0x00
            },
            0xC012 => if self.mem_state & MemStateMask::LCRAM == MemStateMask::LCRAM {
                0x80
            } else {
                0x00
            },
            0xC013 => if self.mem_state & MemStateMask::RAMRD == MemStateMask::RAMRD {
                0x80
            } else {
                0x00
            },
            0xC014 => if self.mem_state & MemStateMask::RAMWRT == MemStateMask::RAMWRT {
                0x80
            } else {
                0x00
            },
            0xC016 => if self.mem_state & MemStateMask::ALTZP == MemStateMask::ALTZP {
                0x80
            } else {
                0x00
            },

            0xC01A => if self.video_mode & VideoModeMask::TEXT == VideoModeMask::TEXT {
                0x80
            } else {
                0x00
            },
            0xC01B => if self.video_mode & VideoModeMask::MIXED == VideoModeMask::MIXED {
                0x80
            } else {
                0x00
            },
            0xC01C => if self.video_mode & VideoModeMask::PAGE2 == VideoModeMask::PAGE2 {
                0x80
            } else {
                0x00
            },
            0xC01D => if self.video_mode & VideoModeMask::HIRES == VideoModeMask::HIRES {
                0x80
            } else {
                0x00
            },
            0xC01E => if self.video_mode & VideoModeMask::ALTCHAR == VideoModeMask::ALTCHAR {
                0x80
            } else {
                0x00
            },
            0xC01F => if self.video_mode & VideoModeMask::COL80 == VideoModeMask::COL80 {
                0x80
            } else {
                0x00
            },

            0xC050 => self.video_mode & !VideoModeMask::TEXT,
            0xC051 => self.video_mode | VideoModeMask::TEXT,
            0xC052 => self.video_mode & !VideoModeMask::MIXED,
            0xC053 => self.video_mode | VideoModeMask::MIXED,
            0xC054 => self.video_mode & !VideoModeMask::PAGE2,
            0xC055 => self.video_mode | VideoModeMask::PAGE2,
            0xC056 => (self.video_mode & !(VideoModeMask::HIRES | VideoModeMask::DHIRES))
                | VideoModeMask::LORES,
            0xC057 => (self.video_mode & !VideoModeMask::LORES) | VideoModeMask::HIRES,

            0xC05E => if self.ioudis {
                0x00
            } else {
                self.video_mode | VideoModeMask::DHIRES
            },
            0xC05F => if self.ioudis {
                0x00
            } else {
                self.video_mode & !VideoModeMask::DHIRES
            },

            0xC060 => if self.video_mode & VideoModeMask::COL80 == VideoModeMask::COL80 {
                0x80
            } else {
                0x00
            },

            _ => 0x00,
        }
    }

    pub fn ss_write(&mut self, addr: u16) -> (r: u8)
        ensures
            *final(self) == spec_ss_write(*old(self), addr).0,
            r == spec_ss_write(*old(self), addr).1,
    {
        match addr {
            0xC000 => {
                self.is_80store = false;
                0x00
            },
            0xC001 => {
                self.is_80store = true;
                0x00
            },
            0xC00C => {
                self.video_mode = self.video_mode & !VideoModeMask::COL80;
                self.video_mode
            },
            0xC00D => {
                self.video_mode = self.video_mode | VideoModeMask::COL80;
                self.video_mode
            },
            0xC00E => {
                self.video_mode = self.video_mode & !VideoModeMask::ALTCHAR;
                self.video_mode
            },
            0xC00F => {
                self.video_mode = self.video_mode | VideoModeMask::ALTCHAR;
                self.video_mode
            },

            0xC080 => self.set_lc_mode(LcRamMode::C080),
            0xC081 => self.set_lc_mode(LcRamMode::C081),
            0xC082 => self.set_lc_mode(LcRamMode::C082),
            0xC083 => self.set_lc_mode(LcRamMode::C083),
            0xC088 => self.set_lc_mode(LcRamMode::C088),
            0xC089 => self.set_lc_mode(LcRamMode::C089),
            0xC08A => self.set_lc_mode(LcRamMode::C08A),
            0xC08B => self.set_lc_mode(LcRamMode::C08B),
            0xC08C => self.set_lc_mode(LcRamMode::C08C),
            0xC08D => self.set_lc_mode(LcRamMode::C08D),
            0xC08E => self.set_lc_mode(LcRamMode::C08E),
            0xC08F => self.set_lc_mode(LcRamMode::C08F),

            0xC07E => {
                self.ioudis = false;
                0x00
            },
            0xC07F => {
                self.ioudis = true;
                0x00
            },

            0xC008 => {
                self.mem_state = self.mem_state & !MemStateMask::ALTZP;
                self.mem_state
            },
            0xC009 => {
                self.mem_state = self.mem_state | MemStateMask::ALTZP;
                self.mem_state
            },
            0xC002 => {
                self.mem_state = self.mem_state & !MemStateMask::RAMRD;
                self.mem_state
            },
            0xC003 => {
                self.mem_state = self.mem_state | MemStateMask::RAMRD;
                self.mem_state
            },
            0xC004 => {
                self.mem_state = self.mem_state & !MemStateMask::RAMWRT;
                self.mem_state
            },
            0xC005 => {
                self.mem_state = self.mem_state | MemStateMask::RAMWRT;
                self.mem_state
            },
            0xC028 => {
                self.mem_state = self.mem_state ^ MemStateMask::ALTROM;
                self.mem_state
            },

            0xC050 => {
                self.video_mode = self.video_mode & !VideoModeMask::TEXT;
                self.video_mode
            },
            0xC051 => {
                self.video_mode = self.video_mode | VideoModeMask::TEXT;
                self.video_mode
            },
            0xC052 => {
                self.video_mode = self.video_mode & !VideoModeMask::MIXED;
                self.video_mode
            },
            0xC053 => {
                self.video_mode = self.video_mode | VideoModeMask::MIXED;
                self.video_mode
            },
            0xC054 => {
                self.video_mode = self.video_mode & !VideoModeMask::PAGE2;
                self.video_mode
            },
            0xC055 => {
                self.video_mode = self.video_mode | VideoModeMask::PAGE2;
                self.video_mode
            },
            0xC056 => {
                self.video_mode = (self.video_mode
                    & !(VideoModeMask::HIRES | VideoModeMask::DHIRES)) | VideoModeMask::LORES;
                self.video_mode
            },
            0xC057 => {
                self.video_mode = (self.video_mode & !VideoModeMask::LORES)
                    | VideoModeMask::HIRES;
                self.video_mode
            },

            0xC078 => {
                self.ioudis = true;
                0x00
            },
            0xC079 => {
                self.ioudis = false;
                0x00
            },

            0xC05E => if self.ioudis {
                0x00
            } else {
                self.video_mode = self.video_mode | VideoModeMask::DHIRES;
                self.video_mode
            },
            0xC05F => if self.ioudis {
                0x00
            } else {
                self.video_mode = self.video_mode & !VideoModeMask::DHIRES;
                self.video_mode
            },

            _ => 0x00,
        }
    }
}

} // verus!
