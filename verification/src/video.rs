//! Video state and rendering: the video-mode bit masks, display address
//! translation, and the RGBA framebuffer the text and graphics renderers
//! fill for the host window to present.

use vstd::prelude::*;

use crate::iou::bits_set;
use crate::iou::IOU;
use crate::mmu::mmu_read;
use crate::mmu::MMU;

verus! {

/// Bit positions of the video-mode byte.
pub struct VideoModeMask;

impl VideoModeMask {
    /// Text mode active.
    pub const TEXT: u8 = 0b0000_0001;

    /// Lo-res graphics.
    pub const LORES: u8 = 0b0000_0010;

    /// Hi-res graphics.
    pub const HIRES: u8 = 0b0000_0100;

    /// Double hi-res mode (needs 80-column).
    pub const DHIRES: u8 = 0b0000_1000;

    /// Mixed mode: graphics with four text rows.
    pub const MIXED: u8 = 0b0001_0000;

    /// Page 2: the alternate screen buffer.
    pub const PAGE2: u8 = 0b0010_0000;

    /// 80-column mode.
    pub const COL80: u8 = 0b0100_0000;

    /// Alternate character set.
    pub const ALTCHAR: u8 = 0b1000_0000;
}

/// Common whole-mode values built from the mask bits.
pub struct VideoMode;

impl VideoMode {
    pub const TEXT: u8 = VideoModeMask::TEXT;

    pub const LORES: u8 = VideoModeMask::LORES;

    pub const HIRES: u8 = VideoModeMask::HIRES;

    /// Double hi-res requires the 80-column switch.
    pub const DHIRES: u8 = VideoModeMask::DHIRES | VideoModeMask::COL80;

    pub const MIXED_TEXT: u8 = VideoModeMask::TEXT | VideoModeMask::MIXED;

    pub const MIXED_HIRES: u8 = VideoModeMask::HIRES | VideoModeMask::MIXED;

    pub const MIXED_DHIRES: u8 = VideoModeMask::DHIRES | VideoModeMask::MIXED;

    pub const LORES_PAGE2: u8 = VideoModeMask::LORES | VideoModeMask::PAGE2;

    pub const HIRES_PAGE2: u8 = VideoModeMask::HIRES | VideoModeMask::PAGE2;
}

/// The VRAM address a logical display address maps to; see
/// `get_display_address`.
pub open spec fn spec_display_address(video_mode: u8, is_80store: bool, addr: u16) -> u16 {
    let is_page2 = video_mode & VideoModeMask::PAGE2 == VideoModeMask::PAGE2;
    let is_80col = video_mode & VideoModeMask::COL80 == VideoModeMask::COL80;
    let is_dhires = video_mode & VideoModeMask::DHIRES == VideoModeMask::DHIRES;
    if 0x0400 <= addr && addr <= 0x07FF {
        if is_80store || is_page2 {
            addr.wrapping_add(0x0400)
        } else {
            addr
        }
    } else if 0x0800 <= addr && addr <= 0x0BFF {
        addr
    } else if 0x2000 <= addr && addr <= 0x3FFF {
        if is_80store || is_page2 {
            addr.wrapping_add(0x2000)
        } else {
            addr
        }
    } else if is_dhires && addr & 0x200 != 0 {
        addr.wrapping_add(0x200)
    } else if is_80col && 0x0400 <= addr && addr <= 0x07FF {
        if (addr.wrapping_sub(0x0400) % 40) % 2 == 0 {
            addr
        } else {
            addr.wrapping_add(0x200)
        }
    } else {
        addr
    }
}

/// The screen width each mode renders at.
pub open spec fn spec_update_width(video_mode: u8) -> int {
    if video_mode & VideoModeMask::TEXT == VideoModeMask::TEXT {
        if video_mode & VideoModeMask::COL80 == VideoModeMask::COL80 {
            560
        } else {
            280
        }
    } else if video_mode & VideoModeMask::LORES == VideoModeMask::LORES {
        280
    } else if video_mode & VideoModeMask::HIRES == VideoModeMask::HIRES {
        560
    } else if video_mode & VideoModeMask::MIXED == VideoModeMask::MIXED {
        280
    } else {
        560
    }
}

/// The screen height each mode renders at.
pub open spec fn spec_update_height(video_mode: u8) -> int {
    if video_mode & VideoModeMask::TEXT == VideoModeMask::TEXT {
        192
    } else if video_mode & VideoModeMask::LORES == VideoModeMask::LORES {
        48
    } else if video_mode & VideoModeMask::HIRES == VideoModeMask::HIRES {
        if video_mode & VideoModeMask::MIXED == VideoModeMask::MIXED {
            384
        } else {
            192
        }
    } else {
        192
    }
}

/// The auxiliary-bank address a text-window offset resolves to: page 2
/// shifts by a page, unless 80STORE holds the window on page 1.
pub open spec fn spec_text_page_addr(video_mode: u8, is_80store: bool, addr: u16) -> u16 {
    if video_mode & VideoModeMask::PAGE2 == VideoModeMask::PAGE2 {
        if !is_80store {
            addr.wrapping_add(0x800)
        } else {
            addr.wrapping_add(0x400)
        }
    } else {
        addr.wrapping_add(0x400)
    }
}

/// The address a hi-res offset resolves to: page 2 shifts by a hi-res
/// page, unless 80STORE holds the window on page 1.
pub open spec fn spec_hires_page_addr(video_mode: u8, is_80store: bool, addr: u16) -> u16 {
    if video_mode & VideoModeMask::PAGE2 == VideoModeMask::PAGE2 {
        if !is_80store {
            addr.wrapping_add(0x4000)
        } else {
            addr.wrapping_add(0x2000)
        }
    } else {
        addr.wrapping_add(0x2000)
    }
}

/// The glyph start for a character code in the flat font layout.
pub open spec fn spec_font_offset(char_code: u8) -> int {
    if char_code <= 0x1F {
        (char_code + 0x40) * 8
    } else if char_code <= 0x3F {
        (char_code - 0x20 + 2) * 8
    } else if char_code <= 0x5F {
        (char_code - 0x40) * 8
    } else if char_code <= 0x7F {
        (char_code - 0x60 + 6) * 8
    } else if char_code <= 0x9F {
        (char_code - 0x80 + 8) * 8
    } else if char_code <= 0xBF {
        (char_code - 0xA0 + 10) * 8
    } else if char_code <= 0xDF {
        (char_code - 0xC0 + 12) * 8
    } else {
        (char_code - 0xE0 + 14) * 8
    }
}

/// The synthetic color pattern the lo-res renderer reads while no real
/// auxiliary VRAM backs it.
pub open spec fn spec_aux_byte_mock(addr: u16) -> u8 {
    let low = addr & 0x3FF;
    if low <= 0x07F {
        0b00001111u8
    } else if low <= 0x0FF {
        0b11110000u8
    } else if low <= 0x17F {
        0b10101010u8
    } else if low <= 0x1FF {
        0b01010101u8
    } else {
        0b11001100u8
    }
}

/// The RGBA color of a lo-res nibble.
pub open spec fn spec_lores_color(color: u8) -> (u8, u8, u8, u8) {
    let c = color & 0x0F;
    if c == 0x0 {
        (0u8, 0u8, 0u8, 255u8)
    } else if c == 0x1 {
        (227u8, 30u8, 96u8, 255u8)
    } else if c == 0x2 {
        (96u8, 78u8, 189u8, 255u8)
    } else if c == 0x3 {
        (255u8, 68u8, 253u8, 255u8)
    } else if c == 0x4 {
        (0u8, 129u8, 64u8, 255u8)
    } else {
        (255u8, 255u8, 255u8, 255u8)
    }
}

/// The base VRAM address of each text row, in the interleaved layout of
/// the display.
pub open spec fn spec_text_row_base(row: int) -> u16 {
    if row == 0 {
        0x0400u16
    } else if row == 1 {
        0x0480u16
    } else if row == 2 {
        0x0500u16
    } else if row == 3 {
        0x0580u16
    } else if row == 4 {
        0x0600u16
    } else if row == 5 {
        0x0680u16
    } else if row == 6 {
        0x0700u16
    } else if row == 7 {
        0x0780u16
    } else if row == 8 {
        0x0428u16
    } else if row == 9 {
        0x04A8u16
    } else if row == 10 {
        0x0528u16
    } else if row == 11 {
        0x05A8u16
    } else if row == 12 {
        0x0628u16
    } else if row == 13 {
        0x06A8u16
    } else if row == 14 {
        0x0728u16
    } else if row == 15 {
        0x07A8u16
    } else if row == 16 {
        0x0450u16
    } else if row == 17 {
        0x04D0u16
    } else if row == 18 {
        0x0550u16
    } else if row == 19 {
        0x05D0u16
    } else if row == 20 {
        0x0650u16
    } else if row == 21 {
        0x06D0u16
    } else if row == 22 {
        0x0750u16
    } else {
        0x07D0u16
    }
}

/// The base VRAM address of each text row.
pub fn text_row_base(row: u16) -> (r: u16)
    requires
        row < 24,
    ensures
        r == spec_text_row_base(row as int),
        0x0400 <= r <= 0x07D0,
{
    if row == 0 {
        0x0400
    } else if row == 1 {
        0x0480
    } else if row == 2 {
        0x0500
    } else if row == 3 {
        0x0580
    } else if row == 4 {
        0x0600
    } else if row == 5 {
        0x0680
    } else if row == 6 {
        0x0700
    } else if row == 7 {
        0x0780
    } else if row == 8 {
        0x0428
    } else if row == 9 {
        0x04A8
    } else if row == 10 {
        0x0528
    } else if row == 11 {
        0x05A8
    } else if row == 12 {
        0x0628
    } else if row == 13 {
        0x06A8
    } else if row == 14 {
        0x0728
    } else if row == 15 {
        0x07A8
    } else if row == 16 {
        0x0450
    } else if row == 17 {
        0x04D0
    } else if row == 18 {
        0x0550
    } else if row == 19 {
        0x05D0
    } else if row == 20 {
        0x0650
    } else if row == 21 {
        0x06D0
    } else if row == 22 {
        0x0750
    } else {
        0x07D0
    }
}

/// The VRAM offset of each lo-res row pair, in the interleaved layout.
fn lores_row_offset(half: u16) -> (r: u16)
    requires
        half < 24,
    ensures
        r <= 0x3D0,
{
    if half == 0 {
        0x000
    } else if half == 1 {
        0x080
    } else if half == 2 {
        0x100
    } else if half == 3 {
        0x180
    } else if half == 4 {
        0x200
    } else if half == 5 {
        0x280
    } else if half == 6 {
        0x300
    } else if half == 7 {
        0x380
    } else if half == 8 {
        0x028
    } else if half == 9 {
        0x0A8
    } else if half == 10 {
        0x128
    } else if half == 11 {
        0x1A8
    } else if half == 12 {
        0x228
    } else if half == 13 {
        0x2A8
    } else if half == 14 {
        0x328
    } else if half == 15 {
        0x3A8
    } else if half == 16 {
        0x050
    } else if half == 17 {
        0x0D0
    } else if half == 18 {
        0x150
    } else if half == 19 {
        0x1D0
    } else if half == 20 {
        0x250
    } else if half == 21 {
        0x2D0
    } else if half == 22 {
        0x350
    } else {
        0x3D0
    }
}

/// A byte with its bit order reversed.
pub open spec fn spec_reverse_bits(b: u8) -> u8 {
    ((b & 0x01) << 7) | ((b & 0x02) << 5) | ((b & 0x04) << 3) | ((b & 0x08) << 1) | ((b
        & 0x10) >> 1) | ((b & 0x20) >> 3) | ((b & 0x40) >> 5) | ((b & 0x80) >> 7)
}

/// A byte with its bit order reversed, as the font rows are stored.
pub fn reverse_bits_u8(b: u8) -> (r: u8)
    ensures
        r == spec_reverse_bits(b),
{
    ((b & 0x01) << 7) | ((b & 0x02) << 5) | ((b & 0x04) << 3) | ((b & 0x08) << 1) | ((b
        & 0x10) >> 1) | ((b & 0x20) >> 3) | ((b & 0x40) >> 5) | ((b & 0x80) >> 7)
}

pub struct Video {
    framebuffer: Vec<u8>,
    width: usize,
    height: usize,
    font: Vec<u8>,
}

impl Video {
    /// The framebuffer holds one RGBA quad per pixel of a width-by-height
    /// screen, and the character ROM, once loaded, holds 4 KiB of glyphs.
    pub closed spec fn wf(&self) -> bool {
        &&& self.framebuffer@.len() == self.width * self.height * 4
        &&& self.width <= 560
        &&& self.height <= 384
        &&& (self.font@.len() == 0 || self.font@.len() == 4096)
    }

    pub closed spec fn spec_width(&self) -> usize {
        self.width
    }

    pub closed spec fn spec_height(&self) -> usize {
        self.height
    }

    pub closed spec fn spec_framebuffer(&self) -> Seq<u8> {
        self.framebuffer@
    }

    pub closed spec fn spec_font(&self) -> Seq<u8> {
        self.font@
    }

    pub fn new() -> (r: Video)
        ensures
            r.wf(),
            r.spec_width() == 560,
            r.spec_height() == 192,
            r.spec_font().len() == 0,
            r.spec_framebuffer() == Seq::new((560 * 192 * 4) as nat, |i: int| 0u8),
    {
        let width: usize = 560;
        let height: usize = 192;
        let framebuffer = zeroed_buffer(width * height * 4);
        Video { framebuffer, width, height, font: Vec::new() }
    }

    /// Installs the 4 KiB character ROM the text renderer draws glyphs from.
    /// An image of any other size is refused and the font is left alone.
    pub fn load_font(&mut self, data: Vec<u8>) -> (r: bool)
        ensures
            r == (data@.len() == 4096),
            final(self).spec_font() == (if data@.len() == 4096 { data@ } else {
                old(self).spec_font()
            }),
            final(self).spec_width() == old(self).spec_width(),
            final(self).spec_height() == old(self).spec_height(),
            final(self).spec_framebuffer() == old(self).spec_framebuffer(),
            old(self).wf() ==> final(self).wf(),
    {
        if data.len() == 4096 {
            self.font = data;
            true
        } else {
            false
        }
    }

    /// The VRAM address a logical display address maps to under the
    /// current mode: the page-2 display windows shift by one page, and
    /// 80-column text interleaves odd columns into the next page.
    fn get_display_address(&self, video_mode: u8, is_80store: bool, addr: u16) -> (r: u16)
        ensures
            r == spec_display_address(video_mode, is_80store, addr),
    {
        let is_page2 = video_mode & VideoModeMask::PAGE2 == VideoModeMask::PAGE2;
        let is_80col = video_mode & VideoModeMask::COL80 == VideoModeMask::COL80;
        let is_dhires = video_mode & VideoModeMask::DHIRES == VideoModeMask::DHIRES;

        if 0x0400 <= addr && addr <= 0x07FF {
            if is_80store || is_page2 {
                addr.wrapping_add(0x0400)
            } else {
                addr
            }
        } else if 0x0800 <= addr && addr <= 0x0BFF {
            addr
        } else if 0x2000 <= addr && addr <= 0x3FFF {
            if is_80store || is_page2 {
                addr.wrapping_add(0x2000)
            } else {
                addr
            }
        } else if is_dhires && addr & 0x200 != 0 {
            addr.wrapping_add(0x200)
        } else if is_80col && 0x0400 <= addr && addr <= 0x07FF {
            let col = addr.wrapping_sub(0x0400) % 40;
            if col % 2 == 0 {
                addr
            } else {
                addr.wrapping_add(0x200)
            }
        } else {
            addr
        }
    }

    /// Redraws the screen for the current mode: the framebuffer is
    /// resized to the mode's dimensions and, in text mode, the glyphs
    /// are drawn. The pixel pattern itself carries no stated contract.
    pub fn update(&mut self, iou: &IOU, mmu: &MMU) -> (r: bool)
        requires
            old(self).wf(),
        ensures
            final(self).wf(),
            final(self).spec_width() == spec_update_width(iou.video_mode),
            final(self).spec_height() == spec_update_height(iou.video_mode),
            final(self).spec_font() == old(self).spec_font(),
            r,
    {
        let video_mode = iou.video_mode;
        let lo_res_mode = video_mode & VideoModeMask::LORES == VideoModeMask::LORES;
        let is_hires = video_mode & VideoModeMask::HIRES == VideoModeMask::HIRES;
        let mixed_mode = video_mode & VideoModeMask::MIXED == VideoModeMask::MIXED;
        let text_mode = video_mode & VideoModeMask::TEXT == VideoModeMask::TEXT;
        let is_80col = video_mode & VideoModeMask::COL80 == VideoModeMask::COL80;

        let new_width: usize = if text_mode {
            if is_80col {
                560
            } else {
                280
            }
        } else if lo_res_mode {
            280
        } else if is_hires {
            560
        } else if mixed_mode {
            280
        } else {
            560
        };

        let new_height: usize = if text_mode {
            192
        } else if lo_res_mode {
            48
        } else if is_hires {
            if mixed_mode {
                384
            } else {
                192
            }
        } else {
            192
        };

        if new_width != self.width || new_height != self.height {
            self.resize_framebuffer(new_width, new_height);
        }

        if text_mode {
            self.render_text_mode(iou, mmu);
        }

        true
    }

    fn resize_framebuffer(&mut self, new_width: usize, new_height: usize)
        requires
            old(self).wf(),
            new_width <= 560,
            new_height <= 384,
        ensures
            final(self).wf(),
            final(self).spec_width() == new_width,
            final(self).spec_height() == new_height,
            final(self).spec_font() == old(self).spec_font(),
    {
        proof {
            assert(new_width * new_height * 4 <= 560 * 384 * 4) by (nonlinear_arith)
                requires
                    new_width <= 560,
                    new_height <= 384,
            ;
        }
        self.width = new_width;
        self.height = new_height;
        self.framebuffer = zeroed_buffer(new_width * new_height * 4);
    }

    /// A text-window byte, read from the auxiliary bank at the page the
    /// current mode selects.
    fn read_text_memory(&self, iou: &IOU, mmu: &MMU, addr: u16) -> (r: u8)
        ensures
            r == crate::memory::bank_read(
                mmu@.aux,
                spec_text_page_addr(iou.video_mode, iou.is_80store, addr),
            ),
    {
        let is_page2 = iou.video_mode & VideoModeMask::PAGE2 == VideoModeMask::PAGE2;
        let is_80store = iou.is_80store;

        let real_addr = if is_page2 {
            if !is_80store {
                addr.wrapping_add(0x800)
            } else {
                addr.wrapping_add(0x400)
            }
        } else {
            addr.wrapping_add(0x400)
        };

        mmu.read_aux_byte(real_addr)
    }

    /// As `read_text_memory`; the auxiliary bank backs both text columns.
    fn read_aux_text_memory(&self, iou: &IOU, mmu: &MMU, addr: u16) -> (r: u8)
        ensures
            r == crate::memory::bank_read(
                mmu@.aux,
                spec_text_page_addr(iou.video_mode, iou.is_80store, addr),
            ),
    {
        let is_page2 = iou.video_mode & VideoModeMask::PAGE2 == VideoModeMask::PAGE2;
        let is_80store = iou.is_80store;

        let real_addr = if is_page2 {
            if !is_80store {
                addr.wrapping_add(0x800)
            } else {
                addr.wrapping_add(0x400)
            }
        } else {
            addr.wrapping_add(0x400)
        };

        mmu.read_aux_byte(real_addr)
    }

    /// A hi-res byte resolved through the MMU at the page the current
    /// mode selects.
    fn read_hires_memory(&self, iou: &IOU, mmu: &MMU, addr: u16) -> (r: u8)
        ensures
            r == mmu_read(
                mmu@,
                iou.mem_state,
                bits_set(iou.video_mode, VideoModeMask::PAGE2),
                iou.is_80store,
                spec_hires_page_addr(iou.video_mode, iou.is_80store, addr),
            ),
    {
        let is_page2 = iou.video_mode & VideoModeMask::PAGE2 == VideoModeMask::PAGE2;
        let is_80store = iou.is_80store;

        let real_addr = if is_page2 {
            if !is_80store {
                addr.wrapping_add(0x4000)
            } else {
                addr.wrapping_add(0x2000)
            }
        } else {
            addr.wrapping_add(0x2000)
        };

        mmu.read_byte(iou, real_addr)
    }

    /// The auxiliary-bank byte for the double hi-res odd columns.
    fn read_aux_hires_memory(&self, iou: &IOU, mmu: &MMU, addr: u16) -> (r: u8)
        ensures
            r == crate::memory::bank_read(
                mmu@.aux,
                spec_hires_page_addr(iou.video_mode, iou.is_80store, addr),
            ),
    {
        let is_page2 = iou.video_mode & VideoModeMask::PAGE2 == VideoModeMask::PAGE2;
        let is_80store = iou.is_80store;

        let real_addr = if is_page2 {
            if !is_80store {
                addr.wrapping_add(0x4000)
            } else {
                addr.wrapping_add(0x2000)
            }
        } else {
            addr.wrapping_add(0x2000)
        };

        mmu.read_aux_byte(real_addr)
    }

    /// A synthetic text pattern used in place of VRAM when testing the
    /// renderer: the address's low byte, inverted on odd pages.
    fn read_text_memory_mock(&self, addr: u16) -> (r: u8)
        ensures
            r == ((addr & 0xFF) as u8) | (if addr & 0x100 != 0 { 0x80u8 } else { 0x00u8 }),
    {
        let base_char = (addr & 0xFF) as u8;
        let inverse: u8 = if (addr & 0x100) != 0 {
            0x80
        } else {
            0x00
        };

        base_char | inverse
    }

    /// The glyph start for a character code, in the flat font layout.
    fn get_font_offset(&self, char_code: u8) -> (r: usize)
        ensures
            r == spec_font_offset(char_code),
    {
        if char_code <= 0x1F {
            ((char_code as usize) + 0x40) * 8
        } else if char_code <= 0x3F {
            ((char_code as usize) - 0x20 + 2) * 8
        } else if char_code <= 0x5F {
            ((char_code as usize) - 0x40) * 8
        } else if char_code <= 0x7F {
            ((char_code as usize) - 0x60 + 6) * 8
        } else if char_code <= 0x9F {
            ((char_code as usize) - 0x80 + 8) * 8
        } else if char_code <= 0xBF {
            ((char_code as usize) - 0xA0 + 10) * 8
        } else if char_code <= 0xDF {
            ((char_code as usize) - 0xC0 + 12) * 8
        } else {
            ((char_code as usize) - 0xE0 + 14) * 8
        }
    }

    /// Kept as a debugging hook; it inspects nothing and changes nothing.
    pub fn dump_text_vram(&self, iou: &IOU, mmu: &MMU)
    {
    }

    /// Draws the 24x40 text window from VRAM through the character ROM.
    /// The pixel pattern itself carries no stated contract.
    pub fn render_text_mode(&mut self, iou: &IOU, mmu: &MMU)
        requires
            old(self).wf(),
        ensures
            final(self).wf(),
            final(self).spec_width() == old(self).spec_width(),
            final(self).spec_height() == old(self).spec_height(),
            final(self).spec_font() == old(self).spec_font(),
    {
        let video_mode = iou.video_mode;
        let is_altchar = video_mode & VideoModeMask::ALTCHAR == VideoModeMask::ALTCHAR;

        let mut row: u16 = 0;
        while row < 24
            invariant
                row <= 24,
                self.wf(),
                self.spec_width() == old(self).spec_width(),
                self.spec_height() == old(self).spec_height(),
                self.spec_font() == old(self).spec_font(),
            decreases 24 - row,
        {
            let row_base = text_row_base(row);

            let mut col: u16 = 0;
            while col < 40
                invariant
                    col <= 40,
                    row_base <= 0x07D0,
                    self.wf(),
                    self.spec_width() == old(self).spec_width(),
                    self.spec_height() == old(self).spec_height(),
                    self.spec_font() == old(self).spec_font(),
                    row < 24,
                decreases 40 - col,
            {
                let addr = row_base + col;
                let mut vram_code = mmu.read_byte(iou, addr);

                if vram_code == 0x00 {
                    vram_code = 0xA0;
                }

                let font_offset = crate::util::apple_iic_font_index(vram_code, is_altchar);

                let mut char_row: u16 = 0;
                while char_row < 8
                    invariant
                        char_row <= 8,
                        font_offset + 8 <= 4096,
                        self.wf(),
                        self.spec_width() == old(self).spec_width(),
                        self.spec_height() == old(self).spec_height(),
                        self.spec_font() == old(self).spec_font(),
                        row < 24,
                        col < 40,
                    decreases 8 - char_row,
                {
                    let glyph: u8 = if self.font.len() == 4096 {
                        self.font[font_offset + (char_row as usize)]
                    } else {
                        0
                    };
                    let font_byte = reverse_bits_u8(glyph);
                    let y = (row * 8 + char_row) as usize;
                    let x = (col * 7) as usize;
                    proof {
                        assert(y * self.width + x <= 191 * 560 + 273) by (nonlinear_arith)
                            requires
                                y <= 191,
                                x <= 273,
                                self.width <= 560,
                        ;
                    }

                    let start_index = (y * self.width + x) * 4;
                    let end_index = start_index + 7 * 4;

                    if end_index <= self.framebuffer.len() {
                        let mut bit: usize = 0;
                        while bit < 7
                            invariant
                                bit <= 7,
                                start_index + 28 <= self.framebuffer@.len(),
                                self.framebuffer@.len() <= usize::MAX,
                                self.wf(),
                                self.spec_width() == old(self).spec_width(),
                                self.spec_height() == old(self).spec_height(),
                                self.spec_font() == old(self).spec_font(),
                            decreases 7 - bit,
                        {
                            let pixel_on = (font_byte >> ((6 - bit) as u8)) & 1 != 0;
                            let color: u8 = if pixel_on {
                                255
                            } else {
                                0
                            };
                            let base_index = start_index + bit * 4;
                            self.framebuffer.set(base_index, color);
                            self.framebuffer.set(base_index + 1, color);
                            self.framebuffer.set(base_index + 2, color);
                            self.framebuffer.set(base_index + 3, 255);
                            bit = bit + 1;
                        }
                    }
                    char_row = char_row + 1;
                }
                col = col + 1;
            }
            row = row + 1;
        }
    }

    /// The synthetic color pattern used in place of auxiliary VRAM when
    /// testing the lo-res renderer.
    pub fn read_aux_byte_mock(&self, addr: u16) -> (r: u8)
        ensures
            r == spec_aux_byte_mock(addr),
    {
        let low = addr & 0x3FF;
        if low <= 0x07F {
            0b00001111
        } else if low <= 0x0FF {
            0b11110000
        } else if low <= 0x17F {
            0b10101010
        } else if low <= 0x1FF {
            0b01010101
        } else {
            0b11001100
        }
    }

    /// Draws the 48-row lo-res block grid. The pixel pattern itself
    /// carries no stated contract.
    fn render_lores_mode(&mut self, iou: &IOU, mmu: &MMU)
        requires
            old(self).wf(),
        ensures
            final(self).wf(),
            final(self).spec_width() == old(self).spec_width(),
            final(self).spec_height() == old(self).spec_height(),
            final(self).spec_font() == old(self).spec_font(),
    {
        let video_mode = iou.video_mode;
        let is_page2 = video_mode & VideoModeMask::PAGE2 == VideoModeMask::PAGE2;

        let base_vram: u16 = if is_page2 {
            0x0800
        } else {
            0x0400
        };

        let mut row: u16 = 0;
        while row < 48
            invariant
                row <= 48,
                base_vram <= 0x0800,
                self.wf(),
                self.spec_width() == old(self).spec_width(),
                self.spec_height() == old(self).spec_height(),
                self.spec_font() == old(self).spec_font(),
            decreases 48 - row,
        {
            let base_address = base_vram + lores_row_offset(row / 2);

            let mut col: u16 = 0;
            while col < 40
                invariant
                    col <= 40,
                    base_address <= 0x0BD0,
                    row < 48,
                    self.wf(),
                    self.spec_width() == old(self).spec_width(),
                    self.spec_height() == old(self).spec_height(),
                    self.spec_font() == old(self).spec_font(),
                decreases 40 - col,
            {
                let addr = base_address + col;
                let color_byte = self.read_aux_byte_mock(addr);

                let color_code = if row % 2 == 0 {
                    color_byte & 0x0F
                } else {
                    (color_byte >> 4) & 0x0F
                };

                let (cr, cg, cb, ca) = self.lores_color_lookup(color_code);

                let x = (col * 14) as usize;
                let y = (row * 4) as usize;

                let mut dy: usize = 0;
                while dy < 4
                    invariant
                        dy <= 4,
                        y <= 188,
                        x <= 546,
                        self.wf(),
                        self.spec_width() == old(self).spec_width(),
                        self.spec_height() == old(self).spec_height(),
                        self.spec_font() == old(self).spec_font(),
                    decreases 4 - dy,
                {
                    proof {
                        assert((y + dy) * self.width <= 192 * 560) by (nonlinear_arith)
                            requires
                                y + dy <= 192,
                                self.width <= 560,
                        ;
                    }
                    let y_idx = (y + dy) * self.width;
                    let mut dx: usize = 0;
                    while dx < 7
                        invariant
                            dx <= 7,
                            y_idx <= 192 * 560,
                            y + dy <= 192,
                            x <= 546,
                            self.wf(),
                            self.spec_width() == old(self).spec_width(),
                            self.spec_height() == old(self).spec_height(),
                            self.spec_font() == old(self).spec_font(),
                        decreases 7 - dx,
                    {
                        let index = (y_idx + (x + dx)) * 4;
                        if index + 4 <= self.framebuffer.len() {
                            self.framebuffer.set(index, cr);
                            self.framebuffer.set(index + 1, cg);
                            self.framebuffer.set(index + 2, cb);
                            self.framebuffer.set(index + 3, ca);
                        }
                        dx = dx + 1;
                    }
                    dy = dy + 1;
                }
                col = col + 1;
            }
            row = row + 1;
        }
    }

    /// Hi-res then the text window on top, as mixed mode shows them.
    fn render_mixed_mode(&mut self, iou: &IOU, mmu: &MMU)
        requires
            old(self).wf(),
        ensures
            final(self).wf(),
            final(self).spec_width() == old(self).spec_width(),
            final(self).spec_height() == old(self).spec_height(),
            final(self).spec_font() == old(self).spec_font(),
    {
        self.render_hires_mode(iou, mmu);
        self.render_text_mode(iou, mmu);
    }

    /// Draws the hi-res bitmap with the two-color artifact scheme. The
    /// pixel pattern itself carries no stated contract.
    fn render_hires_mode(&mut self, iou: &IOU, mmu: &MMU)
        requires
            old(self).wf(),
        ensures
            final(self).wf(),
            final(self).spec_width() == old(self).spec_width(),
            final(self).spec_height() == old(self).spec_height(),
            final(self).spec_font() == old(self).spec_font(),
    {
        let base_vram: u16 = 0x2000;

        let mut group: u16 = 0;
        while group < 24
            invariant
                group <= 24,
                self.wf(),
                self.spec_width() == old(self).spec_width(),
                self.spec_height() == old(self).spec_height(),
                self.spec_font() == old(self).spec_font(),
            decreases 24 - group,
        {
            let mut row: u16 = 0;
            while row < 8
                invariant
                    row <= 8,
                    group < 24,
                    self.wf(),
                    self.spec_width() == old(self).spec_width(),
                    self.spec_height() == old(self).spec_height(),
                    self.spec_font() == old(self).spec_font(),
                decreases 8 - row,
            {
                let row_base = base_vram.wrapping_add(row.wrapping_mul(1024)).wrapping_add(
                    group.wrapping_mul(40),
                );

                let mut col: u16 = 0;
                while col < 40
                    invariant
                        col <= 40,
                        group < 24,
                        row < 8,
                        self.wf(),
                        self.spec_width() == old(self).spec_width(),
                        self.spec_height() == old(self).spec_height(),
                        self.spec_font() == old(self).spec_font(),
                    decreases 40 - col,
                {
                    let addr = row_base.wrapping_add(col);
                    let byte = self.read_hires_memory(iou, mmu, addr);

                    let mut left_pixel = false;
                    let mut right_pixel = false;

                    let mut bit: u16 = 0;
                    while bit < 7
                        invariant
                            bit <= 7,
                            group < 24,
                            row < 8,
                            col < 40,
                            self.wf(),
                            self.spec_width() == old(self).spec_width(),
                            self.spec_height() == old(self).spec_height(),
                            self.spec_font() == old(self).spec_font(),
                        decreases 7 - bit,
                    {
                        let pixel_on = (byte >> ((6 - bit) as u8)) & 1 != 0;

                        let (cr, cg, cb): (u8, u8, u8) = if pixel_on {
                            if left_pixel {
                                (255, 255, 255)
                            } else {
                                (255, 0, 0)
                            }
                        } else {
                            if right_pixel {
                                (0, 255, 255)
                            } else {
                                (0, 0, 0)
                            }
                        };

                        left_pixel = pixel_on;
                        right_pixel = !pixel_on;

                        let y = (group as usize) * 8 + (row as usize);
                        let x = (col as usize) * 7 + (bit as usize);
                        proof {
                            assert(y * self.width + x <= 191 * 560 + 279)
                                by (nonlinear_arith)
                                requires
                                    y <= 191,
                                    x <= 279,
                                    self.width <= 560,
                            ;
                        }
                        let index = (y * self.width + x) * 4;

                        if index + 4 <= self.framebuffer.len() {
                            self.framebuffer.set(index, cr);
                            self.framebuffer.set(index + 1, cg);
                            self.framebuffer.set(index + 2, cb);
                            self.framebuffer.set(index + 3, 255);
                        }
                        bit = bit + 1;
                    }
                    col = col + 1;
                }
                row = row + 1;
            }
            group = group + 1;
        }
    }

    /// Draws double hi-res from the main and auxiliary banks. The pixel
    /// pattern itself carries no stated contract.
    fn render_double_hires_mode(&mut self, iou: &IOU, mmu: &MMU)
        requires
            old(self).wf(),
        ensures
            final(self).wf(),
            final(self).spec_width() == old(self).spec_width(),
            final(self).spec_height() == old(self).spec_height(),
            final(self).spec_font() == old(self).spec_font(),
    {
        let base_vram: u16 = 0x2000;
        let video_mode = iou.video_mode;
        let is_80store = iou.is_80store;

        let mut group: u16 = 0;
        while group < 24
            invariant
                group <= 24,
                self.wf(),
                self.spec_width() == old(self).spec_width(),
                self.spec_height() == old(self).spec_height(),
                self.spec_font() == old(self).spec_font(),
            decreases 24 - group,
        {
            let mut row: u16 = 0;
            while row < 8
                invariant
                    row <= 8,
                    group < 24,
                    self.wf(),
                    self.spec_width() == old(self).spec_width(),
                    self.spec_height() == old(self).spec_height(),
                    self.spec_font() == old(self).spec_font(),
                decreases 8 - row,
            {
                let row_base = self.get_display_address(
                    video_mode,
                    is_80store,
                    base_vram.wrapping_add(row.wrapping_mul(1024)).wrapping_add(
                        group.wrapping_mul(40),
                    ),
                );

                let mut col: u16 = 0;
                while col < 40
                    invariant
                        col <= 40,
                        group < 24,
                        row < 8,
                        self.wf(),
                        self.spec_width() == old(self).spec_width(),
                        self.spec_height() == old(self).spec_height(),
                        self.spec_font() == old(self).spec_font(),
                    decreases 40 - col,
                {
                    let addr = row_base.wrapping_add(col);
                    let main_byte = self.read_hires_memory(iou, mmu, addr);
                    let aux_byte = self.read_aux_hires_memory(iou, mmu, addr);

                    let mut bit: u16 = 0;
                    while bit < 7
                        invariant
                            bit <= 7,
                            group < 24,
                            row < 8,
                            col < 40,
                            self.wf(),
                            self.spec_width() == old(self).spec_width(),
                            self.spec_height() == old(self).spec_height(),
                            self.spec_font() == old(self).spec_font(),
                        decreases 7 - bit,
                    {
                        let even_pixel = (main_byte >> ((6 - bit) as u8)) & 1 != 0;
                        let odd_pixel = (aux_byte >> ((6 - bit) as u8)) & 1 != 0;

                        let (cr, cg, cb): (u8, u8, u8) = if even_pixel && odd_pixel {
                            (255, 255, 255)
                        } else if even_pixel {
                            (255, 0, 255)
                        } else if odd_pixel {
                            (0, 255, 255)
                        } else {
                            (0, 0, 0)
                        };

                        let x = (col as usize) * 7 + (bit as usize);
                        let y = (group as usize) * 8 + (row as usize);
                        proof {
                            assert(y * self.width + x <= 191 * 560 + 279)
                                by (nonlinear_arith)
                                requires
                                    y <= 191,
                                    x <= 279,
                                    self.width <= 560,
                            ;
                        }
                        let index = (y * self.width + x) * 4;

                        if index + 4 <= self.framebuffer.len() {
                            self.framebuffer.set(index, cr);
                            self.framebuffer.set(index + 1, cg);
                            self.framebuffer.set(index + 2, cb);
                            self.framebuffer.set(index + 3, 255);
                        }
                        bit = bit + 1;
                    }
                    col = col + 1;
                }
                row = row + 1;
            }
            group = group + 1;
        }
    }

    /// The RGBA color of a lo-res nibble.
    fn lores_color_lookup(&self, color: u8) -> (r: (u8, u8, u8, u8))
        ensures
            r == spec_lores_color(color),
    {
        let c = color & 0x0F;
        if c == 0x0 {
            (0, 0, 0, 255)
        } else if c == 0x1 {
            (227, 30, 96, 255)
        } else if c == 0x2 {
            (96, 78, 189, 255)
        } else if c == 0x3 {
            (255, 68, 253, 255)
        } else if c == 0x4 {
            (0, 129, 64, 255)
        } else {
            (255, 255, 255, 255)
        }
    }

    pub fn get_dimensions(&self) -> (r: (u32, u32))
        requires
            self.wf(),
        ensures
            r.0 == self.spec_width(),
            r.1 == self.spec_height(),
    {
        (self.width as u32, self.height as u32)
    }

    pub fn get_pixels(&self) -> (r: &[u8])
        ensures
            r@ == self.spec_framebuffer(),
    {
        self.framebuffer.as_slice()
    }
}

/// A zero-filled buffer of the given length.
fn zeroed_buffer(size: usize) -> (r: Vec<u8>)
    ensures
        r@ == Seq::new(size as nat, |i: int| 0u8),
{
    let mut data: Vec<u8> = Vec::new();
    let mut i: usize = 0;
    while i < size
        invariant
            i <= size,
            data@ =~= Seq::new(i as nat, |j: int| 0u8),
        decreases size - i,
    {
        data.push(0u8);
        i = i + 1;
    }
    proof {
        assert(data@ =~= Seq::new(size as nat, |i: int| 0u8));
    }
    data
}

} // verus!
