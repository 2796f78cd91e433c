//! Small shared helpers: ASCII string building, the status-bit read helper,
//! the memory-state display line, and the text-VRAM character tables.

use vstd::prelude::*;

use crate::mmu::MemStateMask;

verus! {

/// The characters that a sequence of ASCII bytes spells.
pub open spec fn ascii_view(bytes: Seq<u8>) -> Seq<char> {
    bytes.map_values(|b: u8| b as char)
}

/// Relies on `String::from_utf8`: a buffer of ASCII bytes decodes to exactly
/// those characters, one per byte.
#[verifier::external_body]
pub(crate) fn ascii_string(bytes: Vec<u8>) -> (r: String)
    requires
        forall|i: int| 0 <= i < bytes@.len() ==> bytes@[i] < 128,
    ensures
        r@ == ascii_view(bytes@),
{
    match String::from_utf8(bytes) {
        Ok(s) => s,
        Err(_) => String::new(),
    }
}

/// What a lossy UTF-8 decoding of a byte buffer spells: a deterministic
/// function of the bytes alone.
pub uninterp spec fn utf8_lossy_of(bytes: Seq<u8>) -> Seq<char>;

/// Relies on `String::from_utf8_lossy`: the decoding depends on the bytes
/// alone, and ASCII bytes decode to exactly those characters.
#[verifier::external_body]
pub(crate) fn lossy_string(bytes: &Vec<u8>) -> (r: String)
    ensures
        r@ == utf8_lossy_of(bytes@),
        ascii_bytes(bytes@) ==> r@ == ascii_view(bytes@),
{
    String::from_utf8_lossy(bytes).into_owned()
}

/// The characters of the memory-state display line: one letter per set mode
/// bit, a dot per clear one, inside square brackets.
pub open spec fn mem_state_bytes(value: u8) -> Seq<u8> {
    seq![
        ('[' as u8),
        (if value & MemStateMask::ALTZP != 0 { ('A' as u8) } else { ('.' as u8) }),
        (if value & MemStateMask::P280STORE != 0 { ('8' as u8) } else { ('.' as u8) }),
        (if value & MemStateMask::RAMRD != 0 { ('r' as u8) } else { ('.' as u8) }),
        (if value & MemStateMask::RAMWRT != 0 { ('w' as u8) } else { ('.' as u8) }),
        (if value & MemStateMask::LCRAM != 0 { ('L' as u8) } else { ('.' as u8) }),
        (if value & MemStateMask::RDBNK != 0 { ('B' as u8) } else { ('.' as u8) }),
        (if value & MemStateMask::WRITE != 0 { ('W' as u8) } else { ('.' as u8) }),
        (if value & MemStateMask::ALTROM != 0 { ('R' as u8) } else { ('.' as u8) }),
        (']' as u8),
    ]
}

pub fn mem_state_to_string(mem_state: u8) -> (r: String)
    ensures
        r@ == ascii_view(mem_state_bytes(mem_state)),
{
    let mut bytes: Vec<u8> = Vec::new();
    bytes.push(('[' as u8));
    bytes.push(if mem_state & MemStateMask::ALTZP != 0 { ('A' as u8) } else { ('.' as u8) });
    bytes.push(if mem_state & MemStateMask::P280STORE != 0 { ('8' as u8) } else { ('.' as u8) });
    bytes.push(if mem_state & MemStateMask::RAMRD != 0 { ('r' as u8) } else { ('.' as u8) });
    bytes.push(if mem_state & MemStateMask::RAMWRT != 0 { ('w' as u8) } else { ('.' as u8) });
    bytes.push(if mem_state & MemStateMask::LCRAM != 0 { ('L' as u8) } else { ('.' as u8) });
    bytes.push(if mem_state & MemStateMask::RDBNK != 0 { ('B' as u8) } else { ('.' as u8) });
    bytes.push(if mem_state & MemStateMask::WRITE != 0 { ('W' as u8) } else { ('.' as u8) });
    bytes.push(if mem_state & MemStateMask::ALTROM != 0 { ('R' as u8) } else { ('.' as u8) });
    bytes.push((']' as u8));
    proof {
        assert(bytes@ =~= mem_state_bytes(mem_state));
    }
    ascii_string(bytes)
}

/// Every byte of the sequence is ASCII.
pub open spec fn ascii_bytes(s: Seq<u8>) -> bool {
    forall|i: int| 0 <= i < s.len() ==> s[i] < 128
}

/// The upper-case hex digit for a value below sixteen.
pub open spec fn hex_digit(n: int) -> u8 {
    if n < 10 {
        (('0' as u8) + n) as u8
    } else {
        (('A' as u8) + (n - 10)) as u8
    }
}

/// The two hex digits of a byte.
pub open spec fn hex2(v: u8) -> Seq<u8> {
    seq![hex_digit(v as int / 16), hex_digit(v as int % 16)]
}

/// The four hex digits of a word.
pub open spec fn hex4(v: u16) -> Seq<u8> {
    seq![
        hex_digit(v as int / 4096 % 16),
        hex_digit(v as int / 256 % 16),
        hex_digit(v as int / 16 % 16),
        hex_digit(v as int % 16),
    ]
}

/// The sequence padded with spaces on the right up to `w` bytes.
pub open spec fn pad_to(s: Seq<u8>, w: int) -> Seq<u8> {
    if s.len() >= w {
        s
    } else {
        s + Seq::new((w - s.len()) as nat, |i: int| (' ' as u8))
    }
}

fn hex_digit_of(n: u8) -> (r: u8)
    requires
        n < 16,
    ensures
        r == hex_digit(n as int),
        r < 128,
{
    if n < 10 {
        ('0' as u8) + n
    } else {
        ('A' as u8) + (n - 10)
    }
}

/// Appends the two hex digits of a byte.
pub(crate) fn push_hex2(buf: &mut Vec<u8>, v: u8)
    ensures
        final(buf)@ == old(buf)@ + hex2(v),
        forall|i: int| old(buf)@.len() <= i < final(buf)@.len() ==> final(buf)@[i] < 128,
{
    buf.push(hex_digit_of(v / 16));
    buf.push(hex_digit_of(v % 16));
    proof {
        assert(buf@ =~= old(buf)@ + hex2(v));
    }
}

/// Appends the four hex digits of a word.
pub(crate) fn push_hex4(buf: &mut Vec<u8>, v: u16)
    ensures
        final(buf)@ == old(buf)@ + hex4(v),
        forall|i: int| old(buf)@.len() <= i < final(buf)@.len() ==> final(buf)@[i] < 128,
{
    buf.push(hex_digit_of(((v / 4096) % 16) as u8));
    buf.push(hex_digit_of(((v / 256) % 16) as u8));
    buf.push(hex_digit_of(((v / 16) % 16) as u8));
    buf.push(hex_digit_of((v % 16) as u8));
    proof {
        assert(buf@ =~= old(buf)@ + hex4(v));
    }
}

/// Pads the buffer with spaces on the right up to `width` bytes.
pub(crate) fn pad_right(buf: &mut Vec<u8>, width: usize)
    ensures
        final(buf)@ == pad_to(old(buf)@, width as int),
        forall|i: int| old(buf)@.len() <= i < final(buf)@.len() ==> final(buf)@[i] < 128,
{
    let ghost orig = buf@;
    while buf.len() < width
        invariant
            orig.len() <= buf@.len(),
            orig.len() >= width ==> buf@.len() == orig.len(),
            orig.len() < width ==> buf@.len() <= width,
            buf@ == orig + Seq::new((buf@.len() - orig.len()) as nat, |i: int| (' ' as u8)),
        decreases width - buf@.len(),
    {
        buf.push(' ' as u8);
        proof {
            assert(buf@ =~= orig + Seq::new(
                (buf@.len() - orig.len()) as nat,
                |i: int| (' ' as u8),
            ));
        }
    }
    proof {
        assert(buf@ =~= pad_to(orig, width as int));
    }
}

/// Appends every byte of `piece`.
pub(crate) fn append_all(buf: &mut Vec<u8>, piece: &Vec<u8>)
    ensures
        final(buf)@ == old(buf)@ + piece@,
{
    let ghost orig = buf@;
    let mut i: usize = 0;
    while i < piece.len()
        invariant
            i <= piece@.len(),
            buf@ == orig + piece@.take(i as int),
        decreases piece@.len() - i,
    {
        buf.push(piece[i]);
        proof {
            assert(buf@ =~= orig + piece@.take(i + 1));
        }
        i = i + 1;
    }
    proof {
        assert(piece@.take(piece@.len() as int) =~= piece@);
    }
}

/// Appends the bytes of an ASCII string slice.
pub(crate) fn push_str_bytes(buf: &mut Vec<u8>, s: &str)
    requires
        vstd::string::is_ascii(s),
    ensures
        final(buf)@ == old(buf)@ + s@.map_values(|c: char| c as u8),
        forall|i: int| old(buf)@.len() <= i < final(buf)@.len() ==> final(buf)@[i] < 128,
{
    proof {
        vstd::string::is_ascii_spec_bytes(s);
        vstd::utf8::is_ascii_chars_nat_bound(s@);
    }
    let sb = s.as_bytes();
    let ghost orig = buf@;
    let ghost mapped = s@.map_values(|c: char| c as u8);
    proof {
        assert(sb@ =~= mapped);
    }
    let mut i: usize = 0;
    while i < sb.len()
        invariant
            i <= sb@.len(),
            sb@ == mapped,
            forall|j: int| 0 <= j < mapped.len() ==> mapped[j] < 128,
            buf@ == orig + mapped.take(i as int),
        decreases sb@.len() - i,
    {
        buf.push(sb[i]);
        proof {
            assert(buf@ =~= orig + mapped.take(i + 1));
        }
        i = i + 1;
    }
    proof {
        assert(mapped.take(mapped.len() as int) =~= mapped);
    }
}

/// A high byte and a low byte combine by shift-or into `hi * 256 + lo`.
pub proof fn lemma_word_combine(hi: u16, lo: u16)
    requires
        hi < 0x100,
        lo < 0x100,
    ensures
        ((hi << 8) | lo) == hi * 0x100 + lo,
{
    assert(hi < 0x100 && lo < 0x100 ==> ((hi << 8) | lo) == hi * 0x100 + lo) by (bit_vector);
}

/// Collapses a flag byte to the form a status read returns: bit 7 set when
/// any bit of the input is set.
pub fn ior(val: u8) -> (r: u8)
    ensures
        r == (if val != 0 { 0x80u8 } else { 0x00u8 }),
{
    if val != 0 {
        0x80
    } else {
        0x00
    }
}

/// The text-VRAM code that an ASCII character is stored as, mirroring the
/// Apple IIc character layout; unknown characters map to a blank (0xA0).
pub open spec fn spec_ascii_to_apple_iic(ch: u8, is_altchar: bool) -> u8 {
    if ('A' as u8) <= ch && ch <= ('O' as u8) {
        ((ch - ('A' as u8)) + 0xC1) as u8
    } else if ('P' as u8) <= ch && ch <= ('_' as u8) {
        ((ch - ('P' as u8)) + 0xD0) as u8
    } else if ('0' as u8) <= ch && ch <= ('9' as u8) {
        ((ch - ('0' as u8)) + 0xB0) as u8
    } else if ch == (' ' as u8) {
        0x20u8
    } else if ('!' as u8) <= ch && ch <= ('/' as u8) {
        ((ch - ('!' as u8)) + 0xA1) as u8
    } else if (':' as u8) <= ch && ch <= ('@' as u8) {
        ((ch - (':' as u8)) + 0xBA) as u8
    } else if ('a' as u8) <= ch && ch <= ('z' as u8) {
        ((ch - 32 - ('A' as u8)) + 0xC1) as u8
    } else if ('`' as u8) <= ch && ch <= ('~' as u8) && is_altchar {
        ((ch - ('`' as u8)) + 0x40) as u8
    } else {
        0xA0u8
    }
}

pub fn ascii_to_apple_iic(ch: u8, is_altchar: bool) -> (r: u8)
    ensures
        r == spec_ascii_to_apple_iic(ch, is_altchar),
{
    if ('A' as u8) <= ch && ch <= ('O' as u8) {
        (ch - ('A' as u8)) + 0xC1
    } else if ('P' as u8) <= ch && ch <= ('_' as u8) {
        (ch - ('P' as u8)) + 0xD0
    } else if ('0' as u8) <= ch && ch <= ('9' as u8) {
        (ch - ('0' as u8)) + 0xB0
    } else if ch == (' ' as u8) {
        0x20
    } else if ('!' as u8) <= ch && ch <= ('/' as u8) {
        (ch - ('!' as u8)) + 0xA1
    } else if (':' as u8) <= ch && ch <= ('@' as u8) {
        (ch - (':' as u8)) + 0xBA
    } else if ('a' as u8) <= ch && ch <= ('z' as u8) {
        (ch - 32 - ('A' as u8)) + 0xC1
    } else if ('`' as u8) <= ch && ch <= ('~' as u8) && is_altchar {
        (ch - ('`' as u8)) + 0x40
    } else {
        0xA0
    }
}

/// The byte offset into the 4 KiB character ROM where the glyph of a
/// text-VRAM code starts; flashing rows sit 12 glyph rows further down.
pub open spec fn spec_apple_iic_font_index(vram_code: u8, is_altchar: bool) -> int {
    let char_code = (vram_code & 0x7F) as int;
    if is_altchar && 0x40 <= char_code && char_code <= 0x5F {
        ((char_code - 0x40) + 64 * 4) * 8
    } else {
        let base_index = if char_code <= 0x1F {
            char_code + 0x40
        } else if char_code <= 0x3F {
            char_code
        } else if char_code <= 0x5F {
            char_code - 0x40
        } else {
            char_code
        };
        let row_offset: int = if 0x60 <= vram_code && vram_code <= 0x7F {
            12
        } else if 0xE0 <= vram_code {
            12
        } else {
            0
        };
        let index = (base_index + 64 * row_offset) * 8;
        if index <= 4096 - 8 {
            index
        } else {
            4096 - 8
        }
    }
}

pub fn apple_iic_font_index(vram_code: u8, is_altchar: bool) -> (r: usize)
    ensures
        r == spec_apple_iic_font_index(vram_code, is_altchar),
        r + 8 <= 4096,
{
    let char_code = (vram_code & 0x7F) as usize;
    proof {
        assert(vram_code & 0x7F < 0x80) by (bit_vector);
    }

    if is_altchar && char_code >= 0x40 && char_code <= 0x5F {
        return ((char_code - 0x40) + 64 * 4) * 8;
    }

    let base_index: usize = if char_code <= 0x1F {
        char_code + 0x40
    } else if char_code <= 0x3F {
        char_code
    } else if char_code <= 0x5F {
        char_code - 0x40
    } else {
        char_code
    };

    let row_offset: usize = if vram_code >= 0x60 && vram_code <= 0x7F {
        12
    } else if vram_code >= 0xE0 {
        12
    } else {
        0
    };

    let index = (base_index + 64 * row_offset) * 8;
    if index <= 4096 - 8 {
        index
    } else {
        4096 - 8
    }
}

} // verus!
