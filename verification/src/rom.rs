//! ROM images: a raw blob padded with 0xFF to the target size, or an
//! Intel-HEX text whose data records are laid into the image. Loading
//! rejects an empty or oversize blob, a malformed HEX line, and any
//! checksum mismatch.

use vstd::prelude::*;

use crate::cpu::SystemType;
use crate::disassembler::hex_val;
use crate::disassembler::spec_line_end;

verus! {

/// The byte two hex digits at `i` spell, if they are digits in range.
pub open spec fn spec_pair(d: Seq<u8>, i: int) -> Option<u8> {
    if 0 <= i && i + 2 <= d.len() && hex_val(d[i]) >= 0 && hex_val(d[i + 1]) >= 0 {
        Some((hex_val(d[i]) * 16 + hex_val(d[i + 1])) as u8)
    } else {
        None
    }
}

/// The word four hex digits at `i` spell, if they are digits in range.
pub open spec fn spec_quad(d: Seq<u8>, i: int) -> Option<u16> {
    match (spec_pair(d, i), spec_pair(d, i + 2)) {
        (Some(hi), Some(lo)) => Some((hi * 256 + lo) as u16),
        _ => None,
    }
}

/// The record checksum accumulated over the hex pairs starting at `i`,
/// two text columns at a time, up to the checksum field at `e - 2`.
pub open spec fn spec_intel_checksum(d: Seq<u8>, i: int, e: int, acc: u8) -> Option<u8>
    decreases e - i,
{
    if i >= e - 2 {
        Some(acc)
    } else {
        match spec_pair(d, i) {
            None => None,
            Some(b) => spec_intel_checksum(d, i + 2, e, acc.wrapping_add(b)),
        }
    }
}

/// The image after laying `count` data bytes, spelled as pairs starting
/// at text position `i`, into consecutive cells from `dst`.
pub open spec fn spec_intel_data(
    d: Seq<u8>,
    i: int,
    count: int,
    image: Seq<u8>,
    dst: int,
) -> Option<Seq<u8>>
    decreases count,
{
    if count <= 0 {
        Some(image)
    } else {
        match spec_pair(d, i) {
            None => None,
            Some(b) => spec_intel_data(d, i + 2, count - 1, image.update(dst, b), dst + 1),
        }
    }
}

/// One HEX record in `[s, e)` of the text: its count, address, type and
/// checksum fields decoded, the checksum verified, and the record applied
/// to the image. The result carries the new segment offset, the new
/// image, and whether an end record was seen.
pub open spec fn spec_intel_line(d: Seq<u8>, s: int, e: int, offset: int, image: Seq<u8>)
    -> Result<(int, Seq<u8>, bool), RomError> {
    if e - s < 11 || d[s] != (':' as u8) {
        Err(RomError::InvalidHexFormat)
    } else {
        match (spec_pair(d, s + 1), spec_quad(d, s + 3), spec_pair(d, s + 7)) {
            (Some(byte_count), Some(address), Some(record_type)) => {
                match spec_intel_checksum(d, s + 1, e, 0) {
                    None => Err(RomError::InvalidHexFormat),
                    Some(computed) => match spec_pair(d, e - 2) {
                        None => Err(RomError::InvalidHexFormat),
                        Some(expected) => {
                            if (0u8.wrapping_sub(computed)) != expected {
                                Err(RomError::ChecksumMismatch)
                            } else if record_type == 0 {
                                let base = offset + address;
                                if base + byte_count > image.len() {
                                    Err(RomError::HexTooLarge)
                                } else if s + 9 + 2 * byte_count > e {
                                    Err(RomError::InvalidHexFormat)
                                } else {
                                    match spec_intel_data(
                                        d,
                                        s + 9,
                                        byte_count as int,
                                        image,
                                        base,
                                    ) {
                                        None => Err(RomError::InvalidHexFormat),
                                        Some(image2) => Ok((offset, image2, false)),
                                    }
                                }
                            } else if record_type == 1 {
                                Ok((offset, image, true))
                            } else if record_type == 2 {
                                if s + 13 > e {
                                    Err(RomError::InvalidHexFormat)
                                } else {
                                    match spec_quad(d, s + 9) {
                                        None => Err(RomError::InvalidHexFormat),
                                        Some(seg) => Ok((seg * 16, image, false)),
                                    }
                                }
                            } else {
                                Ok((offset, image, false))
                            }
                        },
                    },
                }
            },
            _ => Err(RomError::InvalidHexFormat),
        }
    }
}

/// The whole HEX text folded line by line over the image, from `pos`,
/// with the current segment offset; an end record stops the fold.
pub open spec fn spec_intel_lines(d: Seq<u8>, pos: int, offset: int, image: Seq<u8>)
    -> Result<Seq<u8>, RomError>
    decreases d.len() - pos,
{
    if pos < 0 || pos >= d.len() {
        Ok(image)
    } else {
        let j0 = spec_line_end(d, pos);
        let j = if j0 < pos {
            pos
        } else {
            j0
        };
        let e = if j > pos && d[j - 1] == 13 {
            j - 1
        } else {
            j
        };
        let next = if j + 1 <= d.len() {
            j + 1
        } else {
            d.len() as int
        };
        match spec_intel_line(d, pos, e, offset, image) {
            Err(err) => Err(err),
            Ok((offset2, image2, stop)) => {
                if stop {
                    Ok(image2)
                } else {
                    spec_intel_lines(d, next, offset2, image2)
                }
            },
        }
    }
}

/// What loading an Intel-HEX text yields: the 0xFF-filled target image
/// with every data record laid in, or the first record's error.
pub open spec fn spec_intel_image(d: Seq<u8>, system_type: SystemType) -> Result<
    Seq<u8>,
    RomError,
> {
    spec_intel_lines(d, 0, 0, padded_image(Seq::empty(), rom_max_size(system_type)))
}

/// The image size a system pads its ROM to: 32 KiB on the Apple IIc,
/// a full 64 KiB address space on the Generic test target.
pub open spec fn rom_max_size(system_type: SystemType) -> int {
    match system_type {
        SystemType::AppleIIc => 0x8000,
        SystemType::Generic => 0x10000,
    }
}

/// A raw blob padded with 0xFF up to `max` bytes.
pub open spec fn padded_image(bytes: Seq<u8>, max: int) -> Seq<u8> {
    Seq::new(max as nat, |i: int| if i < bytes.len() {
        bytes[i]
    } else {
        0xFFu8
    })
}

#[derive(Debug, Clone, Copy, PartialEq, Eq, Structural)]
pub enum RomError {
    /// The blob held no bytes at all.
    Empty,
    /// The blob was larger than the target region.
    TooLarge,
    /// A HEX line did not start with ':' or was too short to carry a record.
    InvalidHexFormat,
    /// A HEX line's checksum did not match its bytes.
    ChecksumMismatch,
    /// A HEX data record ran past the target region.
    HexTooLarge,
}

impl RomError {
    /// A human-readable description of the configuration error.
    pub fn message(&self) -> (r: String)
        ensures
            r@ == spec_rom_error_message(*self),
    {
        match self {
            RomError::Empty => "ROM is empty".to_owned(),
            RomError::TooLarge => "ROM too large".to_owned(),
            RomError::InvalidHexFormat => "Invalid Intel HEX format".to_owned(),
            RomError::ChecksumMismatch => "Checksum mismatch".to_owned(),
            RomError::HexTooLarge => "HEX file exceeds ROM size".to_owned(),
        }
    }
}

/// The description `message` spells for each error.
pub open spec fn spec_rom_error_message(e: RomError) -> Seq<char> {
    match e {
        RomError::Empty => "ROM is empty"@,
        RomError::TooLarge => "ROM too large"@,
        RomError::InvalidHexFormat => "Invalid Intel HEX format"@,
        RomError::ChecksumMismatch => "Checksum mismatch"@,
        RomError::HexTooLarge => "HEX file exceeds ROM size"@,
    }
}

pub struct ROM {
    pub data: Vec<u8>,
}

impl ROM {
    pub fn load_from_bytes(bytes: &[u8], system_type: SystemType) -> (r: Result<ROM, RomError>)
        ensures
            bytes@.len() == 0 ==> r == Err::<ROM, RomError>(RomError::Empty),
            bytes@.len() > rom_max_size(system_type) ==> r == Err::<ROM, RomError>(
                RomError::TooLarge,
            ),
            0 < bytes@.len() <= rom_max_size(system_type) ==> (r matches Ok(rom) && rom.data@
                == padded_image(bytes@, rom_max_size(system_type))),
    {
        if bytes.len() == 0 {
            return Err(RomError::Empty);
        }

        let max_size: usize = match system_type {
            SystemType::AppleIIc => 0x8000,
            SystemType::Generic => 0x10000,
        };

        if bytes.len() > max_size {
            return Err(RomError::TooLarge);
        }

        let mut data: Vec<u8> = Vec::new();
        let mut i: usize = 0;
        while i < max_size
            invariant
                i <= max_size,
                bytes@.len() <= max_size,
                data@ =~= padded_image(bytes@, max_size as int).take(i as int),
            decreases max_size - i,
        {
            if i < bytes.len() {
                data.push(bytes[i]);
            } else {
                data.push(0xFF);
            }
            proof {
                assert(data@ =~= padded_image(bytes@, max_size as int).take(i + 1));
            }
            i = i + 1;
        }
        proof {
            assert(data@ =~= padded_image(bytes@, max_size as int));
        }
        Ok(ROM { data })
    }

    /// Loads an Intel-HEX text: data records are laid into a 0xFF-filled
    /// image, a segment-address record shifts subsequent addresses, an
    /// end record stops the load. A line that does not start with ':',
    /// is too short, or carries malformed hex is rejected, as is any
    /// checksum mismatch or a record past the target region.
    #[verifier::loop_isolation(false)]
    #[verifier::rlimit(100)]
    #[verifier::spinoff_prover]
    pub fn load_from_intel(text: &[u8], system_type: SystemType) -> (r: Result<ROM, RomError>)
        ensures
            match spec_intel_image(text@, system_type) {
                Ok(image) => r matches Ok(rom) && rom.data@ == image,
                Err(e) => r == Err::<ROM, RomError>(e),
            },
    {
        let max_size: usize = match system_type {
            SystemType::AppleIIc => 0x8000,
            SystemType::Generic => 0x10000,
        };
        let mut data: Vec<u8> = Vec::new();
        let mut k: usize = 0;
        while k < max_size
            invariant
                k <= max_size,
                data@ =~= padded_image(Seq::empty(), max_size as int).take(k as int),
            decreases max_size - k,
        {
            data.push(0xFF);
            proof {
                assert(data@ =~= padded_image(Seq::empty(), max_size as int).take(k + 1));
            }
            k = k + 1;
        }
        proof {
            assert(data@ =~= padded_image(Seq::empty(), rom_max_size(system_type)));
        }

        let mut address_offset: u32 = 0;
        let mut pos: usize = 0;
        let ghost img0 = data@;

        while pos < text.len()
            invariant
                pos <= text@.len(),
                data@.len() == img0.len(),
                address_offset <= 0xFFFF0,
                img0 == padded_image(Seq::empty(), rom_max_size(system_type)),
                spec_intel_lines(text@, 0, 0, img0) == spec_intel_lines(
                    text@,
                    pos as int,
                    address_offset as int,
                    data@,
                ),
            decreases text@.len() - pos,
        {
            let ghost img_in = data@;
            let ghost off_in = address_offset as int;
            let j = crate::disassembler::find_line_end(text, pos);
            let e = if j > pos && text[j - 1] == 13 {
                j - 1
            } else {
                j
            };
            let next = if j < text.len() {
                j + 1
            } else {
                text.len()
            };

            if e - pos < 11 || text[pos] != (':' as u8) {
                return Err(RomError::InvalidHexFormat);
            }

            let byte_count = match pair_at(text, pos + 1) {
                Some(v) => v,
                None => {
                    return Err(RomError::InvalidHexFormat);
                },
            };
            let address = match quad_at(text, pos + 3) {
                Some(v) => v,
                None => {
                    return Err(RomError::InvalidHexFormat);
                },
            };
            let record_type = match pair_at(text, pos + 7) {
                Some(v) => v,
                None => {
                    return Err(RomError::InvalidHexFormat);
                },
            };

            let mut checksum: u8 = 0;
            let mut i = pos + 1;
            while i < e - 2
                invariant
                    pos + 1 <= i,
                    e <= text@.len(),
                    spec_intel_checksum(text@, pos + 1, e as int, 0) == spec_intel_checksum(
                        text@,
                        i as int,
                        e as int,
                        checksum,
                    ),
                decreases e - i,
            {
                match pair_at(text, i) {
                    Some(b) => {
                        checksum = checksum.wrapping_add(b);
                    },
                    None => {
                        return Err(RomError::InvalidHexFormat);
                    },
                }
                i = i + 2;
            }
            let computed: u8 = 0u8.wrapping_sub(checksum);

            let expected = match pair_at(text, e - 2) {
                Some(v) => v,
                None => {
                    return Err(RomError::InvalidHexFormat);
                },
            };
            if computed != expected {
                return Err(RomError::ChecksumMismatch);
            }

            if record_type == 0x00 {
                let base: usize = (address_offset as usize) + (address as usize);
                if base + (byte_count as usize) > data.len() {
                    return Err(RomError::HexTooLarge);
                }
                if 2 * (byte_count as usize) > e - (pos + 9) {
                    return Err(RomError::InvalidHexFormat);
                }
                let mut n: usize = 0;
                while n < byte_count as usize
                    invariant
                        n <= byte_count as usize,
                        pos + 9 + 2 * (byte_count as usize) <= e <= text@.len(),
                        base + (byte_count as usize) <= data@.len(),
                        data@.len() == img_in.len(),
                        spec_intel_data(
                            text@,
                            pos + 9,
                            byte_count as int,
                            img_in,
                            base as int,
                        ) == spec_intel_data(
                            text@,
                            pos + 9 + 2 * n,
                            byte_count - n,
                            data@,
                            base + n,
                        ),
                    decreases byte_count as usize - n,
                {
                    match pair_at(text, pos + 9 + 2 * n) {
                        Some(b) => {
                            data.set(base + n, b);
                        },
                        None => {
                            return Err(RomError::InvalidHexFormat);
                        },
                    }
                    n = n + 1;
                }
            } else if record_type == 0x01 {
                proof {
                    assert(spec_intel_line(text@, pos as int, e as int, off_in, img_in)
                        == Ok::<(int, Seq<u8>, bool), RomError>((off_in, data@, true)));
                    assert(spec_intel_lines(text@, pos as int, off_in, img_in)
                        == Ok::<Seq<u8>, RomError>(data@));
                }
                return Ok(ROM { data });
            } else if record_type == 0x02 {
                if e - pos < 13 {
                    return Err(RomError::InvalidHexFormat);
                }
                let seg = match quad_at(text, pos + 9) {
                    Some(v) => v,
                    None => {
                        return Err(RomError::InvalidHexFormat);
                    },
                };
                address_offset = (seg as u32) * 16;
            }

            proof {
                assert(spec_intel_line(text@, pos as int, e as int, off_in, img_in)
                    == Ok::<(int, Seq<u8>, bool), RomError>((
                    address_offset as int,
                    data@,
                    false,
                )));
                assert(spec_intel_lines(text@, pos as int, off_in, img_in)
                    == spec_intel_lines(text@, next as int, address_offset as int, data@));
            }
            pos = next;
        }

        Ok(ROM { data })
    }
}

/// The byte two hex digits at `i` spell.
fn pair_at(data: &[u8], i: usize) -> (r: Option<u8>)
    ensures
        r == spec_pair(data@, i as int),
{
    if i <= data.len() && data.len() - i >= 2 {
        match (crate::disassembler::hex_val_of(data[i]), crate::disassembler::hex_val_of(
            data[i + 1],
        )) {
            (Some(hi), Some(lo)) => Some(hi * 16 + lo),
            _ => None,
        }
    } else {
        None
    }
}

/// The word four hex digits at `i` spell.
fn quad_at(data: &[u8], i: usize) -> (r: Option<u16>)
    ensures
        r == spec_quad(data@, i as int),
{
    if i <= data.len() && data.len() - i >= 4 {
        match (pair_at(data, i), pair_at(data, i + 2)) {
            (Some(hi), Some(lo)) => Some((hi as u16) * 256 + (lo as u16)),
            _ => None,
        }
    } else {
        None
    }
}

} // verus!
