//! The ROM file format.
//!
//! A ROM file is either a bare memory image, or a header of sixteen bytes
//! that starts with the letters `CH16`, followed by the image. The image is
//! loaded at address 0; what it does not cover stays zero, and what does
//! not fit in memory is left out.

use vstd::prelude::*;

verus! {

/// The length of the header in bytes.
pub const HEADER_SIZE: usize = 16;

/// The header of a ROM file.
#[derive(Clone, Copy, Debug, PartialEq, Eq)]
pub struct ROMHeader {
    /// The letters `CH16`.
    pub magic_number: [u8; 4],
    pub reserved: u8,
    pub specification_version: u8,
    /// The size of the image, as the file states it.
    pub rom_size: u32,
    /// The address at which the program starts, low byte first.
    pub start_address: [u8; 2],
    /// The checksum of the image, as the file states it.
    pub rom_crc: [u8; 4],
}

/// A ROM file taken apart.
pub struct RomImage {
    /// The header, if the file has one.
    pub header: Option<ROMHeader>,
    /// The memory that the machine starts with.
    pub mem: [u8; 65536],
}

/// Byte `k` of a file, or zero past its end.
pub open spec fn byte_or_zero(rom: Seq<u8>, k: int) -> u8 {
    if 0 <= k < rom.len() {
        rom[k]
    } else {
        0
    }
}

/// Whether a file starts with the letters `CH16`.
pub open spec fn has_header(rom: Seq<u8>) -> bool {
    &&& rom.len() >= 4
    &&& rom[0] == 0x43
    &&& rom[1] == 0x48
    &&& rom[2] == 0x31
    &&& rom[3] == 0x36
}

/// The header that the first sixteen bytes of a file spell. A file that
/// ends before the header does is read as if zeros followed.
pub open spec fn header_of(rom: Seq<u8>) -> ROMHeader {
    ROMHeader {
        magic_number: [
            byte_or_zero(rom, 0),
            byte_or_zero(rom, 1),
            byte_or_zero(rom, 2),
            byte_or_zero(rom, 3),
        ],
        reserved: byte_or_zero(rom, 4),
        specification_version: byte_or_zero(rom, 5),
        rom_size: (byte_or_zero(rom, 6) + 0x100 * byte_or_zero(rom, 7) + 0x10000 * byte_or_zero(
            rom,
            8,
        ) + 0x1000000 * byte_or_zero(rom, 9)) as u32,
        start_address: [byte_or_zero(rom, 10), byte_or_zero(rom, 11)],
        rom_crc: [
            byte_or_zero(rom, 12),
            byte_or_zero(rom, 13),
            byte_or_zero(rom, 14),
            byte_or_zero(rom, 15),
        ],
    }
}

/// Where the image starts in a file: after the header if there is one.
pub open spec fn image_offset(rom: Seq<u8>) -> int {
    if has_header(rom) {
        16
    } else {
        0
    }
}

/// The memory that a file gives: the image from address 0 on, zeros where
/// the image has ended.
pub open spec fn image_of(rom: Seq<u8>) -> Seq<u8> {
    Seq::new(0x10000, |k: int| byte_or_zero(rom, image_offset(rom) + k))
}

/// Byte `k` of a file, or zero past its end.
fn byte_at(rom: &[u8], k: usize) -> (r: u8)
    ensures
        r == byte_or_zero(rom@, k as int),
{
    if k < rom.len() {
        rom[k]
    } else {
        0
    }
}

/// Reads the header from the first sixteen bytes of a file.
pub fn read_header(rom: &[u8]) -> (r: ROMHeader)
    ensures
        r == header_of(rom@),
{
    let size: u32 = byte_at(rom, 6) as u32 + 0x100 * (byte_at(rom, 7) as u32) + 0x10000 * (byte_at(
        rom,
        8,
    ) as u32) + 0x1000000 * (byte_at(rom, 9) as u32);
    let r = ROMHeader {
        magic_number: [byte_at(rom, 0), byte_at(rom, 1), byte_at(rom, 2), byte_at(rom, 3)],
        reserved: byte_at(rom, 4),
        specification_version: byte_at(rom, 5),
        rom_size: size,
        start_address: [byte_at(rom, 10), byte_at(rom, 11)],
        rom_crc: [byte_at(rom, 12), byte_at(rom, 13), byte_at(rom, 14), byte_at(rom, 15)],
    };
    assert(r.magic_number =~= header_of(rom@).magic_number);
    assert(r.start_address =~= header_of(rom@).start_address);
    assert(r.rom_crc =~= header_of(rom@).rom_crc);
    r
}

/// Takes a ROM file apart: the header, if the file starts with `CH16`, and
/// the memory image, which follows the header or else is the whole file.
pub fn parse_rom(rom: &[u8]) -> (r: RomImage)
    ensures
        r.header == (if has_header(rom@) {
            Some(header_of(rom@))
        } else {
            None
        }),
        r.mem@ == image_of(rom@),
{
    let with_header: bool = rom.len() >= 4 && rom[0] == 0x43 && rom[1] == 0x48 && rom[2] == 0x31
        && rom[3] == 0x36;
    let offset: usize = if with_header {
        HEADER_SIZE
    } else {
        0
    };
    let available: usize = if rom.len() > offset {
        rom.len() - offset
    } else {
        0
    };
    let mut mem: [u8; 65536] = [0u8; 65536];
    let mut k: usize = 0;
    while k < 65536 && k < available
        invariant
            offset == image_offset(rom@),
            available == (if rom@.len() > offset {
                rom@.len() - offset
            } else {
                0
            }),
            k <= 65536,
            forall|j: int| 0 <= j < k ==> mem@[j] == byte_or_zero(rom@, offset + j),
            forall|j: int| k <= j < 65536 ==> mem@[j] == 0,
        decreases 65536 - k,
    {
        mem[k] = rom[offset + k];
        k = k + 1;
    }
    assert(mem@ =~= image_of(rom@));
    let header: Option<ROMHeader> = if with_header {
        Some(read_header(rom))
    } else {
        None
    };
    RomImage { header, mem }
}

} // verus!
