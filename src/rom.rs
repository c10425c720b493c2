use vstd::prelude::*;

use vstd::arithmetic::power::lemma_pow0;
use vstd::arithmetic::power2::{lemma_pow2, lemma_pow2_strictly_increases, lemma_pow2_unfold, pow2};

use crate::memory::ADDRESS_SPACE;
use crate::text::push_char;

verus! {

/// Offset of the cartridge-type byte.
pub const ROM_TYPE_BYTE_POS: usize = 0x0147;

/// Offset of the ROM-size byte.
pub const ROM_SIZE_BYTE_POS: usize = 0x0148;

/// Offset of the region byte.
pub const ROM_REGION_BYTE_POS: usize = 0x014A;

/// Offset of the version byte.
pub const ROM_VERSION_BYTE_POS: usize = 0x014C;

/// Offset of the stored header checksum.
pub const ROM_HEADER_CHECKSUM_POS: usize = 0x014D;

/// Offset of the title (up to 16 bytes).
pub const ROM_TITLE_POS: usize = 0x0134;

/// Bytes that an image must hold for its header to be present.
pub const ROM_HEADER_END: usize = 0x0150;

/// A cartridge image and the fields of its header.
pub struct ROM {
    pub name: String,
    /// Size in KiB.
    pub size: usize,
    pub data: Vec<u8>,
    pub cartridge_type: u8,
    pub region: &'static str,
    pub version: u8,
    /// The checksum computed over the header (compare with the byte at 0x014D).
    pub header_checksum: u8,
}

/// The header checksum of the bytes `0x0134 .. end`: starting from 0, each
/// byte and one more are subtracted, modulo 256.
pub open spec fn checksum_upto(data: Seq<u8>, end: int) -> u8
    decreases end,
{
    if end <= 0x0134 {
        0
    } else {
        ((checksum_upto(data, end - 1) - data[end - 1] - 1 + 512) % 256) as u8
    }
}

/// The header checksum over `0x0134 ..= 0x014C`.
pub open spec fn header_checksum_of(data: Seq<u8>) -> u8 {
    checksum_upto(data, 0x014D)
}

/// Bytes of the title: those before the first zero among the 16 at 0x0134.
pub open spec fn title_len(data: Seq<u8>, from: int) -> int
    decreases 16 - from,
{
    if from >= 16 || data[0x0134 + from] == 0 {
        from
    } else {
        title_len(data, from + 1)
    }
}

/// The title: the title bytes read as characters.
pub open spec fn title_of(data: Seq<u8>) -> Seq<char> {
    Seq::new(title_len(data, 0) as nat, |i: int| data[0x0134 + i] as char)
}

/// Size in KiB of a ROM whose size byte is `b`: 32 * 2^b, or the largest
/// `usize` where that does not fit.
pub open spec fn rom_size_kib(b: u8) -> usize {
    if 32 * pow2(b as nat) <= usize::MAX {
        (32 * pow2(b as nat)) as usize
    } else {
        usize::MAX
    }
}

/// The region name of a region byte.
pub open spec fn region_name(b: u8) -> Seq<char> {
    if b == 0 {
        "JAPAN"@
    } else if b == 1 {
        "WORLD"@
    } else {
        "UNKNOWN"@
    }
}

/// The name of a cartridge type, with a placeholder for bytes the table lacks.
pub open spec fn cartridge_type_name(b: u8) -> Seq<char> {
    if b == 0x00 {
        "ROM ONLY"@
    } else if b == 0x01 {
        "MBC1"@
    } else if b == 0x02 {
        "MBC1+RAM"@
    } else if b == 0x03 {
        "MBC1+RAM+BATTERY"@
    } else if b == 0x05 {
        "MBC2"@
    } else if b == 0x06 {
        "MBC2+BATTERY"@
    } else if b == 0x08 {
        "ROM+RAM"@
    } else if b == 0x09 {
        "ROM+RAM+BATTERY"@
    } else if b == 0x0B {
        "MMM01"@
    } else if b == 0x0C {
        "MMM01+RAM"@
    } else if b == 0x0D {
        "MMM01+RAM+BATTERY"@
    } else if b == 0x0F {
        "MBC3+TIMER+BATTERY"@
    } else if b == 0x10 {
        "MBC3+TIMER+RAM+BATTERY 10"@
    } else if b == 0x11 {
        "MBC3"@
    } else if b == 0x12 {
        "MBC3+RAM"@
    } else if b == 0x13 {
        "MBC3+RAM+BATTERY"@
    } else if b == 0x19 {
        "MBC5"@
    } else if b == 0x1A {
        "MBC5+RAM"@
    } else if b == 0x1B {
        "MBC5+RAM+BATTERY"@
    } else if b == 0x1C {
        "MBC5+RUMBLE"@
    } else if b == 0x1D {
        "MBC5+RUMBLE+RAM"@
    } else if b == 0x1E {
        "MBC5+RUMBLE+RAM+BATTERY"@
    } else if b == 0x20 {
        "MBC6"@
    } else if b == 0x22 {
        "MBC7+SENSOR+RUMBLE+RAM+BATTERY"@
    } else if b == 0xFC {
        "POCKET CAMERA"@
    } else if b == 0xFD {
        "BANDAI TAMA5"@
    } else if b == 0xFE {
        "HuC3"@
    } else if b == 0xFF {
        "HuC1+RAM+BATTERY"@
    } else {
        "UnkownType"@
    }
}

impl ROM {
    /// The header fields agree with the image, which fits the address space.
    pub open spec fn wf(&self) -> bool {
        &&& ROM_HEADER_END <= self.data@.len() <= ADDRESS_SPACE
        &&& self.name@ == title_of(self.data@)
        &&& self.size == rom_size_kib(self.data@[ROM_SIZE_BYTE_POS as int])
        &&& self.cartridge_type == self.data@[ROM_TYPE_BYTE_POS as int]
        &&& self.region@ == region_name(self.data@[ROM_REGION_BYTE_POS as int])
        &&& self.version == self.data@[ROM_VERSION_BYTE_POS as int]
        &&& self.header_checksum == header_checksum_of(self.data@)
    }

    /// A placeholder ROM: no name, no size, a zeroed image, no region.
    pub fn new() -> (r: Self)
        ensures
            r.name@ == "UNKNOWN"@,
            r.size == 0,
            r.data@ == Seq::new(0xFFFF, |i: int| 0u8),
            r.cartridge_type == 0,
            r.region@ == "NOWHERE"@,
            r.version == 0,
            r.header_checksum == 0,
    {
        let mut data: Vec<u8> = Vec::new();
        let mut i: usize = 0;
        while i < 0xFFFF
            invariant
                i <= 0xFFFF,
                data@ == Seq::new(i as nat, |j: int| 0u8),
            decreases 0xFFFF - i,
        {
            data.push(0u8);
            i = i + 1;
        }
        ROM {
            name: "UNKNOWN".to_owned(),
            size: 0,
            data,
            cartridge_type: 0,
            region: "NOWHERE",
            version: 0,
            header_checksum: 0,
        }
    }

    /// Reads a cartridge image: its first 64 KiB become `data` and the header
    /// fields are taken from them. `None` when the image is too short to hold
    /// the header.
    pub fn parse(file: &Vec<u8>) -> (r: Option<Self>)
        ensures
            r is None <==> file@.len() < ROM_HEADER_END,
            r matches Some(rom) ==> rom.wf() && rom.data@ == file@.take(
                if file@.len() < ADDRESS_SPACE {
                    file@.len() as int
                } else {
                    ADDRESS_SPACE as int
                },
            ),
    {
        if file.len() < ROM_HEADER_END {
            return None;
        }
        let n: usize = if file.len() < ADDRESS_SPACE {
            file.len()
        } else {
            ADDRESS_SPACE
        };
        let mut buffer: Vec<u8> = Vec::new();
        let mut i: usize = 0;
        while i < n
            invariant
                i <= n <= file@.len(),
                buffer@ == file@.take(i as int),
            decreases n - i,
        {
            buffer.push(file[i]);
            i = i + 1;
            assert(buffer@ =~= file@.take(i as int));
        }
        Some(
            ROM {
                name: ROM::get_rom_name(&buffer),
                size: ROM::get_rom_size(buffer[ROM_SIZE_BYTE_POS]),
                cartridge_type: buffer[ROM_TYPE_BYTE_POS],
                region: ROM::get_region(buffer[ROM_REGION_BYTE_POS]),
                version: buffer[ROM_VERSION_BYTE_POS],
                header_checksum: ROM::get_header_checksum(&buffer),
                data: buffer,
            },
        )
    }

    /// The header checksum over `0x0134 ..= 0x014C`.
    pub fn get_header_checksum(data: &Vec<u8>) -> (r: u8)
        requires
            data@.len() >= ROM_HEADER_CHECKSUM_POS,
        ensures
            r == header_checksum_of(data@),
    {
        let mut checksum: u8 = 0;
        let mut address: usize = 0x0134;
        while address <= 0x014C
            invariant
                0x0134 <= address <= 0x014D,
                data@.len() >= ROM_HEADER_CHECKSUM_POS,
                checksum == checksum_upto(data@, address as int),
            decreases 0x014D - address,
        {
            checksum = checksum.wrapping_sub(data[address]).wrapping_sub(1);
            address = address + 1;
        }
        checksum
    }

    /// The region name of a region byte: 0 JAPAN, 1 WORLD, else UNKNOWN.
    pub fn get_region(region_byte: u8) -> (r: &'static str)
        ensures
            r@ == region_name(region_byte),
    {
        match region_byte {
            0x00 => "JAPAN",
            0x01 => "WORLD",
            _ => "UNKNOWN",
        }
    }

    /// Size in KiB for a size byte: 32 * 2^size_byte, saturating at the
    /// largest `usize`.
    pub fn get_rom_size(size_byte: u8) -> (r: usize)
        ensures
            r == rom_size_kib(size_byte),
    {
        let mut size: usize = 32;
        let mut i: u8 = 0;
        proof {
            lemma_pow2(0);
            lemma_pow0(2);
        }
        while i < size_byte
            invariant
                i <= size_byte,
                size == 32 * pow2(i as nat),
            decreases size_byte - i,
        {
            proof {
                lemma_pow2_unfold((i + 1) as nat);
            }
            if size > usize::MAX / 2 {
                proof {
                    if i + 1 < size_byte {
                        lemma_pow2_strictly_increases((i + 1) as nat, size_byte as nat);
                    }
                }
                return usize::MAX;
            }
            size = size * 2;
            i = i + 1;
        }
        size
    }

    /// The human-readable name of a cartridge type byte; a placeholder for
    /// bytes outside the table.
    pub fn get_cartridge_type_name(type_byte: u8) -> (r: &'static str)
        ensures
            r@ == cartridge_type_name(type_byte),
    {
        match type_byte {
            0x00 => "ROM ONLY",
            0x01 => "MBC1",
            0x02 => "MBC1+RAM",
            0x03 => "MBC1+RAM+BATTERY",
            0x05 => "MBC2",
            0x06 => "MBC2+BATTERY",
            0x08 => "ROM+RAM",
            0x09 => "ROM+RAM+BATTERY",
            0x0B => "MMM01",
            0x0C => "MMM01+RAM",
            0x0D => "MMM01+RAM+BATTERY",
            0x0F => "MBC3+TIMER+BATTERY",
            0x10 => "MBC3+TIMER+RAM+BATTERY 10",
            0x11 => "MBC3",
            0x12 => "MBC3+RAM",
            0x13 => "MBC3+RAM+BATTERY",
            0x19 => "MBC5",
            0x1A => "MBC5+RAM",
            0x1B => "MBC5+RAM+BATTERY",
            0x1C => "MBC5+RUMBLE",
            0x1D => "MBC5+RUMBLE+RAM",
            0x1E => "MBC5+RUMBLE+RAM+BATTERY",
            0x20 => "MBC6",
            0x22 => "MBC7+SENSOR+RUMBLE+RAM+BATTERY",
            0xFC => "POCKET CAMERA",
            0xFD => "BANDAI TAMA5",
            0xFE => "HuC3",
            0xFF => "HuC1+RAM+BATTERY",
            _ => "UnkownType",
        }
    }

    /// The title: the bytes at 0x0134 up to the first zero, at most 16.
    pub fn get_rom_name(data: &Vec<u8>) -> (r: String)
        requires
            data@.len() >= ROM_TITLE_POS + 16,
        ensures
            r@ == title_of(data@),
    {
        let mut name_buffer = String::new();
        let mut i: usize = 0;
        while i < 16
            invariant
                i <= 16,
                data@.len() >= ROM_TITLE_POS + 16,
                title_len(data@, 0) == title_len(data@, i as int),
                name_buffer@ == Seq::new(i as nat, |k: int| data@[0x0134 + k] as char),
            ensures
                title_len(data@, 0) == i,
                name_buffer@ == Seq::new(i as nat, |k: int| data@[0x0134 + k] as char),
            decreases 16 - i,
        {
            let char_byte = data[i + ROM_TITLE_POS];
            if char_byte == 0 {
                break;
            }
            push_char(&mut name_buffer, char_byte as char);
            i = i + 1;
            assert(name_buffer@ =~= Seq::new(i as nat, |k: int| data@[0x0134 + k] as char));
        }
        name_buffer
    }
}

} // verus!
