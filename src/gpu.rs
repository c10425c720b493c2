use vstd::prelude::*;

use crate::text::push_char;

verus! {

/// First bus address of video memory.
pub const VRAM_START: usize = 0x8000;

/// Bus address at which the window of video memory seen through the bus ends
/// (exclusive).
pub const VRAM_END: usize = 0x97FF;

/// Bytes of video memory, addressed locally from zero.
pub const VRAM_SIZE: usize = 0x2000;

/// Bytes of video memory that hold tile data.
pub const TILE_DATA_SIZE: usize = 0x1800;

/// Decoded tiles kept in the tile cache.
pub const TILE_COUNT: usize = 384;

/// Pixels in the tile cache: 64 per tile.
pub const TILESET_SIZE: usize = 24576;

/// The four shades of a pixel, lightest to darkest: (msb, lsb) = (0,0), (0,1),
/// (1,0), (1,1).
#[derive(Clone, Copy, Debug, PartialEq, Eq, Structural)]
pub enum TilePixelValue {
    White,
    Black,
    LightGray,
    DarkGray,
}

/// An 8x8 tile, its 64 pixels row by row, left to right.
pub struct Tile {
    pub pixels: Vec<TilePixelValue>,
}

impl View for Tile {
    type V = Seq<TilePixelValue>;

    open spec fn view(&self) -> Seq<TilePixelValue> {
        self.pixels@
    }
}

impl Tile {
    /// The pixel at row `row`, column `col` (0 is the top-left corner).
    pub fn pixel(&self, row: usize, col: usize) -> (r: TilePixelValue)
        requires
            self@.len() == 64,
            row < 8,
            col < 8,
        ensures
            r == self@[row * 8 + col],
    {
        self.pixels[row * 8 + col]
    }
}

/// The shade of a pixel whose high plane bit is `msb` and low plane bit is `lsb`.
pub open spec fn shade(msb: bool, lsb: bool) -> TilePixelValue {
    if msb {
        if lsb {
            TilePixelValue::Black
        } else {
            TilePixelValue::DarkGray
        }
    } else {
        if lsb {
            TilePixelValue::LightGray
        } else {
            TilePixelValue::White
        }
    }
}

/// The plane bit of pixel column `col` (0 is the leftmost) in a row byte.
pub open spec fn bit_at(b: u8, col: int) -> bool {
    b & (1u8 << ((7 - col) as u8)) != 0u8
}

/// Pixel column `col` of the row whose low plane is `lo` and high plane `hi`.
pub open spec fn decode_pixel(lo: u8, hi: u8, col: int) -> TilePixelValue {
    shade(bit_at(hi, col), bit_at(lo, col))
}

/// Pixel `i` of a run of tile data (64 pixels per 16 bytes): row `i / 8`
/// is the byte pair at `2 * (i / 8)`, column `i % 8`.
pub open spec fn pixel_of(data: Seq<u8>, i: int) -> TilePixelValue {
    decode_pixel(data[2 * (i / 8)], data[2 * (i / 8) + 1], i % 8)
}

/// The 64 pixels of the tile whose 16 bytes start `data`.
pub open spec fn tile_pixels(data: Seq<u8>) -> Seq<TilePixelValue> {
    Seq::new(64, |i: int| pixel_of(data, i))
}

/// The whole tile cache computed from scratch: every tile of the tile-data
/// region, tile `t` at pixels `64 * t .. 64 * t + 64`.
pub open spec fn decode_all(vram: Seq<u8>) -> Seq<TilePixelValue> {
    Seq::new(TILESET_SIZE as nat, |i: int| pixel_of(vram, i))
}

/// The VRAM offset of tile `index` (0..=255) under the 0x8000 addressing mode
/// (unsigned from the start of VRAM) or the 0x8800 mode (signed from 0x9000).
pub open spec fn tile_offset(index: int, unsigned_mode: bool) -> int {
    if unsigned_mode {
        index * 16
    } else if index < 128 {
        0x1000 + index * 16
    } else {
        0x1000 + (index - 256) * 16
    }
}

/// The character that shows a shade in a text picture of a tile.
pub open spec fn shade_char(p: TilePixelValue) -> char {
    match p {
        TilePixelValue::Black => '\u{2588}',
        TilePixelValue::DarkGray => '\u{2592}',
        TilePixelValue::LightGray => '\u{2591}',
        TilePixelValue::White => ' ',
    }
}

/// The text picture of the first `rows` rows of a tile: each row's eight
/// characters followed by a newline.
pub open spec fn tile_text(pixels: Seq<TilePixelValue>, rows: nat) -> Seq<char>
    decreases rows,
{
    if rows == 0 {
        Seq::empty()
    } else {
        tile_text(pixels, (rows - 1) as nat) + Seq::new(8, |c: int| shade_char(pixels[(rows - 1) * 8 + c])).push('\n')
    }
}

/// Video memory and the cache of decoded tiles that mirrors its tile-data region.
pub struct GPU {
    pub vram: Vec<u8>,
    /// Tile `t`, row `r`, column `c` at `64 * t + 8 * r + c`.
    pub tileset: Vec<TilePixelValue>,
}

impl GPU {
    /// VRAM has its full size and the cache equals the tiles decoded from it.
    pub open spec fn wf(&self) -> bool {
        &&& self.vram@.len() == VRAM_SIZE
        &&& self.tileset@ == decode_all(self.vram@)
    }

    /// Zeroed VRAM; every cached pixel is White.
    pub fn new() -> (r: Self)
        ensures
            r.wf(),
            r.vram@ == Seq::new(VRAM_SIZE as nat, |i: int| 0u8),
    {
        let mut vram: Vec<u8> = Vec::new();
        let mut i: usize = 0;
        while i < VRAM_SIZE
            invariant
                i <= VRAM_SIZE,
                vram@ == Seq::new(i as nat, |j: int| 0u8),
            decreases VRAM_SIZE - i,
        {
            vram.push(0u8);
            i = i + 1;
        }
        let mut tileset: Vec<TilePixelValue> = Vec::new();
        let mut k: usize = 0;
        while k < TILESET_SIZE
            invariant
                k <= TILESET_SIZE,
                vram@ == Seq::new(VRAM_SIZE as nat, |j: int| 0u8),
                tileset@ == decode_all(vram@).take(k as int),
            decreases TILESET_SIZE - k,
        {
            proof {
                let c = (k % 8) as u8;
                assert(0u8 & (1u8 << (7u8 - c) as u8) == 0u8) by (bit_vector);
                assert(decode_all(vram@).take(k + 1) =~= decode_all(vram@).take(k as int).push(
                    TilePixelValue::White,
                ));
            }
            tileset.push(TilePixelValue::White);
            k = k + 1;
        }
        proof {
            assert(decode_all(vram@).take(TILESET_SIZE as int) =~= decode_all(vram@));
        }
        GPU { vram, tileset }
    }

    /// The decoded tile of index `tile_index` (0..=255) under the 0x8000
    /// addressing mode when `area_method` holds, else under the 0x8800 mode.
    pub fn get_tile(&self, tile_index: usize, area_method: bool) -> (r: Tile)
        requires
            self.wf(),
            tile_index <= 255,
        ensures
            r@ == tile_pixels(
                self.vram@.subrange(
                    tile_offset(tile_index as int, area_method),
                    tile_offset(tile_index as int, area_method) + 16,
                ),
            ),
    {
        let vram_index: usize = if area_method {
            tile_index * 16
        } else if tile_index <= 127 {
            0x1000 + tile_index * 16
        } else {
            0x0800 + (tile_index - 128) * 16
        };
        let mut tile_bytes: Vec<u8> = Vec::new();
        let mut i: usize = 0;
        while i < 16
            invariant
                i <= 16,
                vram_index <= 0x1FF0,
                vram_index + 16 <= self.vram@.len(),
                tile_bytes@ == self.vram@.subrange(vram_index as int, vram_index + i),
            decreases 16 - i,
        {
            tile_bytes.push(self.vram[vram_index + i]);
            i = i + 1;
            assert(tile_bytes@ =~= self.vram@.subrange(vram_index as int, vram_index + i));
        }
        tile_from_bytes(tile_bytes)
    }

    /// The byte at a local VRAM offset.
    pub fn vram_read_byte(&self, addr: usize) -> (r: u8)
        requires
            self.wf(),
            addr < VRAM_SIZE,
        ensures
            r == self.vram@[addr as int],
    {
        self.vram[addr]
    }

    /// Stores a byte at a local VRAM offset and, inside the tile-data region,
    /// re-decodes the one tile row that the byte belongs to.
    pub fn vram_write_byte(&mut self, index: usize, value: u8)
        requires
            old(self).wf(),
            index < VRAM_SIZE,
        ensures
            final(self).wf(),
            final(self).vram@ == old(self).vram@.update(index as int, value),
    {
        let ghost old_vram = self.vram@;
        self.vram.set(index, value);
        let ghost new_vram = self.vram@;
        assert forall|i: int| 0 <= i < TILESET_SIZE && i / 8 != index / 2 implies pixel_of(
            new_vram,
            i,
        ) == pixel_of(old_vram, i) by {
            assert(2 * (i / 8) != index && 2 * (i / 8) + 1 != index);
        }
        if index >= TILE_DATA_SIZE {
            assert(self.tileset@ =~= decode_all(new_vram));
            return ;
        }
        let base: usize = index - index % 2;
        let byte1 = self.vram[base];
        let byte2 = self.vram[base + 1];
        let tile_index: usize = index / 16;
        let row_index: usize = (index % 16) / 2;
        let row_start: usize = tile_index * 64 + row_index * 8;
        assert(row_start == (index / 2) * 8);
        let mut pixel_index: usize = 0;
        while pixel_index < 8
            invariant
                pixel_index <= 8,
                row_start == (index / 2) * 8,
                index < TILE_DATA_SIZE,
                base == 2 * (index / 2),
                byte1 == new_vram[base as int],
                byte2 == new_vram[base + 1],
                self.vram@ == new_vram,
                new_vram.len() == VRAM_SIZE,
                self.tileset@.len() == TILESET_SIZE,
                forall|i: int|
                    0 <= i < TILESET_SIZE && !(row_start + pixel_index <= i < row_start + 8)
                        ==> #[trigger] self.tileset@[i] == pixel_of(new_vram, i),
            decreases 8 - pixel_index,
        {
            let pixel_value = pixel_from_planes(byte1, byte2, pixel_index);
            self.tileset.set(row_start + pixel_index, pixel_value);
            pixel_index = pixel_index + 1;
        }
        assert(self.tileset@ =~= decode_all(new_vram));
    }
}

/// The shade of pixel column `col` of the row whose low plane is `lo` and
/// high plane `hi`.
fn pixel_from_planes(lo: u8, hi: u8, col: usize) -> (r: TilePixelValue)
    requires
        col < 8,
    ensures
        r == decode_pixel(lo, hi, col as int),
{
    let mask: u8 = 1u8 << ((7 - col) as u8);
    let lsb = lo & mask;
    let msb = hi & mask;
    match (msb != 0, lsb != 0) {
        (true, true) => TilePixelValue::Black,
        (true, false) => TilePixelValue::DarkGray,
        (false, true) => TilePixelValue::LightGray,
        (false, false) => TilePixelValue::White,
    }
}

/// Decodes the 16 bytes of one tile (two per row, low plane first).
pub fn tile_from_bytes(tile_bytes: Vec<u8>) -> (r: Tile)
    requires
        tile_bytes@.len() >= 16,
    ensures
        r@ == tile_pixels(tile_bytes@),
{
    let mut pixels: Vec<TilePixelValue> = Vec::new();
    let mut i: usize = 0;
    while i < 64
        invariant
            i <= 64,
            tile_bytes@.len() >= 16,
            pixels@ == tile_pixels(tile_bytes@).take(i as int),
        decreases 64 - i,
    {
        let row: usize = i / 8;
        let byte1 = tile_bytes[2 * row];
        let byte2 = tile_bytes[2 * row + 1];
        let p = pixel_from_planes(byte1, byte2, i % 8);
        pixels.push(p);
        assert(pixels@ =~= tile_pixels(tile_bytes@).take(i + 1));
        i = i + 1;
    }
    assert(pixels@ =~= tile_pixels(tile_bytes@));
    Tile { pixels }
}

/// A text picture of a tile: one line of eight shade characters per row.
pub fn tile_to_string(tile_data: &Tile) -> (r: String)
    requires
        tile_data@.len() == 64,
    ensures
        r@ == tile_text(tile_data@, 8),
{
    let mut s = String::new();
    let mut ty: usize = 0;
    while ty < 8
        invariant
            ty <= 8,
            tile_data@.len() == 64,
            s@ == tile_text(tile_data@, ty as nat),
        decreases 8 - ty,
    {
        let ghost before = s@;
        let mut tx: usize = 0;
        while tx < 8
            invariant
                ty < 8,
                tx <= 8,
                tile_data@.len() == 64,
                s@ == before + Seq::new(tx as nat, |c: int| shade_char(tile_data@[ty * 8 + c])),
            decreases 8 - tx,
        {
            let c = match tile_data.pixels[ty * 8 + tx] {
                TilePixelValue::Black => '\u{2588}',
                TilePixelValue::DarkGray => '\u{2592}',
                TilePixelValue::LightGray => '\u{2591}',
                TilePixelValue::White => ' ',
            };
            push_char(&mut s, c);
            tx = tx + 1;
            assert(s@ =~= before + Seq::new(tx as nat, |c: int| shade_char(tile_data@[ty * 8 + c])));
        }
        push_char(&mut s, '\n');
        ty = ty + 1;
        assert(s@ =~= tile_text(tile_data@, ty as nat));
    }
    s
}

/// The tile cache always equals the tiles decoded from scratch out of VRAM,
/// whatever sequence of writes led to the current state.
pub proof fn lemma_tile_cache_coherent(gpu: &GPU)
    requires
        gpu.wf(),
    ensures
        gpu.tileset@ == decode_all(gpu.vram@),
        forall|t: int, r: int, c: int|
            0 <= t < TILE_COUNT && 0 <= r < 8 && 0 <= c < 8 ==> #[trigger] gpu.tileset@[64 * t + 8 * r
                + c] == decode_pixel(gpu.vram@[16 * t + 2 * r], gpu.vram@[16 * t + 2 * r + 1], c),
{
    assert forall|t: int, r: int, c: int|
        0 <= t < TILE_COUNT && 0 <= r < 8 && 0 <= c < 8 implies #[trigger] gpu.tileset@[64 * t + 8
        * r + c] == decode_pixel(gpu.vram@[16 * t + 2 * r], gpu.vram@[16 * t + 2 * r + 1], c) by {
        let i = 64 * t + 8 * r + c;
        assert(i / 8 == 8 * t + r && i % 8 == c) by (nonlinear_arith)
            requires
                i == 64 * t + 8 * r + c,
                0 <= r < 8,
                0 <= c < 8,
        ;
    }
}

/// The low plane bit of a shade.
pub open spec fn lsb_of(p: TilePixelValue) -> bool {
    p is LightGray || p is Black
}

/// The high plane bit of a shade.
pub open spec fn msb_of(p: TilePixelValue) -> bool {
    p is DarkGray || p is Black
}

/// The byte whose bit `7 - c` is set exactly for the columns `c` where `f` holds.
pub open spec fn pack_bits(f: spec_fn(int) -> bool) -> u8 {
    (if f(0) { 0x80u8 } else { 0u8 }) | (if f(1) { 0x40u8 } else { 0u8 }) | (if f(2) { 0x20u8 } else {
        0u8
    }) | (if f(3) { 0x10u8 } else { 0u8 }) | (if f(4) { 0x08u8 } else { 0u8 }) | (if f(5) {
        0x04u8
    } else {
        0u8
    }) | (if f(6) { 0x02u8 } else { 0u8 }) | (if f(7) { 0x01u8 } else { 0u8 })
}

/// The two plane bytes (low, high) of a row of eight pixels.
pub open spec fn encode_row(row: Seq<TilePixelValue>) -> (u8, u8) {
    (pack_bits(|c: int| lsb_of(row[c])), pack_bits(|c: int| msb_of(row[c])))
}

/// Reading back column `c` of a packed byte gives the flag it was packed from.
proof fn lemma_bit_at_pack(f: spec_fn(int) -> bool)
    ensures
        forall|c: int| 0 <= c < 8 ==> #[trigger] bit_at(pack_bits(f), c) == f(c),
{
    let (b0, b1, b2, b3, b4, b5, b6, b7) = (f(0), f(1), f(2), f(3), f(4), f(5), f(6), f(7));
    let x = pack_bits(f);
    assert(x == (if b0 { 0x80u8 } else { 0u8 }) | (if b1 { 0x40u8 } else { 0u8 }) | (if b2 {
        0x20u8
    } else {
        0u8
    }) | (if b3 { 0x10u8 } else { 0u8 }) | (if b4 { 0x08u8 } else { 0u8 }) | (if b5 { 0x04u8 } else {
        0u8
    }) | (if b6 { 0x02u8 } else { 0u8 }) | (if b7 { 0x01u8 } else { 0u8 }));
    assert({
        &&& (x & (1u8 << 7u8) != 0u8) == b0
        &&& (x & (1u8 << 6u8) != 0u8) == b1
        &&& (x & (1u8 << 5u8) != 0u8) == b2
        &&& (x & (1u8 << 4u8) != 0u8) == b3
        &&& (x & (1u8 << 3u8) != 0u8) == b4
        &&& (x & (1u8 << 2u8) != 0u8) == b5
        &&& (x & (1u8 << 1u8) != 0u8) == b6
        &&& (x & (1u8 << 0u8) != 0u8) == b7
    }) by (bit_vector)
        requires
            x == (if b0 { 0x80u8 } else { 0u8 }) | (if b1 { 0x40u8 } else { 0u8 }) | (if b2 {
                0x20u8
            } else {
                0u8
            }) | (if b3 { 0x10u8 } else { 0u8 }) | (if b4 { 0x08u8 } else { 0u8 }) | (if b5 {
                0x04u8
            } else {
                0u8
            }) | (if b6 { 0x02u8 } else { 0u8 }) | (if b7 { 0x01u8 } else { 0u8 }),
    ;
    assert forall|c: int| 0 <= c < 8 implies #[trigger] bit_at(pack_bits(f), c) == f(c) by {
        if c == 0 {
        } else if c == 1 {
        } else if c == 2 {
        } else if c == 3 {
        } else if c == 4 {
        } else if c == 5 {
        } else if c == 6 {
        } else {
        }
    }
}

/// Packing the column bits of a byte gives the byte back.
proof fn lemma_pack_bit_at(b: u8)
    ensures
        pack_bits(|c: int| bit_at(b, c)) == b,
{
    assert(b == (if b & (1u8 << 7u8) != 0u8 { 0x80u8 } else { 0u8 }) | (if b & (1u8 << 6u8) != 0u8 {
        0x40u8
    } else {
        0u8
    }) | (if b & (1u8 << 5u8) != 0u8 { 0x20u8 } else { 0u8 }) | (if b & (1u8 << 4u8) != 0u8 {
        0x10u8
    } else {
        0u8
    }) | (if b & (1u8 << 3u8) != 0u8 { 0x08u8 } else { 0u8 }) | (if b & (1u8 << 2u8) != 0u8 {
        0x04u8
    } else {
        0u8
    }) | (if b & (1u8 << 1u8) != 0u8 { 0x02u8 } else { 0u8 }) | (if b & (1u8 << 0u8) != 0u8 {
        0x01u8
    } else {
        0u8
    })) by (bit_vector);
}

/// Encoding a row of eight pixels into its two plane bytes and decoding them
/// gives every pixel back.
pub proof fn lemma_row_encode_decode(row: Seq<TilePixelValue>)
    requires
        row.len() == 8,
    ensures
        forall|c: int|
            0 <= c < 8 ==> #[trigger] decode_pixel(encode_row(row).0, encode_row(row).1, c) == row[c],
{
    lemma_bit_at_pack(|c: int| lsb_of(row[c]));
    lemma_bit_at_pack(|c: int| msb_of(row[c]));
}

/// Decoding a byte pair into eight pixels and encoding them gives the pair back.
pub proof fn lemma_row_decode_encode(lo: u8, hi: u8)
    ensures
        encode_row(Seq::new(8, |c: int| decode_pixel(lo, hi, c))) == (lo, hi),
{
    let row = Seq::new(8, |c: int| decode_pixel(lo, hi, c));
    lemma_pack_bit_at(lo);
    lemma_pack_bit_at(hi);
    assert(pack_bits(|c: int| lsb_of(row[c])) == pack_bits(|c: int| bit_at(lo, c)));
    assert(pack_bits(|c: int| msb_of(row[c])) == pack_bits(|c: int| bit_at(hi, c)));
}

} // verus!
