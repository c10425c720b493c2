use vstd::prelude::*;

use crate::gpu::{TilePixelValue, GPU, TILESET_SIZE, TILE_COUNT};

verus! {

/// Integer scale from Game Boy pixels to framebuffer pixels.
pub const SCREEN_MAGNIFIER: usize = 3;

/// Framebuffer width: 160 display pixels, magnified.
pub const SCREEN_WIDTH: usize = 480;

/// Framebuffer height: 144 display pixels, magnified.
pub const SCREEN_HEIGHT: usize = 432;

/// Pixels in the framebuffer.
pub const FRAMEBUFFER_SIZE: usize = 207360;

/// The RGB value of a shade.
pub open spec fn shade_rgb(p: TilePixelValue) -> u32 {
    match p {
        TilePixelValue::White => 0xFFFFFF,
        TilePixelValue::LightGray => 0xAAAAAA,
        TilePixelValue::DarkGray => 0x555555,
        TilePixelValue::Black => 0x000000,
    }
}

/// The shade of display pixel (x, y) of the 160x144 screen laid out as a
/// 20x18 grid of cached tiles, tile `(ty * 20 + tx) mod 384` at grid cell (tx, ty).
pub open spec fn screen_pixel(tileset: Seq<TilePixelValue>, x: int, y: int) -> TilePixelValue {
    let tile = ((y / 8) * 20 + x / 8) % (TILE_COUNT as int);
    tileset[tile * 64 + (y % 8) * 8 + x % 8]
}

/// The colour of framebuffer pixel `i` (row-major, `SCREEN_WIDTH` wide), each
/// display pixel magnified into a square of `SCREEN_MAGNIFIER` pixels a side.
pub open spec fn frame_color(tileset: Seq<TilePixelValue>, i: int) -> u32 {
    shade_rgb(
        screen_pixel(
            tileset,
            (i % SCREEN_WIDTH as int) / SCREEN_MAGNIFIER as int,
            (i / SCREEN_WIDTH as int) / SCREEN_MAGNIFIER as int,
        ),
    )
}

/// Paints the tile cache into the framebuffer.
pub fn draw_vram_to_framebuffer(gpu: &GPU, framebuffer: &mut Vec<u32>)
    requires
        gpu.tileset@.len() == TILESET_SIZE,
        old(framebuffer)@.len() == FRAMEBUFFER_SIZE,
    ensures
        final(framebuffer)@ == Seq::new(
            FRAMEBUFFER_SIZE as nat,
            |i: int| frame_color(gpu.tileset@, i),
        ),
{
    let mut i: usize = 0;
    while i < FRAMEBUFFER_SIZE
        invariant
            i <= FRAMEBUFFER_SIZE,
            gpu.tileset@.len() == TILESET_SIZE,
            framebuffer@.len() == FRAMEBUFFER_SIZE,
            forall|j: int| 0 <= j < i ==> #[trigger] framebuffer@[j] == frame_color(gpu.tileset@, j),
        decreases FRAMEBUFFER_SIZE - i,
    {
        let x = (i % SCREEN_WIDTH) / SCREEN_MAGNIFIER;
        let y = (i / SCREEN_WIDTH) / SCREEN_MAGNIFIER;
        let tile = ((y / 8) * 20 + x / 8) % TILE_COUNT;
        let pixel = gpu.tileset[tile * 64 + (y % 8) * 8 + x % 8];
        let color: u32 = match pixel {
            TilePixelValue::Black => 0x000000,
            TilePixelValue::DarkGray => 0x555555,
            TilePixelValue::LightGray => 0xAAAAAA,
            TilePixelValue::White => 0xFFFFFF,
        };
        framebuffer.set(i, color);
        i = i + 1;
    }
    assert(framebuffer@ =~= Seq::new(FRAMEBUFFER_SIZE as nat, |i: int| frame_color(gpu.tileset@, i)));
}

} // verus!
