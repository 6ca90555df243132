//! The display: a 320x240 framebuffer of palette indices, the sprite
//! blitter that draws into it, and the sixteen-colour palette.
//!
//! A sprite is a bitmap of packed nibbles in memory, `spritew` bytes wide
//! and `spriteh` rows high. Each byte holds two pixels, the left one in its
//! high nibble. Index 0 is transparent.

use vstd::prelude::*;

verus! {

/// Width of the screen in pixels.
pub const SCREEN_SIZE_X: u16 = 320;

/// Height of the screen in pixels.
pub const SCREEN_SIZE_Y: u16 = 240;

/// Number of pixels of the screen, one byte each.
pub const SCREEN_BUF_SIZE: usize = 76800;

/// The drawing state: background colour, sprite size and mirroring.
#[derive(Clone, Copy, Debug, PartialEq, Eq, Structural)]
pub struct GPU {
    /// Palette index of the background.
    pub bg: u8,
    /// Sprite width in bytes, two pixels each.
    pub spritew: u8,
    /// Sprite height in rows.
    pub spriteh: u8,
    /// Mirror sprites left to right.
    pub hflip: bool,
    /// Mirror sprites top to bottom.
    pub vflip: bool,
}

/// The palette at power-on.
pub open spec fn default_palette() -> Seq<u32> {
    seq![
        0x000000u32,
        0x000000u32,
        0x888888u32,
        0xBF3232u32,
        0xDE7AAEu32,
        0x4C3D21u32,
        0x905F25u32,
        0xE49452u32,
        0xEAD979u32,
        0x537A3Bu32,
        0xABD54Au32,
        0x252E38u32,
        0x00467Fu32,
        0x68ABCCu32,
        0xBCDEE4u32,
        0xFFFFFFu32,
    ]
}

/// Whether `(x, y)` is a position on the screen.
pub open spec fn on_screen(x: int, y: int) -> bool {
    0 <= x < 320 && 0 <= y < 240
}

/// The palette index that a sprite shows at row `r` and pixel column `px`,
/// counted on the screen from the sprite's origin: mirroring is applied
/// here. A horizontal flip reverses the bytes of a row and the two pixels
/// within each byte. Sprite addresses wrap at the end of memory.
pub open spec fn sprite_pixel(mem: Seq<u8>, gpu: GPU, addr: u16, r: int, px: int) -> u8 {
    let c = px / 2;
    let row = if gpu.vflip {
        gpu.spriteh - 1 - r
    } else {
        r
    };
    let col = if gpu.hflip {
        gpu.spritew - 1 - c
    } else {
        c
    };
    let byte = mem[(addr + row * gpu.spritew + col) % 0x10000];
    if (px % 2 == 0) != gpu.hflip {
        byte / 16
    } else {
        byte % 16
    }
}

/// The sprite pixel that a draw at origin `(x0, y0)` puts over screen
/// position `(x, y)`: zero where the sprite does not reach or is
/// transparent.
pub open spec fn sprite_over(
    mem: Seq<u8>,
    gpu: GPU,
    x0: i16,
    y0: i16,
    addr: u16,
    x: int,
    y: int,
) -> u8 {
    let r = y - y0;
    let px = x - x0;
    if 0 <= r < gpu.spriteh && 0 <= px < 2 * gpu.spritew {
        sprite_pixel(mem, gpu, addr, r, px)
    } else {
        0
    }
}

/// The screen after a sprite was drawn: every opaque sprite pixel that
/// falls on the screen replaces what was there; all else stays. Clipping
/// is pixel by pixel.
pub open spec fn drawn_screen(
    screen: Seq<u8>,
    mem: Seq<u8>,
    gpu: GPU,
    x0: i16,
    y0: i16,
    addr: u16,
) -> Seq<u8> {
    Seq::new(
        76800,
        |i: int|
            if sprite_over(mem, gpu, x0, y0, addr, i % 320, i / 320) != 0 {
                sprite_over(mem, gpu, x0, y0, addr, i % 320, i / 320)
            } else {
                screen[i]
            },
    )
}

/// Whether screen position `i` is one where a draw puts an opaque pixel
/// over a pixel that was already set.
pub open spec fn collides_at(
    screen: Seq<u8>,
    mem: Seq<u8>,
    gpu: GPU,
    x0: i16,
    y0: i16,
    addr: u16,
    i: int,
) -> bool {
    0 <= i < 76800 && sprite_over(mem, gpu, x0, y0, addr, i % 320, i / 320) != 0 && screen[i] != 0
}

/// Whether a draw overwrites at least one pixel that was already set.
pub open spec fn collides(
    screen: Seq<u8>,
    mem: Seq<u8>,
    gpu: GPU,
    x0: i16,
    y0: i16,
    addr: u16,
) -> bool {
    exists|i: int| collides_at(screen, mem, gpu, x0, y0, addr, i)
}

/// The colour that three bytes of memory from `addr` on encode, in the
/// order red, green, blue. Addresses wrap at the end of memory.
pub open spec fn colour_at(mem: Seq<u8>, addr: int) -> u32 {
    (0x10000 * mem[addr % 0x10000] + 0x100 * mem[(addr + 1) % 0x10000] + mem[(addr + 2)
        % 0x10000]) as u32
}

/// The palette that the 48 bytes of memory from `addr` on encode.
pub open spec fn palette_at(mem: Seq<u8>, addr: int) -> Seq<u32> {
    Seq::new(16, |i: int| colour_at(mem, addr + 3 * i))
}

/// The red, green and blue parts of a colour `0xRRGGBB`.
pub open spec fn rgb_of(colour: u32) -> (u8, u8, u8) {
    (((colour / 0x10000) % 0x100) as u8, ((colour / 0x100) % 0x100) as u8, (colour % 0x100) as u8)
}

/// Whether every pixel of a framebuffer is a palette index.
pub open spec fn all_indices(screen: Seq<u8>) -> bool {
    forall|i: int| 0 <= i < screen.len() ==> #[trigger] screen[i] <= 15
}

/// Whether `(x, y)` is a position on the screen.
pub fn in_bounds(x: i16, y: i16) -> (r: bool)
    ensures
        r == on_screen(x as int, y as int),
{
    (x >= 0 && x < 320) && (y >= 0 && y < 240)
}

/// Whether `(x, y)` is a position on the screen, for coordinates that were
/// computed without wrapping.
fn visible(x: i32, y: i32) -> (r: bool)
    ensures
        r == on_screen(x as int, y as int),
{
    x >= -32768 && x <= 32767 && y >= -32768 && y <= 32767 && in_bounds(x as i16, y as i16)
}

/// The red, green and blue parts of a palette entry.
pub fn rgb(colour: u32) -> (r: (u8, u8, u8))
    ensures
        r == rgb_of(colour),
{
    ((colour / 0x10000 % 0x100) as u8, (colour / 0x100 % 0x100) as u8, (colour % 0x100) as u8)
}

/// Reads a palette of sixteen colours from the 48 bytes at `start_addr`.
pub fn read_palette(mem: &[u8; 65536], start_addr: u16) -> (r: [u32; 16])
    ensures
        r@ == palette_at(mem@, start_addr as int),
{
    let mut palette: [u32; 16] = [0u32; 16];
    let mut idx: usize = 0;
    while idx < 16
        invariant
            idx <= 16,
            forall|i: int| 0 <= i < idx ==> palette@[i] == colour_at(mem@, start_addr + 3 * i),
        decreases 16 - idx,
    {
        let addr: usize = start_addr as usize + idx * 3;
        let red: u32 = mem[addr % 0x10000] as u32;
        let green: u32 = mem[(addr + 1) % 0x10000] as u32;
        let blue: u32 = mem[(addr + 2) % 0x10000] as u32;
        palette[idx] = red * 0x10000 + green * 0x100 + blue;
        idx = idx + 1;
    }
    assert(palette@ =~= palette_at(mem@, start_addr as int));
    palette
}

/// The pixel of a framebuffer at `(x, y)`.
pub open spec fn pixel(screen: Seq<u8>, x: int, y: int) -> u8 {
    screen[y * 320 + x]
}

/// Whether a draw that has finished `rows` rows, and `bytes` bytes of the
/// next one, has already passed screen position `(x, y)`.
spec fn passed(x0: i16, y0: i16, rows: int, bytes: int, x: int, y: int) -> bool {
    y - y0 < rows || (y - y0 == rows && x - x0 < 2 * bytes)
}

/// The pixel at `(x, y)` in the middle of a draw.
spec fn partly_drawn(
    before: Seq<u8>,
    mem: Seq<u8>,
    gpu: GPU,
    x0: i16,
    y0: i16,
    addr: u16,
    rows: int,
    bytes: int,
    x: int,
    y: int,
) -> u8 {
    let p = sprite_over(mem, gpu, x0, y0, addr, x, y);
    if p != 0 && passed(x0, y0, rows, bytes, x, y) {
        p
    } else {
        pixel(before, x, y)
    }
}

/// A framebuffer index and its coordinates determine each other.
proof fn lemma_screen_index(i: int)
    requires
        0 <= i < 76800,
    ensures
        on_screen(i % 320, i / 320),
        (i / 320) * 320 + i % 320 == i,
{
}

/// The coordinates of the framebuffer index of a position are the position.
proof fn lemma_screen_position(x: int, y: int)
    requires
        on_screen(x, y),
    ensures
        0 <= y * 320 + x < 76800,
        (y * 320 + x) % 320 == x,
        (y * 320 + x) / 320 == y,
{
}

/// Writes one sprite pixel, unless it is transparent or off the screen,
/// and reports whether it went over a pixel that was set.
fn plot(screen: &mut [u8; 76800], x: i32, y: i32, colour: u8) -> (covered: bool)
    ensures
        colour != 0 && on_screen(x as int, y as int) ==> final(screen)@ == old(screen)@.update(
            y * 320 + x,
            colour,
        ) && covered == (pixel(old(screen)@, x as int, y as int) != 0),
        !(colour != 0 && on_screen(x as int, y as int)) ==> final(screen)@ == old(screen)@
            && !covered,
{
    if colour > 0 && visible(x, y) {
        let screen_idx: usize = y as usize * 320 + x as usize;
        let covered: bool = screen[screen_idx] != 0;
        screen[screen_idx] = colour;
        covered
    } else {
        false
    }
}

/// Draws the sprite at `sprite_addr` with its origin at
/// `(x_coord, y_coord)` and reports whether it overwrote a pixel that was
/// already set. Pixels off the screen and transparent pixels are skipped;
/// every pixel written is a palette index from 1 to 15.
pub fn blit(
    mem: &[u8; 65536],
    screen: &mut [u8; 76800],
    gpu: &GPU,
    x_coord: i16,
    y_coord: i16,
    sprite_addr: u16,
) -> (hit: bool)
    ensures
        final(screen)@ == drawn_screen(old(screen)@, mem@, *gpu, x_coord, y_coord, sprite_addr),
        hit == collides(old(screen)@, mem@, *gpu, x_coord, y_coord, sprite_addr),
        forall|i: int|
            0 <= i < 76800 && #[trigger] final(screen)@[i] != old(screen)@[i] ==> 1 <= final(
                screen
            )@[i] <= 15,
{
    let ghost before = screen@;
    let ghost wx: int = 0;
    let ghost wy: int = 0;
    let mut hit: bool = false;
    let mut y: u8 = 0;
    while y < gpu.spriteh
        invariant
            y <= gpu.spriteh,
            forall|sx: int, sy: int|
                on_screen(sx, sy) ==> #[trigger] pixel(screen@, sx, sy) == partly_drawn(
                    before,
                    mem@,
                    *gpu,
                    x_coord,
                    y_coord,
                    sprite_addr,
                    y as int,
                    0,
                    sx,
                    sy,
                ),
            hit ==> on_screen(wx, wy) && sprite_over(
                mem@,
                *gpu,
                x_coord,
                y_coord,
                sprite_addr,
                wx,
                wy,
            ) != 0 && pixel(before, wx, wy) != 0,
            !hit ==> forall|sx: int, sy: int|
                on_screen(sx, sy) && passed(x_coord, y_coord, y as int, 0, sx, sy) && sprite_over(
                    mem@,
                    *gpu,
                    x_coord,
                    y_coord,
                    sprite_addr,
                    sx,
                    sy,
                ) != 0 ==> #[trigger] pixel(before, sx, sy) == 0,
        decreases gpu.spriteh - y,
    {
        let y_mem: u8 = if gpu.vflip {
            gpu.spriteh - 1 - y
        } else {
            y
        };
        let y_pos: i32 = y_coord as i32 + y as i32;
        let mut x: u8 = 0;
        while x < gpu.spritew
            invariant
                x <= gpu.spritew,
                y < gpu.spriteh,
                y_mem == (if gpu.vflip {
                    gpu.spriteh - 1 - y
                } else {
                    y as int
                }),
                y_pos == y_coord + y,
                forall|sx: int, sy: int|
                    on_screen(sx, sy) ==> #[trigger] pixel(screen@, sx, sy) == partly_drawn(
                        before,
                        mem@,
                        *gpu,
                        x_coord,
                        y_coord,
                        sprite_addr,
                        y as int,
                        x as int,
                        sx,
                        sy,
                    ),
                hit ==> on_screen(wx, wy) && sprite_over(
                    mem@,
                    *gpu,
                    x_coord,
                    y_coord,
                    sprite_addr,
                    wx,
                    wy,
                ) != 0 && pixel(before, wx, wy) != 0,
                !hit ==> forall|sx: int, sy: int|
                    on_screen(sx, sy) && passed(x_coord, y_coord, y as int, x as int, sx, sy)
                        && sprite_over(mem@, *gpu, x_coord, y_coord, sprite_addr, sx, sy) != 0
                        ==> #[trigger] pixel(before, sx, sy) == 0,
            decreases gpu.spritew - x,
        {
            let x_mem: u8 = if gpu.hflip {
                gpu.spritew - 1 - x
            } else {
                x
            };
            assert(y_mem as int * gpu.spritew as int <= 254 * 255) by (nonlinear_arith)
                requires
                    0 <= y_mem <= 254,
                    0 <= gpu.spritew <= 255,
            ;
            let cur_sprite_addr: usize = (y_mem as usize * gpu.spritew as usize
                + sprite_addr as usize + x_mem as usize) % 0x10000;
            let sprite_byte: u8 = mem[cur_sprite_addr];
            let (lpx, rpx): (u8, u8) = if gpu.hflip {
                (sprite_byte % 16, sprite_byte / 16)
            } else {
                (sprite_byte / 16, sprite_byte % 16)
            };
            let lx_pos: i32 = x_coord as i32 + x as i32 * 2;
            let rx_pos: i32 = lx_pos + 1;
            let ghost row_start = screen@;
            let left_hit: bool = plot(screen, lx_pos, y_pos, lpx);
            let ghost mid = screen@;
            let right_hit: bool = plot(screen, rx_pos, y_pos, rpx);
            proof {
                let lx = lx_pos as int;
                let rx = rx_pos as int;
                let yp = y_pos as int;
                assert(on_screen(lx, yp) ==> sprite_over(
                    mem@,
                    *gpu,
                    x_coord,
                    y_coord,
                    sprite_addr,
                    lx,
                    yp,
                ) == lpx);
                assert(on_screen(rx, yp) ==> sprite_over(
                    mem@,
                    *gpu,
                    x_coord,
                    y_coord,
                    sprite_addr,
                    rx,
                    yp,
                ) == rpx);
                assert(on_screen(lx, yp) ==> pixel(row_start, lx, yp) == pixel(before, lx, yp));
                assert(on_screen(rx, yp) ==> pixel(row_start, rx, yp) == pixel(before, rx, yp));
                assert(on_screen(rx, yp) ==> pixel(mid, rx, yp) == pixel(row_start, rx, yp));
                if left_hit {
                    wx = lx;
                    wy = yp;
                } else if right_hit {
                    wx = rx;
                    wy = yp;
                }
                assert forall|sx: int, sy: int| on_screen(sx, sy) implies #[trigger] pixel(
                    screen@,
                    sx,
                    sy,
                ) == partly_drawn(
                    before,
                    mem@,
                    *gpu,
                    x_coord,
                    y_coord,
                    sprite_addr,
                    y as int,
                    x as int + 1,
                    sx,
                    sy,
                ) by {
                    assert(pixel(row_start, sx, sy) == partly_drawn(
                        before,
                        mem@,
                        *gpu,
                        x_coord,
                        y_coord,
                        sprite_addr,
                        y as int,
                        x as int,
                        sx,
                        sy,
                    ));
                    if sy == yp && sx == lx {
                    } else if sy == yp && sx == rx {
                    } else {
                        assert(sy * 320 + sx != yp * 320 + lx || !on_screen(lx, yp));
                        assert(sy * 320 + sx != yp * 320 + rx || !on_screen(rx, yp));
                    }
                }
            }
            if left_hit || right_hit {
                hit = true;
            }
            x = x + 1;
        }
        y = y + 1;
    }
    proof {
        let after = drawn_screen(before, mem@, *gpu, x_coord, y_coord, sprite_addr);
        assert forall|i: int| 0 <= i < 76800 implies screen@[i] == after[i] by {
            lemma_screen_index(i);
            assert(screen@[i] == pixel(screen@, i % 320, i / 320));
            assert(before[i] == pixel(before, i % 320, i / 320));
        }
        assert(screen@ =~= after);
        if hit {
            lemma_screen_position(wx, wy);
            assert(collides_at(before, mem@, *gpu, x_coord, y_coord, sprite_addr, wy * 320 + wx));
        } else {
            assert forall|i: int| !collides_at(
                before,
                mem@,
                *gpu,
                x_coord,
                y_coord,
                sprite_addr,
                i,
            ) by {
                if 0 <= i < 76800 {
                    lemma_screen_index(i);
                    assert(before[i] == pixel(before, i % 320, i / 320));
                }
            }
        }
    }
    hit
}

} // verus!
