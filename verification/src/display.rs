//! What a frame shows: the background colour, and one square dot for each
//! pixel that is not transparent.

use vstd::prelude::*;
use crate::graphics::{all_indices, rgb, rgb_of};

verus! {

/// The width of the screen in pixels.
pub const GRID_X_SIZE: u32 = 320;

/// The height of the screen in pixels.
pub const GRID_Y_SIZE: u32 = 240;

/// The side of the square that shows one pixel.
pub const DOT_SIZE_IN_PXS: u32 = 2;

/// A filled square on the window.
#[derive(Clone, Copy, Debug, PartialEq, Eq)]
pub struct Dot {
    /// The left edge.
    pub x: i32,
    /// The top edge.
    pub y: i32,
    /// The length of a side.
    pub size: u32,
    /// Red, green and blue.
    pub colour: (u8, u8, u8),
}

/// The dot that shows the pixel at `(x, y)`: none for palette index 0,
/// which is transparent; else a square of two by two at twice the pixel's
/// position, in the colour that the palette gives the pixel's index.
pub open spec fn dot_of(screen: Seq<u8>, palette: Seq<u32>, x: int, y: int) -> Option<Dot> {
    let px = screen[y * 320 + x];
    if px == 0 {
        None
    } else {
        Some(Dot { x: (2 * x) as i32, y: (2 * y) as i32, size: 2, colour: rgb_of(palette[px as int]) })
    }
}

/// The red, green and blue of a palette entry.
pub fn get_draw_color(palette: &[u32; 16], palette_index: u8) -> (r: (u8, u8, u8))
    requires
        palette_index < 16,
    ensures
        r == rgb_of(palette@[palette_index as int]),
{
    rgb(palette[palette_index as usize])
}

/// The dot to draw for the pixel at `(x, y)`, if it is not transparent.
pub fn draw_dot(screen: &[u8; 76800], palette: &[u32; 16], x: u32, y: u32) -> (r: Option<Dot>)
    requires
        x < GRID_X_SIZE,
        y < GRID_Y_SIZE,
        screen@[y * 320 + x] < 16,
    ensures
        r == dot_of(screen@, palette@, x as int, y as int),
{
    let px: u8 = screen[(y * GRID_X_SIZE + x) as usize];
    if px > 0 {
        Some(
            Dot {
                x: (x * DOT_SIZE_IN_PXS) as i32,
                y: (y * DOT_SIZE_IN_PXS) as i32,
                size: DOT_SIZE_IN_PXS,
                colour: get_draw_color(palette, px),
            },
        )
    } else {
        None
    }
}

/// The dots of the first `n` pixels, counted row by row from the top left.
pub open spec fn dots_upto(screen: Seq<u8>, palette: Seq<u32>, n: int) -> Seq<Dot>
    decreases n,
{
    if n <= 0 {
        Seq::empty()
    } else {
        let before = dots_upto(screen, palette, n - 1);
        match dot_of(screen, palette, (n - 1) % 320, (n - 1) / 320) {
            Some(dot) => before.push(dot),
            None => before,
        }
    }
}

/// The dots that show a screen: one for each pixel that is not transparent,
/// row by row from the top left.
pub open spec fn foreground_of(screen: Seq<u8>, palette: Seq<u32>) -> Seq<Dot> {
    dots_upto(screen, palette, 76800)
}

/// The dots to draw over the background for a screen of palette indices.
pub fn draw_foreground(screen: &[u8; 76800], palette: &[u32; 16]) -> (dots: Vec<Dot>)
    requires
        all_indices(screen@),
    ensures
        dots@ == foreground_of(screen@, palette@),
{
    let mut dots: Vec<Dot> = Vec::new();
    let mut y: u32 = 0;
    while y < GRID_Y_SIZE
        invariant
            y <= GRID_Y_SIZE,
            all_indices(screen@),
            dots@ == dots_upto(screen@, palette@, y * 320),
        decreases GRID_Y_SIZE - y,
    {
        let mut x: u32 = 0;
        while x < GRID_X_SIZE
            invariant
                y < GRID_Y_SIZE,
                x <= GRID_X_SIZE,
                all_indices(screen@),
                dots@ == dots_upto(screen@, palette@, y * 320 + x),
            decreases GRID_X_SIZE - x,
        {
            assert((y * 320 + x) % 320 == x && (y * 320 + x) / 320 == y);
            assert(screen@[y * 320 + x] <= 15);
            match draw_dot(screen, palette, x, y) {
                Some(dot) => {
                    dots.push(dot);
                },
                None => {},
            }
            x = x + 1;
        }
        y = y + 1;
    }
    dots
}

} // verus!
