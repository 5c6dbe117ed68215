//! What the presentation of the framebuffer computes: the colour of a pixel,
//! and where the pixel goes in the window.

use vstd::prelude::*;
use crate::{HEIGHT, WIDTH};

verus! {

/// Number of window pixels along each side of one pixel of the display.
pub const UPSCALE: usize = 10;

/// The two colours of the display.
#[derive(Clone, Copy, Debug, PartialEq, Eq, Structural)]
pub enum DisplayColor {
    Black,
    White,
}

impl DisplayColor {
    /// The colour of a pixel: white for a lit pixel, black for one that is
    /// off.
    pub fn get_color(pixel: bool) -> (color: DisplayColor)
        ensures
            color == if pixel {
                DisplayColor::White
            } else {
                DisplayColor::Black
            },
    {
        if pixel {
            DisplayColor::White
        } else {
            DisplayColor::Black
        }
    }

    /// The red, green and blue components of the colour.
    pub fn rgb(self) -> (components: (u8, u8, u8))
        ensures
            components == match self {
                DisplayColor::Black => (0u8, 0u8, 0u8),
                DisplayColor::White => (255u8, 255u8, 255u8),
            },
    {
        match self {
            DisplayColor::Black => (0, 0, 0),
            DisplayColor::White => (255, 255, 255),
        }
    }
}

/// The width and the height of the window.
pub fn window_size() -> (size: (u32, u32))
    ensures
        size.0 == WIDTH * UPSCALE,
        size.1 == HEIGHT * UPSCALE,
{
    ((WIDTH * UPSCALE) as u32, (HEIGHT * UPSCALE) as u32)
}

/// The square of the window that shows the pixel in column `x` of row `y`:
/// the coordinates of its top left corner, its width and its height. The
/// coordinates have to fit the type.
pub fn pixel_rect(x: i32, y: i32) -> (rect: (i32, i32, u32, u32))
    requires
        i32::MIN <= x * UPSCALE <= i32::MAX,
        i32::MIN <= y * UPSCALE <= i32::MAX,
    ensures
        rect.0 == x * UPSCALE,
        rect.1 == y * UPSCALE,
        rect.2 == UPSCALE,
        rect.3 == UPSCALE,
{
    let factor = UPSCALE as i32;
    (x * factor, y * factor, UPSCALE as u32, UPSCALE as u32)
}

} // verus!
