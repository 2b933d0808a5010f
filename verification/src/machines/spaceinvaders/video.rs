//! The display of the cabinet: from video memory to coloured pixels.

use vstd::prelude::*;
use crate::cpu::bits::{bit, test_bit};
use crate::cpu::state::{State, StateView};
use crate::machines::Screen;

verus! {

/// Where video memory starts.
pub const VIDEO_START: usize = 0x2400;

/// The number of columns of the display.
pub const WIDTH: usize = 224;

/// The number of rows of the display.
pub const HEIGHT: usize = 256;

/// The number of bytes that hold one column.
pub const COLUMN_BYTES: usize = 32;

/// The colour of the strip at the bottom of the display.
pub const GREEN: (u8, u8, u8) = (0, 255, 0);

/// The colour of the display outside the strips.
pub const WHITE: (u8, u8, u8) = (255, 255, 255);

/// The colour of the strip near the top of the display.
pub const RED: (u8, u8, u8) = (255, 0, 0);

/// A lit pixel of the display.
#[derive(Clone, Copy, Debug, PartialEq, Eq)]
pub struct Pixel {
    /// The column, counted from the left.
    pub x: i32,
    /// The row, counted from the top.
    pub y: i32,
    /// The colour, as red, green and blue.
    pub color: (u8, u8, u8),
}

/// The colour of row `y`: green below row 180, red between rows 33 and 50,
/// white everywhere else.
pub open spec fn row_color(y: int) -> (u8, u8, u8) {
    if y > 180 {
        GREEN
    } else if 33 < y < 50 {
        RED
    } else {
        WHITE
    }
}

/// Whether dot `n` of the display is lit. The dots are counted column by
/// column from the left, and within a column from the bottom; each byte of
/// video memory holds eight of them, the lowest bit first.
pub open spec fn dot_lit(memory: Seq<u8>, n: int) -> bool {
    bit(memory[VIDEO_START + n / 8], (n % 8) as u8)
}

/// The pixel that shows dot `n`: its column is `n / 256`, and its row is
/// 256 less its place in the column.
pub open spec fn dot_pixel(n: int) -> Pixel {
    Pixel {
        x: (n / HEIGHT as int) as i32,
        y: (HEIGHT - n % (HEIGHT as int)) as i32,
        color: row_color(HEIGHT - n % (HEIGHT as int)),
    }
}

/// The pixels of the lit dots among the first `count` dots, in the order of
/// the dots.
pub open spec fn lit_pixels(memory: Seq<u8>, count: nat) -> Seq<Pixel>
    decreases count,
{
    if count == 0 {
        Seq::empty()
    } else if dot_lit(memory, count - 1) {
        lit_pixels(memory, (count - 1) as nat).push(dot_pixel(count - 1))
    } else {
        lit_pixels(memory, (count - 1) as nat)
    }
}

/// The pixels that a frame shows: those of all lit dots of the display.
pub open spec fn frame(s: StateView) -> Seq<Pixel> {
    lit_pixels(s.memory, (WIDTH * HEIGHT) as nat)
}

/// The colour of row `y`.
pub fn color_of_row(y: i32) -> (color: (u8, u8, u8))
    ensures
        color == row_color(y as int),
{
    if y > 180 {
        GREEN
    } else if y > 33 && y < 50 {
        RED
    } else {
        WHITE
    }
}

/// The pixels that a frame shows, column by column from the left and
/// within a column from the bottom.
pub fn frame_pixels(state: &State) -> (pixels: Vec<Pixel>)
    requires
        state.wf(),
    ensures
        pixels@ == frame(state@),
{
    let mut pixels: Vec<Pixel> = Vec::new();
    let mut x: usize = 0;
    while x < WIDTH
        invariant
            state.wf(),
            x <= WIDTH,
            pixels@ == lit_pixels(state@.memory, (x * HEIGHT) as nat),
        decreases WIDTH - x,
    {
        let mut row: usize = 0;
        while row < HEIGHT
            invariant
                state.wf(),
                x < WIDTH,
                row <= HEIGHT,
                pixels@ == lit_pixels(state@.memory, (x * HEIGHT + row) as nat),
            decreases HEIGHT - row,
        {
            let n: usize = x * HEIGHT + row;
            let byte = state.memory[VIDEO_START + x * COLUMN_BYTES + row / 8];
            proof {
                assert(n / 8 == x * COLUMN_BYTES + row / 8);
                assert(n % 8 == row % 8);
                assert(n / HEIGHT == x);
                assert(n % HEIGHT == row);
            }
            if test_bit(byte, (row % 8) as u8) {
                let y: i32 = (HEIGHT - row) as i32;
                pixels.push(Pixel { x: x as i32, y, color: color_of_row(y) });
            }
            row = row + 1;
        }
        x = x + 1;
    }
    pixels
}

/// Draws a frame: blanks the screen, lights each pixel in order and shows
/// the result.
pub(crate) fn draw_frame(screen: &mut Box<dyn Screen>, pixels: &Vec<Pixel>) {
    screen.clear();
    let mut i: usize = 0;
    while i < pixels.len()
        invariant
            i <= pixels.len(),
        decreases pixels.len() - i,
    {
        let pixel = pixels[i];
        screen.draw(pixel.x, pixel.y, pixel.color);
        i = i + 1;
    }
    screen.present();
}

} // verus!
