//! Reading the display, and the interfaces that display and keyboard
//! backends implement.
use vstd::prelude::*;

use crate::keyboard::KeyboardCommand;
use crate::machine::screen_view;

verus! {

/// Pixel (`x`, `y`) is on: bit `7 - x % 8` of byte `x / 8` of row `y`.
pub open spec fn pixel_spec(screen: Seq<Seq<u8>>, x: int, y: int) -> bool {
    (screen[y][x / 8] >> ((7 - x % 8) as u8)) & 1 == 1
}

/// Whether pixel (`x`, `y`) of the 64 by 32 display is on.
pub fn pixel(screen: &[[u8; 8]; 32], x: usize, y: usize) -> (r: bool)
    requires
        x < 64,
        y < 32,
    ensures
        r == pixel_spec(screen_view(*screen), x as int, y as int),
{
    let byte = screen[y][x / 8];
    let shift: u8 = (7 - x % 8) as u8;
    (byte >> shift) & 1 == 1
}

/// The character cell for two pixels stacked: full block, upper half, lower
/// half or blank.
pub open spec fn half_block_spec(top: bool, bottom: bool) -> char {
    if top && bottom {
        '\u{2588}'
    } else if top {
        '\u{2580}'
    } else if bottom {
        '\u{2584}'
    } else {
        ' '
    }
}

/// The character that shows pixel `top` above pixel `bottom` in one
/// terminal cell.
pub fn half_block(top: bool, bottom: bool) -> (r: char)
    ensures
        r == half_block_spec(top, bottom),
{
    if top && bottom {
        '\u{2588}'
    } else if top {
        '\u{2580}'
    } else if bottom {
        '\u{2584}'
    } else {
        ' '
    }
}

/// A display backend.
pub trait Graphics {
    /// Prepares the output.
    fn initialize(&mut self);

    /// Shows `screen`: 32 rows of 8 bytes, leftmost pixel in the top bit.
    fn draw(&mut self, screen: [[u8; 8]; 32]);
}

/// A keyboard backend.
pub trait Input {
    /// Starts listening.
    fn initialize(&mut self);

    /// The machine waits for a key: the next command is to be a single key.
    fn set_waiting_key(&mut self);

    /// What the keyboard says now.
    fn get_keyboard_state(&mut self) -> KeyboardCommand;
}

/// The display and keyboard backends in use.
pub struct Renderer {
    pub graphics: Box<dyn Graphics>,
    pub input: Box<dyn Input>,
}

} // verus!
