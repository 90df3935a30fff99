use vstd::prelude::*;

verus! {

/// Bytes of memory.
pub const MEMORY_SIZE: usize = 4096;

/// Where a program is loaded and where execution starts.
pub const PROGRAM_START: u16 = 0x200;

/// The longest program that fits between the program start and the end of
/// memory.
pub const ROM_CAPACITY: usize = 3584;

/// Pixels in a row of the screen.
pub const SCREEN_WIDTH: usize = 64;

/// Rows of the screen.
pub const SCREEN_HEIGHT: usize = 32;

/// Where the built-in font starts in memory.
pub const FONT_START: u16 = 0x50;

/// Bytes of one glyph of the built-in font: five rows, of which the left
/// four pixels are used.
pub const GLYPH_SIZE: u16 = 5;

/// Bytes of the built-in font: sixteen glyphs.
pub const FONT_SIZE: usize = 80;

/// The built-in font: the sprites of the hexadecimal digits `0` to `F`, one
/// after the other.
pub const FONT: [u8; FONT_SIZE] = [
    0xF0, 0x90, 0x90, 0x90, 0xF0,
    0x20, 0x60, 0x20, 0x20, 0x70,
    0xF0, 0x10, 0xF0, 0x80, 0xF0,
    0xF0, 0x10, 0xF0, 0x10, 0xF0,
    0x90, 0x90, 0xF0, 0x10, 0x10,
    0xF0, 0x80, 0xF0, 0x10, 0xF0,
    0xF0, 0x80, 0xF0, 0x90, 0xF0,
    0xF0, 0x10, 0x20, 0x40, 0x40,
    0xF0, 0x90, 0xF0, 0x90, 0xF0,
    0xF0, 0x90, 0xF0, 0x10, 0xF0,
    0xF0, 0x90, 0xF0, 0x90, 0x90,
    0xE0, 0x90, 0xE0, 0x90, 0xE0,
    0xF0, 0x80, 0x80, 0x80, 0xF0,
    0xE0, 0x90, 0x90, 0x90, 0xE0,
    0xF0, 0x80, 0xF0, 0x80, 0xF0,
    0xF0, 0x80, 0xF0, 0x80, 0x80,
];

/// How the instructions that the historical interpreters disagree on behave.
/// It is fixed when a machine is made.
#[derive(Clone, Copy, Debug, PartialEq, Eq)]
pub struct Config {
    /// `8xy6` and `8xyE` shift `Vy` into `Vx`. Default: they shift `Vx` in
    /// place.
    pub shift_uses_vy: bool,
    /// `Bnnn` adds `Vx`, `x` being the high nibble of `nnn`. Default: it adds
    /// `V0`.
    pub jump_uses_vx: bool,
    /// `8xy5` and `8xy7` set `VF` to 1 when the subtraction borrows. Default:
    /// they set it to 1 when it does not.
    pub borrow_sets_flag: bool,
    /// `Fx1E` sets `VF` to 1 when the sum lies past the last address of
    /// memory, else to 0. Default: it leaves `VF` alone.
    pub index_overflow_flag: bool,
    /// The most return addresses that the call stack holds; a call beyond it
    /// faults. Default: no limit.
    pub stack_limit: Option<usize>,
}

impl Config {
    /// The default configuration.
    pub open spec fn standard() -> Config {
        Config {
            shift_uses_vy: false,
            jump_uses_vx: false,
            borrow_sets_flag: false,
            index_overflow_flag: false,
            stack_limit: None,
        }
    }
}

impl Default for Config {
    fn default() -> (config: Config)
        ensures
            config == Config::standard(),
    {
        Config {
            shift_uses_vy: false,
            jump_uses_vx: false,
            borrow_sets_flag: false,
            index_overflow_flag: false,
            stack_limit: None,
        }
    }
}

/// The state that follows `state` in the random number generator: a linear
/// congruential step modulo 2^32.
pub open spec fn rng_next(state: u32) -> u32 {
    ((state * 1664525 + 1013904223) % 0x1_0000_0000) as u32
}

/// The byte that a generator state stands for: its most significant byte.
pub open spec fn rng_byte(state: u32) -> u8 {
    (state / 0x100_0000) as u8
}

/// Moves the random number generator on by one step.
pub fn rng_step(state: u32) -> (next: u32)
    ensures
        next == rng_next(state),
{
    ((state as u64 * 1664525 + 1013904223) % 0x1_0000_0000) as u32
}

/// The byte that a generator state stands for.
pub fn rng_output(state: u32) -> (byte: u8)
    ensures
        byte == rng_byte(state),
{
    (state / 0x100_0000) as u8
}

/// The pixel of a sprite row that lies `column` places from its left edge;
/// the leftmost is the most significant bit.
pub open spec fn sprite_bit(row: u8, column: int) -> bool {
    (row >> ((7 - column) as u8)) & 1 != 0
}

/// Whether a screen has 32 rows of 64 pixels.
pub open spec fn screen_sized(screen: Seq<Seq<bool>>) -> bool {
    &&& screen.len() == SCREEN_HEIGHT
    &&& forall|r: int| 0 <= r < SCREEN_HEIGHT ==> (#[trigger] screen[r]).len() == SCREEN_WIDTH
}

/// A screen with every pixel off.
pub open spec fn blank_screen() -> Seq<Seq<bool>> {
    Seq::new(SCREEN_HEIGHT as nat, |r: int| Seq::new(SCREEN_WIDTH as nat, |c: int| false))
}

/// The sprite of `n` rows that a draw reads from `memory` at `base`: one byte
/// for each row, the top row first.
pub open spec fn sprite_at(memory: Seq<u8>, base: int, n: int) -> Seq<u8> {
    Seq::new(n as nat, |row: int| memory[base + row])
}

/// Whether a sprite, drawn with its top left corner at column `x0` and row
/// `y0`, has a set pixel at column `px` and row `py`. The sprite wraps round
/// both edges of the screen.
pub open spec fn sprite_covers(sprite: Seq<u8>, x0: int, y0: int, px: int, py: int) -> bool {
    let dx = (px - x0) % (SCREEN_WIDTH as int);
    let dy = (py - y0) % (SCREEN_HEIGHT as int);
    dx < 8 && dy < sprite.len() && sprite_bit(sprite[dy], dx)
}

/// The screen after the sprite has been drawn onto it: every pixel that the
/// sprite covers is flipped, every other pixel is kept.
pub open spec fn blit(screen: Seq<Seq<bool>>, sprite: Seq<u8>, x0: int, y0: int) -> Seq<
    Seq<bool>,
> {
    Seq::new(
        SCREEN_HEIGHT as nat,
        |py: int|
            Seq::new(
                SCREEN_WIDTH as nat,
                |px: int| screen[py][px] != sprite_covers(sprite, x0, y0, px, py),
            ),
    )
}

/// Whether drawing the sprite turns a pixel off that was on.
pub open spec fn collides(screen: Seq<Seq<bool>>, sprite: Seq<u8>, x0: int, y0: int) -> bool {
    exists|px: int, py: int|
        0 <= px < SCREEN_WIDTH && 0 <= py < SCREEN_HEIGHT && #[trigger] screen[py][px]
            && sprite_covers(sprite, x0, y0, px, py)
}

} // verus!
