use vstd::prelude::*;
use crate::fault::FaultKind;
use crate::machine::Chip8;
use crate::model::{
    collides, sprite_bit, sprite_covers, MEMORY_SIZE, SCREEN_HEIGHT, SCREEN_WIDTH,
};

verus! {

/// A draw under way: the screen that it found, the sprite, and the column and
/// row of the sprite's top left corner.
struct Stroke {
    screen: Seq<Seq<bool>>,
    sprite: Seq<u8>,
    x0: int,
    y0: int,
}

impl Stroke {
    /// Whether the sprite covers the pixel at (`px`, `py`) and the draw has
    /// reached it, having finished `rows` rows and `columns` pixels of the
    /// next.
    spec fn painted(self, rows: int, columns: int, px: int, py: int) -> bool {
        let dx = (px - self.x0) % (SCREEN_WIDTH as int);
        let dy = (py - self.y0) % (SCREEN_HEIGHT as int);
        sprite_covers(self.sprite, self.x0, self.y0, px, py) && (dy < rows || (dy == rows && dx
            < columns))
    }

    /// Whether the draw, as far as it has come, has turned off a pixel that
    /// was on.
    spec fn struck(self, rows: int, columns: int) -> bool {
        exists|px: int, py: int|
            0 <= px < SCREEN_WIDTH && 0 <= py < SCREEN_HEIGHT && #[trigger] self.screen[py][px]
                && self.painted(rows, columns, px, py)
    }

    /// Whether the corner lies on the screen and the sprite is no higher
    /// than the screen.
    spec fn placed(self) -> bool {
        &&& 0 <= self.x0 < SCREEN_WIDTH
        &&& 0 <= self.y0 < SCREEN_HEIGHT
        &&& self.sprite.len() <= SCREEN_HEIGHT
    }

    /// Bit `j` of row `i` lands on one pixel. With it the draw has struck a
    /// lit pixel if it had before, or if the bit is set and the pixel lit.
    proof fn lemma_next(self, i: int, j: int)
        requires
            self.placed(),
            0 <= i < self.sprite.len(),
            0 <= j < 8,
        ensures
            ({
                let sx = (self.x0 + j) % (SCREEN_WIDTH as int);
                let sy = (self.y0 + i) % (SCREEN_HEIGHT as int);
                &&& (sx - self.x0) % (SCREEN_WIDTH as int) == j
                &&& (sy - self.y0) % (SCREEN_HEIGHT as int) == i
                &&& self.struck(i, j + 1) <==> self.struck(i, j) || (self.screen[sy][sx]
                    && sprite_bit(self.sprite[i], j))
            }),
    {
        let sx = (self.x0 + j) % (SCREEN_WIDTH as int);
        let sy = (self.y0 + i) % (SCREEN_HEIGHT as int);
        assert((sx - self.x0) % (SCREEN_WIDTH as int) == j);
        assert((sy - self.y0) % (SCREEN_HEIGHT as int) == i);
        assert(self.painted(i, j + 1, sx, sy) == sprite_bit(self.sprite[i], j));
        assert(!self.painted(i, j, sx, sy));
        assert forall|px: int, py: int|
            0 <= px < SCREEN_WIDTH && 0 <= py < SCREEN_HEIGHT && !(px == sx && py == sy)
            implies self.painted(i, j + 1, px, py) == self.painted(i, j, px, py) by {
            let dx = (px - self.x0) % (SCREEN_WIDTH as int);
            let dy = (py - self.y0) % (SCREEN_HEIGHT as int);
            if dx == j && dy == i {
                assert(px == sx);
                assert(py == sy);
            }
        }
        if self.struck(i, j + 1) {
            let (px, py) = choose|px: int, py: int|
                0 <= px < SCREEN_WIDTH && 0 <= py < SCREEN_HEIGHT && #[trigger] self.screen[py][px]
                    && self.painted(i, j + 1, px, py);
            assert(self.struck(i, j) || (px == sx && py == sy));
        }
        if self.struck(i, j) {
            let (px, py) = choose|px: int, py: int|
                0 <= px < SCREEN_WIDTH && 0 <= py < SCREEN_HEIGHT && #[trigger] self.screen[py][px]
                    && self.painted(i, j, px, py);
            assert(self.painted(i, j + 1, px, py));
        }
    }

    /// A finished row is the start of the next.
    proof fn lemma_row(self, i: int)
        ensures
            self.struck(i, 8) <==> self.struck(i + 1, 0),
            forall|px: int, py: int|
                #[trigger] self.painted(i + 1, 0, px, py) == self.painted(i, 8, px, py),
    {
        if self.struck(i, 8) {
            let (px, py) = choose|px: int, py: int|
                0 <= px < SCREEN_WIDTH && 0 <= py < SCREEN_HEIGHT && #[trigger] self.screen[py][px]
                    && self.painted(i, 8, px, py);
            assert(self.painted(i + 1, 0, px, py));
        }
        if self.struck(i + 1, 0) {
            let (px, py) = choose|px: int, py: int|
                0 <= px < SCREEN_WIDTH && 0 <= py < SCREEN_HEIGHT && #[trigger] self.screen[py][px]
                    && self.painted(i + 1, 0, px, py);
            assert(self.painted(i, 8, px, py));
        }
    }

    /// Before the first row nothing is painted; after the last row
    /// everything that the sprite covers is.
    proof fn lemma_ends(self)
        ensures
            !self.struck(0, 0),
            forall|px: int, py: int| !#[trigger] self.painted(0, 0, px, py),
            self.struck(self.sprite.len() as int, 0) <==> collides(
                self.screen,
                self.sprite,
                self.x0,
                self.y0,
            ),
            forall|px: int, py: int|
                #[trigger] self.painted(self.sprite.len() as int, 0, px, py) == sprite_covers(
                    self.sprite,
                    self.x0,
                    self.y0,
                    px,
                    py,
                ),
    {
        let n = self.sprite.len() as int;
        if self.struck(n, 0) {
            let (px, py) = choose|px: int, py: int|
                0 <= px < SCREEN_WIDTH && 0 <= py < SCREEN_HEIGHT && #[trigger] self.screen[py][px]
                    && self.painted(n, 0, px, py);
            assert(sprite_covers(self.sprite, self.x0, self.y0, px, py));
        }
        if collides(self.screen, self.sprite, self.x0, self.y0) {
            let (px, py) = choose|px: int, py: int|
                0 <= px < SCREEN_WIDTH && 0 <= py < SCREEN_HEIGHT && #[trigger] self.screen[py][px]
                    && sprite_covers(self.sprite, self.x0, self.y0, px, py);
            assert(self.painted(n, 0, px, py));
        }
    }
}

impl Chip8 {
    /// `Dxyn`: draws the sprite of `n` rows at `I` with its top left corner at
    /// column `Vx` and row `Vy`, both taken modulo the size of the screen.
    /// Set pixels of the sprite flip the screen's; `VF` tells whether one of
    /// them went off. A sprite that does not lie in memory faults and nothing
    /// changes.
    pub(crate) fn draw(&mut self, x: u8, y: u8, n: u8) -> (r: Result<(), FaultKind>)
        requires
            x < 16,
            y < 16,
            n < 16,
        ensures
            final(self)@.wf(),
            match r {
                Ok(()) => {
                    &&& !(n > 0 && old(self)@.i + n > MEMORY_SIZE)
                    &&& final(self)@ == old(self)@.drawn(x, y, n)
                },
                Err(kind) => {
                    &&& n > 0 && old(self)@.i + n > MEMORY_SIZE
                    &&& kind == FaultKind::OutOfBounds
                    &&& final(self)@ == old(self)@
                },
            },
    {
        proof {
            self.lemma_view_wf();
        }
        let base = self.reg_i as usize;
        if n > 0 && base + n as usize > MEMORY_SIZE {
            return Err(FaultKind::OutOfBounds);
        }
        let x0 = self.registers[x as usize] as usize % SCREEN_WIDTH;
        let y0 = self.registers[y as usize] as usize % SCREEN_HEIGHT;
        let ghost stroke = Stroke {
            screen: old(self)@.screen,
            sprite: old(self)@.sprite_at_index(n),
            x0: x0 as int,
            y0: y0 as int,
        };
        let mut hit = false;
        proof {
            stroke.lemma_ends();
        }
        let mut i: usize = 0;
        while i < n as usize
            invariant
                i <= n < 16,
                n > 0 ==> base + n <= MEMORY_SIZE,
                base == old(self).reg_i,
                x0 < SCREEN_WIDTH,
                y0 < SCREEN_HEIGHT,
                stroke == (Stroke {
                    screen: old(self)@.screen,
                    sprite: old(self)@.sprite_at_index(n),
                    x0: x0 as int,
                    y0: y0 as int,
                }),
                *self == (Chip8 { display: self.display, ..*old(self) }),
                forall|px: int, py: int|
                    0 <= px < SCREEN_WIDTH && 0 <= py < SCREEN_HEIGHT ==> self.display[py][px] == (
                    stroke.screen[py][px] != stroke.painted(i as int, 0, px, py)),
                hit == stroke.struck(i as int, 0),
            decreases n - i,
        {
            let row = self.mem[base + i];
            let sy = (y0 + i) % SCREEN_HEIGHT;
            let mut j: u8 = 0;
            while j < 8
                invariant
                    j <= 8,
                    i < n < 16,
                    sy == (y0 + i) % (SCREEN_HEIGHT as int),
                    row == stroke.sprite[i as int],
                    x0 < SCREEN_WIDTH,
                    y0 < SCREEN_HEIGHT,
                    stroke == (Stroke {
                        screen: old(self)@.screen,
                        sprite: old(self)@.sprite_at_index(n),
                        x0: x0 as int,
                        y0: y0 as int,
                    }),
                    *self == (Chip8 { display: self.display, ..*old(self) }),
                    forall|px: int, py: int|
                        0 <= px < SCREEN_WIDTH && 0 <= py < SCREEN_HEIGHT ==> self.display[py][px]
                            == (stroke.screen[py][px] != stroke.painted(i as int, j as int, px, py)),
                    hit == stroke.struck(i as int, j as int),
                decreases 8 - j,
            {
                let pixel = (row >> (7 - j)) & 1 != 0;
                let sx = (x0 + j as usize) % SCREEN_WIDTH;
                proof {
                    stroke.lemma_next(i as int, j as int);
                    assert(pixel == sprite_bit(row, j as int));
                    assert(!stroke.painted(i as int, j as int, sx as int, sy as int));
                    assert(self.display[sy as int][sx as int] == stroke.screen[sy as int][sx as int]);
                }
                let ghost earlier = self.display;
                if pixel {
                    if self.display[sy][sx] {
                        hit = true;
                    }
                    self.display[sy][sx] = !self.display[sy][sx];
                }
                proof {
                    assert forall|px: int, py: int|
                        0 <= px < SCREEN_WIDTH && 0 <= py < SCREEN_HEIGHT implies self.display[py][px]
                        == (stroke.screen[py][px] != stroke.painted(i as int, j + 1, px, py)) by {
                        if !(px == sx && py == sy) {
                            assert(self.display[py][px] == earlier[py][px]);
                            assert(stroke.painted(i as int, j + 1, px, py) == stroke.painted(
                                i as int,
                                j as int,
                                px,
                                py,
                            ));
                        }
                    }
                }
                j += 1;
            }
            proof {
                stroke.lemma_row(i as int);
                assert forall|px: int, py: int|
                    0 <= px < SCREEN_WIDTH && 0 <= py < SCREEN_HEIGHT implies self.display[py][px] == (
                stroke.screen[py][px] != stroke.painted(i + 1, 0, px, py)) by {
                    assert(stroke.painted(i + 1, 0, px, py) == stroke.painted(i as int, 8, px, py));
                }
            }
            i += 1;
        }
        self.registers[0xF] = if hit { 1 } else { 0 };
        proof {
            self.lemma_view_wf();
            let expected = old(self)@.drawn(x, y, n);
            assert(stroke.sprite.len() == n);
            assert forall|px: int, py: int|
                0 <= px < SCREEN_WIDTH && 0 <= py < SCREEN_HEIGHT implies self@.screen[py][px]
                == expected.screen[py][px] by {
                assert(self@.screen[py][px] == self.display[py][px]);
                assert(stroke.painted(n as int, 0, px, py) == sprite_covers(
                    stroke.sprite,
                    stroke.x0,
                    stroke.y0,
                    px,
                    py,
                ));
            }
            assert(self@.screen =~~= expected.screen);
            assert(self@.v =~= expected.v);
        }
        Ok(())
    }
}

} // verus!
