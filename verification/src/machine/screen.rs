use vstd::prelude::*;
use crate::machine::Chip8;
use crate::model::{SCREEN_HEIGHT, SCREEN_WIDTH};

verus! {

impl Chip8 {
    /// Turns every pixel off.
    pub fn clear_screen(&mut self)
        ensures
            final(self)@ == old(self)@.cleared(),
            final(self)@.wf(),
    {
        self.display = [[false; SCREEN_WIDTH]; SCREEN_HEIGHT];
        proof {
            self.lemma_view_wf();
            assert(self@.screen =~~= old(self)@.cleared().screen);
        }
    }

    /// The pixels that are on, as (column, row), in reading order: row by
    /// row from the top, each row from the left. This is what the host has to
    /// paint on a dark ground.
    pub fn lit_pixels(&self) -> (lit: Vec<(usize, usize)>)
        ensures
            forall|k: int|
                0 <= k < lit@.len() ==> {
                    &&& (#[trigger] lit@[k]).0 < SCREEN_WIDTH
                    &&& lit@[k].1 < SCREEN_HEIGHT
                    &&& self@.screen[lit@[k].1 as int][lit@[k].0 as int]
                },
            forall|x: int, y: int|
                0 <= x < SCREEN_WIDTH && 0 <= y < SCREEN_HEIGHT && #[trigger] self@.screen[y][x]
                    ==> lit@.contains((x as usize, y as usize)),
            forall|k: int, l: int|
                0 <= k < l < lit@.len() ==> reading_order(#[trigger] lit@[k]) < reading_order(
                    #[trigger] lit@[l],
                ),
    {
        let mut lit: Vec<(usize, usize)> = Vec::new();
        let mut i: usize = 0;
        while i < SCREEN_WIDTH * SCREEN_HEIGHT
            invariant
                i <= SCREEN_WIDTH * SCREEN_HEIGHT,
                forall|k: int|
                    0 <= k < lit@.len() ==> {
                        &&& (#[trigger] lit@[k]).0 < SCREEN_WIDTH
                        &&& lit@[k].1 < SCREEN_HEIGHT
                        &&& reading_order(lit@[k]) < i
                        &&& self.display[lit@[k].1 as int][lit@[k].0 as int]
                    },
                forall|x: int, y: int|
                    0 <= x < SCREEN_WIDTH && 0 <= y < SCREEN_HEIGHT && y * SCREEN_WIDTH + x < i
                        && #[trigger] self.display[y][x] ==> lit@.contains(
                        (x as usize, y as usize),
                    ),
                forall|k: int, l: int|
                    0 <= k < l < lit@.len() ==> reading_order(#[trigger] lit@[k]) < reading_order(
                        #[trigger] lit@[l],
                    ),
            decreases SCREEN_WIDTH * SCREEN_HEIGHT - i,
        {
            let x = i % SCREEN_WIDTH;
            let y = i / SCREEN_WIDTH;
            if self.display[y][x] {
                let ghost before = lit@;
                lit.push((x, y));
                proof {
                    assert(lit@[before.len() as int] == (x, y));
                    assert forall|px: int, py: int|
                        0 <= px < SCREEN_WIDTH && 0 <= py < SCREEN_HEIGHT && py * SCREEN_WIDTH
                            + px < i + 1 && #[trigger] self.display[py][px] implies lit@.contains(
                        (px as usize, py as usize),
                    ) by {
                        if py * SCREEN_WIDTH + px < i {
                            assert(before.contains((px as usize, py as usize)));
                            let k = choose|k: int|
                                0 <= k < before.len() && before[k] == (px as usize, py as usize);
                            assert(lit@[k] == (px as usize, py as usize));
                        } else {
                            assert(px == x && py == y);
                        }
                    }
                }
            }
            i += 1;
        }
        proof {
            assert forall|x: int, y: int|
                0 <= x < SCREEN_WIDTH && 0 <= y < SCREEN_HEIGHT && #[trigger] self@.screen[y][x]
                implies lit@.contains((x as usize, y as usize)) by {
                assert(self.display[y][x]);
            }
        }
        lit
    }
}

/// The place of a pixel, given as (column, row), in reading order.
pub open spec fn reading_order(pixel: (usize, usize)) -> int {
    pixel.1 * SCREEN_WIDTH + pixel.0
}

} // verus!
