use vstd::prelude::*;
use crate::machine::Chip8;

verus! {

impl Chip8 {
    /// Tells the machine that key `key` is held down (`pressed`) or not. A
    /// key that goes down while the machine waits for one is stored in the
    /// waiting register, and the machine goes on. A value above 15 is no key
    /// and changes nothing.
    pub fn set_key(&mut self, key: u8, pressed: bool)
        ensures
            final(self)@ == old(self)@.with_key(key, pressed),
            final(self)@.wf(),
    {
        proof {
            self.lemma_view_wf();
        }
        if key >= 16 {
            return ;
        }
        let was_down = self.keys[key as usize];
        self.keys[key as usize] = pressed;
        if pressed && !was_down {
            if let Some(register) = self.waiting {
                self.registers[register.index()] = key;
                self.waiting = None;
            }
        }
        proof {
            self.lemma_view_wf();
        }
    }

    /// Whether key `key` is held down, as the host last told. A value above
    /// 15 is no key and is never down.
    pub fn is_key_down(&self, key: u8) -> (down: bool)
        ensures
            down == self@.key_down(key),
    {
        key < 16 && self.keys[key as usize]
    }

    /// Starts the random number generator anew from `seed`: machines with
    /// the same seed draw the same numbers.
    pub fn seed_rng(&mut self, seed: u32)
        ensures
            final(self)@ == old(self)@.seeded(seed),
            final(self)@.wf(),
    {
        self.rng = seed;
        proof {
            self.lemma_view_wf();
        }
    }
}

} // verus!
