use vstd::prelude::*;
use crate::machine::Chip8;

verus! {

impl Chip8 {
    /// One tick of the timers: each goes down by one and stays at zero once
    /// there. The host calls this sixty times a second, however fast the
    /// instructions run.
    pub fn decrement_timers(&mut self)
        ensures
            final(self)@ == old(self)@.ticked(),
            final(self)@.wf(),
            old(self)@.delay == 0 ==> final(self)@.delay == 0,
            old(self)@.sound == 0 ==> final(self)@.sound == 0,
    {
        if self.delay_timer > 0 {
            self.delay_timer -= 1;
        }
        if self.sound_timer > 0 {
            self.sound_timer -= 1;
        }
        proof {
            self.lemma_view_wf();
        }
    }
}

} // verus!
