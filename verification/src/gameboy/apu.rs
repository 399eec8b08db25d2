use super::memory::Memory;
use vstd::prelude::*;

verus! {

/// The audio unit. It takes the writes to its registers as the memory
/// keeps them and does nothing with them.
pub struct Apu;

impl Apu {
    /// An audio unit.
    pub fn new() -> Self {
        Self
    }

    /// Moves the audio unit on by one dot: nothing happens.
    pub fn cycle(&mut self, memory: &mut Memory)
        ensures
            final(memory)@ == old(memory)@,
    {
    }
}

} // verus!
