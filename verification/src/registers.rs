//! The register file.

use vstd::prelude::*;

verus! {

/// The number of general-purpose registers.
pub const REGISTER_COUNT: usize = 16;

/// The index of the register that operations use as a flag.
pub const FLAG_REGISTER: usize = 0xF;

/// The general-purpose registers `V0..VF`, the index register, the program
/// counter and the two timers.
pub struct Registers {
    pub v: [u8; REGISTER_COUNT],
    pub i: u16,
    pub pc: u16,
    pub delay_timer: u8,
    pub sound_timer: u8,
}

impl Registers {
    /// All registers zero, and the program counter at the start of the program.
    pub fn new() -> (r: Self)
        ensures
            r.v@ == Seq::new(REGISTER_COUNT as nat, |x: int| 0u8),
            r.i == 0,
            r.pc == 0x200,
            r.delay_timer == 0,
            r.sound_timer == 0,
    {
        let r = Self { v: [0; REGISTER_COUNT], i: 0, pc: 0x200, delay_timer: 0, sound_timer: 0 };
        assert(r.v@ =~= Seq::new(REGISTER_COUNT as nat, |x: int| 0u8));
        r
    }

    /// The value of register `Vx`.
    pub fn get(&self, x: u8) -> (value: u8)
        requires
            x < REGISTER_COUNT,
        ensures
            value == self.v@[x as int],
    {
        self.v[x as usize]
    }

    /// Sets register `Vx` to `value`.
    pub fn set(&mut self, x: u8, value: u8)
        requires
            x < REGISTER_COUNT,
        ensures
            final(self).v@ == old(self).v@.update(x as int, value),
            final(self).i == old(self).i,
            final(self).pc == old(self).pc,
            final(self).delay_timer == old(self).delay_timer,
            final(self).sound_timer == old(self).sound_timer,
    {
        self.v[x as usize] = value;
    }
}

} // verus!
