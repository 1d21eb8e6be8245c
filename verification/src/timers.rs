use vstd::prelude::*;

verus! {

/// The value an 8-bit countdown counter holds after one tick: one less
/// than before, saturating at zero.
pub open spec fn ticked(value: u8) -> u8 {
    if value > 0 {
        (value - 1) as u8
    } else {
        0u8
    }
}

/// An 8-bit countdown counter that loses at most 1 per machine cycle
/// and never wraps below zero.
pub trait Timer {
    /// The counter's current value, as specifications see it.
    spec fn timer_value(&self) -> u8;

    /// The counter's current value.
    fn get_value(&self) -> (r: u8)
        ensures
            r == self.timer_value(),
    ;

    /// Restarts the counter at `value`.
    fn set_value(&mut self, value: u8)
        ensures
            final(self).timer_value() == value,
    ;

    /// One tick: decrements the counter if it is above zero, otherwise
    /// leaves it at zero.
    fn update(&mut self)
        ensures
            final(self).timer_value() == ticked(old(self).timer_value()),
    ;
}

/// The delay timer: a bare countdown counter read and written by
/// programs.
pub struct DelayTimer {
    value: u8,
}

impl DelayTimer {
    /// A delay timer at zero.
    pub fn new() -> (r: DelayTimer)
        ensures
            r.timer_value() == 0u8,
    {
        DelayTimer { value: 0 }
    }
}

impl Timer for DelayTimer {
    closed spec fn timer_value(&self) -> u8 {
        self.value
    }

    fn get_value(&self) -> u8 {
        self.value
    }

    fn set_value(&mut self, value: u8) {
        self.value = value;
    }

    fn update(&mut self) {
        if self.value > 0 {
            self.value = self.value - 1;
        }
    }
}

/// The sound timer: a countdown counter whose transition from 1 to 0
/// raises a beep signal that the caller polls.
pub struct SoundTimer {
    value: u8,
    beep: bool,
}

impl SoundTimer {
    /// A sound timer at zero, with no beep pending.
    pub fn new() -> (r: SoundTimer)
        ensures
            r.timer_value() == 0u8,
            !r.beep_signal(),
    {
        SoundTimer { value: 0, beep: false }
    }

    /// Whether the latest tick moved the counter from 1 to 0, as
    /// specifications see it.
    pub closed spec fn beep_signal(&self) -> bool {
        self.beep
    }

    /// Whether the latest tick moved the counter from 1 to 0 and a beep
    /// is therefore owed to the listener.
    pub fn beep(&self) -> (r: bool)
        ensures
            r == self.beep_signal(),
    {
        self.beep
    }
}

impl Timer for SoundTimer {
    closed spec fn timer_value(&self) -> u8 {
        self.value
    }

    fn get_value(&self) -> u8 {
        self.value
    }

    fn set_value(&mut self, value: u8)
        ensures
            final(self).beep_signal() == old(self).beep_signal(),
    {
        self.value = value;
    }

    fn update(&mut self)
        ensures
            final(self).beep_signal() == (old(self).timer_value() == 1u8),
    {
        self.beep = self.value == 1;
        if self.value > 0 {
            self.value = self.value - 1;
        }
    }
}

} // verus!
