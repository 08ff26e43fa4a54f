use vstd::prelude::*;

verus! {

/// The length counter load values, indexed by the five bits written to a channel.
pub open spec fn length_table() -> Seq<u8> {
    seq![
        10u8, 254, 20, 2, 40, 4, 80, 6, 160, 8, 60, 10, 14, 12, 26, 14, 12, 16, 24, 18, 48, 20, 96,
        22, 192, 24, 72, 26, 16, 28, 32, 30,
    ]
}

/// Silences a channel once a given number of half frames has passed.
#[derive(Debug, Clone, Copy)]
pub struct LengthCounter {
    value: u8,
    halt: bool,
    enabled: bool,
}

/// What a length counter holds: its count, whether it is halted and whether it is enabled.
pub struct LengthCounterState {
    pub value: u8,
    pub halt: bool,
    pub enabled: bool,
}

impl View for LengthCounter {
    type V = LengthCounterState;

    closed spec fn view(&self) -> LengthCounterState {
        LengthCounterState { value: self.value, halt: self.halt, enabled: self.enabled }
    }
}

impl LengthCounterState {
    /// A disabled counter holds zero.
    pub open spec fn inv(self) -> bool {
        !self.enabled ==> self.value == 0
    }

    pub open spec fn set_length(self, index: u8) -> Self {
        if self.enabled {
            LengthCounterState { value: length_table()[index as int], ..self }
        } else {
            self
        }
    }

    pub open spec fn set_halt(self, halt: bool) -> Self {
        LengthCounterState { halt, ..self }
    }

    pub open spec fn set_enabled(self, enabled: bool) -> Self {
        LengthCounterState { enabled, value: if enabled { self.value } else { 0 }, ..self }
    }

    pub open spec fn tick(self) -> Self {
        if self.value > 0 && !self.halt {
            LengthCounterState { value: (self.value - 1) as u8, ..self }
        } else {
            self
        }
    }
}

/// A disabled length counter holds zero, whatever is done to it.
pub proof fn law_disabled_counter_is_zero(s: LengthCounterState, index: u8, halt: bool, enabled: bool)
    requires
        s.inv(),
    ensures
        s.set_length(index).inv(),
        s.set_halt(halt).inv(),
        s.set_enabled(enabled).inv(),
        s.tick().inv(),
        !enabled ==> s.set_enabled(enabled).value == 0,
{
}

impl LengthCounter {
    pub fn new() -> (r: Self)
        ensures
            r@ == (LengthCounterState { value: 0, halt: false, enabled: false }),
    {
        LengthCounter { value: 0, halt: false, enabled: false }
    }

    /// Loads the counter from the table entry `value`, only while the counter is enabled.
    pub fn set_length(&mut self, value: u8)
        requires
            value < 32,
        ensures
            final(self)@ == old(self)@.set_length(value),
    {
        if self.enabled {
            let table: [u8; 32] = [
                10, 254, 20, 2, 40, 4, 80, 6, 160, 8, 60, 10, 14, 12, 26, 14, 12, 16, 24, 18, 48,
                20, 96, 22, 192, 24, 72, 26, 16, 28, 32, 30,
            ];
            assert(table@ == length_table());
            self.value = table[value as usize];
        }
    }

    pub fn set_halt(&mut self, halt: bool)
        ensures
            final(self)@ == old(self)@.set_halt(halt),
    {
        self.halt = halt;
    }

    /// Enables or disables the counter; disabling it clears the count.
    pub fn set_enabled(&mut self, enabled: bool)
        ensures
            final(self)@ == old(self)@.set_enabled(enabled),
    {
        self.enabled = enabled;
        if !enabled {
            self.value = 0;
        }
    }

    pub fn get_value(&self) -> (r: u8)
        ensures
            r == self@.value,
    {
        self.value
    }

    pub fn is_halted(&self) -> (r: bool)
        ensures
            r == self@.halt,
    {
        self.halt
    }

    /// The channel is silenced when the count reached zero and the counter is not halted.
    pub fn should_mute(&self) -> (r: bool)
        ensures
            r == (self@.value == 0 && !self@.halt),
    {
        self.value == 0 && !self.is_halted()
    }

    /// Counts down by one unless halted or already at zero.
    pub fn tick(&mut self)
        ensures
            final(self)@ == old(self)@.tick(),
    {
        if self.value > 0 && !self.halt {
            self.value = self.value - 1;
        }
    }
}

} // verus!
