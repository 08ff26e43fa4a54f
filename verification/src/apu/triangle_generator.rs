use vstd::prelude::*;
use crate::apu::length_counter::{LengthCounter, LengthCounterState};
use crate::apu::timer::{Timer, timer_after};

verus! {

/// The triangle's 32-step sequence: 15 down to 0, then 0 up to 15.
pub open spec fn sequencer_value(index: int) -> u8 {
    if index < 16 { (15 - index) as u8 } else { (index - 16) as u8 }
}

/// The triangle wave channel.
pub struct TriangleGenerator {
    timer: Timer,
    length_counter: LengthCounter,
    counter_reload: bool,
    counter_reload_value: u8,
    control_flag: bool,
    counter: u8,
    current_sequencer_index: usize,
}

/// The registers of the triangle channel; `counter` is its linear counter.
pub struct TriangleState {
    pub timer: Timer,
    pub length: LengthCounterState,
    pub counter_reload: bool,
    pub counter_reload_value: u8,
    pub control_flag: bool,
    pub counter: u8,
    pub sequencer_index: usize,
}

impl View for TriangleGenerator {
    type V = TriangleState;

    closed spec fn view(&self) -> TriangleState {
        TriangleState {
            timer: self.timer,
            length: self.length_counter@,
            counter_reload: self.counter_reload,
            counter_reload_value: self.counter_reload_value,
            control_flag: self.control_flag,
            counter: self.counter,
            sequencer_index: self.current_sequencer_index,
        }
    }
}

impl TriangleState {
    pub open spec fn initial() -> Self {
        TriangleState {
            timer: Timer { timer_limit: 0, data: 0 },
            length: LengthCounterState { value: 0, halt: false, enabled: false },
            counter_reload: false,
            counter_reload_value: 0,
            control_flag: false,
            counter: 0,
            sequencer_index: 0,
        }
    }

    /// The sequencer stays inside its 32 steps.
    pub open spec fn wf(self) -> bool {
        self.sequencer_index < 32
    }

    /// One timer clock: the sequencer advances when the timer runs out while both counters
    /// are non-zero.
    pub open spec fn tick(self) -> Self {
        TriangleState {
            timer: Timer { data: timer_after(self.timer.timer_limit, self.timer.data, 1), ..self.timer },
            sequencer_index: if self.timer.data < 1 && self.counter != 0 && self.length.value != 0 {
                ((self.sequencer_index + 1) % 32) as usize
            } else {
                self.sequencer_index
            },
            ..self
        }
    }

    /// The linear counter reloads while the reload flag is set, else counts down; the flag is
    /// cleared unless the control flag is set.
    pub open spec fn tick_quarter_frame(self) -> Self {
        TriangleState {
            counter: if self.counter_reload {
                self.counter_reload_value
            } else if self.counter > 0 {
                (self.counter - 1) as u8
            } else {
                0
            },
            counter_reload: if !self.control_flag { false } else { self.counter_reload },
            ..self
        }
    }

    pub open spec fn tick_half_frame(self) -> Self {
        TriangleState { length: self.length.tick(), ..self.tick_quarter_frame() }
    }

    pub open spec fn set_timer_lower(self, t: u8) -> Self {
        TriangleState {
            timer: Timer {
                data: (self.timer.data & 0xFF00) | (t as u16),
                timer_limit: (self.timer.timer_limit & 0xFF00) | (t as u16),
            },
            ..self
        }
    }

    pub open spec fn set_timer_upper(self, t: u8) -> Self {
        TriangleState {
            timer: Timer {
                data: (self.timer.data & 0x00FF) | ((t as u16) << 8u16),
                timer_limit: (self.timer.timer_limit & 0x00FF) | ((t as u16) << 8u16),
            },
            ..self
        }
    }

    pub open spec fn set_length_counter_value(self, value: u8) -> Self {
        TriangleState { length: self.length.set_length(value), counter_reload: true, ..self }
    }

    /// The level the channel outputs, from 0 to 15: silent while either counter is zero or the
    /// period is under 2, else the current step of the sequence.
    pub open spec fn level(self) -> u8 {
        if self.counter == 0 || self.length.value == 0 || self.timer.timer_limit < 2 {
            0
        } else {
            sequencer_value(self.sequencer_index as int)
        }
    }
}

/// The 32 levels of the triangle wave, step by step.
pub open spec fn triangle_wave() -> Seq<u8> {
    seq![
        15u8, 14, 13, 12, 11, 10, 9, 8, 7, 6, 5, 4, 3, 2, 1, 0,
        0, 1, 2, 3, 4, 5, 6, 7, 8, 9, 10, 11, 12, 13, 14, 15,
    ]
}

/// While both counters are running and the period is at least 2, the channel outputs a
/// triangle: the level falls from 15 to 0 over the first 16 steps and climbs back from 0 to 15
/// over the last 16, one unit per step.
pub proof fn law_triangle_shape(s: TriangleState)
    requires
        s.wf(),
        s.counter != 0,
        s.length.value != 0,
        s.timer.timer_limit >= 2,
    ensures
        s.level() == triangle_wave()[s.sequencer_index as int],
        s.sequencer_index < 16 ==> s.level() == 15 - s.sequencer_index,
        s.sequencer_index >= 16 ==> s.level() == s.sequencer_index - 16,
        16 <= s.sequencer_index < 31 ==> ({
            let next = TriangleState { sequencer_index: (s.sequencer_index + 1) as usize, ..s };
            next.level() == s.level() + 1
        }),
{
    let i = s.sequencer_index as int;
    assert(triangle_wave().len() == 32);
    assert(triangle_wave()[i] == if i < 16 { 15 - i } else { i - 16 });
}

impl TriangleGenerator {
    pub fn new() -> (r: Self)
        ensures
            r@ == TriangleState::initial(),
    {
        TriangleGenerator {
            timer: Timer::new(),
            length_counter: LengthCounter::new(),
            counter_reload: false,
            counter_reload_value: 0,
            control_flag: false,
            counter: 0,
            current_sequencer_index: 0,
        }
    }

    pub fn set_control_flag(&mut self, value: bool)
        ensures
            final(self)@ == (TriangleState { control_flag: value, ..old(self)@ }),
    {
        self.control_flag = value;
    }

    pub fn set_counter_reload_value(&mut self, value: u8)
        ensures
            final(self)@ == (TriangleState { counter_reload_value: value, ..old(self)@ }),
    {
        self.counter_reload_value = value;
    }

    /// Sets the low byte of the period.
    pub fn set_timer_lower(&mut self, timer: u8)
        ensures
            final(self)@ == old(self)@.set_timer_lower(timer),
    {
        self.timer.data = (self.timer.data & 0xFF00) | timer as u16;
        self.timer.timer_limit = (self.timer.timer_limit & 0xFF00) | timer as u16;
    }

    /// Sets the high byte of the period.
    pub fn set_timer_upper(&mut self, timer: u8)
        ensures
            final(self)@ == old(self)@.set_timer_upper(timer),
    {
        self.timer.data = (self.timer.data & 0x00FF) | ((timer as u16) << 8u16);
        self.timer.timer_limit = (self.timer.timer_limit & 0x00FF) | ((timer as u16) << 8u16);
    }

    /// Loads the length counter from table entry `value` and sets the linear counter's reload flag.
    pub fn set_length_counter_value(&mut self, value: u8)
        requires
            value < 32,
        ensures
            final(self)@ == old(self)@.set_length_counter_value(value),
    {
        self.length_counter.set_length(value);
        self.counter_reload = true;
    }

    pub fn set_length_counter_halt(&mut self, halt: bool)
        ensures
            final(self)@ == (TriangleState { length: old(self)@.length.set_halt(halt), ..old(self)@ }),
    {
        self.length_counter.set_halt(halt);
    }

    pub fn set_length_counter_enabled(&mut self, enabled: bool)
        ensures
            final(self)@ == (TriangleState { length: old(self)@.length.set_enabled(enabled), ..old(self)@ }),
    {
        self.length_counter.set_enabled(enabled);
    }

    /// The channel is active while its length counter is not zero.
    pub fn is_active(&self) -> (r: bool)
        ensures
            r == (self@.length.value > 0),
    {
        self.length_counter.get_value() > 0
    }

    pub fn tick(&mut self)
        requires
            old(self)@.wf(),
        ensures
            final(self)@ == old(self)@.tick(),
            final(self)@.wf(),
    {
        if self.timer.tick(1) && self.counter != 0 && self.length_counter.get_value() != 0 {
            self.current_sequencer_index = self.current_sequencer_index + 1;
            self.current_sequencer_index = self.current_sequencer_index % 32;
        }
    }

    pub fn tick_half_frame(&mut self)
        ensures
            final(self)@ == old(self)@.tick_half_frame(),
    {
        self.tick_quarter_frame();
        self.length_counter.tick();
    }

    pub fn tick_quarter_frame(&mut self)
        ensures
            final(self)@ == old(self)@.tick_quarter_frame(),
    {
        if self.counter_reload {
            self.counter = self.counter_reload_value;
        } else if self.counter > 0 {
            self.counter = self.counter - 1;
        }
        if !self.control_flag {
            self.counter_reload = false;
        }
    }

    /// The output level, from 0 to 15.
    pub fn output_level(&self) -> (r: u8)
        requires
            self@.wf(),
        ensures
            r == self@.level(),
    {
        if self.counter == 0 || self.length_counter.get_value() == 0 {
            return 0;
        }
        if self.timer.timer_limit < 2 {
            return 0;
        }
        if self.current_sequencer_index < 16 {
            15 - self.current_sequencer_index as u8
        } else {
            self.current_sequencer_index as u8 - 16
        }
    }
}

} // verus!
