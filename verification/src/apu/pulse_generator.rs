use vstd::prelude::*;
use crate::apu::envelope::{EnvelopeGenerator, EnvelopeState};
use crate::apu::length_counter::{LengthCounter, LengthCounterState};
use crate::apu::sweep_unit::{SweepUnit, SweepState};
use crate::apu::timer::{Timer, timer_after};

verus! {

/// Which of the two pulse channels a generator is; their sweep units negate differently.
#[derive(Debug, Eq, Copy, Clone, PartialEq, Structural)]
pub enum PulseGeneratorID {
    One,
    Two,
}

/// The output bit of duty cycle `duty` at step `position` of its eight-step sequence.
pub open spec fn duty_bit(duty: u8, position: int) -> u8 {
    let patterns = seq![
        seq![0u8, 1, 0, 0, 0, 0, 0, 0],
        seq![0u8, 1, 1, 0, 0, 0, 0, 0],
        seq![0u8, 1, 1, 1, 1, 0, 0, 0],
        seq![1u8, 0, 0, 1, 1, 1, 1, 1],
    ];
    patterns[duty as int][position]
}

/// How many of the first `n` steps of duty cycle `duty` are high.
pub open spec fn high_steps(duty: u8, n: nat) -> int
    decreases n,
{
    if n == 0 {
        0
    } else {
        high_steps(duty, (n - 1) as nat) + duty_bit(duty, n - 1)
    }
}

/// The four duty cycles are high for 1, 2, 4 and 6 of their 8 steps (12.5%, 25%, 50% and 75%),
/// each but the last starting its high part at step 1; the 75% cycle is the 25% cycle inverted.
pub proof fn law_duty_cycles()
    ensures
        high_steps(0, 8) == 1,
        high_steps(1, 8) == 2,
        high_steps(2, 8) == 4,
        high_steps(3, 8) == 6,
        forall|i: int| 0 <= i < 8 ==> #[trigger] duty_bit(3, i) == 1 - duty_bit(1, i),
        forall|d: u8, i: int| d < 3 && 0 <= i < 8 ==> (#[trigger] duty_bit(d, i) == 1 <==> 1 <= i <= (
        if d == 0 { 1int } else if d == 1 { 2 } else { 4 })),
{
    reveal_with_fuel(high_steps, 9);
    assert forall|d: u8, i: int| d < 3 && 0 <= i < 8 implies (#[trigger] duty_bit(d, i) == 1 <==> 1
        <= i <= (if d == 0 { 1int } else if d == 1 { 2 } else { 4 })) by {
        if d == 0 {
        } else if d == 1 {
        } else {
        }
    }
}

/// A square wave channel.
pub struct PulseGenerator {
    timer: Timer,
    sweep_unit: SweepUnit,
    pulse_generator_id: PulseGeneratorID,
    envelope_generator: EnvelopeGenerator,
    length_counter: LengthCounter,
    duty: u8,
    duty_position: usize,
}

/// The registers of a pulse channel.
pub struct PulseState {
    pub timer: Timer,
    pub sweep: SweepState,
    pub id: PulseGeneratorID,
    pub envelope: EnvelopeState,
    pub length: LengthCounterState,
    pub duty: u8,
    pub duty_position: usize,
}

impl View for PulseGenerator {
    type V = PulseState;

    closed spec fn view(&self) -> PulseState {
        PulseState {
            timer: self.timer,
            sweep: self.sweep_unit@,
            id: self.pulse_generator_id,
            envelope: self.envelope_generator@,
            length: self.length_counter@,
            duty: self.duty,
            duty_position: self.duty_position,
        }
    }
}

impl PulseState {
    pub open spec fn initial(id: PulseGeneratorID) -> Self {
        PulseState {
            timer: Timer { timer_limit: 0, data: 0 },
            sweep: SweepState {
                enabled: false,
                divider_period: 0,
                divider_value: 0,
                negate: false,
                shift: 0,
                reload: false,
                pulse_generator_id: id,
            },
            id,
            envelope: EnvelopeState::initial(),
            length: LengthCounterState { value: 0, halt: false, enabled: false },
            duty: 0,
            duty_position: 0,
        }
    }

    /// The sequencer stays inside its eight steps.
    pub open spec fn wf(self) -> bool {
        self.duty_position < 8
    }

    pub open spec fn set_length_counter_value(self, value: u8) -> Self {
        PulseState {
            length: self.length.set_length(value),
            envelope: EnvelopeState { start: true, ..self.envelope },
            ..self
        }
    }

    pub open spec fn set_timer_lower(self, t: u8) -> Self {
        PulseState {
            timer: Timer {
                data: (self.timer.data & 0xFF00) | (t as u16),
                timer_limit: (self.timer.timer_limit & 0xFF00) | (t as u16),
            },
            ..self
        }
    }

    pub open spec fn set_timer_upper(self, t: u8) -> Self {
        PulseState {
            timer: Timer {
                data: (self.timer.data & 0x00FF) | ((t as u16) << 8u16),
                timer_limit: (self.timer.timer_limit & 0x00FF) | ((t as u16) << 8u16),
            },
            ..self
        }
    }

    /// One timer clock: the sequencer advances each time the timer runs out.
    pub open spec fn tick(self) -> Self {
        PulseState {
            timer: Timer { data: timer_after(self.timer.timer_limit, self.timer.data, 1), ..self.timer },
            duty_position: if self.timer.data < 1 { ((self.duty_position + 1) % 8) as usize } else { self.duty_position },
            ..self
        }
    }

    pub open spec fn tick_quarter_frame(self) -> Self {
        PulseState { envelope: self.envelope.tick(), ..self }
    }

    /// The envelope and length counter are clocked, and the sweep unit updates the period.
    pub open spec fn tick_half_frame(self) -> Self {
        PulseState {
            envelope: self.envelope.tick(),
            length: self.length.tick(),
            sweep: self.sweep.tick(),
            timer: Timer { data: self.sweep.tick_period(self.timer.data), ..self.timer },
            ..self
        }
    }

    pub open spec fn set_sweep_parameters(self, enabled: bool, negate: bool, shift: u8, period: u8) -> Self {
        PulseState {
            sweep: SweepState {
                enabled,
                negate,
                shift,
                divider_period: (period + 1) as u8,
                reload: true,
                ..self.sweep
            },
            ..self
        }
    }

    /// Loop flag, constant-volume flag and a volume (constant mode) or divider period (envelope
    /// mode); the envelope restarts.
    pub open spec fn set_envelope_parameters(self, envelope_loop: bool, constant_volume: bool, v: u8) -> Self {
        PulseState {
            envelope: EnvelopeState {
                loop_envelope: envelope_loop,
                constant_volume_flag: constant_volume,
                start: true,
                constant_volume: if constant_volume { v } else { self.envelope.constant_volume },
                initial_divider: if constant_volume { self.envelope.initial_divider } else { v },
                ..self.envelope
            },
            ..self
        }
    }

    /// A write of `DDLC VVVV`: duty, envelope loop and length counter halt, constant volume,
    /// volume or envelope period.
    pub open spec fn write_dlcv(self, value: u8) -> Self {
        let l = value & 0x20 != 0;
        PulseState {
            duty: (value & 0xC0) >> 6u8,
            length: self.length.set_halt(l),
            ..self
        }.set_envelope_parameters(l, value & 0x10 != 0, value & 0x0F)
    }

    /// A write of `EPPP NSSS`: sweep enabled, divider period, negate, shift.
    pub open spec fn write_epns(self, value: u8) -> Self {
        self.set_sweep_parameters(value & 0x80 != 0, value & 0x08 != 0, value & 7, (value & 0x70) >> 4u8)
    }

    /// The level the channel outputs: the envelope volume while the duty bit is set.
    pub open spec fn level(self) -> u8 {
        if self.length.value == 0 && !self.length.halt {
            0
        } else {
            if duty_bit(self.duty, self.duty_position as int) == 0 { 0 } else { self.envelope.volume() }
        }
    }
}

impl PulseGenerator {
    pub fn new(pulse_generator_id: PulseGeneratorID) -> (r: PulseGenerator)
        ensures
            r@ == PulseState::initial(pulse_generator_id),
    {
        PulseGenerator {
            timer: Timer::new(),
            sweep_unit: SweepUnit::new(pulse_generator_id),
            envelope_generator: EnvelopeGenerator::new(),
            length_counter: LengthCounter::new(),
            pulse_generator_id,
            duty: 0,
            duty_position: 0,
        }
    }

    pub fn set_duty(&mut self, value: u8)
        ensures
            final(self)@ == (PulseState { duty: value, ..old(self)@ }),
    {
        self.duty = value;
    }

    /// Loads the length counter from table entry `value` and restarts the envelope.
    pub fn set_length_counter_value(&mut self, value: u8)
        requires
            value < 32,
        ensures
            final(self)@ == old(self)@.set_length_counter_value(value),
    {
        self.length_counter.set_length(value);
        self.envelope_generator.set_start(true);
    }

    pub fn set_length_counter_halt(&mut self, halt: bool)
        ensures
            final(self)@ == (PulseState { length: old(self)@.length.set_halt(halt), ..old(self)@ }),
    {
        self.length_counter.set_halt(halt);
    }

    pub fn set_length_counter_enabled(&mut self, enabled: bool)
        ensures
            final(self)@ == (PulseState { length: old(self)@.length.set_enabled(enabled), ..old(self)@ }),
    {
        self.length_counter.set_enabled(enabled);
    }

    /// Sets the low byte of the period.
    pub fn set_timer_lower(&mut self, timer: u8)
        ensures
            final(self)@ == old(self)@.set_timer_lower(timer),
    {
        self.timer.data = (self.timer.data & 0xFF00) | timer as u16;
        self.timer.timer_limit = (self.timer.timer_limit & 0xFF00) | timer as u16;
    }

    /// Sets the high byte of the period.
    pub fn set_timer_upper(&mut self, timer: u8)
        ensures
            final(self)@ == old(self)@.set_timer_upper(timer),
    {
        self.timer.data = (self.timer.data & 0x00FF) | ((timer as u16) << 8u16);
        self.timer.timer_limit = (self.timer.timer_limit & 0x00FF) | ((timer as u16) << 8u16);
    }

    /// The channel is active while its length counter is not zero.
    pub fn is_active(&self) -> (r: bool)
        ensures
            r == (self@.length.value > 0),
    {
        self.length_counter.get_value() > 0
    }

    pub fn tick(&mut self)
        requires
            old(self)@.wf(),
        ensures
            final(self)@ == old(self)@.tick(),
            final(self)@.wf(),
    {
        if self.timer.tick(1) {
            self.duty_position = (self.duty_position + 1) % 8;
        }
    }

    pub fn tick_half_frame(&mut self)
        requires
            old(self)@.sweep.shift < 16,
        ensures
            final(self)@ == old(self)@.tick_half_frame(),
    {
        self.tick_quarter_frame();
        self.length_counter.tick();
        self.timer.data = self.sweep_unit.tick(self.timer.data);
    }

    pub fn tick_quarter_frame(&mut self)
        ensures
            final(self)@ == old(self)@.tick_quarter_frame(),
    {
        self.envelope_generator.tick();
    }

    /// The output level: silent once the length counter muted the channel, else the envelope
    /// volume while the current duty bit is set.
    pub fn output_level(&self) -> (r: u8)
        requires
            self@.wf(),
            self@.duty < 4,
        ensures
            r == self@.level(),
    {
        if self.length_counter.should_mute() {
            return 0;
        }
        let patterns: [[u8; 8]; 4] = [
            [0, 1, 0, 0, 0, 0, 0, 0], // 12.5% duty
            [0, 1, 1, 0, 0, 0, 0, 0], // 25% duty
            [0, 1, 1, 1, 1, 0, 0, 0], // 50% duty
            [1, 0, 0, 1, 1, 1, 1, 1], // 75% duty
        ];
        let pattern = patterns[self.duty as usize];
        let bit = pattern[self.duty_position];
        assert(bit == duty_bit(self.duty, self.duty_position as int)) by {
            assert(patterns@[self.duty as int]@ == seq![
                seq![0u8, 1, 0, 0, 0, 0, 0, 0],
                seq![0u8, 1, 1, 0, 0, 0, 0, 0],
                seq![0u8, 1, 1, 1, 1, 0, 0, 0],
                seq![1u8, 0, 0, 1, 1, 1, 1, 1],
            ][self.duty as int]);
        }
        if bit == 0 { 0 } else { self.envelope_generator.get_volume() }
    }

    pub fn set_sweep_parameters(&mut self, enabled: bool, negate: bool, shift: u8, period: u8)
        requires
            period < 255,
        ensures
            final(self)@ == old(self)@.set_sweep_parameters(enabled, negate, shift, period),
    {
        self.sweep_unit.set_enable(enabled);
        self.sweep_unit.set_negate(negate);
        self.sweep_unit.set_shift(shift);
        self.sweep_unit.set_divider_period(period);
    }

    pub fn set_envelope_parameters(&mut self, envelope_loop: bool, constant_volume: bool, volume_envelope: u8)
        ensures
            final(self)@ == old(self)@.set_envelope_parameters(envelope_loop, constant_volume, volume_envelope),
    {
        self.envelope_generator.set_loop_envelope(envelope_loop);
        self.envelope_generator.set_constant_volume(constant_volume);
        self.envelope_generator.set_start(true);
        if constant_volume {
            self.envelope_generator.set_volume(volume_envelope);
        } else {
            self.envelope_generator.set_envelope(volume_envelope)
        }
    }
}

} // verus!
