use vstd::prelude::*;
use crate::apu::envelope::{EnvelopeGenerator, EnvelopeState};
use crate::apu::length_counter::{LengthCounter, LengthCounterState};
use crate::apu::timer::{Timer, timer_after};

verus! {

/// NTSC noise periods in CPU cycles, indexed by the four period bits.
pub open spec fn period_table() -> Seq<u16> {
    seq![4u16, 8, 16, 32, 64, 96, 128, 160, 202, 254, 380, 508, 762, 1016, 2034, 4068]
}

/// The shift register after one step: bit 0 is xored with bit 6 (loop mode) or bit 1, the
/// register shifts right and the result enters at bit 14.
pub open spec fn lfsr_step(register: u16, loop_mode: bool) -> u16 {
    let feed_back = (register & 1) ^ (if loop_mode { (register & 0x40) >> 6u16 } else { (register & 2) >> 1u16 });
    (register >> 1u16) | (feed_back << 14u16)
}

/// One step of the 15-bit shift register moves bits 1 to 14 down to bits 0 to 13 and feeds
/// bit 0 xor bit 6 (in loop mode) or bit 0 xor bit 1 (otherwise) into bit 14; the register
/// keeps to 15 bits.
pub proof fn law_lfsr_feedback(r: u16, loop_mode: bool)
    by (bit_vector)
    ensures
        lfsr_step(r, loop_mode) % 0x4000 == (r / 2) % 0x4000,
        r < 0x8000 ==> lfsr_step(r, loop_mode) < 0x8000,
        r < 0x8000 && loop_mode ==> (lfsr_step(r, loop_mode) / 0x4000 == 1 <==> r % 2 != (r / 64)
            % 2),
        r < 0x8000 && !loop_mode ==> (lfsr_step(r, loop_mode) / 0x4000 == 1 <==> r % 2 != (r / 2)
            % 2),
{
}

/// The pseudo-random noise channel.
pub struct NoiseGenerator {
    timer: Timer,
    length_counter: LengthCounter,
    envelope_generator: EnvelopeGenerator,
    loop_mode: bool,
    shift_register: u16,
}

/// The registers of the noise channel.
pub struct NoiseState {
    pub timer: Timer,
    pub length: LengthCounterState,
    pub envelope: EnvelopeState,
    pub loop_mode: bool,
    pub shift_register: u16,
}

impl View for NoiseGenerator {
    type V = NoiseState;

    closed spec fn view(&self) -> NoiseState {
        NoiseState {
            timer: self.timer,
            length: self.length_counter@,
            envelope: self.envelope_generator@,
            loop_mode: self.loop_mode,
            shift_register: self.shift_register,
        }
    }
}

impl NoiseState {
    pub open spec fn initial() -> Self {
        NoiseState {
            timer: Timer { timer_limit: 0, data: 0 },
            length: LengthCounterState { value: 0, halt: false, enabled: false },
            envelope: EnvelopeState::initial(),
            loop_mode: false,
            shift_register: 1,
        }
    }

    /// One timer clock: the shift register steps each time the timer runs out.
    pub open spec fn tick(self) -> Self {
        NoiseState {
            timer: Timer { data: timer_after(self.timer.timer_limit, self.timer.data, 1), ..self.timer },
            shift_register: if self.timer.data < 1 {
                lfsr_step(self.shift_register, self.loop_mode)
            } else {
                self.shift_register
            },
            ..self
        }
    }

    pub open spec fn tick_quarter_frame(self) -> Self {
        NoiseState { envelope: self.envelope.tick(), ..self }
    }

    pub open spec fn tick_half_frame(self) -> Self {
        NoiseState { envelope: self.envelope.tick(), length: self.length.tick(), ..self }
    }

    /// The timer counts half the table period, as the noise timer runs every other CPU cycle.
    pub open spec fn set_period(self, period: u8) -> Self {
        let limit = (period_table()[period as int] / 2) as u16;
        NoiseState { timer: Timer { timer_limit: limit, data: limit }, ..self }
    }

    pub open spec fn set_length_counter_value(self, value: u8) -> Self {
        NoiseState {
            length: self.length.set_length(value),
            envelope: EnvelopeState { start: true, ..self.envelope },
            ..self
        }
    }

    pub open spec fn set_envelope_parameters(self, envelope_loop: bool, constant_volume: bool, v: u8) -> Self {
        NoiseState {
            envelope: EnvelopeState {
                loop_envelope: envelope_loop,
                constant_volume_flag: constant_volume,
                start: true,
                constant_volume: if constant_volume { v } else { self.envelope.constant_volume },
                initial_divider: if constant_volume { self.envelope.initial_divider } else { v },
                ..self.envelope
            },
            ..self
        }
    }

    /// Silent while bit 0 of the shift register is set or the length counter is zero, else the
    /// envelope volume.
    pub open spec fn level(self) -> u8 {
        if self.shift_register & 1 == 1 || self.length.value == 0 {
            0
        } else {
            self.envelope.volume()
        }
    }
}

impl NoiseGenerator {
    pub fn new() -> (r: Self)
        ensures
            r@ == NoiseState::initial(),
    {
        NoiseGenerator {
            timer: Timer::new(),
            length_counter: LengthCounter::new(),
            envelope_generator: EnvelopeGenerator::new(),
            loop_mode: false,
            shift_register: 1,
        }
    }

    pub fn set_period(&mut self, period: u8)
        requires
            period < 16,
        ensures
            final(self)@ == old(self)@.set_period(period),
    {
        let table: [u16; 16] = [4, 8, 16, 32, 64, 96, 128, 160, 202, 254, 380, 508, 762, 1016, 2034, 4068];
        assert(table@ == period_table());
        let limit = table[period as usize] / 2; // noise is only ticked every other cpu cycle
        self.timer.timer_limit = limit;
        self.timer.data = limit;
    }

    pub fn set_loop_mode(&mut self, loop_mode: bool)
        ensures
            final(self)@ == (NoiseState { loop_mode, ..old(self)@ }),
    {
        self.loop_mode = loop_mode;
    }

    /// Loads the length counter from table entry `value` and restarts the envelope.
    pub fn set_length_counter_value(&mut self, value: u8)
        requires
            value < 32,
        ensures
            final(self)@ == old(self)@.set_length_counter_value(value),
    {
        self.length_counter.set_length(value);
        self.envelope_generator.set_start(true);
    }

    pub fn set_length_counter_halt(&mut self, halt: bool)
        ensures
            final(self)@ == (NoiseState { length: old(self)@.length.set_halt(halt), ..old(self)@ }),
    {
        self.length_counter.set_halt(halt);
    }

    pub fn set_length_counter_enabled(&mut self, enabled: bool)
        ensures
            final(self)@ == (NoiseState { length: old(self)@.length.set_enabled(enabled), ..old(self)@ }),
    {
        self.length_counter.set_enabled(enabled);
    }

    /// The channel is active while its length counter is not zero.
    pub fn is_active(&self) -> (r: bool)
        ensures
            r == (self@.length.value > 0),
    {
        self.length_counter.get_value() > 0
    }

    pub fn tick(&mut self)
        ensures
            final(self)@ == old(self)@.tick(),
    {
        if self.timer.tick(1) {
            let feed_back = (self.shift_register & 1) ^ if self.loop_mode {
                (self.shift_register & 0b0000_0000_0100_0000) >> 6u16
            } else {
                (self.shift_register & 0b0000_0000_0000_0010) >> 1u16
            };
            self.shift_register = self.shift_register >> 1u16;
            self.shift_register = self.shift_register | (feed_back << 14u16);
        }
    }

    pub fn tick_half_frame(&mut self)
        ensures
            final(self)@ == old(self)@.tick_half_frame(),
    {
        self.tick_quarter_frame();
        self.length_counter.tick();
    }

    pub fn tick_quarter_frame(&mut self)
        ensures
            final(self)@ == old(self)@.tick_quarter_frame(),
    {
        self.envelope_generator.tick();
    }

    pub fn set_envelope_parameters(&mut self, envelope_loop: bool, constant_volume: bool, volume_envelope: u8)
        ensures
            final(self)@ == old(self)@.set_envelope_parameters(envelope_loop, constant_volume, volume_envelope),
    {
        self.envelope_generator.set_loop_envelope(envelope_loop);
        self.envelope_generator.set_constant_volume(constant_volume);
        self.envelope_generator.set_start(true);
        if constant_volume {
            self.envelope_generator.set_volume(volume_envelope);
        } else {
            self.envelope_generator.set_envelope(volume_envelope)
        }
    }

    /// The output level.
    pub fn output_level(&self) -> (r: u8)
        ensures
            r == self@.level(),
    {
        if self.shift_register & 1 == 1 || self.length_counter.get_value() == 0 {
            return 0;
        }
        self.envelope_generator.get_volume()
    }
}

} // verus!
