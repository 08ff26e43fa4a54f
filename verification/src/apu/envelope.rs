use vstd::prelude::*;

verus! {

/// NES APU envelope generator
/// Controls the volume
#[derive(Debug, Clone, Copy)]
pub struct EnvelopeGenerator {
    /// start flag to reset envelope
    start: bool,
    /// constant volume mode flag
    constant_volume_flag: bool,
    /// whether the envelope should be looped
    loop_envelope: bool,
    /// timer for envelope decay
    divider: u8,
    /// volume for constant volume mode
    constant_volume: u8,
    /// initial divider value
    initial_divider: u8,
    /// represents current volume when not using constant volume mode
    decay_level_counter: u8,
}

/// The registers of an envelope generator.
pub struct EnvelopeState {
    pub start: bool,
    pub constant_volume_flag: bool,
    pub loop_envelope: bool,
    pub divider: u8,
    pub constant_volume: u8,
    pub initial_divider: u8,
    pub decay_level_counter: u8,
}

impl View for EnvelopeGenerator {
    type V = EnvelopeState;

    closed spec fn view(&self) -> EnvelopeState {
        EnvelopeState {
            start: self.start,
            constant_volume_flag: self.constant_volume_flag,
            loop_envelope: self.loop_envelope,
            divider: self.divider,
            constant_volume: self.constant_volume,
            initial_divider: self.initial_divider,
            decay_level_counter: self.decay_level_counter,
        }
    }
}

impl EnvelopeState {
    pub open spec fn initial() -> Self {
        EnvelopeState {
            start: false,
            constant_volume_flag: false,
            loop_envelope: false,
            divider: 0,
            constant_volume: 0,
            initial_divider: 0,
            decay_level_counter: 0,
        }
    }

    /// One clock of the envelope: a constant volume ignores it; a pending start reloads the
    /// divider and sets the decay level to 15; otherwise the divider counts down, and each time it
    /// runs out it is reloaded and the decay level steps down, wrapping to 15 when looping.
    pub open spec fn tick(self) -> Self {
        if self.constant_volume_flag {
            self
        } else if self.start {
            EnvelopeState {
                divider: self.initial_divider,
                decay_level_counter: 15,
                start: false,
                ..self
            }
        } else if self.divider > 0 {
            EnvelopeState { divider: (self.divider - 1) as u8, ..self }
        } else if self.decay_level_counter > 0 {
            EnvelopeState {
                divider: self.initial_divider,
                decay_level_counter: (self.decay_level_counter - 1) as u8,
                ..self
            }
        } else if self.loop_envelope {
            EnvelopeState { divider: self.initial_divider, decay_level_counter: 15, ..self }
        } else {
            EnvelopeState { divider: self.initial_divider, ..self }
        }
    }

    /// The volume the envelope outputs.
    pub open spec fn volume(self) -> u8 {
        if self.constant_volume_flag {
            self.constant_volume
        } else {
            self.decay_level_counter
        }
    }
}

/// The decay level never leaves 0..=15; with looping, it starts over at 15 once it ran down.
pub proof fn law_envelope_decay(s: EnvelopeState)
    requires
        s.decay_level_counter <= 15,
    ensures
        s.tick().decay_level_counter <= 15,
        !s.constant_volume_flag && !s.start && s.divider == 0 && s.decay_level_counter == 0 && s.loop_envelope
            ==> s.tick().decay_level_counter == 15,
        !s.constant_volume_flag ==> s.tick().volume() <= 15,
{
}

impl EnvelopeGenerator {
    /// create a new EnvelopeGenerator
    pub fn new() -> (r: Self)
        ensures
            r@ == EnvelopeState::initial(),
    {
        EnvelopeGenerator {
            start: false,
            constant_volume_flag: false,
            decay_level_counter: 0,
            loop_envelope: false,
            divider: 0,
            constant_volume: 0,
            initial_divider: 0,
        }
    }

    /// Tick the envelope generator
    pub fn tick(&mut self)
        ensures
            final(self)@ == old(self)@.tick(),
    {
        if self.constant_volume_flag {
            return;
        }
        if self.start {
            self.divider = self.initial_divider;
            self.decay_level_counter = 15;
            self.start = false;
            return;
        }
        if self.divider > 0 {
            self.divider = self.divider - 1;
            return;
        }
        self.divider = self.initial_divider;
        if self.decay_level_counter > 0 {
            self.decay_level_counter = self.decay_level_counter - 1;
            return;
        }
        if self.loop_envelope {
            self.decay_level_counter = 15;
        }
    }

    /// set volume for constant volume mode
    pub fn set_volume(&mut self, vol: u8)
        ensures
            final(self)@ == (EnvelopeState { constant_volume: vol, ..old(self)@ }),
    {
        self.constant_volume = vol;
    }

    /// set envelope divider
    pub fn set_envelope(&mut self, envelope: u8)
        ensures
            final(self)@ == (EnvelopeState { initial_divider: envelope, ..old(self)@ }),
    {
        self.initial_divider = envelope;
    }

    /// set whether the envelope should loop
    pub fn set_loop_envelope(&mut self, loop_envelope: bool)
        ensures
            final(self)@ == (EnvelopeState { loop_envelope, ..old(self)@ }),
    {
        self.loop_envelope = loop_envelope;
    }

    /// set the constant volume flag
    pub fn set_constant_volume(&mut self, constant_volume: bool)
        ensures
            final(self)@ == (EnvelopeState { constant_volume_flag: constant_volume, ..old(self)@ }),
    {
        self.constant_volume_flag = constant_volume;
    }

    /// reset envelope
    pub fn set_start(&mut self, start: bool)
        ensures
            final(self)@ == (EnvelopeState { start, ..old(self)@ }),
    {
        self.start = start;
    }

    /// get current volume
    pub fn get_volume(&self) -> (r: u8)
        ensures
            r == self@.volume(),
    {
        if self.constant_volume_flag {
            self.constant_volume
        } else {
            self.decay_level_counter
        }
    }
}

} // verus!
