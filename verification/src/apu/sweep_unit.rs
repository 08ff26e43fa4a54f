use vstd::prelude::*;
use crate::apu::pulse_generator::PulseGeneratorID;

verus! {

/// Periodically bends the period of a pulse channel up or down.
#[derive(Debug, Clone, Copy)]
pub struct SweepUnit {
    enabled: bool,
    divider_period: u8,
    divider_value: u8,
    negate: bool,
    shift: u8,
    reload: bool,
    pulse_generator_id: PulseGeneratorID,
}

/// The registers of a sweep unit.
pub struct SweepState {
    pub enabled: bool,
    pub divider_period: u8,
    pub divider_value: u8,
    pub negate: bool,
    pub shift: u8,
    pub reload: bool,
    pub pulse_generator_id: PulseGeneratorID,
}

impl View for SweepUnit {
    type V = SweepState;

    closed spec fn view(&self) -> SweepState {
        SweepState {
            enabled: self.enabled,
            divider_period: self.divider_period,
            divider_value: self.divider_value,
            negate: self.negate,
            shift: self.shift,
            reload: self.reload,
            pulse_generator_id: self.pulse_generator_id,
        }
    }
}

impl SweepState {
    /// The period the sweep aims at: the current period plus or minus itself shifted right.
    /// Negation stops at zero, and on pulse channel one subtracts one more (ones' complement).
    pub open spec fn target_period(self, current: u16) -> u16 {
        let change = current >> self.shift;
        if self.negate {
            let negated = if current >= change { (current - change) as u16 } else { 0u16 };
            if self.pulse_generator_id == PulseGeneratorID::One {
                if negated >= 1 { (negated - 1) as u16 } else { 0u16 }
            } else {
                negated
            }
        } else {
            ((current + change) % 0x10000) as u16
        }
    }

    /// The channel is silenced for periods under 8 or a target period over 0x7FF.
    pub open spec fn mutes(self, current: u16) -> bool {
        current < 8 || self.target_period(current) > 0x7FF
    }

    /// The divider value after one clock, before a possible reload by the period update.
    pub open spec fn counted_down(self) -> u8 {
        if self.divider_value > 0 { (self.divider_value - 1) as u8 } else { 0 }
    }

    /// Whether a clock that does not reload changes the period.
    pub open spec fn fires(self) -> bool {
        self.counted_down() == 0 && self.enabled && self.shift != 0
    }

    /// The state after one clock.
    pub open spec fn tick(self) -> Self {
        if self.reload {
            SweepState { divider_value: self.divider_period, reload: false, ..self }
        } else if self.fires() {
            SweepState { divider_value: self.divider_period, ..self }
        } else {
            SweepState { divider_value: self.counted_down(), ..self }
        }
    }

    /// The period after one clock.
    pub open spec fn tick_period(self, current: u16) -> u16 {
        if !self.reload && self.fires() && !self.mutes(current) {
            self.target_period(current)
        } else {
            current
        }
    }
}

/// A sweep that mutes the channel never changes its period.
pub proof fn law_muting_sweep_keeps_period(s: SweepState, current: u16)
    requires
        s.mutes(current),
    ensures
        s.tick_period(current) == current,
{
}

/// The two pulse channels sweep alike except when negating: channel one's target is one lower
/// than channel two's (never under zero). A negating sweep never raises the period and an adding
/// sweep never lowers it (while the sum fits in 16 bits).
pub proof fn law_sweep_targets(s: SweepState, current: u16)
    ensures
        ({
            let one = SweepState { pulse_generator_id: PulseGeneratorID::One, ..s };
            let two = SweepState { pulse_generator_id: PulseGeneratorID::Two, ..s };
            &&& s.negate ==> one.target_period(current) == (if two.target_period(current) >= 1 {
                two.target_period(current) - 1
            } else {
                0
            })
            &&& !s.negate ==> one.target_period(current) == two.target_period(current)
            &&& s.negate ==> s.target_period(current) <= current
            &&& !s.negate && current as int + (current >> s.shift) as int <= 0xFFFF
                ==> s.target_period(current) == current + (current >> s.shift)
            &&& !s.negate && current as int + (current >> s.shift) as int <= 0xFFFF
                ==> s.target_period(current) >= current
        }),
{
}

impl SweepUnit {
    pub fn new(pulse_generator_id: PulseGeneratorID) -> (r: Self)
        ensures
            r@ == (SweepState {
                enabled: false,
                divider_period: 0,
                divider_value: 0,
                negate: false,
                shift: 0,
                reload: false,
                pulse_generator_id,
            }),
    {
        SweepUnit {
            enabled: false,
            divider_period: 0,
            divider_value: 0,
            negate: false,
            shift: 0,
            reload: false,
            pulse_generator_id,
        }
    }

    pub fn set_enabled(&mut self, enabled: bool)
        ensures
            final(self)@ == (SweepState { enabled, reload: true, ..old(self)@ }),
    {
        self.enabled = enabled;
        self.reload = true;
    }

    /// The divider counts `divider + 1` clocks.
    pub fn set_divider_period(&mut self, divider: u8)
        requires
            divider < 255,
        ensures
            final(self)@ == (SweepState { divider_period: (divider + 1) as u8, reload: true, ..old(self)@ }),
    {
        self.divider_period = divider + 1;
        self.reload = true;
    }

    pub fn set_negate(&mut self, negate: bool)
        ensures
            final(self)@ == (SweepState { negate, reload: true, ..old(self)@ }),
    {
        self.negate = negate;
        self.reload = true;
    }

    pub fn set_enable(&mut self, enabled: bool)
        ensures
            final(self)@ == (SweepState { enabled, reload: true, ..old(self)@ }),
    {
        self.enabled = enabled;
        self.reload = true;
    }

    pub fn set_shift(&mut self, shift: u8)
        ensures
            final(self)@ == (SweepState { shift, reload: true, ..old(self)@ }),
    {
        self.shift = shift;
        self.reload = true;
    }

    /// Clocks the sweep unit and returns the channel's new period.
    pub fn tick(&mut self, current_time: u16) -> (r: u16)
        requires
            old(self)@.shift < 16,
        ensures
            final(self)@ == old(self)@.tick(),
            r == old(self)@.tick_period(current_time),
    {
        if self.reload {
            self.divider_value = self.divider_period;
            self.reload = false;
            return current_time;
        } else if self.divider_value > 0 {
            self.divider_value = self.divider_value - 1;
        }
        if self.divider_value == 0 && self.enabled && self.shift != 0 {
            self.divider_value = self.divider_period;
            if !self.should_mute(current_time) {
                return self.calculate_period(current_time);
            }
        }
        current_time
    }

    fn calculate_period(&self, current_period: u16) -> (r: u16)
        requires
            self@.shift < 16,
        ensures
            r == self@.target_period(current_period),
    {
        let change_amount = current_period >> self.shift;
        if self.negate {
            let negate = current_period.saturating_sub(change_amount);
            if self.pulse_generator_id == PulseGeneratorID::One {
                negate.saturating_sub(1)
            } else {
                negate
            }
        } else {
            current_period.wrapping_add(change_amount)
        }
    }

    /// Whether the sweep silences the channel at period `current_period`.
    pub fn should_mute(&self, current_period: u16) -> (r: bool)
        requires
            self@.shift < 16,
        ensures
            r == self@.mutes(current_period),
    {
        current_period < 8 || self.calculate_period(current_period) > 0x7FF
    }
}

} // verus!
