use vstd::prelude::*;

verus! {

/// The eight buttons of a standard NES controller, one bit each.
#[derive(Clone, Copy, Debug, PartialEq, Eq, Structural)]
pub struct ControllerButtons {
    pub bits: u8,
}

impl ControllerButtons {
    pub const RIGHT: u8 = 0b1000_0000;
    pub const LEFT: u8 = 0b0100_0000;
    pub const DOWN: u8 = 0b0010_0000;
    pub const UP: u8 = 0b0001_0000;
    pub const START: u8 = 0b0000_1000;
    pub const SELECT: u8 = 0b0000_0100;
    pub const B: u8 = 0b0000_0010;
    pub const A: u8 = 0b0000_0001;

    pub fn empty() -> (r: Self)
        ensures
            r.bits == 0,
    {
        ControllerButtons { bits: 0 }
    }

    pub fn bits(&self) -> (r: u8)
        ensures
            r == self.bits,
    {
        self.bits
    }

    /// Sets (`value == true`) or clears the bits of `flags`.
    pub fn set(&mut self, flags: u8, value: bool)
        ensures
            final(self).bits == (if value { old(self).bits | flags } else { old(self).bits & !flags }),
    {
        if value {
            self.bits = self.bits | flags;
        } else {
            self.bits = self.bits & !flags;
        }
    }
}

} // verus!

verus! {

/// A button of one of the two controllers changing state: pressed (`true`) or released.
#[derive(Clone, Copy, Debug, PartialEq, Eq, Structural)]
pub enum ControllerInput {
    Controller1(bool, ControllerButtons),
    Controller2(bool, ControllerButtons),
}

/// A standard NES controller as the CPU sees it: while strobe is on, reads report button A;
/// once it is off, successive reads report A, B, Select, Start, Up, Down, Left, Right and then 1.
#[derive(Debug, Clone)]
pub struct Controller {
    pub strobe: bool,
    pub button_index: u8,
    pub button_state: ControllerButtons,
}

/// The value a read of `c` returns.
pub open spec fn spec_read_value(c: Controller) -> u8 {
    if c.button_index > 7 {
        1
    } else {
        (c.button_state.bits >> c.button_index) & 1
    }
}

/// The button index after a read of `c`.
pub open spec fn spec_index_after_read(c: Controller) -> u8 {
    if c.button_index <= 7 && !c.strobe {
        (c.button_index + 1) as u8
    } else {
        c.button_index
    }
}

/// While strobe is on, every read reports button A and the report stays at button A.
pub proof fn law_strobe_reports_a(c: Controller)
    requires
        c.strobe,
        c.button_index == 0,
    ensures
        spec_read_value(c) == c.button_state.bits & 1,
        spec_index_after_read(c) == 0,
{
    crate::bits::lemma_u8_bits(c.button_state.bits);
}

/// With strobe off, a read reports the current button and moves on to the next; past the
/// eighth button reads report 1 and the report stays there.
pub proof fn law_serial_report(c: Controller)
    requires
        !c.strobe,
    ensures
        c.button_index <= 7 ==> spec_read_value(c) == (c.button_state.bits >> c.button_index) & 1
            && spec_index_after_read(c) == c.button_index + 1,
        c.button_index > 7 ==> spec_read_value(c) == 1 && spec_index_after_read(c) == c.button_index,
{
}

impl Controller {
    pub fn new() -> (r: Self)
        ensures
            !r.strobe,
            r.button_index == 0,
            r.button_state.bits == 0,
    {
        Controller { strobe: false, button_index: 0, button_state: ControllerButtons::empty() }
    }

    /// A write sets the strobe from bit 0; turning it on restarts the report at button A.
    pub fn write(&mut self, data: u8)
        ensures
            final(self).strobe == (data & 1 == 1),
            final(self).button_index == (if data & 1 == 1 { 0 } else { old(self).button_index }),
            final(self).button_state == old(self).button_state,
    {
        self.strobe = data & 1 == 1;
        if self.strobe {
            self.button_index = 0;
        }
    }

    /// Reports the state of the current button (1 when pressed) and, unless strobe is on,
    /// moves on to the next one; after the eighth button every read returns 1.
    pub fn read(&mut self) -> (r: u8)
        ensures
            r == spec_read_value(*old(self)),
            final(self).button_index == spec_index_after_read(*old(self)),
            final(self).strobe == old(self).strobe,
            final(self).button_state == old(self).button_state,
    {
        if self.button_index > 7 {
            return 1;
        }
        let bits = self.button_state.bits();
        let index = self.button_index;
        let response = (bits & (1u8 << index)) >> index;
        proof {
            assert(index <= 7 ==> (bits & (1u8 << index)) >> index == (bits >> index) & 1) by {
            if index <= 7 {
                crate::bits::lemma_u8_shift_bits(bits, index);
            }
        }
        }
        if !self.strobe && self.button_index <= 7 {
            self.button_index = self.button_index + 1;
        }
        response
    }

    /// Presses (`true`) or releases the buttons in `button`.
    pub fn set_button_state(&mut self, pressed: bool, button: u8)
        ensures
            final(self).button_state.bits == (if pressed {
                old(self).button_state.bits | button
            } else {
                old(self).button_state.bits & !button
            }),
            final(self).strobe == old(self).strobe,
            final(self).button_index == old(self).button_index,
    {
        self.button_state.set(button, pressed);
    }
}

} // verus!
