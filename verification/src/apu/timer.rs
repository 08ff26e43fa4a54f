use vstd::prelude::*;

verus! {

/// A down-counting divider: it counts `data` down to zero, then reloads from `timer_limit`.
#[derive(Debug, Clone, Copy)]
pub struct Timer {
    pub timer_limit: u16,
    pub data: u16,
}

/// The counter value after `cycles` cycles, `cycles` at most one reload long.
pub open spec fn timer_after(limit: u16, data: u16, cycles: u8) -> u16 {
    if data >= cycles {
        (data - cycles) as u16
    } else if limit >= cycles - data {
        (limit - (cycles - data)) as u16
    } else {
        0
    }
}

impl Timer {
    pub fn new() -> (r: Self)
        ensures
            r.timer_limit == 0,
            r.data == 0,
    {
        Timer { timer_limit: 0, data: 0 }
    }

    /// Counts `cycles` down; returns whether the counter ran out and was reloaded.
    /// The reload subtracts the cycles left over, stopping at zero.
    pub fn tick(&mut self, cycles: u8) -> (r: bool)
        ensures
            r == (old(self).data < cycles),
            final(self).data == timer_after(old(self).timer_limit, old(self).data, cycles),
            final(self).timer_limit == old(self).timer_limit,
    {
        if self.data >= cycles as u16 {
            self.data = self.data - cycles as u16;
            false
        } else {
            let remaining = cycles as u16 - self.data;
            self.data = self.timer_limit.saturating_sub(remaining);
            true
        }
    }
}

} // verus!
