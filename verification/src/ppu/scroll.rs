use vstd::prelude::*;

verus! {

/// PPUSCROLL: the first write sets x, the second y.
#[derive(Debug, Clone, Copy)]
pub struct ScrollRegister {
    pub scroll_x: u8,
    pub scroll_y: u8,
}

impl ScrollRegister {
    pub fn new() -> (r: Self)
        ensures
            r.scroll_x == 0,
            r.scroll_y == 0,
    {
        Self { scroll_x: 0, scroll_y: 0 }
    }

    /// Writes x when the toggle is off, y when it is on, then flips the toggle.
    pub fn update(&mut self, write_toggle: &mut bool, data: u8)
        ensures
            *final(write_toggle) == !*old(write_toggle),
            !*old(write_toggle) ==> final(self).scroll_x == data && final(self).scroll_y == old(self).scroll_y,
            *old(write_toggle) ==> final(self).scroll_y == data && final(self).scroll_x == old(self).scroll_x,
    {
        if !*write_toggle {
            self.scroll_x = data;
        } else {
            self.scroll_y = data;
        }
        *write_toggle = !*write_toggle;
    }

    pub fn get_scroll_x(&self) -> (r: u8)
        ensures
            r == self.scroll_x,
    {
        self.scroll_x
    }

    pub fn get_scroll_y(&self) -> (r: u8)
        ensures
            r == self.scroll_y,
    {
        self.scroll_y
    }
}

impl Default for ScrollRegister {
    fn default() -> (r: Self)
        ensures
            r.scroll_x == 0,
            r.scroll_y == 0,
    {
        Self::new()
    }
}

} // verus!
