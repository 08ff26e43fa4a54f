use vstd::prelude::*;

verus! {

/// How the two kilobytes of name table RAM appear in the four name table slots.
#[derive(Debug, PartialEq, Eq, Structural, Copy, Clone)]
pub enum Mirroring {
    VERTICAL,
    HORIZONTAL,
    ONE_SCREEN_LOWER_BANK,
    ONE_SCREEN_UPPER_BANK,
}

} // verus!
