//! Numbers that fit the terminal.

use vstd::prelude::*;

verus! {

/// Narrowing to the width that the terminal counts in.
pub trait SaturateToU16: Sized {
    /// The value, or the largest `u16` where it does not fit.
    spec fn saturated(self) -> u16;

    fn saturate_to_u16(self) -> (r: u16)
        ensures
            r == self.saturated(),
    ;
}

impl SaturateToU16 for usize {
    open spec fn saturated(self) -> u16 {
        if self <= u16::MAX {
            self as u16
        } else {
            u16::MAX
        }
    }

    fn saturate_to_u16(self) -> (r: u16) {
        if self <= 65535 {
            self as u16
        } else {
            65535
        }
    }
}

} // verus!
