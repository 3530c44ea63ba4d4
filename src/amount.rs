use vstd::prelude::*;

verus! {

/// A decimal amount held as `mantissa * 10^(-scale)`.
#[derive(Clone, Copy, Debug, PartialEq, Eq, Structural)]
pub struct Amount {
    pub mantissa: i128,
    pub scale: u32,
}

impl Amount {
    /// The amount is strictly greater than zero.
    pub open spec fn is_positive(self) -> bool {
        self.mantissa > 0
    }

    pub fn new(mantissa: i128, scale: u32) -> (r: Amount)
        ensures
            r.mantissa == mantissa,
            r.scale == scale,
    {
        Amount { mantissa, scale }
    }

    pub fn positive(&self) -> (r: bool)
        ensures
            r == self.is_positive(),
    {
        self.mantissa > 0
    }
}

} // verus!
