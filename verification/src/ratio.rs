//! Exact fractions for scaled sensor readings.

use vstd::prelude::*;

verus! {

/// The exact value `num / den`.
///
/// Scaled readings (metres, degrees, normalised intensity) are handed out as
/// fractions so that no rounding happens inside the decoder. Every `Ratio`
/// this crate returns has a positive denominator.
#[derive(Clone, Copy, Debug, PartialEq, Eq)]
pub struct Ratio {
    pub num: u32,
    pub den: u32,
}

impl Ratio {
    /// Whether two fractions denote the same number.
    pub open spec fn same_value(self, other: Ratio) -> bool {
        self.num * other.den == other.num * self.den
    }
}

} // verus!
