//! The polarity of a signal or electrical voltage.

use vstd::prelude::*;

verus! {

/// Whether a signal is true at a high or at a low voltage.
#[derive(Debug, PartialEq, Eq, Copy, Clone, Structural)]
pub enum Polarity {
    /// The signal is true at a high voltage.
    ActiveHigh,
    /// The signal is true at a low voltage.
    ActiveLow,
}

impl Polarity {
    /// The textual name of the polarity.
    pub fn display_str(&self) -> (r: &'static str)
        ensures
            self == Polarity::ActiveHigh ==> r@ == "active high"@,
            self == Polarity::ActiveLow ==> r@ == "active low"@,
    {
        match self {
            Polarity::ActiveHigh => "active high",
            Polarity::ActiveLow => "active low",
        }
    }
}

impl Default for Polarity {
    /// Signals are active high by default.
    fn default() -> (r: Self)
        ensures
            r == Polarity::ActiveHigh,
    {
        Polarity::ActiveHigh
    }
}

} // verus!
