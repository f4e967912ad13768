//! The return profile: the sensor-configured wire layout of one
//! column's measurement block.
//!
//! The profile is fixed for a whole decoding session and must match the
//! sensor's actual configuration: the wire format carries no
//! self-describing profile tag, so a wrong profile silently misdecodes
//! rather than failing.

use vstd::prelude::*;

verus! {

/// How sensor data from the LIDAR sensor is packaged and sent over the
/// wire.
#[derive(Debug, PartialEq, Eq, Copy, Clone, Structural)]
pub enum Profile {
    /// The legacy LIDAR profile (deprecated).  No return-block codec is
    /// defined for it.
    Legacy,
    /// Dual returns, `RNG19_RFL8_SIG16_NIR16_DUAL`.
    DualReturns,
    /// Single returns, `RNG19_RFL8_SIG16_NIR16` (default).
    SingleReturns,
    /// Single returns at a reduced data rate, `RNG15_RFL8_NIR8`.
    SingleReturnsLowDataRate,
    /// The functional-safety packet format, `FUSA_RNG15_RFL8_NIR8_DUAL`.
    FuSaTwoWordPixel,
}

impl Profile {
    /// True when a return-block codec exists for this profile: every
    /// profile but the deprecated legacy one.
    pub open spec fn has_codec(self) -> bool {
        self != Profile::Legacy
    }

    /// Width in bytes of one return block under this profile.
    pub open spec fn block_width_spec(self) -> usize {
        match self {
            Profile::Legacy => 0,
            Profile::DualReturns => 16,
            Profile::SingleReturns => 12,
            Profile::SingleReturnsLowDataRate => 4,
            Profile::FuSaTwoWordPixel => 8,
        }
    }

    /// Width in bytes of one return block under this profile.
    pub fn block_width(&self) -> (w: usize)
        ensures
            w == self.block_width_spec(),
    {
        match self {
            Profile::Legacy => 0,
            Profile::DualReturns => 16,
            Profile::SingleReturns => 12,
            Profile::SingleReturnsLowDataRate => 4,
            Profile::FuSaTwoWordPixel => 8,
        }
    }
}

impl Default for Profile {
    /// The default profile is the legacy one.
    fn default() -> (r: Self)
        ensures
            r == Profile::Legacy,
    {
        Profile::Legacy
    }
}

} // verus!
