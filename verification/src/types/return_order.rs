//! The priority of detections the sensor reports per column.

use vstd::prelude::*;

verus! {

/// Which detections the sensor outputs first.
#[derive(Debug, PartialEq, Eq, Copy, Clone, Structural)]
pub enum ReturnOrder {
    /// Strongest detections first.
    StrongestToWeakest,
    /// Nearest detections first.
    NearestToFarthest,
    /// Farthest detections first.
    FarthestToNearest,
    /// Strongest detection first; only present in old test firmware.
    StrongestReturnFirst,
    /// Last detection first; only present in old test firmware.
    LastReturnFirst,
}

impl ReturnOrder {
    /// The textual name of the order.
    pub fn display_str(&self) -> (r: &'static str)
        ensures
            self == ReturnOrder::StrongestToWeakest ==> r@ == "strongest to weakest"@,
            self == ReturnOrder::NearestToFarthest ==> r@ == "nearest to farthest"@,
            self == ReturnOrder::FarthestToNearest ==> r@ == "farthest to nearest"@,
            self == ReturnOrder::StrongestReturnFirst ==> r@ == "strongest return first"@,
            self == ReturnOrder::LastReturnFirst ==> r@ == "last return first"@,
    {
        match self {
            ReturnOrder::StrongestToWeakest => "strongest to weakest",
            ReturnOrder::NearestToFarthest => "nearest to farthest",
            ReturnOrder::FarthestToNearest => "farthest to nearest",
            ReturnOrder::StrongestReturnFirst => "strongest return first",
            ReturnOrder::LastReturnFirst => "last return first",
        }
    }
}

impl Default for ReturnOrder {
    /// Strongest detections come first by default.
    fn default() -> (r: Self)
        ensures
            r == ReturnOrder::StrongestToWeakest,
    {
        ReturnOrder::StrongestToWeakest
    }
}

} // verus!
