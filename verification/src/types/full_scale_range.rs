//! The full-scale range setting of the IMU's sensors.

use vstd::prelude::*;

verus! {

/// The measurement range of an IMU sensor axis.
#[derive(Debug, PartialEq, Eq, Copy, Clone, Structural)]
pub enum FullScaleRange {
    /// The fixed default range.
    Normal,
    /// The expanded range.
    Extended,
}

impl FullScaleRange {
    /// The textual name of the range.
    pub fn display_str(&self) -> (r: &'static str)
        ensures
            self == FullScaleRange::Normal ==> r@ == "normal"@,
            self == FullScaleRange::Extended ==> r@ == "extended"@,
    {
        match self {
            FullScaleRange::Normal => "normal",
            FullScaleRange::Extended => "extended",
        }
    }
}

impl Default for FullScaleRange {
    /// The default range is the normal one.
    fn default() -> (r: Self)
        ensures
            r == FullScaleRange::Normal,
    {
        FullScaleRange::Normal
    }
}

} // verus!
