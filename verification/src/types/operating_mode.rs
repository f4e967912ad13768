//! The power consumption and activity level of the sensor.

use vstd::prelude::*;

verus! {

/// Whether the sensor is scanning or idling.
#[derive(Debug, PartialEq, Eq, Copy, Clone, Structural)]
pub enum OperatingMode {
    /// Regular operation at standard power.
    Normal,
    /// A low-power standby mode.
    Standby,
}

impl OperatingMode {
    /// The textual name of the mode.
    pub fn display_str(&self) -> (r: &'static str)
        ensures
            self == OperatingMode::Normal ==> r@ == "normal"@,
            self == OperatingMode::Standby ==> r@ == "standby"@,
    {
        match self {
            OperatingMode::Normal => "normal",
            OperatingMode::Standby => "standby",
        }
    }
}

impl Default for OperatingMode {
    /// The sensor operates normally by default.
    fn default() -> (r: Self)
        ensures
            r == OperatingMode::Normal,
    {
        OperatingMode::Normal
    }
}

} // verus!
