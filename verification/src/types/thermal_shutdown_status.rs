//! The sensor's state at its maximum operating temperature.

use vstd::prelude::*;

verus! {

/// Whether thermal shutdown is imminent.
#[derive(Debug, PartialEq, Eq, Copy, Clone, Structural)]
pub enum ThermalShutdownStatus {
    /// Normal operation.
    Normal,
    /// Shutdown is imminent due to the maximum temperature.
    Imminent,
}

impl ThermalShutdownStatus {
    /// The wire value of the state, a four-bit field.
    pub fn to_u8(&self) -> (r: u8)
        ensures
            Self::from_u8_spec(r) == Some(*self),
            r <= 1,
    {
        match self {
            ThermalShutdownStatus::Normal => 0,
            ThermalShutdownStatus::Imminent => 1,
        }
    }

    /// The state a wire value names, if any.
    pub open spec fn from_u8_spec(v: u8) -> Option<ThermalShutdownStatus> {
        match v {
            0 => Some(ThermalShutdownStatus::Normal),
            1 => Some(ThermalShutdownStatus::Imminent),
            _ => None,
        }
    }

    /// Decode a wire value; values above one name no state.
    pub fn from_u8(v: u8) -> (r: Option<ThermalShutdownStatus>)
        ensures
            r == Self::from_u8_spec(v),
    {
        match v {
            0 => Some(ThermalShutdownStatus::Normal),
            1 => Some(ThermalShutdownStatus::Imminent),
            _ => None,
        }
    }

    /// The textual name of the state.
    pub fn display_str(&self) -> (r: &'static str)
        ensures
            self == ThermalShutdownStatus::Normal ==> r@ == "normal"@,
            self == ThermalShutdownStatus::Imminent ==> r@ == "imminent"@,
    {
        match self {
            ThermalShutdownStatus::Normal => "normal",
            ThermalShutdownStatus::Imminent => "imminent",
        }
    }
}

impl Default for ThermalShutdownStatus {
    /// The sensor starts out operating normally.
    fn default() -> (r: Self)
        ensures
            r == ThermalShutdownStatus::Normal,
    {
        ThermalShutdownStatus::Normal
    }
}

} // verus!
