//! The sensor's shot-limiting state under high temperatures.
//!
//! The sensor operates normally, announces that limiting is imminent,
//! or reduces laser power in steps of roughly ten percent.

use vstd::prelude::*;

verus! {

/// The shot-limiting state machine's current state.
#[derive(Debug, PartialEq, Eq, Copy, Clone, Structural)]
pub enum ShotLimitingStatus {
    /// Normal operation.
    Normal,
    /// Shot limiting is imminent.
    Imminent,
    /// Shots reduced by up to ten percent.
    Reduction0to10,
    /// Shots reduced by ten to twenty percent.
    Reduction10to20,
    /// Shots reduced by twenty to thirty percent.
    Reduction20to30,
    /// Shots reduced by thirty to forty percent.
    Reduction30to40,
    /// Shots reduced by forty to fifty percent.
    Reduction40to50,
    /// Shots reduced by fifty to sixty percent.
    Reduction50to60,
    /// Shots reduced by sixty to seventy percent.
    Reduction60to70,
    /// Shots reduced by seventy to seventy-five percent.
    Reduction70to75,
}

impl ShotLimitingStatus {
    /// True for the normal and imminent states.
    pub fn is_shot_limiting(&self) -> (r: bool)
        ensures
            r == (self == ShotLimitingStatus::Normal || self == ShotLimitingStatus::Imminent),
    {
        *self == ShotLimitingStatus::Normal || *self == ShotLimitingStatus::Imminent
    }

    /// The complement of [`Self::is_shot_limiting`].
    pub fn is_normal(&self) -> (r: bool)
        ensures
            r == !(self == ShotLimitingStatus::Normal || self == ShotLimitingStatus::Imminent),
    {
        !self.is_shot_limiting()
    }

    /// The wire value of the state, a four-bit field.
    pub fn to_u8(&self) -> (r: u8)
        ensures
            Self::from_u8_spec(r) == Some(*self),
            r <= 9,
    {
        match self {
            ShotLimitingStatus::Normal => 0x0,
            ShotLimitingStatus::Imminent => 0x1,
            ShotLimitingStatus::Reduction0to10 => 0x2,
            ShotLimitingStatus::Reduction10to20 => 0x3,
            ShotLimitingStatus::Reduction20to30 => 0x4,
            ShotLimitingStatus::Reduction30to40 => 0x5,
            ShotLimitingStatus::Reduction40to50 => 0x6,
            ShotLimitingStatus::Reduction50to60 => 0x7,
            ShotLimitingStatus::Reduction60to70 => 0x8,
            ShotLimitingStatus::Reduction70to75 => 0x9,
        }
    }

    /// The state a wire value names, if any.
    pub open spec fn from_u8_spec(v: u8) -> Option<ShotLimitingStatus> {
        match v {
            0x0 => Some(ShotLimitingStatus::Normal),
            0x1 => Some(ShotLimitingStatus::Imminent),
            0x2 => Some(ShotLimitingStatus::Reduction0to10),
            0x3 => Some(ShotLimitingStatus::Reduction10to20),
            0x4 => Some(ShotLimitingStatus::Reduction20to30),
            0x5 => Some(ShotLimitingStatus::Reduction30to40),
            0x6 => Some(ShotLimitingStatus::Reduction40to50),
            0x7 => Some(ShotLimitingStatus::Reduction50to60),
            0x8 => Some(ShotLimitingStatus::Reduction60to70),
            0x9 => Some(ShotLimitingStatus::Reduction70to75),
            _ => None,
        }
    }

    /// Decode a wire value; values above nine name no state.
    pub fn from_u8(v: u8) -> (r: Option<ShotLimitingStatus>)
        ensures
            r == Self::from_u8_spec(v),
    {
        match v {
            0x0 => Some(ShotLimitingStatus::Normal),
            0x1 => Some(ShotLimitingStatus::Imminent),
            0x2 => Some(ShotLimitingStatus::Reduction0to10),
            0x3 => Some(ShotLimitingStatus::Reduction10to20),
            0x4 => Some(ShotLimitingStatus::Reduction20to30),
            0x5 => Some(ShotLimitingStatus::Reduction30to40),
            0x6 => Some(ShotLimitingStatus::Reduction40to50),
            0x7 => Some(ShotLimitingStatus::Reduction50to60),
            0x8 => Some(ShotLimitingStatus::Reduction60to70),
            0x9 => Some(ShotLimitingStatus::Reduction70to75),
            _ => None,
        }
    }
}

impl Default for ShotLimitingStatus {
    /// The sensor starts out operating normally.
    fn default() -> (r: Self)
        ensures
            r == ShotLimitingStatus::Normal,
    {
        ShotLimitingStatus::Normal
    }
}

} // verus!
