//! The time source of the sensor's timestamps.

use vstd::prelude::*;

verus! {

/// Where the sensor's clock takes its time from.
#[derive(Debug, PartialEq, Eq, Copy, Clone, Structural)]
pub enum TimestampMode {
    /// A free-running counter on the internal oscillator.
    TimeFromInternalOscillator,
    /// A counter synchronized to the pulse input.
    TimeFromSyncPulseIn,
    /// A counter synchronized to an external PTP IEEE 1588 master.
    TimeFromFromPtp1588,
}

impl TimestampMode {
    /// The textual name of the mode.
    pub fn display_str(&self) -> (r: &'static str)
        ensures
            self == TimestampMode::TimeFromInternalOscillator ==> r@
                == "time from internal oscillator"@,
            self == TimestampMode::TimeFromSyncPulseIn ==> r@ == "time from SYNC_PULSE_IN"@,
            self == TimestampMode::TimeFromFromPtp1588 ==> r@ == "time from PTP-1588"@,
    {
        match self {
            TimestampMode::TimeFromInternalOscillator => "time from internal oscillator",
            TimestampMode::TimeFromSyncPulseIn => "time from SYNC_PULSE_IN",
            TimestampMode::TimeFromFromPtp1588 => "time from PTP-1588",
        }
    }
}

} // verus!
