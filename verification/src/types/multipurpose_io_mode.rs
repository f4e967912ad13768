//! The mode of the sensor's multipurpose input/output pin.

use vstd::prelude::*;

verus! {

/// What the multipurpose pin does.
#[derive(Debug, PartialEq, Eq, Copy, Clone, Structural)]
pub enum MultipurposeIoMode {
    /// Emit no synchronization pulse.
    Off,
    /// Reconfigure the pin as an NMEA UART input.
    InputFromNmeaUart,
    /// Output a pulse synchronized with the internal clock.
    OutputFromInternalOscillator,
    /// Output a pulse synchronized with the pulse input.
    OutputFromSyncPulseIn,
    /// Output a pulse synchronized with an external PTP IEEE 1588
    /// master.
    OutputFromPtp1588,
    /// Output a pulse at a user-defined angular rate.
    OutputFromEncoderAngle,
}

impl MultipurposeIoMode {
    /// The textual name of the mode.
    pub fn display_str(&self) -> (r: &'static str)
        ensures
            self == MultipurposeIoMode::Off ==> r@ == "off"@,
            self == MultipurposeIoMode::InputFromNmeaUart ==> r@ == "input from NMEA UART"@,
            self == MultipurposeIoMode::OutputFromInternalOscillator ==> r@
                == "output from internal oscillator"@,
            self == MultipurposeIoMode::OutputFromSyncPulseIn ==> r@
                == "output from SYNC_PULSE_IN"@,
            self == MultipurposeIoMode::OutputFromPtp1588 ==> r@ == "output from IEEE PTP 1588"@,
            self == MultipurposeIoMode::OutputFromEncoderAngle ==> r@
                == "output from encoder angle"@,
    {
        match self {
            MultipurposeIoMode::Off => "off",
            MultipurposeIoMode::InputFromNmeaUart => "input from NMEA UART",
            MultipurposeIoMode::OutputFromInternalOscillator => "output from internal oscillator",
            MultipurposeIoMode::OutputFromSyncPulseIn => "output from SYNC_PULSE_IN",
            MultipurposeIoMode::OutputFromPtp1588 => "output from IEEE PTP 1588",
            MultipurposeIoMode::OutputFromEncoderAngle => "output from encoder angle",
        }
    }
}

impl Default for MultipurposeIoMode {
    /// The pin is off by default.
    fn default() -> (r: Self)
        ensures
            r == MultipurposeIoMode::Off,
    {
        MultipurposeIoMode::Off
    }
}

} // verus!
