//! The baud rate expected for NMEA UART input messages.

use vstd::prelude::*;

verus! {

/// A supported NMEA UART baud rate.
#[derive(Debug, PartialEq, Eq, Copy, Clone, Structural)]
pub enum NmeaBaudRate {
    /// 9600 baud.
    Baud9600,
    /// 115200 baud.
    Baud115200,
}

impl NmeaBaudRate {
    /// The textual name of the rate.
    pub fn display_str(&self) -> (r: &'static str)
        ensures
            self == NmeaBaudRate::Baud9600 ==> r@ == "9600 baud"@,
            self == NmeaBaudRate::Baud115200 ==> r@ == "115200 baud"@,
    {
        match self {
            NmeaBaudRate::Baud9600 => "9600 baud",
            NmeaBaudRate::Baud115200 => "115200 baud",
        }
    }
}

impl Default for NmeaBaudRate {
    /// The default rate is 9600 baud.
    fn default() -> (r: Self)
        ensures
            r == NmeaBaudRate::Baud9600,
    {
        NmeaBaudRate::Baud9600
    }
}

} // verus!
