//! The baud rate the sensor uses to decode NMEA UART input messages.

use vstd::prelude::*;

verus! {

/// A supported UART baud rate.
#[derive(Debug, PartialEq, Eq, Copy, Clone, Structural)]
pub enum BaudRate {
    /// 9600 baud.
    X9600,
    /// 115200 baud.
    X115200,
}

impl BaudRate {
    /// The numeric baud value of the rate.
    pub fn baud(&self) -> (r: u32)
        ensures
            self == BaudRate::X9600 ==> r == 9600,
            self == BaudRate::X115200 ==> r == 115200,
    {
        match self {
            BaudRate::X9600 => 9600,
            BaudRate::X115200 => 115200,
        }
    }

    /// The textual name of the rate.
    pub fn display_str(&self) -> (r: &'static str)
        ensures
            self == BaudRate::X9600 ==> r@ == "9600 baud"@,
            self == BaudRate::X115200 ==> r@ == "115200 baud"@,
    {
        match self {
            BaudRate::X9600 => "9600 baud",
            BaudRate::X115200 => "115200 baud",
        }
    }
}

impl Default for BaudRate {
    /// The default rate is 9600 baud.
    fn default() -> (r: Self)
        ensures
            r == BaudRate::X9600,
    {
        BaudRate::X9600
    }
}

} // verus!
