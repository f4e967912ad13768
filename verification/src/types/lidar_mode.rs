//! The horizontal resolution and rotation rate of the sensor.

use vstd::prelude::*;

verus! {

/// A supported combination of columns per frame and scan frequency.
#[derive(Debug, PartialEq, Eq, Copy, Clone, Hash, Structural)]
pub enum LidarMode {
    /// 10 scans of 512 columns per second.
    Scan512x10,
    /// 20 scans of 512 columns per second.
    Scan512x20,
    /// 10 scans of 1024 columns per second.
    Scan1024x10,
    /// 20 scans of 1024 columns per second.
    Scan1024x20,
    /// 10 scans of 2048 columns per second.
    Scan2048x10,
    /// 5 scans of 4096 columns per second.
    Scan4096x5,
}

impl LidarMode {
    /// The number of columns per frame in this mode.
    pub open spec fn columns_spec(self) -> usize {
        match self {
            LidarMode::Scan512x10 | LidarMode::Scan512x20 => 512,
            LidarMode::Scan1024x10 | LidarMode::Scan1024x20 => 1024,
            LidarMode::Scan2048x10 => 2048,
            LidarMode::Scan4096x5 => 4096,
        }
    }

    /// The number of columns per frame in this mode.
    pub fn columns(self) -> (r: usize)
        ensures
            r == self.columns_spec(),
    {
        match self {
            LidarMode::Scan512x10 | LidarMode::Scan512x20 => 512,
            LidarMode::Scan1024x10 | LidarMode::Scan1024x20 => 1024,
            LidarMode::Scan2048x10 => 2048,
            LidarMode::Scan4096x5 => 4096,
        }
    }

    /// The scan frequency of this mode, in hertz.
    pub open spec fn frequency_spec(self) -> usize {
        match self {
            LidarMode::Scan512x20 | LidarMode::Scan1024x20 => 20,
            LidarMode::Scan512x10 | LidarMode::Scan1024x10 | LidarMode::Scan2048x10 => 10,
            LidarMode::Scan4096x5 => 5,
        }
    }

    /// The scan frequency of this mode, in hertz.
    pub fn frequency(self) -> (r: usize)
        ensures
            r == self.frequency_spec(),
    {
        match self {
            LidarMode::Scan512x20 | LidarMode::Scan1024x20 => 20,
            LidarMode::Scan512x10 | LidarMode::Scan1024x10 | LidarMode::Scan2048x10 => 10,
            LidarMode::Scan4096x5 => 5,
        }
    }

    /// The textual name of the mode.
    pub fn display_str(&self) -> (r: &'static str)
        ensures
            self == LidarMode::Scan512x10 ==> r@ == "512x10"@,
            self == LidarMode::Scan512x20 ==> r@ == "512x20"@,
            self == LidarMode::Scan1024x10 ==> r@ == "1024x10"@,
            self == LidarMode::Scan1024x20 ==> r@ == "1024x20"@,
            self == LidarMode::Scan2048x10 ==> r@ == "2048x10"@,
            self == LidarMode::Scan4096x5 ==> r@ == "4096x5"@,
    {
        match self {
            LidarMode::Scan512x10 => "512x10",
            LidarMode::Scan512x20 => "512x20",
            LidarMode::Scan1024x10 => "1024x10",
            LidarMode::Scan1024x20 => "1024x20",
            LidarMode::Scan2048x10 => "2048x10",
            LidarMode::Scan4096x5 => "4096x5",
        }
    }
}

impl Default for LidarMode {
    /// The default mode scans 1024 columns ten times a second.
    fn default() -> (r: Self)
        ensures
            r == LidarMode::Scan1024x10,
    {
        LidarMode::Scan1024x10
    }
}

} // verus!
