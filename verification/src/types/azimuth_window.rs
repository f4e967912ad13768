//! The azimuth window: the angular span, in millidegrees, over which
//! the sensor fires.
//!
//! A window is an unordered pair of boundaries: `(a, b)` and `(b, a)`
//! describe the same window, and equality treats them as the same.

use vstd::prelude::*;

verus! {

/// An angular window in millidegrees, as an unordered boundary pair.
#[derive(Debug, Eq, Copy, Clone)]
pub struct AzimuthWindow(pub u32, pub u32);

impl AzimuthWindow {
    /// Smallest boundary value a window may hold.
    pub const MIN_MILLIDEGREES: u32 = 0;

    /// Largest boundary value a window may hold: a full turn.
    pub const MAX_MILLIDEGREES: u32 = 360000;

    /// The window with boundaries `a` and `b`, in either order.
    pub fn new(a: u32, b: u32) -> (r: AzimuthWindow)
        ensures
            r == AzimuthWindow(a, b),
    {
        AzimuthWindow(a, b)
    }

    /// The size of the window: the absolute difference of its two
    /// boundaries.
    pub fn size(&self) -> (r: u32)
        ensures
            self.0 >= self.1 ==> r == self.0 - self.1,
            self.0 < self.1 ==> r == self.1 - self.0,
    {
        if self.0 >= self.1 {
            self.0 - self.1
        } else {
            self.1 - self.0
        }
    }

    /// True when the window spans no angle at all.
    pub fn zero_size(&self) -> (r: bool)
        ensures
            r == (self.0 == self.1),
    {
        self.size() == 0
    }

    /// The start of the window: the smaller boundary.
    pub fn start(&self) -> (r: u32)
        ensures
            r == if self.0 <= self.1 {
                self.0
            } else {
                self.1
            },
    {
        if self.0 <= self.1 {
            self.0
        } else {
            self.1
        }
    }

    /// The end of the window: the larger boundary.
    pub fn end(&self) -> (r: u32)
        ensures
            r == if self.0 >= self.1 {
                self.0
            } else {
                self.1
            },
    {
        if self.0 >= self.1 {
            self.0
        } else {
            self.1
        }
    }

    /// True when both boundaries are zero.
    pub fn zero(&self) -> (r: bool)
        ensures
            r == (self.0 == 0 && self.1 == 0),
    {
        self.0 == 0 && self.1 == 0
    }

    /// True when both boundaries lie within a full turn.
    pub fn valid(&self) -> (r: bool)
        ensures
            r == (self.0 <= 360000 && self.1 <= 360000),
    {
        Self::valid_millidegrees(self.0) && Self::valid_millidegrees(self.1)
    }

    /// True when `md` lies within a full turn.
    pub fn valid_millidegrees(md: u32) -> (r: bool)
        ensures
            r == (md <= 360000),
    {
        Self::MIN_MILLIDEGREES <= md && md <= Self::MAX_MILLIDEGREES
    }
}

impl Default for AzimuthWindow {
    /// The full turn.
    fn default() -> (r: Self)
        ensures
            r == AzimuthWindow(0u32, 360000u32),
    {
        AzimuthWindow(Self::MIN_MILLIDEGREES, Self::MAX_MILLIDEGREES)
    }
}

impl PartialEq for AzimuthWindow {
    /// Windows are unordered boundary pairs: `(a, b)` equals `(b, a)`.
    fn eq(&self, other: &Self) -> (r: bool) {
        (self.0 == other.0 && self.1 == other.1) || (self.0 == other.1 && self.1 == other.0)
    }
}

impl vstd::std_specs::cmp::PartialEqSpecImpl for AzimuthWindow {
    open spec fn obeys_eq_spec() -> bool {
        true
    }

    open spec fn eq_spec(&self, other: &Self) -> bool {
        (self.0 == other.0 && self.1 == other.1) || (self.0 == other.1 && self.1 == other.0)
    }
}

} // verus!
