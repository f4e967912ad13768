//! The data-format descriptions from the sensor's metadata: how LIDAR
//! and IMU data are laid out for a given mode and profile.
//!
//! The metadata itself is descriptive JSON consumed outside this
//! library's verified core; these are the value types and derived
//! defaults the core can state exactly.

use crate::lidar::profile::Profile;
use crate::types::{ColumnWindow, FullScaleRange, LidarMode};
use vstd::prelude::*;

verus! {

/// The format of IMU data: the full-scale range of each sensor.
#[derive(Debug, PartialEq, Eq, Copy, Clone, Structural)]
pub struct ImuDataFormat {
    /// The full-scale range of the accelerometer.
    pub accel_fsr: FullScaleRange,
    /// The full-scale range of the gyroscope.
    pub gyro_fsr: FullScaleRange,
}

/// Default number of columns in one LIDAR packet.
pub const DEFAULT_COLUMNS_PER_PACKET: usize = 16;

/// The per-row pixel shifts of a frame with `columns_per_frame`
/// columns: sixteen repetitions of a four-step descending pattern whose
/// step grows with the column count, and empty for a count with no
/// known pattern.
pub open spec fn pixel_shifts_spec(columns_per_frame: int) -> Seq<isize> {
    let unit: int = if columns_per_frame == 512 {
        3
    } else if columns_per_frame == 1024 {
        6
    } else if columns_per_frame == 2048 {
        12
    } else {
        0
    };
    if unit == 0 {
        Seq::empty()
    } else {
        Seq::new(64, |i: int| (unit * (3 - i % 4)) as isize)
    }
}

/// The format of LIDAR data: the active profile, the window and column
/// counts, and the per-row pixel shifts.
#[derive(Debug, PartialEq, Eq, Clone)]
pub struct LidarDataFormat {
    /// The configured return profile of the LIDAR packets.
    pub profile: Profile,
    /// The window over which the sensor fires, in columns.
    pub column_window: ColumnWindow,
    /// Number of columns in one rotation.
    pub columns_per_frame: usize,
    /// Number of columns in one packet.
    pub columns_per_packet: usize,
    /// Horizontal shift of each pixel row.
    pub pixel_shift_by_row: Vec<isize>,
    /// Number of pixels in one column.
    pub pixels_per_column: usize,
}

impl LidarDataFormat {
    /// The default data format of a LIDAR mode: the legacy profile,
    /// sixty-four pixels per column, sixteen columns per packet, the
    /// mode's column count, its full window and its shift pattern.
    pub fn default_for(mode: LidarMode) -> (r: LidarDataFormat)
        ensures
            r.profile == Profile::Legacy,
            r.column_window == ColumnWindow(0usize, (mode.columns_spec() - 1) as usize),
            r.columns_per_frame == mode.columns_spec(),
            r.columns_per_packet == DEFAULT_COLUMNS_PER_PACKET,
            r.pixel_shift_by_row@ == pixel_shifts_spec(mode.columns_spec() as int),
            r.pixels_per_column == 64,
    {
        let pixels_per_column: usize = 64;
        let columns_per_packet: usize = DEFAULT_COLUMNS_PER_PACKET;
        let columns_per_frame: usize = mode.columns();
        let column_window = ColumnWindow::default_for(columns_per_frame);

        let unit: isize = if columns_per_frame == 512 {
            3
        } else if columns_per_frame == 1024 {
            6
        } else if columns_per_frame == 2048 {
            12
        } else {
            0
        };
        let mut pixel_shift_by_row: Vec<isize> = Vec::new();
        if unit != 0 {
            let mut i: usize = 0;
            while i < 64
                invariant
                    i <= 64,
                    1 <= unit <= 12,
                    pixel_shift_by_row@.len() == i,
                    forall|j: int|
                        0 <= j < i ==> pixel_shift_by_row@[j] == (unit * (3 - j % 4)) as isize,
                decreases 64 - i,
            {
                let step: isize = 3 - (i % 4) as isize;
                proof {
                    assert(0 <= unit * step <= 36) by (nonlinear_arith)
                        requires
                            1 <= unit <= 12,
                            0 <= step <= 3,
                    ;
                }
                pixel_shift_by_row.push(unit * step);
                i = i + 1;
            }
            proof {
                assert(pixel_shift_by_row@ =~= pixel_shifts_spec(columns_per_frame as int));
            }
        }

        LidarDataFormat {
            profile: Profile::Legacy,
            column_window,
            columns_per_frame,
            columns_per_packet,
            pixel_shift_by_row,
            pixels_per_column,
        }
    }

    /// The largest frame id the profile's frame counter can carry.
    pub fn max_frame_id(&self) -> (r: usize)
        ensures
            self.profile == Profile::Legacy ==> r == u32::MAX,
            self.profile != Profile::Legacy ==> r == u16::MAX,
    {
        match self.profile {
            Profile::Legacy => u32::MAX as usize,
            _ => u16::MAX as usize,
        }
    }

    /// Size in bytes of the packet header under the profile.
    pub fn header_size(&self) -> (r: usize)
        ensures
            self.profile == Profile::Legacy ==> r == 0,
            self.profile != Profile::Legacy ==> r == 32,
    {
        match self.profile {
            Profile::Legacy => 0,
            _ => 32,
        }
    }

    /// Size in bytes of the packet footer under the profile.
    pub fn footer_size(&self) -> (r: usize)
        ensures
            self.profile == Profile::Legacy ==> r == 0,
            self.profile != Profile::Legacy ==> r == 32,
    {
        match self.profile {
            Profile::Legacy => 0,
            _ => 32,
        }
    }

    /// Size in bytes of one column's measurement words.
    pub fn column_size(&self) -> (r: usize)
        ensures
            r == 10,
    {
        10
    }

    /// Size in bytes of one column's header under the profile.
    pub fn column_header_size(&self) -> (r: usize)
        ensures
            self.profile == Profile::Legacy ==> r == 16,
            self.profile != Profile::Legacy ==> r == 12,
    {
        match self.profile {
            Profile::Legacy => 16,
            _ => 12,
        }
    }

    /// Size in bytes of one column's footer under the profile.
    pub fn column_footer_size(&self) -> (r: usize)
        ensures
            self.profile == Profile::Legacy ==> r == 4,
            self.profile != Profile::Legacy ==> r == 0,
    {
        match self.profile {
            Profile::Legacy => 4,
            _ => 0,
        }
    }

    /// Offset in bytes of the status word within one column.
    pub fn column_status_offset(&self) -> (r: usize)
        ensures
            self.profile == Profile::Legacy ==> r == 6,
            self.profile != Profile::Legacy ==> r == 10,
    {
        match self.profile {
            Profile::Legacy => self.column_size() - self.column_footer_size(),
            _ => 10,
        }
    }
}

} // verus!
