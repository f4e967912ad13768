//! The window over which the sensor fires, in columns.

use vstd::prelude::*;

verus! {

/// An inclusive column range within one frame.
#[derive(Debug, PartialEq, Eq, Copy, Clone, Structural)]
pub struct ColumnWindow(pub usize, pub usize);

impl ColumnWindow {
    /// The full window of a frame with `columns_per_frame` columns:
    /// from the first column to the last.
    pub fn default_for(columns_per_frame: usize) -> (r: ColumnWindow)
        requires
            columns_per_frame >= 1,
        ensures
            r == ColumnWindow(0usize, (columns_per_frame - 1) as usize),
    {
        ColumnWindow(0, columns_per_frame - 1)
    }
}

impl Default for ColumnWindow {
    /// The full window of a 1024-column frame.
    fn default() -> (r: Self)
        ensures
            r == ColumnWindow(0usize, 1023usize),
    {
        ColumnWindow::default_for(1024)
    }
}

} // verus!
