//! Configuration and dimension rules of plotting observers.
//!
//! The drawing itself happens outside the library; what the library holds
//! is the plot configuration and the rules that decide whether a series
//! fits the grid it is plotted against.

use std::ops::Range;

use vstd::prelude::*;

verus! {

/// The failures a plotting sink can meet.
#[derive(Clone, Copy, Debug, PartialEq, Eq, Structural)]
pub enum PlotterError {
    /// Dimensional mismatch in plot variables.
    DimensionMismatch,
}

/// The configuration of a plot: its axis limits and labels and its title.
pub struct PlotConfig<R> {
    /// The limits of the horizontal axis.
    pub x_limits: Range<R>,
    /// The limits of the vertical axis, where fixed.
    pub y_limits: Option<Range<R>>,
    /// The label of the horizontal axis.
    pub x_label: String,
    /// The label of the vertical axis.
    pub y_label: String,
    /// The title of the plot.
    pub title: String,
}

/// Whether a full series of the given length may be drawn against a grid
/// of the given length: the two must agree exactly, else the plot is
/// refused with a dimension mismatch.
pub fn check_line_dimensions(data_len: usize, grid_len: usize) -> (r: Result<(), PlotterError>)
    ensures
        r is Ok <==> data_len == grid_len,
        r is Err ==> r == Err::<(), PlotterError>(PlotterError::DimensionMismatch),
{
    if data_len == grid_len {
        Ok(())
    } else {
        Err(PlotterError::DimensionMismatch)
    }
}

/// Whether an interior series of the given length may be drawn against a
/// grid of the given length: the series must cover exactly the grid
/// without its two boundary points, else the plot is refused with a
/// dimension mismatch.
pub fn check_interior_dimensions(data_len: usize, grid_len: usize) -> (r: Result<(), PlotterError>)
    ensures
        r is Ok <==> grid_len >= 2 && data_len == grid_len - 2,
        r is Err ==> r == Err::<(), PlotterError>(PlotterError::DimensionMismatch),
{
    if grid_len >= 2 && data_len == grid_len - 2 {
        Ok(())
    } else {
        Err(PlotterError::DimensionMismatch)
    }
}

} // verus!
