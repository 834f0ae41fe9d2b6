//! Fixed-point view-transform and geometry engine for interactive 2D plots.
use vstd::prelude::*;

pub mod chart;
pub mod colormap;
pub mod interaction;
pub mod plotter;
pub mod shader;
pub mod ticks;
pub mod transform;

verus! {

/// Largest magnitude of a data or screen coordinate, in fixed-point units.
pub const COORD_MAX: i64 = 1_000_000_000_000;

/// One data unit in fixed-point coordinates: values are thousandths.
pub const UNIT: i64 = 1000;

/// The denominator of a fraction given in thousandths.
pub const PER_MILLE: i64 = 1000;

/// A coordinate inside the fixed-point domain.
pub open spec fn in_domain(v: int) -> bool {
    -COORD_MAX <= v <= COORD_MAX
}

} // verus!
