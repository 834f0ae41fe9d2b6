//! Options of the plain canvas chart.
use vstd::prelude::*;

verus! {

/// Options of the plain canvas chart.
#[derive(Clone, Copy, Debug)]
pub struct ChartOptions {
    show_legend: bool,
}

impl ChartOptions {
    pub closed spec fn legend_shown(&self) -> bool {
        self.show_legend
    }

    /// Whether the chart draws a legend.
    pub fn show_legend(&self) -> (r: bool)
        ensures
            r == self.legend_shown(),
    {
        self.show_legend
    }
}

impl Default for ChartOptions {
    fn default() -> (o: Self)
        ensures
            !o.legend_shown(),
    {
        ChartOptions { show_legend: false }
    }
}

} // verus!
