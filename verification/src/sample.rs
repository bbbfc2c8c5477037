//! The smoothed iteration count of one pixel.

use vstd::prelude::*;

verus! {

/// How fast the orbit of a pixel's point diverges.
///
/// `Escaped` stands for the count `whole + fraction / 65536`, which lies below
/// the iteration cap. `Interior` stands for the cap itself: the point was not
/// seen to escape.
#[derive(Clone, Copy, Debug, PartialEq, Eq, Structural)]
pub enum Sample {
    Interior,
    Escaped { whole: u32, fraction: u16 },
}

impl Sample {
    /// The sample of a count given by its whole part and its fraction, under
    /// the cap `max_iterations`: a count that reaches the cap is `Interior`.
    pub open spec fn spec_new(whole: u32, fraction: u16, max_iterations: u32) -> Sample {
        if whole >= max_iterations {
            Sample::Interior
        } else {
            Sample::Escaped { whole, fraction }
        }
    }

    /// The count in units of `1 / 65536`, under the cap `max_iterations`.
    pub open spec fn scaled(self, max_iterations: u32) -> int {
        match self {
            Sample::Interior => max_iterations * 65536,
            Sample::Escaped { whole, fraction } => whole * 65536 + fraction,
        }
    }

    /// Whether the count lies in the range that the cap allows.
    pub open spec fn within(self, max_iterations: u32) -> bool {
        match self {
            Sample::Interior => true,
            Sample::Escaped { whole, fraction } => whole < max_iterations,
        }
    }

    /// The smoothed count of an orbit that escaped after `iterations` steps,
    /// in units of `1 / 65536`: `iterations + 1 - nu`, where `nu` is the
    /// renormalising term in the same units, and not below zero.
    pub open spec fn spec_smoothed_scaled(iterations: u32, nu: u32) -> int {
        if (iterations + 1) * 65536 >= nu {
            (iterations + 1) * 65536 - nu
        } else {
            0
        }
    }

    /// The sample of an orbit that escaped after `iterations` steps, with the
    /// renormalising term `nu` in units of `1 / 65536`.
    pub open spec fn spec_smoothed(iterations: u32, nu: u32, max_iterations: u32) -> Sample {
        let scaled = Sample::spec_smoothed_scaled(iterations, nu);
        if scaled / 65536 >= max_iterations {
            Sample::Interior
        } else {
            Sample::Escaped { whole: (scaled / 65536) as u32, fraction: (scaled % 65536) as u16 }
        }
    }

    /// The count zero, with which a fresh grid is filled.
    pub open spec fn spec_zero() -> Sample {
        Sample::Escaped { whole: 0, fraction: 0 }
    }

    /// Builds the sample of the count `whole + fraction / 65536`. A count at
    /// or above the cap is the cap itself, `Interior`.
    pub fn new(whole: u32, fraction: u16, max_iterations: u32) -> (sample: Sample)
        ensures
            sample == Sample::spec_new(whole, fraction, max_iterations),
            sample.within(max_iterations),
            0 <= sample.scaled(max_iterations) <= max_iterations * 65536,
            whole < max_iterations ==> sample.scaled(max_iterations) == whole * 65536 + fraction,
    {
        if whole >= max_iterations {
            Sample::Interior
        } else {
            assert(whole * 65536 + fraction <= max_iterations * 65536) by (nonlinear_arith)
                requires
                    whole < max_iterations,
                    fraction < 65536,
            ;
            Sample::Escaped { whole, fraction }
        }
    }

    /// Smooths the count of an orbit that escaped after `iterations` steps:
    /// the sample of `iterations + 1 - nu`, where `nu` is the renormalising
    /// term in units of `1 / 65536`. A count below zero is zero, and one that
    /// reaches the cap is the cap, `Interior`.
    pub fn smoothed(iterations: u32, nu: u32, max_iterations: u32) -> (sample: Sample)
        ensures
            sample == Sample::spec_smoothed(iterations, nu, max_iterations),
            sample.within(max_iterations),
            sample.scaled(max_iterations) == if Sample::spec_smoothed_scaled(iterations, nu) <= max_iterations
                * 65536 {
                Sample::spec_smoothed_scaled(iterations, nu)
            } else {
                max_iterations * 65536
            },
    {
        let full: u64 = (iterations as u64 + 1) * 65536;
        let scaled: u64 = if full >= nu as u64 {
            full - nu as u64
        } else {
            0
        };
        let whole: u64 = scaled / 65536;
        let fraction: u64 = scaled % 65536;
        if whole >= max_iterations as u64 {
            Sample::Interior
        } else {
            Sample::Escaped { whole: whole as u32, fraction: fraction as u16 }
        }
    }

    /// The count zero.
    pub fn zero() -> (sample: Sample)
        ensures
            sample == Sample::spec_zero(),
    {
        Sample::Escaped { whole: 0, fraction: 0 }
    }

    /// Whether the point was not seen to escape.
    pub fn is_interior(&self) -> (interior: bool)
        ensures
            interior == (*self == Sample::Interior),
    {
        match self {
            Sample::Interior => true,
            Sample::Escaped { .. } => false,
        }
    }
}

} // verus!
