//! Streaming technical-analysis indicators over integer price observations.
//!
//! The core is a sliding-window extremum tracker: the running minimum or
//! maximum of the last `n` observations, maintained with a fixed-size
//! circular buffer and a cached index of the current extremum, so that each
//! update costs O(1) amortized. Two compositions are built on top of it:
//! a windowed (fast stochastic) oscillator that normalizes the latest value
//! within its recent range, and a rate-of-change indicator that compares the
//! latest value against the one a fixed number of steps behind.
//!
//! Prices are plain `i64` scalars. Where an indicator's value is a quotient
//! (a percentage), it is returned exactly, as a [`Percent`] rational, rather
//! than rounded to a machine number.

use vstd::prelude::*;

pub mod extremum;
pub mod fast_stochastic;
pub mod laws;
pub mod maximum;
pub mod minimum;
pub mod model;
pub mod rate_of_change;
pub mod text;

pub use fast_stochastic::FastStochastic;
pub use maximum::Maximum;
pub use minimum::Minimum;
pub use rate_of_change::RateOfChange;

verus! {

/// The one kind of error the indicators can produce: construction was asked
/// for a window of length zero. Updates themselves are total and never fail.
#[derive(Debug, Clone, Copy, PartialEq, Eq)]
pub enum Error {
    InvalidParameter,
}

/// One structured observation: a bar with its high, low and close prices.
#[derive(Debug, Clone, Copy, PartialEq, Eq, Structural)]
pub struct Bar {
    pub high: i64,
    pub low: i64,
    pub close: i64,
}

impl Bar {
    /// A bar with all prices zero; fill it with the builder methods.
    pub fn new() -> (b: Bar)
        ensures
            b == (Bar { high: 0, low: 0, close: 0 }),
    {
        Bar { high: 0, low: 0, close: 0 }
    }

    /// The same bar with its high price replaced.
    pub fn high(self, v: i64) -> (b: Bar)
        ensures
            b == (Bar { high: v, ..self }),
    {
        Bar { high: v, ..self }
    }

    /// The same bar with its low price replaced.
    pub fn low(self, v: i64) -> (b: Bar)
        ensures
            b == (Bar { low: v, ..self }),
    {
        Bar { low: v, ..self }
    }

    /// The same bar with its close price replaced.
    pub fn close(self, v: i64) -> (b: Bar)
        ensures
            b == (Bar { close: v, ..self }),
    {
        Bar { close: v, ..self }
    }
}

/// An exact rational percentage: the value `num / den`.
///
/// Indicators whose value is a quotient return it un-divided, so the result
/// is exact; a degenerate denominator (`den == 0`, from a zero baseline)
/// stands for the undefined quotient that the caller must filter, instead of
/// a non-finite machine number.
#[derive(Debug, Clone, Copy, PartialEq, Eq, Structural)]
pub struct Percent {
    pub num: i128,
    pub den: i128,
}

} // verus!
