//! The windowed (fast stochastic) oscillator: the position of the latest
//! value within the range of the last `n` observations, as a percentage.

use vstd::prelude::*;

use crate::maximum::Maximum;
use crate::minimum::Minimum;
use crate::model::{seq_max, seq_min, window};
use crate::text::format_label;
use crate::Bar;
use crate::Error;
use crate::Percent;

verus! {

/// The numerator of the oscillator value for a reference value within the
/// range `[lo, hi]`: one hundred times its distance from the low end, or the
/// midpoint convention `50` when the range is degenerate.
pub open spec fn stoch_num(reference: int, lo: int, hi: int) -> int {
    if lo == hi {
        50
    } else {
        100 * (reference - lo)
    }
}

/// The denominator of the oscillator value: the width of the range, or `1`
/// under the degenerate-range midpoint convention.
pub open spec fn stoch_den(lo: int, hi: int) -> int {
    if lo == hi {
        1
    } else {
        hi - lo
    }
}

/// Composes a minimum and a maximum tracker of the same length and reports
/// `(reference - min) / (max - min) * 100` exactly, as a [`Percent`].
#[derive(Clone)]
pub struct FastStochastic {
    length: u32,
    minimum: Minimum,
    maximum: Maximum,
}

impl FastStochastic {
    /// The configured window length.
    pub closed spec fn win_len(self) -> nat {
        self.length as nat
    }

    /// The inputs fed to the internal minimum tracker (the low channel).
    pub closed spec fn low_inputs(self) -> Seq<int> {
        self.minimum.inputs()
    }

    /// The inputs fed to the internal maximum tracker (the high channel).
    pub closed spec fn high_inputs(self) -> Seq<int> {
        self.maximum.inputs()
    }

    /// Validity: both trackers are well-formed and share the length.
    pub closed spec fn wf(self) -> bool {
        &&& self.minimum.wf()
        &&& self.maximum.wf()
        &&& self.minimum.length() == self.length as nat
        &&& self.maximum.length() == self.length as nat
        &&& self.length >= 1
    }

    /// Builds an oscillator over the last `length` observations. Fails
    /// exactly when the requested length is zero.
    pub fn new(length: u32) -> (r: Result<FastStochastic, Error>)
        ensures
            length == 0 <==> r is Err,
            r is Err ==> r == Result::<FastStochastic, Error>::Err(Error::InvalidParameter),
            r is Ok ==> (r->Ok_0).wf() && (r->Ok_0).win_len() == length as nat && (
            r->Ok_0).low_inputs() == Seq::<int>::empty() && (r->Ok_0).high_inputs()
                == Seq::<int>::empty(),
    {
        let minimum = match Minimum::new(length) {
            Result::Ok(m) => m,
            Result::Err(e) => {
                return Result::Err(e);
            },
        };
        let maximum = match Maximum::new(length) {
            Result::Ok(m) => m,
            Result::Err(e) => {
                return Result::Err(e);
            },
        };
        Result::Ok(FastStochastic { length, minimum, maximum })
    }

    /// An oscillator with the conventional default length.
    pub fn default() -> (r: FastStochastic)
        ensures
            r.wf(),
            r.win_len() == 14,
            r.low_inputs() == Seq::<int>::empty(),
            r.high_inputs() == Seq::<int>::empty(),
    {
        let r = FastStochastic::new(14);
        match r {
            Result::Ok(m) => m,
            Result::Err(_) => unreached(),
        }
    }

    /// The configured window length.
    pub fn length(&self) -> (r: u32)
        ensures
            r as nat == self.win_len(),
    {
        self.length
    }

    /// Feeds one value through both trackers and returns its position within
    /// the resulting range, exactly: `(value - min) / (max - min) * 100`, or
    /// the midpoint `50` when the range is degenerate.
    pub fn calc(&mut self, input: i64) -> (r: Percent)
        requires
            old(self).wf(),
        ensures
            final(self).wf(),
            final(self).win_len() == old(self).win_len(),
            final(self).low_inputs() == old(self).low_inputs().push(input as int),
            final(self).high_inputs() == old(self).high_inputs().push(input as int),
            ({
                let lo = seq_min(window(final(self).low_inputs(), final(self).win_len()));
                let hi = seq_max(window(final(self).high_inputs(), final(self).win_len()));
                r.num == stoch_num(input as int, lo, hi) && r.den == stoch_den(lo, hi)
            }),
    {
        let lo = self.minimum.calc(input);
        let hi = self.maximum.calc(input);
        if lo == hi {
            Percent { num: 50, den: 1 }
        } else {
            Percent { num: 100 * (input as i128 - lo as i128), den: hi as i128 - lo as i128 }
        }
    }

    /// Feeds a bar: its high through the maximum tracker, its low through
    /// the minimum tracker, and reports the position of its close within the
    /// resulting range, exactly.
    pub fn next(&mut self, input: &Bar) -> (r: Percent)
        requires
            old(self).wf(),
        ensures
            final(self).wf(),
            final(self).win_len() == old(self).win_len(),
            final(self).low_inputs() == old(self).low_inputs().push(input.low as int),
            final(self).high_inputs() == old(self).high_inputs().push(input.high as int),
            ({
                let lo = seq_min(window(final(self).low_inputs(), final(self).win_len()));
                let hi = seq_max(window(final(self).high_inputs(), final(self).win_len()));
                r.num == stoch_num(input.close as int, lo, hi) && r.den == stoch_den(lo, hi)
            }),
    {
        let hi = self.maximum.next(input);
        let lo = self.minimum.next(input);
        let close = input.close;
        if hi == lo {
            Percent { num: 50, den: 1 }
        } else {
            Percent { num: 100 * (close as i128 - lo as i128), den: hi as i128 - lo as i128 }
        }
    }

    /// Resets both trackers; the length is kept.
    pub fn reset(&mut self)
        requires
            old(self).wf(),
        ensures
            final(self).wf(),
            final(self).win_len() == old(self).win_len(),
            final(self).low_inputs() == Seq::<int>::empty(),
            final(self).high_inputs() == Seq::<int>::empty(),
    {
        self.minimum.reset();
        self.maximum.reset();
    }

    /// The diagnostic label, embedding the configured length.
    pub fn label(&self) -> (r: String)
        ensures
            r@ == "FAST_STOCH("@ + crate::text::dec_str(self.win_len()) + ")"@,
    {
        format_label("FAST_STOCH(", self.length as usize)
    }
}

} // verus!
