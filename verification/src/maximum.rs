//! The running maximum over the last `n` inputs.

use vstd::prelude::*;

use crate::extremum::ExtremumTracker;
use crate::model::{seq_max, window};
use crate::text::format_label;
use crate::Bar;
use crate::Error;

verus! {

/// Returns the highest of the last `n` inputs on every update.
#[derive(Clone)]
pub struct Maximum {
    w: ExtremumTracker,
}

impl Maximum {
    /// The configured window length.
    pub closed spec fn length(self) -> nat {
        self.w.win_len()
    }

    /// The inputs fed since construction or the last reset.
    pub closed spec fn inputs(self) -> Seq<int> {
        self.w.inputs()
    }

    /// Validity: the inner tracker is well-formed and follows the maximum.
    pub closed spec fn wf(self) -> bool {
        &&& self.w.wf()
        &&& self.w.tracks_max()
        &&& self.w.win_len() >= 1
    }

    /// Builds a maximum tracker over the last `n` inputs. Fails exactly when
    /// the requested length is zero.
    pub fn new(n: u32) -> (r: Result<Maximum, Error>)
        ensures
            n == 0 <==> r is Err,
            r is Err ==> r == Result::<Maximum, Error>::Err(Error::InvalidParameter),
            r is Ok ==> (r->Ok_0).wf() && (r->Ok_0).length() == n as nat && (r->Ok_0).inputs()
                == Seq::<int>::empty(),
    {
        match ExtremumTracker::new(n, true) {
            Result::Ok(w) => Result::Ok(Maximum { w }),
            Result::Err(e) => Result::Err(e),
        }
    }

    /// A maximum tracker with the conventional default length.
    pub fn default() -> (r: Maximum)
        ensures
            r.wf(),
            r.length() == 14,
            r.inputs() == Seq::<int>::empty(),
    {
        let r = Maximum::new(14);
        match r {
            Result::Ok(m) => m,
            Result::Err(_) => unreached(),
        }
    }

    /// Appends one input and returns the maximum of the inputs still in
    /// view: the last `n`, or all of them before the window first fills.
    pub fn calc(&mut self, value: i64) -> (r: i64)
        requires
            old(self).wf(),
        ensures
            final(self).wf(),
            final(self).length() == old(self).length(),
            final(self).inputs() == old(self).inputs().push(value as int),
            r as int == seq_max(window(final(self).inputs(), final(self).length())),
    {
        self.w.update(value)
    }

    /// Feeds the bar's high price to the tracker.
    pub fn next(&mut self, input: &Bar) -> (r: i64)
        requires
            old(self).wf(),
        ensures
            final(self).wf(),
            final(self).length() == old(self).length(),
            final(self).inputs() == old(self).inputs().push(input.high as int),
            r as int == seq_max(window(final(self).inputs(), final(self).length())),
    {
        self.w.update(input.high)
    }

    /// Forgets all inputs; the length is kept.
    pub fn reset(&mut self)
        requires
            old(self).wf(),
        ensures
            final(self).wf(),
            final(self).length() == old(self).length(),
            final(self).inputs() == Seq::<int>::empty(),
    {
        self.w.reset()
    }

    /// The diagnostic label, embedding the configured length.
    pub fn label(&self) -> (r: String)
        ensures
            r@ == "MAX("@ + crate::text::dec_str(self.length()) + ")"@,
    {
        format_label("MAX(", self.w.length())
    }
}

} // verus!
