//! The rate-of-change indicator: the relative change of the latest value
//! against the one `n` steps behind (or against the first value, before `n`
//! steps have accumulated), as a percentage.

use vstd::prelude::*;

use crate::text::format_label;
use crate::Bar;
use crate::Error;
use crate::Percent;

verus! {

/// The baseline of a nonempty history under a lag of `len`: the value
/// exactly `len` steps behind the latest, or the first value while the lag
/// has not accumulated yet.
pub open spec fn roc_baseline(h: Seq<int>, len: nat) -> int {
    if h.len() as int - 1 <= len {
        h[0]
    } else {
        h[h.len() - 1 - len]
    }
}

/// The numerator of the rate of change: one hundred times the difference of
/// the latest value against the baseline; the first-ever value has no
/// baseline and reports zero.
pub open spec fn roc_num(h: Seq<int>, len: nat) -> int {
    if h.len() <= 1 {
        0
    } else {
        100 * (h.last() - roc_baseline(h, len))
    }
}

/// The denominator of the rate of change: the baseline itself (possibly
/// zero, standing for the undefined quotient), or `1` for the first value.
pub open spec fn roc_den(h: Seq<int>, len: nat) -> int {
    if h.len() <= 1 {
        1
    } else {
        roc_baseline(h, len)
    }
}

/// Remembers the value `length` steps behind in a bounded queue and reports
/// `(value - baseline) / baseline * 100` exactly, as a [`Percent`].
#[derive(Clone)]
pub struct RateOfChange {
    length: u32,
    prices: Vec<i64>,
    hist: Ghost<Seq<int>>,
}

impl RateOfChange {
    /// The configured lag.
    pub closed spec fn win_len(self) -> nat {
        self.length as nat
    }

    /// The inputs fed since construction or the last reset.
    pub closed spec fn inputs(self) -> Seq<int> {
        self.hist@
    }

    /// Validity: the queue holds exactly the inputs still needed, the
    /// last `length` of them (or all, before `length` have accumulated),
    /// oldest first.
    pub closed spec fn wf(self) -> bool {
        &&& self.length >= 1
        &&& self.prices@.len() == if self.hist@.len() <= self.length as nat {
            self.hist@.len() as int
        } else {
            self.length as int
        }
        &&& (forall|i: int|
            0 <= i < self.prices@.len() ==> #[trigger] self.prices@[i] as int == self.hist@[
                self.hist@.len() - self.prices@.len() + i])
    }

    /// Builds a rate-of-change indicator with the given lag. Fails exactly
    /// when the requested lag is zero.
    pub fn new(length: u32) -> (r: Result<RateOfChange, Error>)
        ensures
            length == 0 <==> r is Err,
            r is Err ==> r == Result::<RateOfChange, Error>::Err(Error::InvalidParameter),
            r is Ok ==> (r->Ok_0).wf() && (r->Ok_0).win_len() == length as nat && (
            r->Ok_0).inputs() == Seq::<int>::empty(),
    {
        match length {
            0 => Result::Err(Error::InvalidParameter),
            _ => {
                let indicator = RateOfChange {
                    length,
                    prices: Vec::new(),
                    hist: Ghost(Seq::empty()),
                };
                Result::Ok(indicator)
            },
        }
    }

    /// A rate-of-change indicator with the conventional default lag.
    pub fn default() -> (r: RateOfChange)
        ensures
            r.wf(),
            r.win_len() == 9,
            r.inputs() == Seq::<int>::empty(),
    {
        let r = RateOfChange::new(9);
        match r {
            Result::Ok(m) => m,
            Result::Err(_) => unreached(),
        }
    }

    /// Appends one value and returns its relative change against the
    /// baseline, exactly: `(value - baseline) / baseline * 100`; the
    /// first-ever value reports zero.
    pub fn calc(&mut self, input: i64) -> (r: Percent)
        requires
            old(self).wf(),
        ensures
            final(self).wf(),
            final(self).win_len() == old(self).win_len(),
            final(self).inputs() == old(self).inputs().push(input as int),
            r.num == roc_num(final(self).inputs(), final(self).win_len()),
            r.den == roc_den(final(self).inputs(), final(self).win_len()),
    {
        let ghost h0 = self.hist@;
        self.prices.push(input);
        self.hist = Ghost(h0.push(input as int));

        if self.prices.len() == 1 {
            return Percent { num: 0, den: 1 };
        }
        let initial_price: i64;
        if self.prices.len() > self.length as usize {
            initial_price = self.prices.remove(0);
        } else {
            initial_price = self.prices[0];
        }
        Percent {
            num: 100 * (input as i128 - initial_price as i128),
            den: initial_price as i128,
        }
    }

    /// Feeds the bar's close price to the indicator.
    pub fn next(&mut self, input: &Bar) -> (r: Percent)
        requires
            old(self).wf(),
        ensures
            final(self).wf(),
            final(self).win_len() == old(self).win_len(),
            final(self).inputs() == old(self).inputs().push(input.close as int),
            r.num == roc_num(final(self).inputs(), final(self).win_len()),
            r.den == roc_den(final(self).inputs(), final(self).win_len()),
    {
        self.calc(input.close)
    }

    /// Empties the queue; the lag is kept.
    pub fn reset(&mut self)
        requires
            old(self).wf(),
        ensures
            final(self).wf(),
            final(self).win_len() == old(self).win_len(),
            final(self).inputs() == Seq::<int>::empty(),
    {
        self.prices.clear();
        self.hist = Ghost(Seq::empty());
    }

    /// The diagnostic label, embedding the configured lag.
    pub fn label(&self) -> (r: String)
        ensures
            r@ == "ROC("@ + crate::text::dec_str(self.win_len()) + ")"@,
    {
        format_label("ROC(", self.length as usize)
    }
}

} // verus!
