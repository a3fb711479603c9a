//! General laws of the indicators, stated over the spec functions that the
//! executable contracts use, and proved once and for all.

use vstd::prelude::*;

use crate::fast_stochastic::{stoch_den, stoch_num};
use crate::model::{beats, extremum, lemma_extremum_is_unique, lemma_extremum_properties, seq_max,
    seq_min, window};
use crate::rate_of_change::{roc_den, roc_num};

verus! {

/// The pointwise negation of a sequence of inputs.
pub open spec fn negated(s: Seq<int>) -> Seq<int> {
    s.map_values(|x: int| -x)
}

/// The maximum of a negated nonempty sequence is the negated minimum.
proof fn lemma_extremum_negated(s: Seq<int>)
    requires
        s.len() > 0,
    ensures
        negated(s).len() == s.len(),
        extremum(true, negated(s)) == -extremum(false, s),
    decreases s.len(),
{
    let m = negated(s);
    if s.len() > 1 {
        lemma_extremum_negated(s.drop_last());
        assert(m.drop_last() =~= negated(s.drop_last()));
        assert(m.last() == -s.last());
    }
}

/// Symmetry: a maximum tracker fed the negation of a sequence returns, after
/// every update, the negation of what a minimum tracker of the same length
/// returns for the sequence itself. The two sides are exactly what `calc`'s
/// contracts prescribe for the respective trackers.
pub proof fn lemma_min_max_symmetry(s: Seq<int>, n: nat)
    requires
        n >= 1,
        s.len() > 0,
    ensures
        seq_max(window(negated(s), n)) == -seq_min(window(s, n)),
{
    assert(window(negated(s), n) =~= negated(window(s, n)));
    lemma_extremum_negated(window(s, n));
}

/// Oscillator degeneracy: a history of one constant value leaves the
/// minimum and the maximum equal, so the oscillator's value is exactly the
/// midpoint `50 / 1`, whatever the window length.
pub proof fn lemma_oscillator_degeneracy(s: Seq<int>, n: nat, v: int)
    requires
        n >= 1,
        s.len() > 0,
        forall|i: int| 0 <= i < s.len() ==> s[i] == v,
    ensures
        seq_min(window(s, n)) == v,
        seq_max(window(s, n)) == v,
        stoch_num(v, seq_min(window(s, n)), seq_max(window(s, n))) == 50,
        stoch_den(seq_min(window(s, n)), seq_max(window(s, n))) == 1,
{
    let w = window(s, n);
    assert(w.len() > 0);
    assert forall|k: int| 0 <= k < w.len() implies w[k] == v by {
        if s.len() > n {
            assert(w[k] == s[s.len() - n + k]);
        }
    }
    assert(w.contains(v)) by {
        assert(w[0] == v);
    }
    lemma_extremum_is_unique(false, w, v);
    lemma_extremum_is_unique(true, w, v);
}

/// Oscillator bounds: whenever the window's range is not degenerate, the
/// value the single-channel oscillator reports for the latest input lies in
/// `[0, 100]`: the numerator is between zero and one hundred times the
/// (positive) denominator.
pub proof fn lemma_oscillator_bounds(s: Seq<int>, n: nat)
    requires
        n >= 1,
        s.len() > 0,
        seq_min(window(s, n)) != seq_max(window(s, n)),
    ensures
        ({
            let lo = seq_min(window(s, n));
            let hi = seq_max(window(s, n));
            &&& stoch_den(lo, hi) > 0
            &&& 0 <= stoch_num(s.last(), lo, hi)
            &&& stoch_num(s.last(), lo, hi) <= 100 * stoch_den(lo, hi)
        }),
{
    let w = window(s, n);
    let lo = seq_min(w);
    let hi = seq_max(w);
    lemma_extremum_properties(false, w);
    lemma_extremum_properties(true, w);
    let j = choose|j: int| 0 <= j < w.len() && w[j] == lo;
    assert(!beats(true, w[j], hi));
    assert(w[w.len() - 1] == s.last());
    assert(!beats(false, w[w.len() - 1], lo));
    assert(!beats(true, w[w.len() - 1], hi));
}

/// Oscillator bounds for the bar (multi-channel) form: when the high and
/// low channels are fed separately, the value reported for a close that lies
/// between the latest bar's low and high is in `[0, 100]` whenever the range
/// is not degenerate. (A close below every low in view would fall outside:
/// the latest low and high must bracket it.)
pub proof fn lemma_oscillator_bounds_bars(lows: Seq<int>, highs: Seq<int>, n: nat, close: int)
    requires
        n >= 1,
        lows.len() > 0,
        highs.len() > 0,
        seq_min(window(lows, n)) != seq_max(window(highs, n)),
        lows.last() <= close,
        close <= highs.last(),
    ensures
        ({
            let lo = seq_min(window(lows, n));
            let hi = seq_max(window(highs, n));
            &&& stoch_den(lo, hi) > 0
            &&& 0 <= stoch_num(close, lo, hi)
            &&& stoch_num(close, lo, hi) <= 100 * stoch_den(lo, hi)
        }),
{
    let wl = window(lows, n);
    let wh = window(highs, n);
    let lo = seq_min(wl);
    let hi = seq_max(wh);
    lemma_extremum_properties(false, wl);
    lemma_extremum_properties(true, wh);
    assert(wl[wl.len() - 1] == lows.last());
    assert(wh[wh.len() - 1] == highs.last());
    assert(!beats(false, wl[wl.len() - 1], lo));
    assert(!beats(true, wh[wh.len() - 1], hi));
}

/// Reset idempotence of the extremum trackers: `reset` leaves the recorded
/// inputs empty, exactly as construction does, so replaying a sequence `s`
/// yields at every step `k` the same output as a fresh tracker would — the
/// history after the reset, `empty + s.take(k + 1)`, prescribes the same
/// extremum as the fresh history `s.take(k + 1)`.
pub proof fn lemma_reset_replay(track_max: bool, n: nat, s: Seq<int>, k: int)
    requires
        n >= 1,
        0 <= k < s.len(),
    ensures
        extremum(track_max, window(Seq::<int>::empty() + s.take(k + 1), n)) == extremum(
            track_max,
            window(s.take(k + 1), n),
        ),
{
    assert(Seq::<int>::empty() + s.take(k + 1) =~= s.take(k + 1));
}

/// Reset idempotence of the rate-of-change indicator, in the same form: the
/// history after a reset prescribes the same exact quotient as a fresh one.
pub proof fn lemma_reset_replay_rate_of_change(len: nat, s: Seq<int>, k: int)
    requires
        len >= 1,
        0 <= k < s.len(),
    ensures
        roc_num(Seq::<int>::empty() + s.take(k + 1), len) == roc_num(s.take(k + 1), len),
        roc_den(Seq::<int>::empty() + s.take(k + 1), len) == roc_den(s.take(k + 1), len),
{
    assert(Seq::<int>::empty() + s.take(k + 1) =~= s.take(k + 1));
}

} // verus!
