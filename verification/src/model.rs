//! The mathematical model of a sliding-window extremum.
//!
//! A tracker of length `n` sees a growing history of inputs; its window is
//! the last `n` of them (or all of them, before `n` have arrived). The
//! circular buffer of the implementation is modelled by [`slot_val`]: the
//! `i`-th input (counting from one) is written to slot `i % n`, so a slot
//! holds the most recent input assigned to it, and an untouched slot is
//! empty. The lemmas here connect the buffer to the window: the occupied
//! slots hold exactly the inputs of the window, which is why a cached index
//! that no slot beats yields the true extremum.

use vstd::prelude::*;

verus! {

/// Comparison direction of a tracker: with `track_max` the winner of a
/// comparison is the greater value, otherwise the smaller one.
pub open spec fn beats(track_max: bool, a: int, b: int) -> bool {
    if track_max {
        a > b
    } else {
        a < b
    }
}

/// The value a buffer slot holds, as a mathematical integer.
pub open spec fn opt_value(o: Option<i64>) -> Option<int> {
    match o {
        Option::Some(v) => Option::Some(v as int),
        Option::None => Option::None,
    }
}

/// Slot comparison: an empty slot is the sentinel that loses every
/// comparison, so it never wins the extremum while any input is in view.
pub open spec fn slot_beats(track_max: bool, a: Option<int>, b: Option<int>) -> bool {
    match (a, b) {
        (Option::Some(x), Option::Some(y)) => beats(track_max, x, y),
        (Option::Some(_), Option::None) => true,
        (Option::None, _) => false,
    }
}

/// The inputs still in view of a window of length `n`: the last `n` of the
/// history, or the whole history before `n` inputs have arrived.
pub open spec fn window(h: Seq<int>, n: nat) -> Seq<int> {
    if h.len() <= n {
        h
    } else {
        h.skip(h.len() - n)
    }
}

/// The extremum of a nonempty sequence in the given direction: its minimum,
/// or with `track_max` its maximum.
pub open spec fn extremum(track_max: bool, s: Seq<int>) -> int
    decreases s.len(),
{
    if s.len() <= 1 {
        s[0]
    } else {
        let rest = extremum(track_max, s.drop_last());
        if beats(track_max, s.last(), rest) {
            s.last()
        } else {
            rest
        }
    }
}

/// The minimum of a nonempty sequence.
pub open spec fn seq_min(s: Seq<int>) -> int {
    extremum(false, s)
}

/// The maximum of a nonempty sequence.
pub open spec fn seq_max(s: Seq<int>) -> int {
    extremum(true, s)
}

/// The content of slot `s` of a circular buffer of `n` slots after the
/// history `h`: the `i`-th input (counting from one) is written to slot
/// `i % n`, and a slot no input was written to is empty.
pub open spec fn slot_val(h: Seq<int>, n: nat, s: int) -> Option<int>
    decreases h.len(),
{
    if h.len() == 0 {
        Option::None
    } else if h.len() as int % (n as int) == s {
        Option::Some(h.last())
    } else {
        slot_val(h.drop_last(), n, s)
    }
}

/// The extremum of a nonempty sequence is one of its entries, and no entry
/// beats it.
pub proof fn lemma_extremum_properties(track_max: bool, s: Seq<int>)
    requires
        s.len() > 0,
    ensures
        s.contains(extremum(track_max, s)),
        forall|i: int| 0 <= i < s.len() ==> !beats(track_max, s[i], extremum(track_max, s)),
    decreases s.len(),
{
    if s.len() > 1 {
        lemma_extremum_properties(track_max, s.drop_last());
        let rest = extremum(track_max, s.drop_last());
        let e = extremum(track_max, s);
        if beats(track_max, s.last(), rest) {
            assert(s[s.len() - 1] == e);
        } else {
            let j = choose|j: int| 0 <= j < s.drop_last().len() && s.drop_last()[j] == rest;
            assert(s[j] == e);
        }
        assert forall|i: int| 0 <= i < s.len() implies !beats(track_max, s[i], e) by {
            if i < s.len() - 1 {
                assert(s.drop_last()[i] == s[i]);
            }
        }
    }
}

/// An entry that no entry beats is the extremum: the extremum value of a
/// nonempty sequence is unique.
pub proof fn lemma_extremum_is_unique(track_max: bool, s: Seq<int>, e: int)
    requires
        s.len() > 0,
        s.contains(e),
        forall|i: int| 0 <= i < s.len() ==> !beats(track_max, s[i], e),
    ensures
        e == extremum(track_max, s),
{
    lemma_extremum_properties(track_max, s);
    let x = extremum(track_max, s);
    let i = choose|i: int| 0 <= i < s.len() && s[i] == e;
    let j = choose|j: int| 0 <= j < s.len() && s[j] == x;
    assert(!beats(track_max, s[j], e));
    assert(!beats(track_max, s[i], x));
}

/// Two distinct numbers less than `n` apart have distinct remainders
/// modulo `n`.
proof fn lemma_mod_distinct(a: int, b: int, n: int)
    requires
        n >= 1,
        0 <= b < a,
        a - b < n,
    ensures
        a % n != b % n,
{
    vstd::arithmetic::div_mod::lemma_fundamental_div_mod(a, n);
    vstd::arithmetic::div_mod::lemma_fundamental_div_mod(b, n);
    if a % n == b % n {
        let d = a / n - b / n;
        assert(a - b == n * d) by (nonlinear_arith)
            requires
                a == n * (a / n) + a % n,
                b == n * (b / n) + b % n,
                a % n == b % n,
                d == a / n - b / n,
        ;
        assert(false) by (nonlinear_arith)
            requires
                a - b == n * d,
                0 < a - b,
                a - b < n,
                n >= 1,
        ;
    }
}

/// Stepping the cursor: the remainder of `c + 1` advances the remainder of
/// `c` by one, wrapping to zero at `n`.
pub proof fn lemma_mod_step(c: int, n: int)
    requires
        n >= 1,
        c >= 0,
    ensures
        0 <= c % n < n,
        (c + 1) % n == if c % n + 1 == n {
            0int
        } else {
            c % n + 1
        },
{
    vstd::arithmetic::div_mod::lemma_mod_bound(c, n);
    vstd::arithmetic::div_mod::lemma_fundamental_div_mod(c, n);
    let q = c / n;
    let r = c % n;
    if r + 1 == n {
        assert(c + 1 == (q + 1) * n + 0) by (nonlinear_arith)
            requires
                c == n * q + r,
                r + 1 == n,
        ;
        vstd::arithmetic::div_mod::lemma_fundamental_div_mod_converse(c + 1, n, q + 1, 0);
    } else {
        assert(c + 1 == q * n + (r + 1)) by (nonlinear_arith)
            requires
                c == n * q + r,
        ;
        vstd::arithmetic::div_mod::lemma_fundamental_div_mod_converse(c + 1, n, q, r + 1);
    }
}

/// Each input still in view sits in its own slot: the `j`-th input of the
/// history (zero-based), if it is among the last `n`, is what slot
/// `(j + 1) % n` holds.
pub proof fn lemma_slot_of_recent(h: Seq<int>, n: nat, j: int)
    requires
        n >= 1,
        0 <= j < h.len(),
        h.len() - n <= j,
    ensures
        slot_val(h, n, (j + 1) % (n as int)) == Option::Some(h[j]),
    decreases h.len(),
{
    vstd::arithmetic::div_mod::lemma_mod_bound(j + 1, n as int);
    if j == h.len() - 1 {
        assert(slot_val(h, n, (j + 1) % (n as int)) == Option::Some(h.last()));
    } else {
        lemma_mod_distinct(h.len() as int, j + 1, n as int);
        assert(h.drop_last()[j] == h[j]);
        lemma_slot_of_recent(h.drop_last(), n, j);
    }
}

/// An occupied slot holds one of the last `n` inputs of the history: the one
/// whose one-based position has the slot's index as remainder modulo `n`.
pub proof fn lemma_slot_holds_recent(h: Seq<int>, n: nat, s: int)
    requires
        n >= 1,
        0 <= s < n,
        slot_val(h, n, s) is Some,
    ensures
        exists|j: int|
            0 <= j < h.len() && h.len() - n <= j && (j + 1) % (n as int) == s && Option::Some(
                h[j],
            ) == slot_val(h, n, s),
    decreases h.len(),
{
    let c = h.len() as int;
    if c % (n as int) == s {
        assert(0 <= c - 1 < h.len() && c - n <= c - 1 && (c - 1 + 1) % (n as int) == s
            && Option::Some(h[c - 1]) == slot_val(h, n, s));
    } else {
        lemma_slot_holds_recent(h.drop_last(), n, s);
        let j = choose|j: int|
            0 <= j < h.drop_last().len() && h.drop_last().len() - n <= j && (j + 1) % (n as int)
                == s && Option::Some(h.drop_last()[j]) == slot_val(h.drop_last(), n, s);
        if j == c - 1 - n {
            vstd::arithmetic::div_mod::lemma_mod_multiples_vanish(-1, c, n as int);
            assert((j + 1) % (n as int) == c % (n as int));
            assert(false);
        }
        assert(h.drop_last()[j] == h[j]);
        assert(0 <= j < h.len() && h.len() - n <= j && (j + 1) % (n as int) == s && Option::Some(
            h[j],
        ) == slot_val(h, n, s));
    }
}

/// The one slot an update writes is the one holding the new last input;
/// every other slot keeps its content.
pub proof fn lemma_slot_after_push(h: Seq<int>, n: nat, x: int, s: int)
    requires
        n >= 1,
        0 <= s < n,
    ensures
        slot_val(h.push(x), n, s) == if s == (h.len() as int + 1) % (n as int) {
            Option::Some(x)
        } else {
            slot_val(h, n, s)
        },
{
    let h2 = h.push(x);
    assert(h2.drop_last() =~= h);
    assert(h2.last() == x);
}

/// A cached slot that is occupied and that no slot beats holds the extremum
/// of the window: the heart of the tracker's correctness.
pub proof fn lemma_cached_slot_is_window_extremum(track_max: bool, h: Seq<int>, n: nat, e: int)
    requires
        n >= 1,
        h.len() > 0,
        0 <= e < n,
        slot_val(h, n, e) is Some,
        forall|s: int|
            0 <= s < n ==> !slot_beats(track_max, #[trigger] slot_val(h, n, s), slot_val(h, n, e)),
    ensures
        window(h, n).len() > 0,
        slot_val(h, n, e) == Option::Some(extremum(track_max, window(h, n))),
{
    let w = window(h, n);
    let c = h.len() as int;
    let start: int = if c <= n { 0 } else { c - n };
    let v = slot_val(h, n, e)->Some_0;

    // The cached value is one of the inputs in view.
    lemma_slot_holds_recent(h, n, e);
    let j = choose|j: int|
        0 <= j < h.len() && h.len() - n <= j && (j + 1) % (n as int) == e && Option::Some(h[j])
            == slot_val(h, n, e);
    assert(w[j - start] == h[j]);
    assert(w.contains(v));

    // No input in view beats it: each sits in a slot, and no slot beats the
    // cached one.
    assert forall|k: int| 0 <= k < w.len() implies !beats(track_max, w[k], v) by {
        let jj = start + k;
        assert(w[k] == h[jj]);
        lemma_slot_of_recent(h, n, jj);
        vstd::arithmetic::div_mod::lemma_mod_bound(jj + 1, n as int);
        assert(!slot_beats(
            track_max,
            slot_val(h, n, (jj + 1) % (n as int)),
            slot_val(h, n, e),
        ));
    }
    lemma_extremum_is_unique(track_max, w, v);
}

} // verus!
