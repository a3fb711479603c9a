//! The sliding-window extremum tracker: the shared core of the minimum and
//! maximum indicators, parameterized by the comparison direction.
//!
//! The tracker keeps a fixed-size circular buffer of the last `n` inputs and
//! a cached index of the slot holding the current extremum. An update
//! overwrites the oldest slot and, in the common case, adjusts the cache in
//! O(1); only when the overwritten slot was the cached one and the new value
//! does not win outright is the buffer rescanned.

use vstd::prelude::*;

use crate::model::{
    extremum, lemma_cached_slot_is_window_extremum, lemma_mod_step, lemma_slot_after_push,
    opt_value, slot_beats, slot_val, window,
};
use crate::Error;

verus! {

/// A running minimum or maximum over the last `n` inputs.
#[derive(Clone)]
pub struct ExtremumTracker {
    n: usize,
    track_max: bool,
    slots: Vec<Option<i64>>,
    ext_index: usize,
    cur_index: usize,
    hist: Ghost<Seq<int>>,
}

impl ExtremumTracker {
    /// The configured window length.
    pub closed spec fn win_len(self) -> nat {
        self.n as nat
    }

    /// Whether this tracker follows the maximum (else the minimum).
    pub closed spec fn tracks_max(self) -> bool {
        self.track_max
    }

    /// The inputs fed to the tracker since construction or the last reset.
    pub closed spec fn inputs(self) -> Seq<int> {
        self.hist@
    }

    /// The tracker's invariant: the buffer holds exactly the slot contents
    /// prescribed by the input history, the cursor is the history length
    /// modulo `n`, and no slot beats the cached one.
    pub closed spec fn wf(self) -> bool {
        &&& self.n >= 1
        &&& self.slots@.len() == self.n
        &&& self.cur_index < self.n
        &&& self.ext_index < self.n
        &&& self.cur_index as int == self.hist@.len() as int % (self.n as int)
        &&& (forall|s: int|
            0 <= s < self.n ==> opt_value(#[trigger] self.slots@[s]) == slot_val(
                self.hist@,
                self.n as nat,
                s,
            ))
        &&& (forall|s: int|
            0 <= s < self.n ==> !slot_beats(
                self.track_max,
                opt_value(#[trigger] self.slots@[s]),
                opt_value(self.slots@[self.ext_index as int]),
            ))
    }

    /// A buffer of `len` empty slots.
    fn empty_slots(len: usize) -> (v: Vec<Option<i64>>)
        ensures
            v@.len() == len,
            forall|s: int| 0 <= s < len ==> #[trigger] v@[s] == Option::<i64>::None,
    {
        let mut v: Vec<Option<i64>> = Vec::new();
        let mut i: usize = 0;
        while i < len
            invariant
                i <= len,
                v@.len() == i,
                forall|s: int| 0 <= s < i ==> #[trigger] v@[s] == Option::<i64>::None,
            decreases len - i,
        {
            v.push(Option::None);
            i = i + 1;
        }
        v
    }

    /// Whether the value in `a` wins the comparison against the value in
    /// `b`, an empty slot losing against everything.
    fn slot_wins(track_max: bool, a: &Option<i64>, b: &Option<i64>) -> (r: bool)
        ensures
            r == slot_beats(track_max, opt_value(*a), opt_value(*b)),
    {
        match (a, b) {
            (Option::Some(x), Option::Some(y)) => if track_max {
                *x > *y
            } else {
                *x < *y
            },
            (Option::Some(_), Option::None) => true,
            (Option::None, _) => false,
        }
    }

    /// Whether the new input wins the comparison against a slot.
    fn value_wins(track_max: bool, value: i64, slot: &Option<i64>) -> (r: bool)
        ensures
            r == slot_beats(track_max, Option::Some(value as int), opt_value(*slot)),
    {
        match slot {
            Option::Some(x) => if track_max {
                value > *x
            } else {
                value < *x
            },
            Option::None => true,
        }
    }

    /// A full rescan of the buffer: the index of a slot that no slot beats.
    fn find_ext_index(track_max: bool, slots: &Vec<Option<i64>>) -> (r: usize)
        requires
            slots@.len() >= 1,
        ensures
            r < slots@.len(),
            forall|s: int|
                0 <= s < slots@.len() ==> !slot_beats(
                    track_max,
                    opt_value(#[trigger] slots@[s]),
                    opt_value(slots@[r as int]),
                ),
    {
        let mut best: usize = 0;
        let mut i: usize = 1;
        while i < slots.len()
            invariant
                1 <= i <= slots@.len(),
                best < i,
                forall|s: int|
                    0 <= s < i ==> !slot_beats(
                        track_max,
                        opt_value(#[trigger] slots@[s]),
                        opt_value(slots@[best as int]),
                    ),
            decreases slots@.len() - i,
        {
            if Self::slot_wins(track_max, &slots[i], &slots[best]) {
                best = i;
            }
            i = i + 1;
        }
        best
    }

    /// Builds a tracker over the last `n` inputs, in the given direction.
    /// Fails exactly when the requested length is zero.
    pub fn new(n: u32, track_max: bool) -> (r: Result<ExtremumTracker, Error>)
        ensures
            n == 0 <==> r is Err,
            r is Err ==> r == Result::<ExtremumTracker, Error>::Err(Error::InvalidParameter),
            r is Ok ==> (r->Ok_0).wf() && (r->Ok_0).win_len() == n as nat && (
            r->Ok_0).tracks_max() == track_max && (r->Ok_0).inputs() == Seq::<int>::empty(),
    {
        if n == 0 {
            return Result::Err(Error::InvalidParameter);
        }
        let len = n as usize;
        let slots = Self::empty_slots(len);
        let t = ExtremumTracker {
            n: len,
            track_max,
            slots,
            ext_index: 0,
            cur_index: 0,
            hist: Ghost(Seq::empty()),
        };
        proof {
            vstd::arithmetic::div_mod::lemma_small_mod(0nat, len as nat);
        }
        Result::Ok(t)
    }

    /// Appends one input, evicting the oldest, and returns the extremum of
    /// the inputs still in view: the last `n`, or all of them before the
    /// window first fills.
    pub fn update(&mut self, value: i64) -> (r: i64)
        requires
            old(self).wf(),
        ensures
            final(self).wf(),
            final(self).win_len() == old(self).win_len(),
            final(self).tracks_max() == old(self).tracks_max(),
            final(self).inputs() == old(self).inputs().push(value as int),
            r as int == extremum(
                final(self).tracks_max(),
                window(final(self).inputs(), final(self).win_len()),
            ),
    {
        let ghost h0 = self.hist@;
        let ghost n = self.n as nat;
        let ghost tm = self.track_max;
        proof {
            vstd::arithmetic::div_mod::lemma_small_mod(self.cur_index as nat, n);
            lemma_mod_step(self.cur_index as int, self.n as int);
            lemma_mod_step(h0.len() as int, self.n as int);
        }
        let ghost old_ext = self.ext_index as int;
        let ghost old_slots = self.slots@;

        self.cur_index = (self.cur_index + 1) % self.n;
        self.slots[self.cur_index] = Option::Some(value);
        self.hist = Ghost(h0.push(value as int));

        let ghost hf = self.hist@;
        let ghost cur = self.cur_index as int;
        proof {
            assert forall|s: int| 0 <= s < n implies opt_value(#[trigger] self.slots@[s])
                == slot_val(hf, n, s) by {
                lemma_slot_after_push(h0, n, value as int, s);
            }
        }

        if Self::value_wins(self.track_max, value, &self.slots[self.ext_index]) {
            self.ext_index = self.cur_index;
            proof {
                // The cached slot was not the one just overwritten: the new
                // value cannot win against itself.
                assert(old_ext != cur);
                assert forall|s: int| 0 <= s < n implies !slot_beats(
                    tm,
                    opt_value(#[trigger] self.slots@[s]),
                    opt_value(self.slots@[cur]),
                ) by {
                    if s != cur {
                        assert(self.slots@[s] == old_slots[s]);
                        assert(!slot_beats(tm, opt_value(old_slots[s]), opt_value(old_slots[old_ext])));
                    }
                }
            }
        } else if self.ext_index == self.cur_index {
            let idx = Self::find_ext_index(self.track_max, &self.slots);
            self.ext_index = idx;
        } else {
            proof {
                assert forall|s: int| 0 <= s < n implies !slot_beats(
                    tm,
                    opt_value(#[trigger] self.slots@[s]),
                    opt_value(self.slots@[old_ext]),
                ) by {
                    if s != cur {
                        assert(self.slots@[s] == old_slots[s]);
                    }
                    assert(self.slots@[old_ext] == old_slots[old_ext]);
                }
            }
        }

        proof {
            let e = self.ext_index as int;
            // The slot just written is occupied, so the cached slot must be
            // occupied too: an occupied slot beats an empty one.
            assert(hf.len() as int % (n as int) == cur);
            assert(slot_val(hf, n, cur) == Option::Some(hf.last()));
            assert(!slot_beats(tm, opt_value(self.slots@[cur]), opt_value(self.slots@[e])));
            assert(slot_val(hf, n, e) is Some);
            assert forall|s: int| 0 <= s < n implies !slot_beats(
                tm,
                #[trigger] slot_val(hf, n, s),
                slot_val(hf, n, e),
            ) by {
                assert(opt_value(self.slots@[s]) == slot_val(hf, n, s));
            }
            lemma_cached_slot_is_window_extremum(tm, hf, n, e);
        }
        let out = self.slots[self.ext_index];
        match out {
            Option::Some(v) => v,
            Option::None => {
                proof {
                    assert(false);
                }
                0
            },
        }
    }

    /// The window length as configured at construction.
    pub fn length(&self) -> (r: usize)
        ensures
            r as nat == self.win_len(),
    {
        self.n
    }

    /// Clears every slot back to the empty sentinel and rewinds the cursor:
    /// the tracker forgets all inputs but keeps its length and direction.
    pub fn reset(&mut self)
        requires
            old(self).wf(),
        ensures
            final(self).wf(),
            final(self).win_len() == old(self).win_len(),
            final(self).tracks_max() == old(self).tracks_max(),
            final(self).inputs() == Seq::<int>::empty(),
    {
        let len = self.n;
        self.slots = Self::empty_slots(len);
        self.cur_index = 0;
        self.ext_index = 0;
        self.hist = Ghost(Seq::empty());
        proof {
            vstd::arithmetic::div_mod::lemma_small_mod(0nat, len as nat);
        }
    }
}

} // verus!
