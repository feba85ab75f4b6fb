//! The ordered frame sequence and its pacing.
use vstd::prelude::*;

use crate::frame::Frame;

verus! {

/// What a tick decides.
#[derive(Clone, Copy, Debug, PartialEq, Eq, Structural)]
pub enum Tick {
    /// Nothing is pushed.
    Keep,
    /// Push the frame at `index`; `duration` is its own display time in
    /// milliseconds, if it has one.
    Show { index: usize, duration: Option<u64> },
}

/// The state of a sequence of `len` frames after a tick from state
/// `(shown, index)`, and the index of the frame that tick pushes: nothing
/// is pushed when there is no frame, or when the only frame was shown.
pub open spec fn next_tick(len: nat, shown: bool, index: nat) -> (Option<nat>, bool, nat) {
    if len == 0 || (shown && len == 1) {
        (None, shown, index)
    } else {
        (Some(index % len), true, (index + 1) % len)
    }
}

/// The state of a sequence of `len` frames after `k` ticks from the start.
pub open spec fn state_after(len: nat, k: nat) -> (bool, nat)
    decreases k,
{
    if k == 0 {
        (false, 0)
    } else {
        let (s, i) = state_after(len, (k - 1) as nat);
        let (_, s2, i2) = next_tick(len, s, i);
        (s2, i2)
    }
}

/// The index of the frame that tick `k` (from 0) of a sequence of `len`
/// frames pushes, if any.
pub open spec fn pushed_at(len: nat, k: nat) -> Option<nat> {
    let (s, i) = state_after(len, k);
    next_tick(len, s, i).0
}

/// Owns the frames to show, in order, each with its own display time in
/// milliseconds if it has one, and the position in the sequence.
pub struct ImageManager {
    images: Vec<(Frame, Option<u64>)>,
    first: bool,
    index: usize,
}

impl ImageManager {
    #[verifier::type_invariant]
    closed spec fn well_formed(self) -> bool {
        self.index == 0 || self.index < self.images@.len()
    }

    /// The number of frames.
    pub closed spec fn len_spec(self) -> nat {
        self.images@.len()
    }

    /// Frame `i`.
    pub closed spec fn frame_spec(self, i: int) -> Frame {
        self.images@[i].0
    }

    /// The display time of frame `i`.
    pub closed spec fn duration_spec(self, i: int) -> Option<u64> {
        self.images@[i].1
    }

    /// Whether a frame was pushed.
    pub closed spec fn shown_spec(self) -> bool {
        self.first
    }

    /// The position in the sequence.
    pub closed spec fn index_spec(self) -> nat {
        self.index as nat
    }

    /// A manager of `images`, at the start of the sequence.
    pub fn from(images: Vec<(Frame, Option<u64>)>) -> (m: ImageManager)
        ensures
            m.len_spec() == images@.len(),
            forall|i: int| 0 <= i < images@.len() ==> m.duration_spec(i) == (#[trigger] images@[i]).1,
            forall|i: int| 0 <= i < images@.len() ==> m.frame_spec(i) == (#[trigger] images@[i]).0,
            !m.shown_spec(),
            m.index_spec() == 0,
    {
        ImageManager { images, first: false, index: 0 }
    }

    /// The number of frames.
    pub fn len(&self) -> (n: usize)
        ensures
            n as nat == self.len_spec(),
    {
        self.images.len()
    }

    /// The frame at `i`, if there is one.
    pub fn frame(&self, i: usize) -> (f: Option<&Frame>)
        ensures
            i < self.len_spec() ==> f == Some(&self.frame_spec(i as int)),
            i >= self.len_spec() ==> f is None,
    {
        if i < self.images.len() {
            Some(&self.images[i].0)
        } else {
            None
        }
    }

    /// Advances the sequence, which starts again after its last frame, and
    /// says which frame to push with its display time. With one frame in
    /// all, only the first tick pushes it.
    pub fn tick(&mut self) -> (t: Tick)
        ensures
            final(self).len_spec() == old(self).len_spec(),
            forall|i: int| 0 <= i < old(self).len_spec() ==> #[trigger] final(self).duration_spec(i) == old(self).duration_spec(i),
            forall|i: int| 0 <= i < old(self).len_spec() ==> #[trigger] final(self).frame_spec(i) == old(self).frame_spec(i),
            ({
                let (pushed, shown, index) = next_tick(old(self).len_spec(), old(self).shown_spec(), old(self).index_spec());
                &&& final(self).shown_spec() == shown
                &&& final(self).index_spec() == index
                &&& match pushed {
                    None => t == Tick::Keep,
                    Some(k) => t == (Tick::Show { index: k as usize, duration: old(self).duration_spec(k as int) }),
                }
            }),
    {
        proof {
            use_type_invariant(&*self);
        }
        let bound = self.images.len();
        if bound == 0 || (self.first && bound == 1) {
            return Tick::Keep;
        }
        let index = self.index;
        proof {
            vstd::arithmetic::div_mod::lemma_small_mod(index as nat, bound as nat);
            if index + 1 < bound {
                vstd::arithmetic::div_mod::lemma_small_mod((index + 1) as nat, bound as nat);
            } else {
                vstd::arithmetic::div_mod::lemma_mod_self_0(bound as int);
            }
        }
        let duration = self.images[index].1;
        self.index = if index + 1 < bound { index + 1 } else { 0 };
        self.first = true;
        Tick::Show { index, duration }
    }
}

/// The pause after a frame: its own display time, or else `1000 / fps`
/// milliseconds rounded down; with a rate of zero, the longest pause there is.
pub fn frame_delay_ms(duration: Option<u64>, fps: u32) -> (d: u64)
    ensures
        duration matches Some(v) ==> d == v,
        duration is None && fps > 0 ==> d == 1000int / (fps as int),
        duration is None && fps == 0 ==> d == u64::MAX,
{
    match duration {
        Some(v) => v,
        None => if fps == 0 {
            u64::MAX
        } else {
            1000 / (fps as u64)
        },
    }
}

/// A sequence of two frames or more is pushed in order, frame after frame,
/// and starts again after its last frame: tick `k` pushes frame
/// `k % len`. A sequence of one frame is pushed by the first tick only.
pub proof fn lemma_ticks_cycle(len: nat, k: nat)
    requires
        len >= 1,
    ensures
        len >= 2 ==> pushed_at(len, k) == Some(k % len),
        len == 1 ==> pushed_at(len, k) == if k == 0 { Some(0nat) } else { None::<nat> },
{
    lemma_state_after(len, k);
    vstd::arithmetic::div_mod::lemma_mod_bound(k as int, len as int);
    vstd::arithmetic::div_mod::lemma_small_mod(k % len, len);
    if len == 1 {
        assert(k % 1 == 0) by (nonlinear_arith);
    }
}

/// The state after `k` ticks: shown once `k > 0`, at position `k % len`.
proof fn lemma_state_after(len: nat, k: nat)
    requires
        len >= 1,
    ensures
        state_after(len, k) == (k > 0, k % len),
    decreases k,
{
    if k > 0 {
        let j = (k - 1) as nat;
        lemma_state_after(len, j);
        let (s, i) = state_after(len, j);
        assert(s == (j > 0) && i == j % len);
        vstd::arithmetic::div_mod::lemma_mod_bound(j as int, len as int);
        vstd::arithmetic::div_mod::lemma_mod_bound(k as int, len as int);
        assert(state_after(len, k) == (next_tick(len, s, i).1, next_tick(len, s, i).2));
        if len == 1 {
            assert(k % 1 == 0) by (nonlinear_arith);
            assert(j % 1 == 0) by (nonlinear_arith);
            assert((i + 1) % 1 == 0) by (nonlinear_arith);
        } else {
            vstd::arithmetic::div_mod::lemma_add_mod_noop(j as int, 1, len as int);
            vstd::arithmetic::div_mod::lemma_small_mod(1, len);
            assert((i + 1) % len == k % len);
        }
    } else {
        vstd::arithmetic::div_mod::lemma_small_mod(0, len);
    }
}

} // verus!
