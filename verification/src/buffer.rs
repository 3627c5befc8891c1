//! A time-keyed buffer of state keyframes with linear interpolation.
//!
//! Keys are unique nanosecond timestamps kept in strictly increasing order.
//! The buffer supports append-mostly insertion, removal of every keyframe at
//! or after a time (to discard a speculative future on a correction), exact
//! bracketed sampling, and edge-clamped sampling.

use vstd::prelude::*;
use crate::fixed::{add_i64_sat, div_trunc, mul_div_sat, sat_i64, sub_i64_sat, Vec2};

verus! {

/// Linear interpolation between two fixed-point values `a` and `b` by the
/// exact fraction `num / den`.
pub open spec fn lerp_i64_spec(a: int, b: int, num: int, den: int) -> int
    recommends
        0 < den,
{
    sat_i64(a + sat_i64(div_trunc(sat_i64(b - a) * num, den)))
}

/// Evaluates [`lerp_i64_spec`] exactly.
pub fn lerp_i64(a: i64, b: i64, num: u64, den: u64) -> (r: i64)
    requires
        1 <= den,
        num <= den,
    ensures
        r == lerp_i64_spec(a as int, b as int, num as int, den as int),
{
    let d: i64 = sub_i64_sat(b, a);
    let m: i64 = mul_div_sat(d, num, den);
    add_i64_sat(a, m)
}

/// Values that an interpolation buffer can blend.
pub trait Lerp: Sized {
    /// The meaning of blending `a` toward `b` by the fraction `num / den`.
    spec fn lerp_spec(a: Self, b: Self, num: int, den: int) -> Self;

    /// Blending by a zero fraction returns the first value unchanged.
    proof fn lemma_lerp_zero(a: Self, b: Self, den: int)
        requires
            1 <= den,
        ensures
            Self::lerp_spec(a, b, 0, den) == a,
    ;

    /// Blends `a` toward `b`, exactly as [`Lerp::lerp_spec`] says.
    fn lerp(a: Self, b: Self, num: u64, den: u64) -> (r: Self)
        requires
            1 <= den,
            num <= den,
        ensures
            r == Self::lerp_spec(a, b, num as int, den as int),
    ;
}

impl Lerp for Vec2 {
    open spec fn lerp_spec(a: Vec2, b: Vec2, num: int, den: int) -> Vec2 {
        (Vec2 {
            x: lerp_i64_spec(a.x as int, b.x as int, num, den) as i64,
            y: lerp_i64_spec(a.y as int, b.y as int, num, den) as i64,
        })
    }

    proof fn lemma_lerp_zero(a: Vec2, b: Vec2, den: int) {
    }

    fn lerp(a: Vec2, b: Vec2, num: u64, den: u64) -> (r: Vec2) {
        Vec2 { x: lerp_i64(a.x, b.x, num, den), y: lerp_i64(a.y, b.y, num, den) }
    }
}

/// An ordered, time-keyed set of keyframes.
pub struct InterpolationBuffer<V> {
    entries: Vec<(u64, V)>,
}

/// Number of keyframes with a key strictly below `t`; in a sorted sequence,
/// the position where a keyframe at `t` belongs.
pub open spec fn key_pos<V>(s: Seq<(u64, V)>, t: u64) -> int
    decreases s.len(),
{
    if s.len() == 0 {
        0
    } else if s[0].0 < t {
        1 + key_pos(s.drop_first(), t)
    } else {
        0
    }
}

/// What inserting a keyframe does: replace the keyframe that already carries
/// the same key, or splice a new one in at its ordered position.
pub open spec fn add_spec<V>(s: Seq<(u64, V)>, t: u64, v: V) -> Seq<(u64, V)> {
    let p = key_pos(s, t);
    if p < s.len() && s[p].0 == t {
        s.update(p, (t, v))
    } else {
        s.insert(p, (t, v))
    }
}

/// Keys are strictly increasing.
pub open spec fn sorted_keys<V>(s: Seq<(u64, V)>) -> bool {
    forall|i: int, j: int| 0 <= i < j < s.len() ==> s[i].0 < s[j].0
}

/// Index of the last keyframe keyed at or before `t`, or `-1` when `t`
/// precedes every key.
pub open spec fn floor_idx<V>(s: Seq<(u64, V)>, t: int) -> int
    decreases s.len(),
{
    if s.len() == 0 {
        -1
    } else if s[s.len() - 1].0 <= t {
        s.len() - 1
    } else {
        floor_idx(s.drop_last(), t)
    }
}

/// Bracketed linear sampling: defined only between the first and the last
/// key, blending the two keyframes around `t`.
pub open spec fn sample_spec<V: Lerp>(s: Seq<(u64, V)>, t: int) -> Option<V> {
    let i = floor_idx(s, t);
    if 0 <= i < s.len() - 1 {
        Some(
            V::lerp_spec(s[i].1, s[i + 1].1, t - s[i].0, s[i + 1].0 - s[i].0),
        )
    } else {
        None
    }
}

/// Edge-clamped sampling: the nearest end keyframe outside the keyed range,
/// bracketed sampling within it, nothing from an empty buffer.
pub open spec fn clamped_sample_spec<V: Lerp>(s: Seq<(u64, V)>, t: int) -> Option<V> {
    if s.len() == 0 {
        None
    } else if t <= s[0].0 {
        Some(s[0].1)
    } else if t >= s[s.len() - 1].0 {
        Some(s[s.len() - 1].1)
    } else {
        sample_spec(s, t)
    }
}

/// The characteristic properties of [`key_pos`] in a sorted sequence.
pub proof fn lemma_key_pos_props<V>(s: Seq<(u64, V)>, t: u64)
    requires
        sorted_keys(s),
    ensures
        0 <= key_pos(s, t) <= s.len(),
        forall|i: int| 0 <= i < key_pos(s, t) ==> s[i].0 < t,
        forall|i: int| key_pos(s, t) <= i < s.len() ==> s[i].0 >= t,
    decreases s.len(),
{
    if s.len() > 0 {
        assert(forall|i: int| 0 <= i < s.drop_first().len() ==> s.drop_first()[i] == s[i + 1]);
        assert(sorted_keys(s.drop_first()));
        lemma_key_pos_props(s.drop_first(), t);
        if s[0].0 < t {
            let r = s.drop_first();
            let p = key_pos(s, t);
            assert(p == 1 + key_pos(r, t));
            assert forall|i: int| 1 <= i < p implies s[i].0 < t by {
                assert(s[i] == r[i - 1]);
            }
            assert forall|i: int| p <= i < s.len() implies s[i].0 >= t by {
                assert(s[i] == r[i - 1]);
            }
        }
    }
}

/// The characteristic properties of [`floor_idx`] in a sorted sequence.
pub proof fn lemma_floor_idx_props<V>(s: Seq<(u64, V)>, t: int)
    requires
        sorted_keys(s),
    ensures
        -1 <= floor_idx(s, t) < s.len(),
        forall|i: int| 0 <= i <= floor_idx(s, t) ==> s[i].0 <= t || i < floor_idx(s, t),
        floor_idx(s, t) >= 0 ==> s[floor_idx(s, t)].0 <= t,
        floor_idx(s, t) + 1 < s.len() ==> s[floor_idx(s, t) + 1].0 > t,
        floor_idx(s, t) == -1 ==> (s.len() == 0 || s[0].0 > t),
    decreases s.len(),
{
    if s.len() > 0 {
        if s[s.len() - 1].0 <= t {
        } else {
            assert(sorted_keys(s.drop_last())) by {
                assert(forall|i: int|
                    0 <= i < s.drop_last().len() ==> s.drop_last()[i] == s[i]);
            }
            lemma_floor_idx_props(s.drop_last(), t);
            let f = floor_idx(s, t);
            assert(f == floor_idx(s.drop_last(), t));
            if f >= 0 {
                assert(s.drop_last()[f] == s[f]);
            }
            if f + 1 < s.len() - 1 {
                assert(s.drop_last()[f + 1] == s[f + 1]);
            }
        }
    }
}

impl<V: Lerp + Copy> InterpolationBuffer<V> {
    /// The keyframes, oldest first.
    pub closed spec fn view(self) -> Seq<(u64, V)> {
        self.entries@
    }

    /// Keys are strictly increasing.
    pub open spec fn wf(self) -> bool {
        sorted_keys(self.view())
    }

    /// An empty buffer.
    pub fn new() -> (r: InterpolationBuffer<V>)
        ensures
            r.view() == Seq::<(u64, V)>::empty(),
            r.wf(),
    {
        let entries: Vec<(u64, V)> = Vec::new();
        proof {
            assert(entries@ =~= Seq::<(u64, V)>::empty());
        }
        InterpolationBuffer { entries }
    }

    /// Builds a buffer from keyframes already in strictly increasing key order.
    pub fn from_vec(entries: Vec<(u64, V)>) -> (r: InterpolationBuffer<V>)
        requires
            sorted_keys(entries@),
        ensures
            r.view() == entries@,
            r.wf(),
    {
        InterpolationBuffer { entries }
    }

    /// How many keyframes the buffer holds.
    pub fn len(&self) -> (r: usize)
        ensures
            r == self.view().len(),
    {
        self.entries.len()
    }

    /// The keyframe at `i`, oldest first.
    pub fn get(&self, i: usize) -> (r: (u64, V))
        requires
            i < self.view().len(),
        ensures
            r == self.view()[i as int],
    {
        self.entries[i]
    }

    /// Inserts a keyframe at time `t`, replacing any keyframe already keyed
    /// there, exactly as [`add_spec`] says.
    pub fn add(&mut self, t: u64, v: V)
        requires
            old(self).wf(),
        ensures
            final(self).view() == add_spec(old(self).view(), t, v),
            final(self).wf(),
    {
        proof {
            lemma_key_pos_props(self.entries@, t);
        }
        let ghost s0 = self.entries@;
        let ghost p = key_pos(s0, t);
        let mut i: usize = 0;
        while i < self.entries.len() && self.entries[i].0 < t
            invariant
                0 <= i <= self.entries@.len(),
                self.entries@ == s0,
                forall|j: int| 0 <= j < i ==> s0[j].0 < t,
                0 <= p <= s0.len(),
                forall|j: int| 0 <= j < p ==> s0[j].0 < t,
                forall|j: int| p <= j < s0.len() ==> s0[j].0 >= t,
            decreases self.entries@.len() - i,
        {
            i = i + 1;
        }
        proof {
            assert(i == p) by {
                if (i as int) < p {
                    assert(s0[i as int].0 < t);
                }
                if p < i as int {
                    assert(s0[p].0 < t);
                }
            }
        }
        if i < self.entries.len() && self.entries[i].0 == t {
            self.entries.remove(i);
            self.entries.insert(i, (t, v));
            proof {
                assert(self.entries@ =~= s0.update(p, (t, v)));
                assert(sorted_keys(self.entries@)) by {
                    assert(forall|j: int|
                        0 <= j < s0.len() && j != p ==> self.entries@[j].0 == s0[j].0);
                }
            }
        } else {
            self.entries.insert(i, (t, v));
            proof {
                assert(self.entries@ =~= s0.insert(p, (t, v)));
                assert(sorted_keys(self.entries@)) by {
                    let s1 = self.entries@;
                    assert(forall|j: int| 0 <= j < p ==> s1[j] == s0[j]);
                    assert(forall|j: int| p < j < s1.len() ==> s1[j] == s0[j - 1]);
                    assert(s1[p] == (t, v));
                    assert(forall|a: int, b: int|
                        0 <= a < b < s1.len() ==> s1[a].0 < s1[b].0) by {
                        assert(forall|j: int| p < j < s1.len() ==> s1[j].0 >= t && s1[j].0 != t);
                    }
                }
            }
        }
    }

    /// Discards every keyframe timed at or after `t`: what remains is the
    /// prefix of keyframes strictly before `t`.
    pub fn remove_at_or_after(&mut self, t: u64)
        requires
            old(self).wf(),
        ensures
            final(self).view() == old(self).view().take(key_pos(old(self).view(), t)),
            final(self).wf(),
    {
        proof {
            lemma_key_pos_props(self.entries@, t);
        }
        let ghost s0 = self.entries@;
        let ghost p = key_pos(s0, t);
        while self.entries.len() > 0 && self.entries[self.entries.len() - 1].0 >= t
            invariant
                0 <= p <= s0.len(),
                p <= self.entries@.len() <= s0.len(),
                self.entries@ == s0.take(self.entries@.len() as int),
                forall|j: int| 0 <= j < p ==> s0[j].0 < t,
                forall|j: int| p <= j < s0.len() ==> s0[j].0 >= t,
            decreases self.entries@.len(),
        {
            self.entries.pop();
            proof {
                assert(self.entries@ =~= s0.take(self.entries@.len() as int));
            }
        }
        proof {
            let l = self.entries@.len() as int;
            assert(l == p) by {
                if l > p {
                    assert(self.entries@[l - 1] == s0[l - 1]);
                }
            }
            assert(self.entries@ =~= s0.take(p));
            assert(sorted_keys(self.entries@));
        }
    }

    /// Bracketed linear sampling at time `t`, exactly as [`sample_spec`] says.
    pub fn sample(&self, t: u64) -> (r: Option<V>)
        requires
            self.wf(),
        ensures
            r == sample_spec(self.view(), t as int),
    {
        proof {
            lemma_floor_idx_props(self.entries@, t as int);
        }
        let ghost s = self.entries@;
        let ghost f = floor_idx(s, t as int);
        let n = self.entries.len();
        if n < 2 {
            return None;
        }
        if self.entries[0].0 > t {
            return None;
        }
        let mut i: usize = 0;
        while i + 1 < n && self.entries[i + 1].0 <= t
            invariant
                0 <= i < n,
                n == s.len(),
                self.entries@ == s,
                s[i as int].0 <= t,
                forall|j: int| 0 <= j <= i ==> s[j].0 <= t,
            decreases n - i,
        {
            i = i + 1;
        }
        proof {
            assert(i as int == f) by {
                if (i as int) < f {
                    assert(s[i as int + 1].0 <= s[f].0) by {
                        if i as int + 1 < f {
                            assert(s[i as int + 1].0 < s[f].0);
                        }
                    }
                }
                if f < i as int {
                    assert(f + 1 < s.len());
                    assert(s[f + 1].0 > t);
                    assert(s[f + 1].0 <= t);
                }
            }
        }
        if i + 1 >= n {
            return None;
        }
        let (t0, v0) = self.entries[i];
        let (t1, v1) = self.entries[i + 1];
        assert(t0 < t1);
        assert(t < t1);
        Some(V::lerp(v0, v1, t - t0, t1 - t0))
    }

    /// Edge-clamped sampling at time `t`, exactly as
    /// [`clamped_sample_spec`] says.
    pub fn clamped_sample(&self, t: u64) -> (r: Option<V>)
        requires
            self.wf(),
        ensures
            r == clamped_sample_spec(self.view(), t as int),
    {
        let n = self.entries.len();
        if n == 0 {
            None
        } else if t <= self.entries[0].0 {
            Some(self.entries[0].1)
        } else if t >= self.entries[n - 1].0 {
            Some(self.entries[n - 1].1)
        } else {
            self.sample(t)
        }
    }
}

/// Bracketed sampling yields nothing before the first key or at and after
/// the last key.
pub proof fn lemma_sample_out_of_range<V: Lerp>(s: Seq<(u64, V)>, t: int)
    requires
        sorted_keys(s),
        s.len() == 0 || t < s[0].0 || t >= s[s.len() - 1].0,
    ensures
        sample_spec(s, t) is None,
{
    lemma_floor_idx_props(s, t);
    let f = floor_idx(s, t);
    if s.len() > 0 && t >= s[s.len() - 1].0 {
        assert(f == s.len() - 1) by {
            if f < s.len() - 1 {
                assert(s[f + 1].0 > t);
                assert(s[f + 1].0 <= s[s.len() - 1].0) by {
                    if f + 1 < s.len() - 1 {
                        assert(s[f + 1].0 < s[s.len() - 1].0);
                    }
                }
            }
        }
    }
}

/// A non-empty buffer always yields a clamped sample.
pub proof fn lemma_clamped_sample_some<V: Lerp>(s: Seq<(u64, V)>, t: int)
    requires
        sorted_keys(s),
        s.len() > 0,
    ensures
        clamped_sample_spec(s, t) is Some,
{
    if s[0].0 < t && t < s[s.len() - 1].0 {
        lemma_floor_idx_props(s, t);
        let f = floor_idx(s, t);
        assert(f >= 0) by {
            if f == -1 {
                assert(s[0].0 > t);
            }
        }
        assert(f < s.len() - 1) by {
            if f == s.len() - 1 {
                assert(s[f].0 <= t);
            }
        }
    }
}

/// Interpolation exactness: sampling at exactly a keyframe's timestamp
/// returns that keyframe's value unchanged, for every keyframe that is not
/// the last one (bracketed sampling ends at the last key).
pub proof fn lemma_sample_exact_at_key<V: Lerp>(s: Seq<(u64, V)>, i: int)
    requires
        sorted_keys(s),
        0 <= i < s.len() - 1,
    ensures
        sample_spec(s, s[i].0 as int) == Some(s[i].1),
{
    let t = s[i].0 as int;
    lemma_floor_idx_props(s, t);
    let f = floor_idx(s, t);
    assert(f == i) by {
        if f < i {
            assert(f + 1 <= i);
            assert(s[f + 1].0 <= s[i].0) by {
                if f + 1 < i {
                    assert(s[f + 1].0 < s[i].0);
                }
            }
            assert(s[f + 1].0 > t);
        }
        if i < f {
            assert(s[i].0 < s[f].0);
            assert(s[f].0 <= t);
        }
    }
    assert(s[i + 1].0 - s[i].0 >= 1);
    V::lemma_lerp_zero(s[i].1, s[i + 1].1, s[i + 1].0 - s[i].0);
}

/// Clamped interpolation exactness: at any keyframe's exact timestamp,
/// edge-clamped sampling returns that keyframe's value unchanged.
pub proof fn lemma_clamped_sample_exact_at_key<V: Lerp>(s: Seq<(u64, V)>, i: int)
    requires
        sorted_keys(s),
        0 <= i < s.len(),
    ensures
        clamped_sample_spec(s, s[i].0 as int) == Some(s[i].1),
{
    let t = s[i].0 as int;
    if i == 0 {
    } else if i == s.len() - 1 {
        assert(s[0].0 < s[i].0);
    } else {
        assert(s[0].0 < s[i].0);
        assert(s[i].0 < s[s.len() - 1].0);
        lemma_sample_exact_at_key(s, i);
    }
}

} // verus!
