//! Reconstruction of a remote timeline from a local time source.
//!
//! A [`LocalClock`] carries a signed offset that aligns the local absolute
//! time with the remote epoch.  With a fixed tick duration configured it
//! advances in whole ticks (fixed-step catch-up), leaving any sub-tick
//! remainder available for interpolation; without one it tracks continuous
//! time directly.

use vstd::prelude::*;
use crate::fixed::{abs_u64, add_u64_sat, sat_u64};

verus! {

/// A node's local view of time, handed to every per-tick update.
#[derive(Clone, Copy, Debug)]
pub struct LocalTime {
    /// Nanoseconds since this node started.
    pub absolute: u64,
    /// Nanoseconds elapsed since the previous update.
    pub delta: u64,
    /// How many updates this node has run.
    pub frame: u64,
}

/// A fault while advancing a clock; both abort the run rather than
/// silently clamping a broken timeline.
#[derive(Clone, Copy, Debug, PartialEq, Eq, Structural)]
pub enum ClockError {
    /// The reconstructed remote time fell behind the clock's recorded time.
    /// Corrections must re-anchor the clock explicitly, never run it backwards.
    RemoteTimeRegressed,
    /// The monotonic tick counter cannot grow any further.
    FrameCounterOverflow,
}

/// Reconstructs a discretized remote timeline from local absolute time.
#[derive(Clone, Copy, Debug)]
pub struct LocalClock {
    /// Signed offset in nanoseconds: local absolute time plus this offset
    /// is time on the remote timeline.
    pub clock_offset: i64,
    /// Duration covered by the last tick, in nanoseconds.
    pub delta_time: u64,
    /// The total number of frames played on the reconstructed timeline.
    pub frame_number: u64,
    /// How many whole frames the latest [`LocalClock::tick`] consumed.
    pub frames_since_tick: u64,
    /// Accumulated time on the remote timeline, in nanoseconds.
    pub absolute_time: u64,
    /// Optional time multiplier in parts per million.
    pub time_scale: Option<u32>,
    /// Optional fixed duration of one frame, in nanoseconds.
    pub time_per_frame: Option<u64>,
    /// Sub-tick remainder of the latest tick, in nanoseconds; divide by
    /// `time_per_frame` for the blending fraction.  Zero when the
    /// fixed-step catch-up landed exactly on a tick boundary.
    pub interpolation_alpha: u64,
}

impl LocalClock {
    /// A fixed tick duration, if configured, is at least one nanosecond.
    pub open spec fn wf(self) -> bool {
        match self.time_per_frame {
            Some(t) => 1 <= t,
            None => true,
        }
    }

    /// Local absolute time shifted onto the remote timeline (may be
    /// negative before the remote epoch).
    pub open spec fn remote_abs(self, local_abs: int) -> int {
        self.clock_offset + local_abs
    }

    /// Elapsed remote time, scaled by the configured multiplier.
    pub open spec fn scaled(self, e: int) -> int {
        match self.time_scale {
            Some(s) => sat_u64(e * s / 1_000_000),
            None => e,
        }
    }

    /// What one tick at local time `t` does to the clock.
    ///
    /// Before the remote epoch the tick is a no-op.  Otherwise the elapsed
    /// remote time since the last tick is consumed: in whole frames when a
    /// fixed tick duration is configured, continuously when not.
    pub open spec fn tick_spec(self, t: LocalTime) -> Result<LocalClock, ClockError> {
        let ra = self.remote_abs(t.absolute as int);
        if ra < 0 {
            Ok(self)
        } else {
            let abs = sat_u64(ra);
            if abs < self.absolute_time {
                Err(ClockError::RemoteTimeRegressed)
            } else {
                let e = self.scaled(abs - self.absolute_time);
                match self.time_per_frame {
                    Some(tpf) => {
                        let k = e / (tpf as int);
                        let rem = e % (tpf as int);
                        if self.frame_number + k > u64::MAX {
                            Err(ClockError::FrameCounterOverflow)
                        } else {
                            Ok(
                                (LocalClock {
                                    clock_offset: self.clock_offset,
                                    delta_time: tpf,
                                    frame_number: (self.frame_number + k) as u64,
                                    frames_since_tick: k as u64,
                                    absolute_time: sat_u64(self.absolute_time + k * tpf) as u64,
                                    time_scale: self.time_scale,
                                    time_per_frame: self.time_per_frame,
                                    interpolation_alpha: if self.frame_number + k > 0 {
                                        rem as u64
                                    } else {
                                        self.interpolation_alpha
                                    },
                                }),
                            )
                        }
                    },
                    None => {
                        if self.frame_number + 1 > u64::MAX {
                            Err(ClockError::FrameCounterOverflow)
                        } else {
                            Ok(
                                (LocalClock {
                                    clock_offset: self.clock_offset,
                                    delta_time: self.scaled(t.delta as int) as u64,
                                    frame_number: (self.frame_number + 1) as u64,
                                    frames_since_tick: 1u64,
                                    absolute_time: sat_u64(self.absolute_time + e) as u64,
                                    time_scale: self.time_scale,
                                    time_per_frame: self.time_per_frame,
                                    interpolation_alpha: 0u64,
                                }),
                            )
                        }
                    },
                }
            }
        }
    }

    /// A fresh clock: zero times, with the given offset and configuration.
    pub fn new(clock_offset: i64, time_scale: Option<u32>, time_per_frame: Option<u64>) -> (r:
        LocalClock)
        ensures
            r == (LocalClock {
                clock_offset,
                delta_time: 0u64,
                frame_number: 0u64,
                frames_since_tick: 0u64,
                absolute_time: 0u64,
                time_scale,
                time_per_frame,
                interpolation_alpha: 0u64,
            }),
    {
        LocalClock {
            clock_offset,
            delta_time: 0,
            frame_number: 0,
            frames_since_tick: 0,
            absolute_time: 0,
            time_scale,
            time_per_frame,
            interpolation_alpha: 0,
        }
    }

    /// Advances the reconstructed timeline to local time `t`, exactly as
    /// [`LocalClock::tick_spec`] says.  On a fault the clock is unchanged.
    ///
    /// Clock monotonicity: on success neither `frame_number` nor
    /// `absolute_time` decreases.
    pub fn tick(&mut self, t: &LocalTime) -> (r: Result<(), ClockError>)
        requires
            old(self).wf(),
        ensures
            (match old(self).tick_spec(*t) {
                Ok(c) => r is Ok && *final(self) == c,
                Err(e) => r == Err::<(), ClockError>(e) && *final(self) == *old(self),
            }),
            r is Ok ==> final(self).frame_number >= old(self).frame_number
                && final(self).absolute_time >= old(self).absolute_time,
    {
        proof {
            lemma_tick_spec_monotonic(*self, *t);
        }
        let ghost c0 = *self;
        let abs: u64;
        if self.clock_offset >= 0 {
            abs = add_u64_sat(t.absolute, self.clock_offset as u64);
        } else {
            let mag: u64 = abs_u64(self.clock_offset);
            if t.absolute < mag {
                // still before the remote epoch: nothing to advance
                return Ok(());
            }
            abs = t.absolute - mag;
        }
        if abs < self.absolute_time {
            return Err(ClockError::RemoteTimeRegressed);
        }
        let e: u64 = self.scale_elapsed(abs - self.absolute_time);
        if let Some(tpf) = self.time_per_frame {
            let k: u64 = e / tpf;
            let rem: u64 = e % tpf;
            if k > u64::MAX - self.frame_number {
                return Err(ClockError::FrameCounterOverflow);
            }
            proof {
                vstd::arithmetic::div_mod::lemma_fundamental_div_mod(e as int, tpf as int);
                vstd::arithmetic::div_mod::lemma_mod_bound(e as int, tpf as int);
                vstd::arithmetic::mul::lemma_mul_nonnegative(k as int, tpf as int);
                assert((k as int) * (tpf as int) == (tpf as int) * (k as int)) by (nonlinear_arith);
                assert((k as int) * (tpf as int) <= e);
            }
            let step: u64 = k * tpf;
            self.delta_time = tpf;
            self.frame_number = self.frame_number + k;
            self.frames_since_tick = k;
            self.absolute_time = add_u64_sat(self.absolute_time, step);
            if self.frame_number > 0 {
                self.interpolation_alpha = rem;
            }
            assert(*self == c0.tick_spec(*t)->Ok_0);
            Ok(())
        } else {
            if self.frame_number == u64::MAX {
                return Err(ClockError::FrameCounterOverflow);
            }
            let d: u64 = self.scale_elapsed(t.delta);
            self.delta_time = d;
            self.frame_number = self.frame_number + 1;
            self.frames_since_tick = 1;
            self.absolute_time = add_u64_sat(self.absolute_time, e);
            self.interpolation_alpha = 0;
            assert(*self == c0.tick_spec(*t)->Ok_0);
            Ok(())
        }
    }

    /// Applies the configured time multiplier to an elapsed duration.
    fn scale_elapsed(&self, e: u64) -> (r: u64)
        ensures
            r == self.scaled(e as int),
    {
        match self.time_scale {
            Some(s) => {
                proof {
                    crate::fixed::lemma_mul_fits_u128(e as int, s as int);
                }
                let p: u128 = (e as u128) * (s as u128) / 1_000_000u128;
                if p > u64::MAX as u128 {
                    u64::MAX
                } else {
                    p as u64
                }
            },
            None => e,
        }
    }
}

/// One tick never runs the reconstructed timeline backwards.
pub proof fn lemma_tick_spec_monotonic(c: LocalClock, t: LocalTime)
    requires
        c.wf(),
    ensures
        (match c.tick_spec(t) {
            Ok(c2) => c2.frame_number >= c.frame_number && c2.absolute_time >= c.absolute_time,
            Err(_) => true,
        }),
{
    let ra = c.remote_abs(t.absolute as int);
    if ra >= 0 {
        let abs = sat_u64(ra);
        if abs >= c.absolute_time {
            let e = c.scaled(abs - c.absolute_time);
            assert(e >= 0);
            match c.time_per_frame {
                Some(tpf) => {
                    let k = e / (tpf as int);
                    vstd::arithmetic::div_mod::lemma_div_pos_is_pos(e, tpf as int);
                    vstd::arithmetic::mul::lemma_mul_nonnegative(k, tpf as int);
                },
                None => {},
            }
        }
    }
}

/// Folds [`LocalClock::tick_spec`] over a whole sequence of local times.
pub open spec fn tick_seq_spec(c: LocalClock, ts: Seq<LocalTime>) -> Result<
    LocalClock,
    ClockError,
>
    decreases ts.len(),
{
    if ts.len() == 0 {
        Ok(c)
    } else {
        match c.tick_spec(ts[0]) {
            Ok(c2) => tick_seq_spec(c2, ts.drop_first()),
            Err(e) => Err(e),
        }
    }
}

/// Clock monotonicity: across any sequence of ticks, without an explicit
/// correction, `frame_number` and `absolute_time` are non-decreasing.
pub proof fn lemma_clock_monotonic(c: LocalClock, ts: Seq<LocalTime>)
    requires
        c.wf(),
    ensures
        (match tick_seq_spec(c, ts) {
            Ok(c2) => c2.frame_number >= c.frame_number && c2.absolute_time >= c.absolute_time,
            Err(_) => true,
        }),
    decreases ts.len(),
{
    if ts.len() > 0 {
        lemma_tick_spec_monotonic(c, ts[0]);
        match c.tick_spec(ts[0]) {
            Ok(c2) => {
                lemma_clock_monotonic(c2, ts.drop_first());
            },
            Err(_) => {},
        }
    }
}

} // verus!
