//! The deterministic reconciling strategy.
//!
//! A [`ServerRateSimulationState`] combines a [`LocalClock`] reconstructing
//! the server's timeline, an interpolation buffer of predicted and confirmed
//! keyframes, a locally predicted simulation instance, and a server-confirmed
//! instance.  Out-of-order and duplicate sync messages are protocol cases,
//! not errors: a message that is not strictly newer than the last one seen is
//! ignored, a message older than the reconstructed tick re-anchors the clock
//! and discards the speculative future, and a message ahead of the
//! reconstructed tick is stashed until local replay catches up to its frame.

use vstd::prelude::*;
use crate::behaviours::DeterministicSimulation;
use crate::buffer::{add_spec, key_pos, lemma_sample_out_of_range, sample_spec,
    InterpolationBuffer};
use crate::clock::{LocalClock, LocalTime};
use crate::fixed::{mul_u64_sat, sat_u64, sub_u64_sat};
use crate::sim::{Sample, SimError, SimSettings};

verus! {

/// The synchronization-relevant content of a [`ServerRateSimulationState`].
pub struct ServerRateView<T: DeterministicSimulation> {
    pub buffer: Seq<(u64, T::SyncType)>,
    pub clock: Option<LocalClock>,
    pub client_sim: T,
    pub server: T,
    pub last_server_frame: Option<u64>,
    pub render_delay: u64,
    pub server_fps: u32,
}

/// What receiving a sync message does to the reconciling state.
///
/// The first message anchors a fresh clock at the server's timestamp and
/// frame, seeds the buffer with the decoded snapshot, and copies it into the
/// predicted instance.  After that, a message not strictly newer than the
/// last seen frame is a no-op; a message older than the reconstructed tick
/// is a rollback correction (re-anchor the clock, overwrite the prediction,
/// discard every keyframe at or after the corrected time); a message at or
/// ahead of the reconstructed tick is stashed as the pending confirmed frame.
///
/// The two comparisons are deliberately different: whether a message is new
/// at all is judged against the last frame *seen* (stashed or rolled back
/// to), while whether it is a correction is judged against the clock's
/// *reconstructed* tick, which replay may have carried past the last seen
/// frame.
pub open spec fn server_rate_recv_spec<T: DeterministicSimulation>(
    v: ServerRateView<T>,
    t: LocalTime,
    server_time: u64,
    server_frame: u64,
    msg: Seq<u8>,
) -> Result<ServerRateView<T>, SimError> {
    match v.clock {
        None => {
            match T::decoded(msg) {
                None => Err(SimError::MalformedSync),
                Some(snap) => {
                    let off = server_time - t.absolute;
                    if off < i64::MIN || off > i64::MAX {
                        Err(SimError::TimeOutOfRange)
                    } else {
                        let server2 = v.server.recv_state_spec(snap);
                        Ok(
                            (ServerRateView {
                                buffer: add_spec(v.buffer, server_time,
                                server2.send_state_spec()),
                                clock: Some(
                                    (LocalClock {
                                        clock_offset: off as i64,
                                        delta_time: 0u64,
                                        frame_number: server_frame,
                                        frames_since_tick: 0u64,
                                        absolute_time: server_time,
                                        time_scale: None::<u32>,
                                        time_per_frame: Some(
                                            (1_000_000_000u64 / (v.server_fps as u64)) as u64,
                                        ),
                                        interpolation_alpha: 0u64,
                                    }),
                                ),
                                client_sim: v.client_sim.sync_from_spec(&server2),
                                server: server2,
                                last_server_frame: v.last_server_frame,
                                render_delay: v.render_delay,
                                server_fps: v.server_fps,
                            }),
                        )
                    }
                },
            }
        },
        Some(c) => {
            let newer = match v.last_server_frame {
                Some(f) => f < server_frame,
                None => true,
            };
            if !newer {
                Ok(v)
            } else if server_frame < c.frame_number {
                match T::decoded(msg) {
                    None => Err(SimError::MalformedSync),
                    Some(snap) => Ok(
                        (ServerRateView {
                            buffer: v.buffer.take(key_pos(v.buffer, server_time)),
                            clock: Some(
                                (LocalClock {
                                    clock_offset: c.clock_offset,
                                    delta_time: c.delta_time,
                                    frame_number: server_frame,
                                    frames_since_tick: c.frames_since_tick,
                                    absolute_time: server_time,
                                    time_scale: c.time_scale,
                                    time_per_frame: c.time_per_frame,
                                    interpolation_alpha: c.interpolation_alpha,
                                }),
                            ),
                            client_sim: v.client_sim.recv_state_spec(snap),
                            server: v.server,
                            last_server_frame: None::<u64>,
                            render_delay: v.render_delay,
                            server_fps: v.server_fps,
                        }),
                    ),
                }
            } else {
                match T::decoded(msg) {
                    None => Err(SimError::MalformedSync),
                    Some(snap) => Ok(
                        (ServerRateView {
                            buffer: v.buffer,
                            clock: v.clock,
                            client_sim: v.client_sim,
                            server: v.server.recv_state_spec(snap),
                            last_server_frame: Some(server_frame),
                            render_delay: v.render_delay,
                            server_fps: v.server_fps,
                        }),
                    ),
                }
            }
        },
    }
}

/// The first `k` replay steps of a render tick, oldest first.  A step whose
/// frame equals the pending confirmed frame adopts the confirmed server
/// state and clears the marker; any other step advances the prediction by
/// exactly one fixed tick.  Every step appends the predicted snapshot to
/// the interpolation buffer, keyed by that frame's timeline time.
pub open spec fn replay_spec<T: DeterministicSimulation>(
    client: T,
    server: T,
    last: Option<u64>,
    buf: Seq<(u64, T::SyncType)>,
    frame_number: u64,
    frames_since_tick: u64,
    tpf: u64,
    k: nat,
) -> (T, Option<u64>, Seq<(u64, T::SyncType)>)
    decreases k,
{
    if k == 0 {
        (client, last, buf)
    } else {
        let prev = replay_spec(client, server, last, buf, frame_number, frames_since_tick, tpf,
        (k - 1) as nat);
        let frame = sat_u64(frame_number - frames_since_tick + k) as u64;
        let ft = sat_u64(frame * tpf) as u64;
        if prev.1 == Some(frame) {
            let c2 = prev.0.sync_from_spec(&server);
            (c2, None::<u64>, add_spec(prev.2, ft, c2.send_state_spec()))
        } else {
            let c2 = prev.0.update_spec(ft, tpf);
            (c2, prev.1, add_spec(prev.2, ft, c2.send_state_spec()))
        }
    }
}

/// The time a render tick samples the interpolation buffer at: the
/// reconstructed remote time, less one tick (the buffer always runs one
/// tick ahead of the sampled point), less the configured render delay.
pub open spec fn render_sample_time_spec(remote_now: int, tpf: int, delay: int) -> int {
    remote_now - tpf - delay
}

/// Render delay bound: with zero delay the sampled time is exactly one tick
/// behind the reconstructed remote time and never later, and each added
/// nanosecond of delay pushes the sampled time exactly that much further
/// back, so the lag grows strictly with the delay.
pub proof fn lemma_render_delay_bound(remote_now: int, tpf: int, d1: int, d2: int)
    requires
        0 <= d1 < d2,
    ensures
        render_sample_time_spec(remote_now, tpf, 0) == remote_now - tpf,
        render_sample_time_spec(remote_now, tpf, d1) <= remote_now - tpf,
        render_sample_time_spec(remote_now, tpf, d1) - render_sample_time_spec(remote_now, tpf, d2)
            == d2 - d1,
{
}

/// What one render tick does to the reconciling state, and the sample it
/// shows.  Before any snapshot has arrived there is no clock and nothing to
/// show.  Otherwise the clock advances, each newly elapsed frame is
/// replayed per [`replay_spec`], and the buffer is sampled at the delayed
/// time of [`render_sample_time_spec`].
pub open spec fn server_rate_render_spec<T: DeterministicSimulation>(
    v: ServerRateView<T>,
    t: LocalTime,
) -> Result<(ServerRateView<T>, Option<Sample>), SimError> {
    match v.clock {
        None => Ok((v, None::<Sample>)),
        Some(c) => match c.tick_spec(t) {
            Err(e) => Err(SimError::Clock(e)),
            Ok(c2) => {
                let tpf = c2.time_per_frame->Some_0;
                let rep = replay_spec(v.client_sim, v.server, v.last_server_frame, v.buffer,
                c2.frame_number, c2.frames_since_tick, tpf, c2.frames_since_tick as nat);
                let ts = render_sample_time_spec(c2.clock_offset + t.absolute, tpf as int,
                v.render_delay as int);
                let sample = match sample_spec(rep.2, ts) {
                    Some(x) => Some(rep.0.pos_spec(x)),
                    None => None::<Sample>,
                };
                Ok(
                    (
                        (ServerRateView {
                            buffer: rep.2,
                            clock: Some(c2),
                            client_sim: rep.0,
                            server: v.server,
                            last_server_frame: rep.1,
                            render_delay: v.render_delay,
                            server_fps: v.server_fps,
                        }),
                        sample,
                    ),
                )
            },
        },
    }
}

/// The deterministic reconciling strategy over a deterministic simulation:
/// replay forward from the last confirmed snapshot with the same step
/// function the server runs, snap to confirmed snapshots when they arrive
/// on time, and roll back when they arrive late or out of order.
pub struct ServerRateSimulationState<T: DeterministicSimulation> {
    pub interpolation_buffer: InterpolationBuffer<T::SyncType>,
    /// Absent until the first snapshot arrives.
    pub clock: Option<LocalClock>,
    /// The locally predicted instance.
    pub client_sim: T,
    /// The server-confirmed instance.
    pub server: T,
    /// The confirmed-but-unapplied server frame, if any.
    pub last_server_frame: Option<u64>,
    /// Extra sampling delay, in nanoseconds.
    pub render_delay: u64,
    /// The server's fixed tick rate this clock reconstructs.
    pub server_fps: u32,
}

impl<T: DeterministicSimulation> ServerRateSimulationState<T> {
    /// The synchronization-relevant content.
    pub open spec fn view(&self) -> ServerRateView<T> {
        (ServerRateView {
            buffer: self.interpolation_buffer.view(),
            clock: self.clock,
            client_sim: self.client_sim,
            server: self.server,
            last_server_frame: self.last_server_frame,
            render_delay: self.render_delay,
            server_fps: self.server_fps,
        })
    }

    /// The buffer is ordered, the tick rate is sane, and any clock carries
    /// a fixed tick duration.
    pub open spec fn wf(&self) -> bool {
        &&& self.interpolation_buffer.wf()
        &&& 1 <= self.server_fps <= 1_000_000_000
        &&& match self.clock {
            Some(c) => c.wf() && c.time_per_frame is Some,
            None => true,
        }
    }

    /// A fresh reconciling state: no clock, an empty buffer, a default
    /// predicted instance and the authoritative starting state.
    pub fn new(settings: &SimSettings) -> (r: ServerRateSimulationState<T>)
        requires
            settings.wf(),
        ensures
            r.view() == (ServerRateView {
                buffer: Seq::<(u64, T::SyncType)>::empty(),
                clock: None::<LocalClock>,
                client_sim: T::default_spec(),
                server: T::initial_spec(*settings),
                last_server_frame: None::<u64>,
                render_delay: settings.render_interpolation_delay,
                server_fps: settings.server_fps,
            }),
            r.wf(),
    {
        ServerRateSimulationState {
            interpolation_buffer: InterpolationBuffer::new(),
            clock: None,
            client_sim: T::default_state(),
            server: T::initial(settings),
            last_server_frame: None,
            render_delay: settings.render_interpolation_delay,
            server_fps: settings.server_fps,
        }
    }

    /// Serializes the authoritative state for transmission.
    pub fn send_sync(&self) -> (r: Vec<u8>)
        ensures
            r@ == T::encoded(self.server.send_state_spec()),
    {
        let state = self.server.send_state();
        T::encode_sync(&state)
    }

    /// Consumes one sync message, exactly as [`server_rate_recv_spec`]
    /// says.  On a fault the state is unchanged.
    pub fn recv_sync(&mut self, t: &LocalTime, server_time: u64, server_frame: u64, msg: &[u8])
        -> (r: Result<(), SimError>)
        requires
            old(self).wf(),
        ensures
            (match server_rate_recv_spec(old(self).view(), *t, server_time, server_frame, msg@) {
                Ok(v) => r is Ok && final(self).view() == v,
                Err(e) => r == Err::<(), SimError>(e) && final(self).view() == old(self).view(),
            }),
            final(self).wf(),
    {
        if self.clock.is_none() {
            let snap = match T::decode_sync(msg) {
                Ok(s) => s,
                Err(_) => {
                    return Err(SimError::MalformedSync);
                },
            };
            // offset aligning local time with the server's epoch: adding it
            // to the local absolute time must give exactly `server_time` at
            // the moment of receipt, so the reconstructed timeline starts at
            // the server's timestamp and trails the server by the receipt lag
            let off: i64;
            if server_time >= t.absolute {
                let d: u64 = server_time - t.absolute;
                if d > i64::MAX as u64 {
                    return Err(SimError::TimeOutOfRange);
                }
                off = d as i64;
            } else {
                let d: u64 = t.absolute - server_time;
                if d <= i64::MAX as u64 {
                    off = -(d as i64);
                } else if d == 9_223_372_036_854_775_808u64 {
                    off = i64::MIN;
                } else {
                    return Err(SimError::TimeOutOfRange);
                }
            }
            self.server.recv_state(snap);
            let tpf: u64 = 1_000_000_000u64 / (self.server_fps as u64);
            proof {
                vstd::arithmetic::div_mod::lemma_div_non_zero(1_000_000_000,
                self.server_fps as int);
            }
            let mut clock = LocalClock::new(off, None, Some(tpf));
            clock.frame_number = server_frame;
            clock.absolute_time = server_time;
            let state = self.server.send_state();
            self.interpolation_buffer.add(server_time, state);
            self.clock = Some(clock);
            self.client_sim.sync_from(&self.server);
            Ok(())
        } else {
            let clock_frame_number: u64 = match &self.clock {
                Some(c) => c.frame_number,
                None => 0,
            };
            let newer: bool = match self.last_server_frame {
                Some(f) => f < server_frame,
                None => true,
            };
            if !newer {
                // duplicate or reordered message: idempotent no-op
                Ok(())
            } else if server_frame < clock_frame_number {
                // rollback correction: re-anchor and discard the
                // speculative future
                let snap = match T::decode_sync(msg) {
                    Ok(s) => s,
                    Err(_) => {
                        return Err(SimError::MalformedSync);
                    },
                };
                self.last_server_frame = None;
                match &mut self.clock {
                    Some(c) => {
                        c.frame_number = server_frame;
                        c.absolute_time = server_time;
                    },
                    None => {},
                }
                self.client_sim.recv_state(snap);
                self.interpolation_buffer.remove_at_or_after(server_time);
                Ok(())
            } else {
                // confirmed frame ahead of the reconstructed tick: stash it
                let snap = match T::decode_sync(msg) {
                    Ok(s) => s,
                    Err(_) => {
                        return Err(SimError::MalformedSync);
                    },
                };
                self.last_server_frame = Some(server_frame);
                self.server.recv_state(snap);
                Ok(())
            }
        }
    }

    /// Runs one render tick, exactly as [`server_rate_render_spec`] says.
    /// On a clock fault the state is unchanged and the run must abort.
    pub fn update_render(&mut self, t: &LocalTime) -> (r: Result<Option<Sample>, SimError>)
        requires
            old(self).wf(),
        ensures
            (match server_rate_render_spec(old(self).view(), *t) {
                Ok((v, s)) => r == Ok::<Option<Sample>, SimError>(s) && final(self).view() == v,
                Err(e) => r == Err::<Option<Sample>, SimError>(e) && final(self).view() == old(
                    self,
                ).view(),
            }),
            final(self).wf(),
    {
        let ghost v0 = self.view();
        let clock_copy = match &mut self.clock {
            Some(c) => {
                match c.tick(t) {
                    Ok(()) => *c,
                    Err(e) => {
                        return Err(SimError::Clock(e));
                    },
                }
            },
            None => {
                return Ok(None);
            },
        };
        let tpf: u64 = match clock_copy.time_per_frame {
            Some(x) => x,
            None => 1,
        };
        let fst: u64 = clock_copy.frames_since_tick;
        let ghost c2 = v0.clock->Some_0.tick_spec(*t)->Ok_0;
        proof {
            assert(clock_copy == c2);
        }
        let mut i: u64 = 0;
        while i < fst
            invariant
                i <= fst,
                (self.client_sim, self.last_server_frame, self.interpolation_buffer.view())
                    == replay_spec(v0.client_sim, v0.server, v0.last_server_frame, v0.buffer,
                c2.frame_number, c2.frames_since_tick, tpf, i as nat),
                self.server == v0.server,
                self.interpolation_buffer.wf(),
                fst == c2.frames_since_tick,
                tpf == c2.time_per_frame->Some_0,
                clock_copy == c2,
                self.clock == Some(c2),
                self.render_delay == v0.render_delay,
                self.server_fps == v0.server_fps,
            decreases fst - i,
        {
            i = i + 1;
            let frame: u64 = sub_u64_sat(clock_copy.frame_number, fst - i);
            let ft: u64 = mul_u64_sat(frame, tpf);
            let is_pending: bool = match self.last_server_frame {
                Some(f) => f == frame,
                None => false,
            };
            if is_pending {
                self.last_server_frame = None;
                self.client_sim.sync_from(&self.server);
            } else {
                self.client_sim.update(ft, tpf);
            }
            let state = self.client_sim.send_state();
            self.interpolation_buffer.add(ft, state);
        }
        // sample at the delayed time, offset back onto the local timeline
        let ts: i128 = (clock_copy.clock_offset as i128) + (t.absolute as i128) - (tpf as i128)
            - (self.render_delay as i128);
        let ghost ts_spec = render_sample_time_spec(c2.clock_offset + t.absolute, tpf as int,
        v0.render_delay as int);
        proof {
            assert(ts == ts_spec);
        }
        if ts < 0 || ts > u64::MAX as i128 {
            proof {
                lemma_sample_out_of_range(self.interpolation_buffer.view(), ts_spec);
            }
            Ok(None)
        } else {
            let pos = self.interpolation_buffer.sample(ts as u64);
            match pos {
                Some(x) => Ok(Some(self.client_sim.pos_sample(&x))),
                None => Ok(None),
            }
        }
    }

    /// Advances the authoritative instance by true local elapsed time (it
    /// is the origin, nothing to reconstruct) and returns its sample.
    pub fn update_server(&mut self, t: &LocalTime) -> (r: Sample)
        ensures
            final(self).server == old(self).server.update_spec(t.absolute, t.delta),
            r == final(self).server.pos_spec(final(self).server.send_state_spec()),
            final(self).view() == (ServerRateView {
                server: final(self).server,
                ..old(self).view()
            }),
            old(self).wf() ==> final(self).wf(),
    {
        self.server.update(t.absolute, t.delta);
        let state = self.server.send_state();
        self.server.pos_sample(&state)
    }
}

/// The behaviour that builds reconciling states over a deterministic
/// simulation.
pub struct ServerRateSimulation<T> {
    pub marker: core::marker::PhantomData<T>,
}

impl<T: DeterministicSimulation> ServerRateSimulation<T> {
    pub fn new() -> (r: ServerRateSimulation<T>) {
        ServerRateSimulation { marker: core::marker::PhantomData }
    }

    /// A fresh per-node state for one run.
    pub fn new_state(&self, settings: &SimSettings) -> (r: ServerRateSimulationState<T>)
        requires
            settings.wf(),
        ensures
            r.view() == (ServerRateView {
                buffer: Seq::<(u64, T::SyncType)>::empty(),
                clock: None::<LocalClock>,
                client_sim: T::default_spec(),
                server: T::initial_spec(*settings),
                last_server_frame: None::<u64>,
                render_delay: settings.render_interpolation_delay,
                server_fps: settings.server_fps,
            }),
            r.wf(),
    {
        ServerRateSimulationState::<T>::new(settings)
    }
}

/// Idempotence to duplicates: delivering the same sync message twice
/// yields the same predicted state, clock and interpolation buffer as
/// delivering it once (only the stashed confirmation may differ), and the
/// second delivery never faults.
pub proof fn lemma_recv_duplicate_preserves_prediction<T: DeterministicSimulation>(
    v: ServerRateView<T>,
    t1: LocalTime,
    t2: LocalTime,
    server_time: u64,
    server_frame: u64,
    msg: Seq<u8>,
)
    ensures
        (match server_rate_recv_spec(v, t1, server_time, server_frame, msg) {
            Ok(v1) => match server_rate_recv_spec(v1, t2, server_time, server_frame, msg) {
                Ok(v2) => v2.client_sim == v1.client_sim && v2.clock == v1.clock && v2.buffer
                    == v1.buffer,
                Err(_) => false,
            },
            Err(_) => true,
        }),
{
}

/// Reordering tolerance: with the clock at or behind both frames, two sync
/// messages delivered in either order leave the state identical — the late
/// lower frame is ignored, exactly as if it had arrived first and been
/// overwritten.
pub proof fn lemma_recv_reordered_commutes<T: DeterministicSimulation>(
    v: ServerRateView<T>,
    t1: LocalTime,
    t2: LocalTime,
    st1: u64,
    f1: u64,
    m1: Seq<u8>,
    st2: u64,
    f2: u64,
    m2: Seq<u8>,
)
    requires
        v.clock matches Some(c) && c.frame_number <= f2,
        f2 < f1,
        (match v.last_server_frame {
            Some(l) => l < f2,
            None => true,
        }),
        T::decoded(m1) is Some,
        T::decoded(m2) is Some,
    ensures
        ({
            let high_first = server_rate_recv_spec(
                server_rate_recv_spec(v, t1, st1, f1, m1)->Ok_0,
                t2,
                st2,
                f2,
                m2,
            );
            let low_first = server_rate_recv_spec(
                server_rate_recv_spec(v, t1, st2, f2, m2)->Ok_0,
                t2,
                st1,
                f1,
                m1,
            );
            high_first is Ok && low_first is Ok && high_first->Ok_0 == low_first->Ok_0
        }),
{
    let s1 = T::decoded(m1)->Some_0;
    let s2 = T::decoded(m2)->Some_0;
    T::lemma_recv_state_absorb(v.server, s2, s1);
}

} // verus!
