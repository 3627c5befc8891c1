//! The deterministic two-node driver.
//!
//! [`run_simulation`] builds a server context and a client context from the
//! selected strategy, connects them through an emulated link, and steps
//! whichever side has the larger remaining time budget by that side's own
//! delta (the server by its fixed tick, the client by its render tick plus
//! seeded jitter), until both budgets are exhausted.  Every random choice
//! comes from generators seeded inside this function, so a run is a pure
//! function of its settings: repeated runs produce identical results.

use vstd::prelude::*;
use crate::clock::LocalTime;
use crate::codec::{decode_msg_spec, ServerMessage};
use crate::fixed::{add_u64_sat, sat_u64};
use crate::rng::{rng_gauss_spec, rng_next_spec, SimRng};
use crate::sim::{state_recv_sync_spec, state_send_sync_spec, state_unstarted,
    state_update_render_spec, state_update_server_spec, SimError, SimSettings, SimSide,
    SimulationResult, SimulationState, SimulationStateView, WorldFrame};
use crate::transport::{due_spec, link_send_spec, stay_spec, EmulatedLink};

verus! {

/// The queue and random source after `k` sends of the same payload.
pub open spec fn emit_spec(
    q: Seq<(u64, Seq<u8>)>,
    rng: SimRng,
    now: u64,
    min_latency: u64,
    max_latency: u64,
    loss_ppm: u32,
    payload: Seq<u8>,
    k: nat,
) -> (Seq<(u64, Seq<u8>)>, SimRng)
    decreases k,
{
    if k == 0 {
        (q, rng)
    } else {
        let prev = emit_spec(q, rng, now, min_latency, max_latency, loss_ppm, payload, (k
            - 1) as nat);
        link_send_spec(prev.0, prev.1, now, min_latency, max_latency, loss_ppm, payload)
    }
}

/// One send schedules its message no earlier than `now` plus the least
/// configured latency; any such lower bound the queue already had is kept.
proof fn lemma_send_min_deliver(
    q: Seq<(u64, Seq<u8>)>,
    rng: SimRng,
    now: u64,
    min_latency: u64,
    max_latency: u64,
    loss_ppm: u32,
    payload: Seq<u8>,
    d: int,
)
    requires
        min_latency <= max_latency,
        forall|i: int| 0 <= i < q.len() ==> (#[trigger] q[i]).0 >= d,
        d <= sat_u64(now + min_latency),
    ensures
        ({
            let q2 = link_send_spec(q, rng, now, min_latency, max_latency, loss_ppm, payload).0;
            forall|i: int| 0 <= i < q2.len() ==> (#[trigger] q2[i]).0 >= d
        }),
{
    let (draw, rng2) = rng_next_spec(rng);
    if !(draw % 1_000_000 < loss_ppm) {
        let (hi, rng3) = rng_next_spec(rng2);
        let (lo, rng4) = rng_next_spec(rng3);
        let ld = hi * 0x100000000 + lo;
        let range = max_latency - min_latency;
        let lat = if range == u64::MAX {
            ld as int
        } else {
            min_latency + (ld % (range + 1))
        };
        assert(lat >= min_latency) by {
            if range == u64::MAX {
                assert(min_latency == 0);
            } else {
                vstd::arithmetic::div_mod::lemma_mod_bound(ld as int, range + 1);
            }
        }
        let q2 = link_send_spec(q, rng, now, min_latency, max_latency, loss_ppm, payload).0;
        assert(q2[q.len() as int].0 == sat_u64(now + lat));
        assert(forall|i: int| 0 <= i < q.len() ==> q2[i] == q[i]);
    }
}

/// Every message a burst of emissions schedules keeps the same
/// delivery-time lower bound.
proof fn lemma_emit_min_deliver(
    q: Seq<(u64, Seq<u8>)>,
    rng: SimRng,
    now: u64,
    min_latency: u64,
    max_latency: u64,
    loss_ppm: u32,
    payload: Seq<u8>,
    k: nat,
    d: int,
)
    requires
        min_latency <= max_latency,
        forall|i: int| 0 <= i < q.len() ==> (#[trigger] q[i]).0 >= d,
        d <= sat_u64(now + min_latency),
    ensures
        ({
            let q2 = emit_spec(q, rng, now, min_latency, max_latency, loss_ppm, payload, k).0;
            forall|i: int| 0 <= i < q2.len() ==> (#[trigger] q2[i]).0 >= d
        }),
    decreases k,
{
    if k > 0 {
        lemma_emit_min_deliver(q, rng, now, min_latency, max_latency, loss_ppm, payload, (k
            - 1) as nat, d);
        let prev = emit_spec(q, rng, now, min_latency, max_latency, loss_ppm, payload, (k
            - 1) as nat);
        lemma_send_min_deliver(prev.0, prev.1, now, min_latency, max_latency, loss_ppm, payload,
        d);
    }
}

/// The bytes of the sync message a node at local time `t` emits around the
/// snapshot `payload`.
pub open spec fn wire_msg_spec(t: LocalTime, payload: Seq<u8>) -> Seq<u8> {
    crate::codec::encode_msg_spec(
        (t.absolute / 1_000_000_000) as u64,
        (t.absolute % 1_000_000_000) as u32,
        t.frame,
        payload,
    )
}

/// What one delivered byte string means: the server timestamp in
/// nanoseconds, the server frame, and the snapshot payload — or the fault
/// that aborts the run.
pub open spec fn wire_parse_spec(b: Seq<u8>) -> Result<(u64, u64, Seq<u8>), SimError> {
    match decode_msg_spec(b) {
        None => Err(SimError::MalformedSync),
        Some((secs, nanos, frame, payload)) => {
            let total = secs * 1_000_000_000 + nanos;
            if total > u64::MAX {
                Err(SimError::TimeOutOfRange)
            } else {
                Ok((total as u64, frame, payload))
            }
        },
    }
}

/// A node state after consuming a batch of delivered sync messages, oldest
/// first; the first fault aborts.
pub open spec fn client_fold_spec(
    v: SimulationStateView,
    t: LocalTime,
    msgs: Seq<Seq<u8>>,
) -> Result<SimulationStateView, SimError>
    decreases msgs.len(),
{
    if msgs.len() == 0 {
        Ok(v)
    } else {
        match wire_parse_spec(msgs[0]) {
            Err(e) => Err(e),
            Ok((server_time, frame, payload)) => match state_recv_sync_spec(v, t, server_time,
            frame, payload) {
                Ok(v2) => client_fold_spec(v2, t, msgs.drop_first()),
                Err(e) => Err(e),
            },
        }
    }
}

/// The server node's execution context: its strategy state and the sync
/// emission timer.
pub struct ServerSimulationSystem {
    pub state: SimulationState,
    /// Nanoseconds accumulated toward the next sync emission.
    pub sync_acc: u64,
    /// The sync emission period, in nanoseconds.
    pub sync_period: u64,
    /// Frames are recorded only up to this simulated time.
    pub duration: u64,
}

impl ServerSimulationSystem {
    pub open spec fn wf(&self) -> bool {
        self.state.wf() && 1 <= self.sync_period
    }

    /// One server tick at local time `t`: advance the authoritative state,
    /// emit one sync message per elapsed emission period, and record the
    /// frame while the run's duration lasts.
    pub fn run(&mut self, t: &LocalTime, link: &mut EmulatedLink, result: &mut SimulationResult)
        requires
            old(self).wf(),
            old(link).wf(),
        ensures
            final(self).wf(),
            final(link).wf(),
            final(self).sync_period == old(self).sync_period,
            final(self).duration == old(self).duration,
            final(link).min_latency == old(link).min_latency,
            final(link).max_latency == old(link).max_latency,
            final(link).loss_ppm == old(link).loss_ppm,
            ({
                let stepped = state_update_server_spec(old(self).state.view(), *t);
                let total = old(self).sync_acc + t.delta;
                let k = total / (old(self).sync_period as int);
                let payload = wire_msg_spec(*t, state_send_sync_spec(stepped.0));
                &&& final(self).state.view() == stepped.0
                &&& final(self).sync_acc == total % (old(self).sync_period as int)
                &&& (final(link).view(), final(link).rng) == emit_spec(old(link).view(),
                    old(link).rng, t.absolute, old(link).min_latency, old(link).max_latency,
                    old(link).loss_ppm, payload, k as nat)
                &&& final(result).frames@ == old(result).frames@ + (if t.absolute <= old(
                    self,
                ).duration {
                    seq![
                        (WorldFrame {
                            side: SimSide::Server,
                            render_time: t.absolute,
                            net_time: sat_u64(t.absolute + final(self).sync_acc) as u64,
                            sample: stepped.1,
                        }),
                    ]
                } else {
                    Seq::<WorldFrame>::empty()
                })
            }),
            old(link).loss_ppm == 1_000_000 ==> final(link).view() == old(link).view(),
    {
        let ghost link0 = *link;
        let sample = self.state.update_server(t);
        let total: u128 = (self.sync_acc as u128) + (t.delta as u128);
        let period: u128 = self.sync_period as u128;
        let k: u128 = total / period;
        self.sync_acc = (total % period) as u64;
        let ghost payload = wire_msg_spec(*t, state_send_sync_spec(self.state.view()));
        let ghost sys1 = *self;
        let mut i: u128 = 0;
        while i < k
            invariant
                i <= k,
                *self == sys1,
                self.state.wf(),
                (link.view(), link.rng) == emit_spec(link0.view(), link0.rng, t.absolute,
                link0.min_latency, link0.max_latency, link0.loss_ppm, payload, i as nat),
                link.min_latency == link0.min_latency,
                link.max_latency == link0.max_latency,
                link.loss_ppm == link0.loss_ppm,
                link.wf(),
                link0.loss_ppm == 1_000_000 ==> link.view() == link0.view(),
                payload == wire_msg_spec(*t, state_send_sync_spec(self.state.view())),
            decreases k - i,
        {
            let buf = self.state.send_sync(t);
            let server_msg = ServerMessage {
                server_secs: t.absolute / 1_000_000_000,
                server_nanos: (t.absolute % 1_000_000_000) as u32,
                server_frame: t.frame,
                msg: buf,
            };
            let bytes = server_msg.encode();
            proof {
                assert(bytes@ == payload);
            }
            link.send(t.absolute, bytes);
            i = i + 1;
        }
        if t.absolute <= self.duration {
            let net_time = add_u64_sat(t.absolute, self.sync_acc);
            result.frames.push(
                WorldFrame { side: SimSide::Server, render_time: t.absolute, net_time, sample },
            );
        } else {
            proof {
                assert(result.frames@ =~= result.frames@ + Seq::<WorldFrame>::empty());
            }
        }
    }
}

/// The client node's execution context: its strategy state and the timer
/// mirroring the sync schedule for display.
pub struct ClientSimulationSystem {
    pub state: SimulationState,
    /// Nanoseconds accumulated toward the next sync period boundary.
    pub net_acc: u64,
    /// The sync period, in nanoseconds.
    pub sync_period: u64,
}

impl ClientSimulationSystem {
    pub open spec fn wf(&self) -> bool {
        self.state.wf() && 1 <= self.sync_period
    }

    /// One client tick at local time `t`: drain every delivered sync
    /// message into the state, then render, recording a frame when the
    /// strategy yields a sample.  A fault aborts with the state of the
    /// protocol intact but the run's result untrustworthy.
    pub fn run(&mut self, t: &LocalTime, link: &mut EmulatedLink, result: &mut SimulationResult)
        -> (r: Result<(), SimError>)
        requires
            old(self).wf(),
            old(link).wf(),
        ensures
            final(self).wf(),
            final(link).wf(),
            final(self).sync_period == old(self).sync_period,
            final(link).min_latency == old(link).min_latency,
            final(link).max_latency == old(link).max_latency,
            final(link).loss_ppm == old(link).loss_ppm,
            final(link).rng == old(link).rng,
            final(link).view() == stay_spec(old(link).view(), t.absolute),
            ({
                let folded = client_fold_spec(old(self).state.view(), *t, due_spec(
                    old(link).view(),
                    t.absolute,
                ));
                match folded {
                    Err(e) => r == Err::<(), SimError>(e),
                    Ok(v1) => match state_update_render_spec(v1, *t) {
                        Err(e) => r == Err::<(), SimError>(e),
                        Ok((v2, sample)) => {
                            let acc2 = (old(self).net_acc + t.delta) % (
                            old(self).sync_period as int);
                            let pushed = match sample {
                                Some(s) => seq![
                                    (WorldFrame {
                                        side: SimSide::Client,
                                        render_time: t.absolute,
                                        net_time: sat_u64(t.absolute + acc2) as u64,
                                        sample: s,
                                    }),
                                ],
                                None => Seq::<WorldFrame>::empty(),
                            };
                            &&& r is Ok
                            &&& final(self).state.view() == v2
                            &&& final(self).net_acc == acc2
                            &&& final(result).frames@ == old(result).frames@ + pushed
                        },
                    },
                }
            }),
            r is Err ==> final(result).frames@ == old(result).frames@,
            old(link).view().len() == 0 && state_unstarted(old(self).state.view()) ==> r is Ok
                && final(result).frames@ == old(result).frames@ && state_unstarted(
                final(self).state.view(),
            ) && final(link).view().len() == 0,
    {
        let ghost v0 = self.state.view();
        let ghost q0 = link.view();
        let ghost due0 = due_spec(q0, t.absolute);
        let ghost frames0 = result.frames@;
        let msgs: Vec<Vec<u8>> = link.receive_due(t.absolute);
        let ghost link1 = *link;
        proof {
            assert(due0.skip(0) =~= due0);
        }
        let mut i: usize = 0;
        while i < msgs.len()
            invariant
                i <= msgs@.len(),
                msgs@.len() == due0.len(),
                forall|j: int| 0 <= j < msgs@.len() ==> msgs@[j]@ == due0[j],
                self.state.wf(),
                client_fold_spec(v0, *t, due0) == client_fold_spec(self.state.view(), *t,
                due0.skip(i as int)),
                self.net_acc == old(self).net_acc,
                self.sync_period == old(self).sync_period,
                1 <= self.sync_period,
                q0 == old(link).view(),
                v0 == old(self).state.view(),
                due0 == due_spec(q0, t.absolute),
                *link == link1,
                link.wf(),
                link.view() == stay_spec(q0, t.absolute),
                link.min_latency == old(link).min_latency,
                link.max_latency == old(link).max_latency,
                link.loss_ppm == old(link).loss_ppm,
                link.rng == old(link).rng,
                result.frames@ == frames0,
            decreases msgs@.len() - i,
        {
            let ghost rest = due0.skip(i as int);
            proof {
                assert(rest[0] == due0[i as int]);
                assert(rest.drop_first() =~= due0.skip(i as int + 1));
            }
            let m = &msgs[i];
            let wire = match ServerMessage::decode(m.as_slice()) {
                Ok(w) => w,
                Err(_) => {
                    return Err(SimError::MalformedSync);
                },
            };
            let total: u128 = (wire.server_secs as u128) * 1_000_000_000u128 + (
            wire.server_nanos as u128);
            if total > u64::MAX as u128 {
                return Err(SimError::TimeOutOfRange);
            }
            let server_time: u64 = total as u64;
            match self.state.recv_sync(t, server_time, wire.server_frame, wire.msg.as_slice()) {
                Ok(()) => {},
                Err(e) => {
                    return Err(e);
                },
            }
            i = i + 1;
        }
        proof {
            assert(due0.skip(due0.len() as int) =~= Seq::<Seq<u8>>::empty());
        }
        let total: u128 = (self.net_acc as u128) + (t.delta as u128);
        self.net_acc = (total % (self.sync_period as u128)) as u64;
        let sample = match self.state.update_render(t) {
            Ok(s) => s,
            Err(e) => {
                return Err(e);
            },
        };
        match sample {
            Some(s) => {
                let net_time = add_u64_sat(t.absolute, self.net_acc);
                result.frames.push(
                    WorldFrame {
                        side: SimSide::Client,
                        render_time: t.absolute,
                        net_time,
                        sample: s,
                    },
                );
            },
            None => {
                proof {
                    assert(result.frames@ =~= result.frames@ + Seq::<WorldFrame>::empty());
                }
            },
        }
        Ok(())
    }
}

/// The whole of one run's mutable state, as mathematical values: what the
/// driver's loop carries from step to step.
pub struct DriverState {
    pub server_state: SimulationStateView,
    pub server_sync_acc: u64,
    pub client_state: SimulationStateView,
    pub client_net_acc: u64,
    pub sync_period: u64,
    pub duration: u64,
    pub link_queue: Seq<(u64, Seq<u8>)>,
    pub link_rng: SimRng,
    pub min_latency: u64,
    pub max_latency: u64,
    pub loss_ppm: u32,
    pub jitter_rng: SimRng,
    pub render_time_variance: u64,
    pub server_left: int,
    pub client_left: int,
    pub server_t: LocalTime,
    pub client_t: LocalTime,
    pub server_delta: u64,
    pub render_delta: u64,
    pub frames: Seq<WorldFrame>,
}

/// One server step of the driver: the server's local time advances by its
/// fixed tick, and [`ServerSimulationSystem`] runs at the new time.
pub open spec fn server_step_spec(st: DriverState) -> DriverState {
    let delta = if st.server_delta >= 1 {
        st.server_delta
    } else {
        1u64
    };
    let t = LocalTime {
        absolute: sat_u64(st.server_t.absolute + delta) as u64,
        delta,
        frame: sat_u64(st.server_t.frame + 1) as u64,
    };
    let stepped = state_update_server_spec(st.server_state, t);
    let total = st.server_sync_acc + t.delta;
    let k = total / (st.sync_period as int);
    let acc2 = total % (st.sync_period as int);
    let payload = wire_msg_spec(t, state_send_sync_spec(stepped.0));
    let em = emit_spec(st.link_queue, st.link_rng, t.absolute, st.min_latency, st.max_latency,
    st.loss_ppm, payload, k as nat);
    DriverState {
        server_state: stepped.0,
        server_sync_acc: acc2 as u64,
        link_queue: em.0,
        link_rng: em.1,
        server_left: st.server_left - delta,
        server_t: t,
        frames: st.frames + (if t.absolute <= st.duration {
            seq![
                (WorldFrame {
                    side: SimSide::Server,
                    render_time: t.absolute,
                    net_time: sat_u64(t.absolute + acc2) as u64,
                    sample: stepped.1,
                }),
            ]
        } else {
            Seq::<WorldFrame>::empty()
        }),
        ..st
    }
}

/// One client step of the driver: the client's local time advances by its
/// render tick plus a seeded jitter draw (never less than one nanosecond),
/// and [`ClientSimulationSystem`] runs at the new time.
pub open spec fn client_step_spec(st: DriverState) -> Result<DriverState, SimError> {
    let g = rng_gauss_spec(st.jitter_rng, st.render_time_variance);
    let d = st.render_delta + g.0;
    let delta = if d < 1 {
        1
    } else if d > u64::MAX {
        u64::MAX as int
    } else {
        d
    };
    let t = LocalTime {
        absolute: sat_u64(st.client_t.absolute + delta) as u64,
        delta: delta as u64,
        frame: sat_u64(st.client_t.frame + 1) as u64,
    };
    let due = due_spec(st.link_queue, t.absolute);
    let q2 = stay_spec(st.link_queue, t.absolute);
    match client_fold_spec(st.client_state, t, due) {
        Err(e) => Err(e),
        Ok(v1) => match state_update_render_spec(v1, t) {
            Err(e) => Err(e),
            Ok((v2, sample)) => {
                let acc2 = (st.client_net_acc + t.delta) % (st.sync_period as int);
                Ok(
                    (DriverState {
                        client_state: v2,
                        client_net_acc: acc2 as u64,
                        link_queue: q2,
                        jitter_rng: g.1,
                        client_left: st.client_left - delta,
                        client_t: t,
                        frames: st.frames + (match sample {
                            Some(s) => seq![
                                (WorldFrame {
                                    side: SimSide::Client,
                                    render_time: t.absolute,
                                    net_time: sat_u64(t.absolute + acc2) as u64,
                                    sample: s,
                                }),
                            ],
                            None => Seq::<WorldFrame>::empty(),
                        }),
                        ..st
                    }),
                )
            },
        },
    }
}

/// The frames a run records from a driver state onward: while either side
/// has budget left, the side with the larger remaining budget steps.  This
/// is a function of the state alone — a run has no other input.
pub open spec fn run_steps_spec(st: DriverState) -> Result<Seq<WorldFrame>, SimError>
    decreases (if st.server_left > 0 {
        st.server_left
    } else {
        0
    }) + (if st.client_left > 0 {
        st.client_left
    } else {
        0
    }),
{
    if st.server_left <= 0 && st.client_left <= 0 {
        Ok(st.frames)
    } else if st.server_left >= st.client_left && st.server_left > 0 {
        run_steps_spec(server_step_spec(st))
    } else {
        match client_step_spec(st) {
            Ok(st2) => run_steps_spec(st2),
            Err(e) => Err(e),
        }
    }
}

/// The state a run starts from: fresh nodes of the selected strategy, an
/// empty link whose generator carries a fixed seed, equal time budgets with
/// a margin for delayed data, and no recorded frames.
pub open spec fn initial_driver_state(settings: SimSettings) -> DriverState {
    let seeded = (SimRng {
        x: 0x193a6754u32,
        y: 0xa8a7d469u32,
        z: 0x97830e05u32,
        w: 0x113ba7bbu32,
    });
    let budget = sat_u64(
        settings.duration + sat_u64(settings.render_interpolation_delay + settings.min_latency),
    );
    DriverState {
        server_state: crate::sim::behaviour_initial_state(settings.behaviour, settings),
        server_sync_acc: 0u64,
        client_state: crate::sim::behaviour_initial_state(settings.behaviour, settings),
        client_net_acc: 0u64,
        sync_period: (1_000_000_000int / (settings.sync_rate as int)) as u64,
        duration: settings.duration,
        link_queue: Seq::<(u64, Seq<u8>)>::empty(),
        link_rng: seeded,
        min_latency: settings.min_latency,
        max_latency: settings.max_latency,
        loss_ppm: settings.loss_ppm,
        jitter_rng: seeded,
        render_time_variance: settings.render_time_variance,
        server_left: budget,
        client_left: budget,
        server_t: (LocalTime { absolute: 0u64, delta: 0u64, frame: 0u64 }),
        client_t: (LocalTime { absolute: 0u64, delta: 0u64, frame: 0u64 }),
        server_delta: (1_000_000_000int / (settings.server_fps as int)) as u64,
        render_delta: (1_000_000_000int / (settings.render_fps as int)) as u64,
        frames: Seq::<WorldFrame>::empty(),
    }
}

/// The driver state the loop's live values stand for.
pub open spec fn driver_state_of(
    server_sys: ServerSimulationSystem,
    client_sys: ClientSimulationSystem,
    link: EmulatedLink,
    jitter_rng: SimRng,
    render_time_variance: u64,
    server_left: int,
    client_left: int,
    server_t: LocalTime,
    client_t: LocalTime,
    server_delta: u64,
    render_delta: u64,
    frames: Seq<WorldFrame>,
) -> DriverState {
    DriverState {
        server_state: server_sys.state.view(),
        server_sync_acc: server_sys.sync_acc,
        client_state: client_sys.state.view(),
        client_net_acc: client_sys.net_acc,
        sync_period: server_sys.sync_period,
        duration: server_sys.duration,
        link_queue: link.view(),
        link_rng: link.rng,
        min_latency: link.min_latency,
        max_latency: link.max_latency,
        loss_ppm: link.loss_ppm,
        jitter_rng,
        render_time_variance,
        server_left,
        client_left,
        server_t,
        client_t,
        server_delta,
        render_delta,
        frames,
    }
}

/// Runs one complete simulation: two nodes built from the selected
/// strategy, stepped independently over an emulated link for the configured
/// duration (plus a margin so delayed data still arrives), collecting both
/// sides' frames into one shared result.
///
/// The run is deterministic: its outcome equals [`run_steps_spec`] on
/// [`initial_driver_state`], a mathematical function of the settings alone,
/// so repeated runs with the same settings produce identical results —
/// including which of the two outcomes it is.  A run aborts only on a
/// protocol fault, and whether one occurs is itself determined by the
/// settings (an extreme enough duration or jitter can lag a receipt behind
/// its send by more than the clock offset can represent).
/// Every server frame is recorded within the configured duration, and when
/// one server tick fits in that duration a server frame exists, whatever
/// the loss; no client frame predates the earliest possible arrival of a
/// sync message; and a link that drops everything leaves the client with
/// nothing to render: no client frame at all.
#[verifier::rlimit(60)]
pub fn run_simulation(settings: &SimSettings) -> (r: Result<SimulationResult, SimError>)
    requires
        settings.wf(),
    ensures
        (match r {
            Ok(res) => {
                &&& run_steps_spec(initial_driver_state(*settings)) == Ok::<
                    Seq<WorldFrame>,
                    SimError,
                >(res.frames@)
                &&& forall|i: int|
                    0 <= i < res.frames@.len() && (#[trigger] res.frames@[i]).side
                        == SimSide::Server ==> res.frames@[i].render_time <= settings.duration
                &&& forall|i: int, j: int|
                    0 <= i < j < res.frames@.len() && (#[trigger] res.frames@[i]).side == (
                    #[trigger] res.frames@[j]).side ==> res.frames@[i].render_time
                        <= res.frames@[j].render_time
                &&& (1_000_000_000int / (settings.server_fps as int)) <= settings.duration
                    ==> exists|i: int|
                    0 <= i < res.frames@.len() && (#[trigger] res.frames@[i]).side
                        == SimSide::Server
                &&& forall|i: int|
                    0 <= i < res.frames@.len() && (#[trigger] res.frames@[i]).side
                        == SimSide::Client ==> res.frames@[i].render_time >= sat_u64(
                        1_000_000_000int / (settings.server_fps as int) + settings.min_latency,
                    )
                &&& settings.loss_ppm == 1_000_000 ==> forall|i: int|
                    0 <= i < res.frames@.len() ==> (#[trigger] res.frames@[i]).side
                        != SimSide::Client
            },
            Err(e) => run_steps_spec(initial_driver_state(*settings)) == Err::<
                Seq<WorldFrame>,
                SimError,
            >(e),
        }),
{
    let sync_period: u64 = 1_000_000_000u64 / (settings.sync_rate as u64);
    proof {
        vstd::arithmetic::div_mod::lemma_div_non_zero(1_000_000_000, settings.sync_rate as int);
    }
    let mut server_sys = ServerSimulationSystem {
        state: settings.behaviour.new_state(settings),
        sync_acc: 0,
        sync_period,
        duration: settings.duration,
    };
    let mut client_sys = ClientSimulationSystem {
        state: settings.behaviour.new_state(settings),
        net_acc: 0,
        sync_period,
    };
    let mut link = EmulatedLink::new(
        settings.min_latency,
        settings.max_latency,
        settings.loss_ppm,
        SimRng::new(0, 0, 0, 0),
    );
    let mut jitter_rng = SimRng::new(0, 0, 0, 0);
    let mut result = SimulationResult { frames: Vec::new() };
    // both sides run past the configured duration by this margin, so data
    // delayed by render delay and latency still arrives
    let extended: u64 = add_u64_sat(settings.render_interpolation_delay, settings.min_latency);
    let budget: u64 = add_u64_sat(settings.duration, extended);
    let mut server_left: i128 = budget as i128;
    let mut client_left: i128 = budget as i128;
    let mut server_t = LocalTime { absolute: 0, delta: 0, frame: 0 };
    let mut client_t = LocalTime { absolute: 0, delta: 0, frame: 0 };
    let server_delta: u64 = 1_000_000_000u64 / (settings.server_fps as u64);
    let render_delta: u64 = 1_000_000_000u64 / (settings.render_fps as u64);
    proof {
        vstd::arithmetic::div_mod::lemma_div_non_zero(1_000_000_000, settings.server_fps as int);
        vstd::arithmetic::div_mod::lemma_div_non_zero(1_000_000_000, settings.render_fps as int);
    }
    let ghost st0 = initial_driver_state(*settings);
    // no sync message can arrive before the first server tick has emitted
    // one and the least latency has passed
    let ghost d_min = sat_u64(server_delta + settings.min_latency);
    proof {
        assert(result.frames@ =~= Seq::<WorldFrame>::empty());
        let entry = driver_state_of(server_sys, client_sys, link, jitter_rng,
        settings.render_time_variance, server_left as int, client_left as int, server_t, client_t,
        server_delta, render_delta, result.frames@);
        assert(entry == st0);
    }
    while server_left > 0 || client_left > 0
        invariant
            server_sys.wf(),
            client_sys.wf(),
            link.wf(),
            server_sys.duration == settings.duration,
            client_sys.sync_period == server_sys.sync_period,
            link.loss_ppm == settings.loss_ppm,
            st0 == initial_driver_state(*settings),
            run_steps_spec(st0) == run_steps_spec(
                driver_state_of(server_sys, client_sys, link, jitter_rng,
                settings.render_time_variance, server_left as int, client_left as int, server_t,
                client_t, server_delta, render_delta, result.frames@),
            ),
            1 <= server_delta,
            1 <= render_delta,
            server_delta == 1_000_000_000int / (settings.server_fps as int),
            settings.duration <= budget,
            d_min == sat_u64(server_delta + settings.min_latency),
            link.min_latency == settings.min_latency,
            forall|j: int| 0 <= j < link.view().len() ==> (#[trigger] link.view()[j]).0 >= d_min,
            !state_unstarted(client_sys.state.view()) ==> client_t.absolute >= d_min,
            forall|i: int|
                0 <= i < result.frames@.len() && (#[trigger] result.frames@[i]).side
                    == SimSide::Client ==> result.frames@[i].render_time >= d_min,
            server_left == budget as i128 || server_t.absolute > 0,
            server_delta <= settings.duration && server_t.absolute > 0 ==> exists|i: int|
                0 <= i < result.frames@.len() && (#[trigger] result.frames@[i]).side
                    == SimSide::Server,
            -(u64::MAX as i128) - 1 <= server_left <= u64::MAX as i128,
            -(u64::MAX as i128) - 1 <= client_left <= u64::MAX as i128,
            forall|i: int|
                0 <= i < result.frames@.len() && (#[trigger] result.frames@[i]).side
                    == SimSide::Server ==> result.frames@[i].render_time <= settings.duration,
            forall|i: int|
                0 <= i < result.frames@.len() && (#[trigger] result.frames@[i]).side
                    == SimSide::Server ==> result.frames@[i].render_time <= server_t.absolute,
            forall|i: int|
                0 <= i < result.frames@.len() && (#[trigger] result.frames@[i]).side
                    == SimSide::Client ==> result.frames@[i].render_time <= client_t.absolute,
            forall|i: int, j: int|
                0 <= i < j < result.frames@.len() && (#[trigger] result.frames@[i]).side == (
                #[trigger] result.frames@[j]).side ==> result.frames@[i].render_time
                    <= result.frames@[j].render_time,
            settings.loss_ppm == 1_000_000 ==> link.view().len() == 0 && state_unstarted(
                client_sys.state.view(),
            ) && (forall|i: int|
                0 <= i < result.frames@.len() ==> (#[trigger] result.frames@[i]).side
                    != SimSide::Client),
        decreases (if server_left > 0 {
            server_left as int
        } else {
            0
        }) + (if client_left > 0 {
            client_left as int
        } else {
            0
        }),
    {
        let ghost st_before = driver_state_of(server_sys, client_sys, link, jitter_rng,
        settings.render_time_variance, server_left as int, client_left as int, server_t, client_t,
        server_delta, render_delta, result.frames@);
        if server_left >= client_left && server_left > 0 {
            server_left = server_left - (server_delta as i128);
            server_t = LocalTime {
                absolute: add_u64_sat(server_t.absolute, server_delta),
                delta: server_delta,
                frame: add_u64_sat(server_t.frame, 1),
            };
            server_sys.run(&server_t, &mut link, &mut result);
            proof {
                let st_after = driver_state_of(server_sys, client_sys, link, jitter_rng,
                settings.render_time_variance, server_left as int, client_left as int, server_t,
                client_t, server_delta, render_delta, result.frames@);
                assert(st_after == server_step_spec(st_before));
                assert(run_steps_spec(st_before) == run_steps_spec(st_after));
                // new emissions are scheduled at or after the arrival floor
                let stepped = state_update_server_spec(st_before.server_state, server_t);
                let total = st_before.server_sync_acc + server_t.delta;
                let kk = total / (st_before.sync_period as int);
                let pl = wire_msg_spec(server_t, state_send_sync_spec(stepped.0));
                assert(server_t.absolute >= server_delta);
                assert(d_min <= sat_u64(server_t.absolute + st_before.min_latency));
                lemma_emit_min_deliver(st_before.link_queue, st_before.link_rng,
                server_t.absolute, st_before.min_latency, st_before.max_latency,
                st_before.loss_ppm, pl, kk as nat, d_min);
                if server_delta <= settings.duration {
                    if st_before.server_t.absolute == 0 {
                        // this tick recorded the run's first server frame
                        assert(server_t.absolute == server_delta);
                        assert(result.frames@[st_before.frames.len() as int].side
                            == SimSide::Server);
                    } else {
                        // a server frame existed already; appends keep it
                        let w = choose|i: int|
                            0 <= i < st_before.frames.len()
                                && (#[trigger] st_before.frames[i]).side == SimSide::Server;
                        assert(result.frames@[w].side == SimSide::Server);
                    }
                }
            }
        } else {
            let jitter: i64 = jitter_rng.gauss_approx(settings.render_time_variance);
            let d: i128 = (render_delta as i128) + (jitter as i128);
            let client_delta: u64 = if d < 1 {
                1u64
            } else if d > u64::MAX as i128 {
                u64::MAX
            } else {
                d as u64
            };
            client_left = client_left - (client_delta as i128);
            client_t = LocalTime {
                absolute: add_u64_sat(client_t.absolute, client_delta),
                delta: client_delta,
                frame: add_u64_sat(client_t.frame, 1),
            };
            match client_sys.run(&client_t, &mut link, &mut result) {
                Ok(()) => {
                    proof {
                        let st_after = driver_state_of(server_sys, client_sys, link, jitter_rng,
                        settings.render_time_variance, server_left as int, client_left as int,
                        server_t, client_t, server_delta, render_delta, result.frames@);
                        assert(client_step_spec(st_before) == Ok::<DriverState, SimError>(
                            st_after,
                        ));
                        assert(run_steps_spec(st_before) == run_steps_spec(st_after));
                        // the surviving queue keeps the arrival floor
                        crate::transport::lemma_stay_bound(st_before.link_queue,
                        client_t.absolute, d_min);
                        // a node renders or starts only once a message at or
                        // after the arrival floor was due
                        let due = due_spec(st_before.link_queue, client_t.absolute);
                        let folded = client_fold_spec(st_before.client_state, client_t, due);
                        let v1 = folded->Ok_0;
                        if !state_unstarted(v1) {
                            if state_unstarted(st_before.client_state) {
                                if due.len() == 0 {
                                    assert(v1 == st_before.client_state);
                                    assert(false);
                                } else {
                                    crate::transport::lemma_due_nonempty_witness(
                                        st_before.link_queue,
                                        client_t.absolute,
                                    );
                                    let w = choose|i: int|
                                        0 <= i < st_before.link_queue.len()
                                            && (#[trigger] st_before.link_queue[i]).0
                                            <= client_t.absolute;
                                    assert(client_t.absolute >= d_min);
                                }
                            } else {
                                assert(client_t.absolute >= st_before.client_t.absolute);
                            }
                        }
                        match state_update_render_spec(v1, client_t) {
                            Ok((v2, sample)) => {
                                if !state_unstarted(v2) && state_unstarted(v1) {
                                    crate::sim::lemma_render_unstarted(v1, client_t);
                                }
                                if sample is Some && state_unstarted(v1) {
                                    crate::sim::lemma_render_unstarted(v1, client_t);
                                }
                            },
                            Err(_) => {},
                        }
                        if server_delta <= settings.duration && server_t.absolute > 0 {
                            // client appends keep any existing server frame
                            let w = choose|i: int|
                                0 <= i < st_before.frames.len()
                                    && (#[trigger] st_before.frames[i]).side == SimSide::Server;
                            assert(result.frames@[w].side == SimSide::Server);
                        }
                    }
                },
                Err(e) => {
                    proof {
                        assert(client_step_spec(st_before) == Err::<DriverState, SimError>(e));
                        assert(run_steps_spec(st_before) == Err::<Seq<WorldFrame>, SimError>(e));
                    }
                    return Err(e);
                },
            }
        }
    }
    proof {
        let st_end = driver_state_of(server_sys, client_sys, link, jitter_rng,
        settings.render_time_variance, server_left as int, client_left as int, server_t, client_t,
        server_delta, render_delta, result.frames@);
        assert(run_steps_spec(st_end) == Ok::<Seq<WorldFrame>, SimError>(result.frames@));
    }
    Ok(result)
}

} // verus!
