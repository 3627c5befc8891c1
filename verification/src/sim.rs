//! Recorded simulation data and run configuration.
//!
//! Both simulated nodes append [`WorldFrame`] records into one shared,
//! insertion-ordered [`SimulationResult`]; a [`SimSettings`] value holds
//! every knob of a run.  All times are nanoseconds and all rates are whole
//! frames per second, so a configuration means exactly what it stores.

use vstd::prelude::*;
use crate::behaviours::{posvel_decoded, posvel_encoded, pure_recv_spec, pure_render_spec,
    pure_sample_spec, thin_recv_spec, thin_render_spec, wave_step_spec,
    AsymmetricSimulationState, DeterministicSimulation, PlayerCharacterDeterministic, PosVel,
    SineWaveClientSim, SineWaveDeterministicSim, SineWavePureFunction, SineWaveThinClient,
    ThinClientView};
use crate::clock::{ClockError, LocalTime};
use crate::fixed::Vec2;
use crate::reconcile::{server_rate_recv_spec, server_rate_render_spec, ServerRateSimulation,
    ServerRateSimulationState, ServerRateView};

verus! {

/// Which node recorded a frame.
#[derive(Clone, Copy, Debug, PartialEq, Eq, Structural)]
pub enum SimSide {
    Client,
    Server,
}

/// The externally visible output of a simulation strategy at one instant:
/// a two-dimensional fixed-point position.
#[derive(Clone, Copy, Debug, PartialEq, Eq, Structural)]
pub struct Sample {
    pub pos: Vec2,
}

/// One recorded frame: who produced it, the producer's local time, that
/// time plus the estimated network delay (display only), and the sample.
#[derive(Clone, Copy, Debug, PartialEq, Eq, Structural)]
pub struct WorldFrame {
    pub side: SimSide,
    /// The producing side's local absolute time, in nanoseconds.
    pub render_time: u64,
    /// `render_time` plus the time elapsed since the last sync emission.
    pub net_time: u64,
    pub sample: Sample,
}

/// The insertion-ordered record of everything both nodes rendered.
pub struct SimulationResult {
    pub frames: Vec<WorldFrame>,
}

/// The selectable per-node synchronization strategies.
#[derive(Clone, Copy, Debug, PartialEq, Eq, Structural)]
pub enum SimulationBehaviour {
    /// Both sides run the identical incremental wave at their own rate; the
    /// client overwrites its state with each received snapshot.
    SineWaveClient,
    /// The deterministic reconciling strategy over the incremental wave.
    SineWaveServerRate,
    /// The client only buffers snapshots, keyed by local receipt time, and
    /// renders a delayed interpolated sample.
    SineWaveThinClient,
    /// As [`SimulationBehaviour::SineWaveThinClient`], but keyed by the
    /// server's own timestamps.
    SineWaveThinClientServerTime,
    /// The sample is a closed-form function of absolute time alone.
    SineWavePureFunction,
    /// The deterministic reconciling strategy over a recorded player path.
    PlayerCharacterServerRate,
}

impl SimulationBehaviour {
    /// The strategy's display name.
    pub fn name(&self) -> (r: &'static str)
        ensures
            r@ == self.name_spec(),
    {
        match self {
            SimulationBehaviour::SineWaveClient => "Sine Wave Render-Rate Client Sim",
            SimulationBehaviour::SineWaveServerRate => "Sine Wave Server-Rate Client Sim",
            SimulationBehaviour::SineWaveThinClient => "Thin Client Sine Wave",
            SimulationBehaviour::SineWaveThinClientServerTime => (
            "Thin Client Sine Wave + Server Sample Correction"),
            SimulationBehaviour::SineWavePureFunction => "Sine Wave Pure Function",
            SimulationBehaviour::PlayerCharacterServerRate => "Player Character Server-Rate",
        }
    }

    /// The characters of the strategy's display name.
    pub open spec fn name_spec(self) -> Seq<char> {
        match self {
            SimulationBehaviour::SineWaveClient => "Sine Wave Render-Rate Client Sim"@,
            SimulationBehaviour::SineWaveServerRate => "Sine Wave Server-Rate Client Sim"@,
            SimulationBehaviour::SineWaveThinClient => "Thin Client Sine Wave"@,
            SimulationBehaviour::SineWaveThinClientServerTime => (
            "Thin Client Sine Wave + Server Sample Correction"@),
            SimulationBehaviour::SineWavePureFunction => "Sine Wave Pure Function"@,
            SimulationBehaviour::PlayerCharacterServerRate => "Player Character Server-Rate"@,
        }
    }
}

/// One run's configuration.  Times are nanoseconds, rates are frames per
/// second, ratios are parts per million.
#[derive(Clone, Copy, Debug)]
pub struct SimSettings {
    /// Playback position of the viewing surface, in nanoseconds.
    pub curr_time: u64,
    /// Playback speed of the viewing surface, in parts per million.
    pub sim_time_scale: u32,
    /// The server's fixed tick rate.
    pub server_fps: u32,
    /// How often the server emits a sync snapshot.
    pub sync_rate: u32,
    /// The client's render tick rate.
    pub render_fps: u32,
    /// Standard deviation of the render-tick jitter, in nanoseconds.
    pub render_time_variance: u64,
    /// Simulated duration of the run, in nanoseconds.
    pub duration: u64,
    /// Extra delay applied before sampling interpolated state, in nanoseconds.
    pub render_interpolation_delay: u64,
    /// Least emulated one-way latency, in nanoseconds.
    pub min_latency: u64,
    /// Greatest emulated one-way latency, in nanoseconds.
    pub max_latency: u64,
    /// Probability that the link drops a message, in parts per million.
    pub loss_ppm: u32,
    /// Whether the viewing surface is replaying the recorded result.
    pub playing: bool,
    /// The synchronization strategy both nodes are built from.
    pub behaviour: SimulationBehaviour,
}

impl SimSettings {
    /// The bounds every run relies on: rates are nonzero and at most one
    /// tick per nanosecond, the loss ratio is a probability, and the
    /// latency interval is ordered.
    pub open spec fn wf(self) -> bool {
        &&& 1 <= self.server_fps <= 1_000_000_000
        &&& 1 <= self.render_fps <= 1_000_000_000
        &&& 1 <= self.sync_rate <= 1_000_000_000
        &&& self.loss_ppm <= 1_000_000
        &&& self.min_latency <= self.max_latency
    }
}

impl SimSettings {
    /// Decides [`SimSettings::wf`], so that an unverified surface can test
    /// a configuration before starting a run.
    pub fn check_wf(&self) -> (r: bool)
        ensures
            r == self.wf(),
    {
        1 <= self.server_fps && self.server_fps <= 1_000_000_000 && 1 <= self.render_fps
            && self.render_fps <= 1_000_000_000 && 1 <= self.sync_rate && self.sync_rate
            <= 1_000_000_000 && self.loss_ppm <= 1_000_000 && self.min_latency <= self.max_latency
    }

    /// The greatest render-tick jitter the configuration admits: half of
    /// one render frame.
    pub fn max_render_time_variance(&self) -> (r: u64)
        requires
            self.wf(),
        ensures
            r == (1_000_000_000int / (self.render_fps as int)) / 2,
    {
        (1_000_000_000u64 / (self.render_fps as u64)) / 2
    }

    /// Clamps the render-tick jitter back under its admissible bound after
    /// an edit.
    pub fn clamp_render_time_variance(&mut self)
        requires
            old(self).wf(),
        ensures
            *final(self) == (SimSettings {
                render_time_variance: if old(self).render_time_variance > (1_000_000_000int / (
                old(self).render_fps as int)) / 2 {
                    ((1_000_000_000int / (old(self).render_fps as int)) / 2) as u64
                } else {
                    old(self).render_time_variance
                },
                ..*old(self)
            }),
            final(self).wf(),
    {
        let bound = self.max_render_time_variance();
        if self.render_time_variance > bound {
            self.render_time_variance = bound;
        }
    }

    /// Sets the least emulated latency; a greatest latency it would
    /// overtake is pushed up with it, keeping the interval ordered.
    pub fn set_min_latency(&mut self, v: u64)
        requires
            old(self).wf(),
        ensures
            *final(self) == (SimSettings {
                min_latency: v,
                max_latency: if v > old(self).max_latency {
                    v
                } else {
                    old(self).max_latency
                },
                ..*old(self)
            }),
            final(self).wf(),
    {
        self.min_latency = v;
        if self.min_latency > self.max_latency {
            self.max_latency = self.min_latency;
        }
    }

    /// Sets the greatest emulated latency; a least latency it would fall
    /// under is pushed down with it, keeping the interval ordered.
    pub fn set_max_latency(&mut self, v: u64)
        requires
            old(self).wf(),
        ensures
            *final(self) == (SimSettings {
                max_latency: v,
                min_latency: if old(self).min_latency > v {
                    v
                } else {
                    old(self).min_latency
                },
                ..*old(self)
            }),
            final(self).wf(),
    {
        self.max_latency = v;
        if self.min_latency > self.max_latency {
            self.min_latency = self.max_latency;
        }
    }

    /// Advances the playback position by a local delta scaled by the
    /// playback speed, wrapping around the recorded extent.
    pub fn advance_playback(&mut self, delta: u64, max_time: u64)
        ensures
            *final(self) == (SimSettings {
                curr_time: if max_time == 0 {
                    0u64
                } else {
                    (crate::fixed::sat_u64(
                        old(self).curr_time + crate::fixed::sat_u64(
                            delta * old(self).sim_time_scale / 1_000_000,
                        ),
                    ) % (max_time as int)) as u64
                },
                ..*old(self)
            }),
    {
        if max_time == 0 {
            self.curr_time = 0;
            return ;
        }
        proof {
            crate::fixed::lemma_mul_fits_u128(delta as int, self.sim_time_scale as int);
        }
        let scaled_big: u128 = (delta as u128) * (self.sim_time_scale as u128) / 1_000_000u128;
        let scaled: u64 = if scaled_big > u64::MAX as u128 {
            u64::MAX
        } else {
            scaled_big as u64
        };
        let advanced: u64 = crate::fixed::add_u64_sat(self.curr_time, scaled);
        self.curr_time = advanced % max_time;
    }
}

impl Default for SimSettings {
    /// Half a second at 30 server frames and 60 render frames per second,
    /// over a perfect link.
    fn default() -> (r: SimSettings)
        ensures
            r == (SimSettings {
                curr_time: 0u64,
                sim_time_scale: 1_000_000u32,
                server_fps: 30u32,
                sync_rate: 30u32,
                render_fps: 60u32,
                render_time_variance: 0u64,
                duration: 500_000_000u64,
                render_interpolation_delay: 0u64,
                min_latency: 0u64,
                max_latency: 0u64,
                loss_ppm: 0u32,
                playing: false,
                behaviour: SimulationBehaviour::SineWaveThinClient,
            }),
            r.wf(),
    {
        SimSettings {
            curr_time: 0,
            sim_time_scale: 1_000_000,
            server_fps: 30,
            sync_rate: 30,
            render_fps: 60,
            render_time_variance: 0,
            duration: 500_000_000,
            render_interpolation_delay: 0,
            min_latency: 0,
            max_latency: 0,
            loss_ppm: 0,
            playing: false,
            behaviour: SimulationBehaviour::SineWaveThinClient,
        }
    }
}

/// The synchronization-relevant content of a node's [`SimulationState`].
pub enum SimulationStateView {
    SineWaveClient(SineWaveClientSim),
    SineWaveServerRate(ServerRateView<SineWaveDeterministicSim>),
    ThinClient(ThinClientView),
    PureFunction(SineWavePureFunction),
    PlayerCharacterServerRate(ServerRateView<PlayerCharacterDeterministic>),
}

/// What one authoritative server step does to a node, and the sample it
/// records.
pub open spec fn state_update_server_spec(v: SimulationStateView, t: LocalTime) -> (
    SimulationStateView,
    Sample,
) {
    match v {
        SimulationStateView::SineWaveClient(s) => {
            let r = s.update_server_spec(t);
            (SimulationStateView::SineWaveClient(r.0), r.1)
        },
        SimulationStateView::SineWaveServerRate(x) => {
            let s2 = x.server.update_spec(t.absolute, t.delta);
            (
                SimulationStateView::SineWaveServerRate(
                    (ServerRateView { server: s2, ..x }),
                ),
                s2.pos_spec(s2.send_state_spec()),
            )
        },
        SimulationStateView::ThinClient(tc) => {
            let st2 = wave_step_spec(tc.sim_state, t.absolute, t.delta);
            (
                SimulationStateView::ThinClient((ThinClientView { sim_state: st2, ..tc })),
                (Sample { pos: st2.pos }),
            )
        },
        SimulationStateView::PureFunction(p) => (
            SimulationStateView::PureFunction(p),
            pure_sample_spec(t.absolute, t.absolute),
        ),
        SimulationStateView::PlayerCharacterServerRate(x) => {
            let s2 = x.server.update_spec(t.absolute, t.delta);
            (
                SimulationStateView::PlayerCharacterServerRate(
                    (ServerRateView { server: s2, ..x }),
                ),
                s2.pos_spec(s2.send_state_spec()),
            )
        },
    }
}

/// The bytes a node serializes for one outgoing sync snapshot.
pub open spec fn state_send_sync_spec(v: SimulationStateView) -> Seq<u8> {
    match v {
        SimulationStateView::SineWaveClient(s) => posvel_encoded(s.state),
        SimulationStateView::SineWaveServerRate(x) => SineWaveDeterministicSim::encoded(
            x.server.send_state_spec(),
        ),
        SimulationStateView::ThinClient(tc) => posvel_encoded(tc.sim_state),
        SimulationStateView::PureFunction(p) => posvel_encoded(p.sim_state),
        SimulationStateView::PlayerCharacterServerRate(x) => PlayerCharacterDeterministic::encoded(
            x.server.send_state_spec(),
        ),
    }
}

/// What consuming one incoming sync snapshot does to a node.
pub open spec fn state_recv_sync_spec(
    v: SimulationStateView,
    t: LocalTime,
    server_time: u64,
    server_frame: u64,
    msg: Seq<u8>,
) -> Result<SimulationStateView, SimError> {
    match v {
        SimulationStateView::SineWaveClient(s) => match posvel_decoded(msg) {
            None => Err(SimError::MalformedSync),
            Some(val) => Ok(
                SimulationStateView::SineWaveClient(s.recv_state_spec(val, t)),
            ),
        },
        SimulationStateView::SineWaveServerRate(x) => match server_rate_recv_spec(x, t,
        server_time, server_frame, msg) {
            Ok(x2) => Ok(SimulationStateView::SineWaveServerRate(x2)),
            Err(e) => Err(e),
        },
        SimulationStateView::ThinClient(tc) => match thin_recv_spec(tc, t, server_time, msg) {
            Ok(tc2) => Ok(SimulationStateView::ThinClient(tc2)),
            Err(e) => Err(e),
        },
        SimulationStateView::PureFunction(p) => Ok(
            SimulationStateView::PureFunction(pure_recv_spec(p, t)),
        ),
        SimulationStateView::PlayerCharacterServerRate(x) => match server_rate_recv_spec(x, t,
        server_time, server_frame, msg) {
            Ok(x2) => Ok(SimulationStateView::PlayerCharacterServerRate(x2)),
            Err(e) => Err(e),
        },
    }
}

/// What one render step does to a node, and the sample it shows, if any.
pub open spec fn state_update_render_spec(v: SimulationStateView, t: LocalTime) -> Result<
    (SimulationStateView, Option<Sample>),
    SimError,
> {
    match v {
        SimulationStateView::SineWaveClient(s) => {
            let r = s.update_render_spec(t);
            Ok((SimulationStateView::SineWaveClient(r.0), r.1))
        },
        SimulationStateView::SineWaveServerRate(x) => match server_rate_render_spec(x, t) {
            Ok(r) => Ok((SimulationStateView::SineWaveServerRate(r.0), r.1)),
            Err(e) => Err(e),
        },
        SimulationStateView::ThinClient(tc) => Ok(
            (SimulationStateView::ThinClient(tc), thin_render_spec(tc, t)),
        ),
        SimulationStateView::PureFunction(p) => Ok(
            (SimulationStateView::PureFunction(p), pure_render_spec(p, t)),
        ),
        SimulationStateView::PlayerCharacterServerRate(x) => match server_rate_render_spec(x, t) {
            Ok(r) => Ok((SimulationStateView::PlayerCharacterServerRate(r.0), r.1)),
            Err(e) => Err(e),
        },
    }
}

/// A node that has not consumed any sync message yet.
pub open spec fn state_unstarted(v: SimulationStateView) -> bool {
    match v {
        SimulationStateView::SineWaveClient(s) => s.start_time is None,
        SimulationStateView::SineWaveServerRate(x) => x.clock is None,
        SimulationStateView::ThinClient(tc) => tc.start_time is None,
        SimulationStateView::PureFunction(p) => p.start_time is None,
        SimulationStateView::PlayerCharacterServerRate(x) => x.clock is None,
    }
}

/// A node that has never heard from the server renders nothing and stays
/// as it is.
pub proof fn lemma_render_unstarted(v: SimulationStateView, t: LocalTime)
    requires
        state_unstarted(v),
    ensures
        state_update_render_spec(v, t) == Ok::<_, SimError>((v, None::<Sample>)),
{
}

/// One node's per-run synchronization state: a closed set of strategy
/// variants behind one capability interface.
pub enum SimulationState {
    SineWaveClient(SineWaveClientSim),
    SineWaveServerRate(ServerRateSimulationState<SineWaveDeterministicSim>),
    ThinClient(SineWaveThinClient),
    PureFunction(SineWavePureFunction),
    PlayerCharacterServerRate(ServerRateSimulationState<PlayerCharacterDeterministic>),
}

impl SimulationState {
    /// The synchronization-relevant content.
    pub open spec fn view(&self) -> SimulationStateView {
        match self {
            SimulationState::SineWaveClient(s) => SimulationStateView::SineWaveClient(*s),
            SimulationState::SineWaveServerRate(x) => SimulationStateView::SineWaveServerRate(
                x.view(),
            ),
            SimulationState::ThinClient(tc) => SimulationStateView::ThinClient(tc.view()),
            SimulationState::PureFunction(p) => SimulationStateView::PureFunction(*p),
            SimulationState::PlayerCharacterServerRate(
                x,
            ) => SimulationStateView::PlayerCharacterServerRate(x.view()),
        }
    }

    pub open spec fn wf(&self) -> bool {
        match self {
            SimulationState::SineWaveClient(_) => true,
            SimulationState::SineWaveServerRate(x) => x.wf(),
            SimulationState::ThinClient(tc) => tc.wf(),
            SimulationState::PureFunction(_) => true,
            SimulationState::PlayerCharacterServerRate(x) => x.wf(),
        }
    }

    /// Runs one authoritative server step, exactly as
    /// [`state_update_server_spec`] says.
    pub fn update_server(&mut self, t: &LocalTime) -> (r: Sample)
        requires
            old(self).wf(),
        ensures
            (final(self).view(), r) == state_update_server_spec(old(self).view(), *t),
            final(self).wf(),
    {
        match self {
            SimulationState::SineWaveClient(s) => s.update_server(t),
            SimulationState::SineWaveServerRate(x) => x.update_server(t),
            SimulationState::ThinClient(tc) => tc.update_server(t),
            SimulationState::PureFunction(p) => p.update_server(t),
            SimulationState::PlayerCharacterServerRate(x) => x.update_server(t),
        }
    }

    /// Serializes the outgoing sync snapshot, exactly as
    /// [`state_send_sync_spec`] says.
    pub fn send_sync(&self, _t: &LocalTime) -> (r: Vec<u8>)
        ensures
            r@ == state_send_sync_spec(self.view()),
            r@.len() <= 4096,
    {
        proof {
            match self.view() {
                SimulationStateView::SineWaveClient(s) => {
                    crate::behaviours::lemma_posvel_encoded_len(s.state);
                },
                SimulationStateView::SineWaveServerRate(x) => {
                    SineWaveDeterministicSim::lemma_encoded_len(x.server.send_state_spec());
                },
                SimulationStateView::ThinClient(tc) => {
                    crate::behaviours::lemma_posvel_encoded_len(tc.sim_state);
                },
                SimulationStateView::PureFunction(p) => {
                    crate::behaviours::lemma_posvel_encoded_len(p.sim_state);
                },
                SimulationStateView::PlayerCharacterServerRate(x) => {
                    PlayerCharacterDeterministic::lemma_encoded_len(x.server.send_state_spec());
                },
            }
        }
        match self {
            SimulationState::SineWaveClient(s) => {
                let state = s.send_state();
                SineWaveClientSim::encode_sync(&state)
            },
            SimulationState::SineWaveServerRate(x) => x.send_sync(),
            SimulationState::ThinClient(tc) => tc.send_sync(),
            SimulationState::PureFunction(p) => p.send_sync(),
            SimulationState::PlayerCharacterServerRate(x) => x.send_sync(),
        }
    }

    /// Consumes one incoming sync snapshot with its timestamp and frame
    /// metadata, exactly as [`state_recv_sync_spec`] says.  On a fault the
    /// state is unchanged and the run must abort.
    pub fn recv_sync(&mut self, t: &LocalTime, server_time: u64, server_frame: u64, msg: &[u8])
        -> (r: Result<(), SimError>)
        requires
            old(self).wf(),
        ensures
            (match state_recv_sync_spec(old(self).view(), *t, server_time, server_frame, msg@) {
                Ok(v) => r is Ok && final(self).view() == v,
                Err(e) => r == Err::<(), SimError>(e) && final(self).view() == old(self).view(),
            }),
            final(self).wf(),
    {
        match self {
            SimulationState::SineWaveClient(s) => {
                match SineWaveClientSim::decode_sync(msg) {
                    Ok(val) => {
                        s.recv_state(val, t);
                        Ok(())
                    },
                    Err(_) => Err(SimError::MalformedSync),
                }
            },
            SimulationState::SineWaveServerRate(x) => x.recv_sync(t, server_time, server_frame,
            msg),
            SimulationState::ThinClient(tc) => tc.recv_sync(t, server_time, msg),
            SimulationState::PureFunction(p) => {
                p.recv_sync(t);
                Ok(())
            },
            SimulationState::PlayerCharacterServerRate(x) => x.recv_sync(t, server_time,
            server_frame, msg),
        }
    }

    /// Runs one render step and produces the optional sample, exactly as
    /// [`state_update_render_spec`] says.  On a fault the state is
    /// unchanged and the run must abort.
    pub fn update_render(&mut self, t: &LocalTime) -> (r: Result<Option<Sample>, SimError>)
        requires
            old(self).wf(),
        ensures
            (match state_update_render_spec(old(self).view(), *t) {
                Ok((v, s)) => r == Ok::<Option<Sample>, SimError>(s) && final(self).view() == v,
                Err(e) => r == Err::<Option<Sample>, SimError>(e) && final(self).view() == old(
                    self,
                ).view(),
            }),
            final(self).wf(),
    {
        match self {
            SimulationState::SineWaveClient(s) => Ok(s.update_render(t)),
            SimulationState::SineWaveServerRate(x) => x.update_render(t),
            SimulationState::ThinClient(tc) => Ok(tc.update_render(t)),
            SimulationState::PureFunction(p) => Ok(p.update_render(t)),
            SimulationState::PlayerCharacterServerRate(x) => x.update_render(t),
        }
    }
}

/// The node state a strategy starts a run with.
pub open spec fn behaviour_initial_state(b: SimulationBehaviour, settings: SimSettings)
    -> SimulationStateView {
    match b {
        SimulationBehaviour::SineWaveClient => SimulationStateView::SineWaveClient(
            (SineWaveClientSim {
                state: (PosVel {
                    pos: (Vec2 { x: 0i64, y: 0i64 }),
                    velocity: (Vec2 { x: 100_000_000i64, y: 0i64 }),
                }),
                start_time: None::<u64>,
            }),
        ),
        SimulationBehaviour::SineWaveServerRate => SimulationStateView::SineWaveServerRate(
            (ServerRateView {
                buffer: Seq::<(u64, PosVel)>::empty(),
                clock: None,
                client_sim: SineWaveDeterministicSim::default_spec(),
                server: SineWaveDeterministicSim::initial_spec(settings),
                last_server_frame: None::<u64>,
                render_delay: settings.render_interpolation_delay,
                server_fps: settings.server_fps,
            }),
        ),
        SimulationBehaviour::SineWaveThinClient => SimulationStateView::ThinClient(
            (ThinClientView {
                sim_state: (PosVel {
                    pos: (Vec2 { x: 0i64, y: 0i64 }),
                    velocity: (Vec2 { x: 100_000_000i64, y: 0i64 }),
                }),
                sample_buffer: Seq::<(u64, PosVel)>::empty(),
                delay: settings.render_interpolation_delay,
                start_time: None::<u64>,
                recv_sample_server_time: false,
            }),
        ),
        SimulationBehaviour::SineWaveThinClientServerTime => SimulationStateView::ThinClient(
            (ThinClientView {
                sim_state: (PosVel {
                    pos: (Vec2 { x: 0i64, y: 0i64 }),
                    velocity: (Vec2 { x: 100_000_000i64, y: 0i64 }),
                }),
                sample_buffer: Seq::<(u64, PosVel)>::empty(),
                delay: settings.render_interpolation_delay,
                start_time: None::<u64>,
                recv_sample_server_time: true,
            }),
        ),
        SimulationBehaviour::SineWavePureFunction => SimulationStateView::PureFunction(
            (SineWavePureFunction {
                sim_state: (PosVel {
                    pos: (Vec2 { x: 0i64, y: 0i64 }),
                    velocity: (Vec2 { x: 100_000_000i64, y: 0i64 }),
                }),
                start_time: None::<u64>,
            }),
        ),
        SimulationBehaviour::PlayerCharacterServerRate => (
        SimulationStateView::PlayerCharacterServerRate(
            (ServerRateView {
                buffer: Seq::<(u64, crate::behaviours::InputPosVel)>::empty(),
                clock: None,
                client_sim: PlayerCharacterDeterministic::default_spec(),
                server: PlayerCharacterDeterministic::initial_spec(settings),
                last_server_frame: None::<u64>,
                render_delay: settings.render_interpolation_delay,
                server_fps: settings.server_fps,
            }),
        )),
    }
}

impl SimulationBehaviour {
    /// Builds one node's fresh state for a run of this strategy.
    pub fn new_state(&self, settings: &SimSettings) -> (r: SimulationState)
        requires
            settings.wf(),
        ensures
            r.view() == behaviour_initial_state(*self, *settings),
            r.wf(),
            state_unstarted(r.view()),
    {
        match self {
            SimulationBehaviour::SineWaveClient => SimulationState::SineWaveClient(
                SineWaveClientSim { state: PosVel::default(), start_time: None },
            ),
            SimulationBehaviour::SineWaveServerRate => SimulationState::SineWaveServerRate(
                ServerRateSimulation::<SineWaveDeterministicSim>::new().new_state(settings),
            ),
            SimulationBehaviour::SineWaveThinClient => SimulationState::ThinClient(
                SineWaveThinClient::new(settings.render_interpolation_delay, false),
            ),
            SimulationBehaviour::SineWaveThinClientServerTime => SimulationState::ThinClient(
                SineWaveThinClient::new(settings.render_interpolation_delay, true),
            ),
            SimulationBehaviour::SineWavePureFunction => SimulationState::PureFunction(
                SineWavePureFunction::new(),
            ),
            SimulationBehaviour::PlayerCharacterServerRate => (
            SimulationState::PlayerCharacterServerRate(
                ServerRateSimulation::<PlayerCharacterDeterministic>::new().new_state(settings),
            )),
        }
    }
}

/// Pairs a strategy with its display name, for a selection surface.
pub fn behaviour_data(b: SimulationBehaviour) -> (r: (SimulationBehaviour, &'static str))
    ensures
        r.0 == b,
        r.1@ == b.name_spec(),
{
    let name = b.name();
    (b, name)
}

/// The position a strategy holds in the registry's presentation order.
pub fn behaviour_index(b: SimulationBehaviour) -> (r: usize)
    ensures
        r < 6,
        r == (match b {
            SimulationBehaviour::SineWaveClient => 0int,
            SimulationBehaviour::SineWaveServerRate => 1int,
            SimulationBehaviour::SineWaveThinClient => 2int,
            SimulationBehaviour::SineWaveThinClientServerTime => 3int,
            SimulationBehaviour::SineWavePureFunction => 4int,
            SimulationBehaviour::PlayerCharacterServerRate => 5int,
        }),
{
    match b {
        SimulationBehaviour::SineWaveClient => 0,
        SimulationBehaviour::SineWaveServerRate => 1,
        SimulationBehaviour::SineWaveThinClient => 2,
        SimulationBehaviour::SineWaveThinClientServerTime => 3,
        SimulationBehaviour::SineWavePureFunction => 4,
        SimulationBehaviour::PlayerCharacterServerRate => 5,
    }
}

/// The registry of selectable strategies, in presentation order.
pub fn sim_behaviours() -> (r: Vec<(SimulationBehaviour, &'static str)>)
    ensures
        r@.len() == 6,
        r@[0].0 == SimulationBehaviour::SineWaveClient,
        r@[1].0 == SimulationBehaviour::SineWaveServerRate,
        r@[2].0 == SimulationBehaviour::SineWaveThinClient,
        r@[3].0 == SimulationBehaviour::SineWaveThinClientServerTime,
        r@[4].0 == SimulationBehaviour::SineWavePureFunction,
        r@[5].0 == SimulationBehaviour::PlayerCharacterServerRate,
        forall|i: int| 0 <= i < 6 ==> (#[trigger] r@[i]).1@ == r@[i].0.name_spec(),
{
    let mut v: Vec<(SimulationBehaviour, &'static str)> = Vec::new();
    v.push(behaviour_data(SimulationBehaviour::SineWaveClient));
    v.push(behaviour_data(SimulationBehaviour::SineWaveServerRate));
    v.push(behaviour_data(SimulationBehaviour::SineWaveThinClient));
    v.push(behaviour_data(SimulationBehaviour::SineWaveThinClientServerTime));
    v.push(behaviour_data(SimulationBehaviour::SineWavePureFunction));
    v.push(behaviour_data(SimulationBehaviour::PlayerCharacterServerRate));
    v
}

/// A fault that aborts a run: partial results are not trustworthy.
#[derive(Clone, Copy, Debug, PartialEq, Eq, Structural)]
pub enum SimError {
    /// A sync message or payload did not decode; the serialization
    /// contract between sender and receiver is broken.
    MalformedSync,
    /// A sync timestamp cannot be represented on the local timeline.
    TimeOutOfRange,
    /// The timeline reconstruction itself faulted.
    Clock(ClockError),
}

} // verus!
