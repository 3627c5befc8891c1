use netsync::behaviours::{encode_posvel, player_input_at, wave_step, PosVel,
    SineWaveDeterministicSim, SineWavePureFunction, SineWaveThinClient};
use netsync::clock::{ClockError, LocalTime};
use netsync::fixed::Vec2;
use netsync::reconcile::{ServerRateSimulation, ServerRateSimulationState};
use netsync::sim::{Sample, SimError, SimSettings, SimulationBehaviour};

fn at(absolute: u64) -> LocalTime {
    LocalTime { absolute, delta: 0, frame: 0 }
}

fn settings() -> SimSettings {
    SimSettings::default()
}

fn snapshot(x: i64, y: i64) -> PosVel {
    PosVel { pos: Vec2 { x, y }, velocity: Vec2 { x: 0, y: 0 } }
}

fn fresh_state() -> ServerRateSimulationState<SineWaveDeterministicSim> {
    ServerRateSimulation::<SineWaveDeterministicSim>::new().new_state(&settings())
}

#[test]
fn first_sync_message_anchors_the_clock() {
    let mut s = fresh_state();
    let msg = encode_posvel(&snapshot(10, 20));
    let r = s.recv_sync(&at(1_000_000_000), 500_000_000, 7, &msg);
    assert!(r.is_ok());
    let c = s.clock.unwrap();
    assert_eq!(c.frame_number, 7);
    assert_eq!(c.absolute_time, 500_000_000);
    // adding the offset to the local receipt time gives the server's time:
    // the reconstructed timeline trails the server by the receipt lag
    assert_eq!(c.clock_offset, -500_000_000);
    // one tick per server frame at 30 frames per second
    assert_eq!(c.time_per_frame, Some(33_333_333));
    // the snapshot seeds the buffer and the prediction
    assert_eq!(s.interpolation_buffer.len(), 1);
    assert_eq!(s.interpolation_buffer.get(0), (500_000_000, snapshot(10, 20)));
    assert_eq!(s.client_sim.state, snapshot(10, 20));
    assert_eq!(s.server.state, snapshot(10, 20));
}

#[test]
fn duplicate_delivery_leaves_prediction_clock_and_buffer_alone() {
    let msg0 = encode_posvel(&snapshot(10, 20));
    let msg = encode_posvel(&snapshot(30, 40));

    let mut once = fresh_state();
    once.recv_sync(&at(1_000_000_000), 500_000_000, 7, &msg0).unwrap();
    once.recv_sync(&at(1_100_000_000), 600_000_000, 9, &msg).unwrap();

    let mut twice = fresh_state();
    twice.recv_sync(&at(1_000_000_000), 500_000_000, 7, &msg0).unwrap();
    twice.recv_sync(&at(1_100_000_000), 600_000_000, 9, &msg).unwrap();
    twice.recv_sync(&at(1_200_000_000), 600_000_000, 9, &msg).unwrap();

    assert_eq!(once.client_sim, twice.client_sim);
    assert_eq!(once.clock.unwrap().frame_number, twice.clock.unwrap().frame_number);
    assert_eq!(once.clock.unwrap().absolute_time, twice.clock.unwrap().absolute_time);
    assert_eq!(once.interpolation_buffer.len(), twice.interpolation_buffer.len());
    for i in 0..once.interpolation_buffer.len() {
        assert_eq!(once.interpolation_buffer.get(i), twice.interpolation_buffer.get(i));
    }
}

#[test]
fn reordered_frames_end_in_the_same_state() {
    let m3 = encode_posvel(&snapshot(3, 3));
    let m5 = encode_posvel(&snapshot(5, 5));

    // both frames are at or ahead of the reconstructed tick (frame 1)
    let mut high_first = fresh_state();
    high_first.recv_sync(&at(1_000_000_000), 100_000_000, 1, &encode_posvel(&snapshot(1, 1))).unwrap();
    high_first.recv_sync(&at(1_100_000_000), 200_000_000, 5, &m5).unwrap();
    high_first.recv_sync(&at(1_200_000_000), 150_000_000, 3, &m3).unwrap();

    let mut low_first = fresh_state();
    low_first.recv_sync(&at(1_000_000_000), 100_000_000, 1, &encode_posvel(&snapshot(1, 1))).unwrap();
    low_first.recv_sync(&at(1_100_000_000), 150_000_000, 3, &m3).unwrap();
    low_first.recv_sync(&at(1_200_000_000), 200_000_000, 5, &m5).unwrap();

    assert_eq!(high_first.server, low_first.server);
    assert_eq!(high_first.client_sim, low_first.client_sim);
    assert_eq!(high_first.last_server_frame, low_first.last_server_frame);
    assert_eq!(high_first.last_server_frame, Some(5));
    assert_eq!(high_first.server.state, snapshot(5, 5));
}

#[test]
fn stashed_confirmation_is_consumed_when_replay_catches_up() {
    let mut s = fresh_state();
    // frame 1 at its server time, received with a 16.7 ms lag
    s.recv_sync(&at(50_000_000), 33_333_333, 1, &encode_posvel(&snapshot(1, 1))).unwrap();
    assert_eq!(s.clock.unwrap().clock_offset, -16_666_667);
    // replay one frame: the reconstructed tick trails the server by the lag
    s.update_render(&at(100_000_000)).unwrap();
    assert_eq!(s.clock.unwrap().frame_number, 2);
    // frame 3 arrives on time: ahead of the reconstructed tick, so it is
    // stashed, not rolled back
    s.recv_sync(&at(110_000_000), 99_999_999, 3, &encode_posvel(&snapshot(3, 3))).unwrap();
    assert_eq!(s.last_server_frame, Some(3));
    // replay reaches frame 3: the confirmed state is adopted wholesale
    s.update_render(&at(150_000_000)).unwrap();
    assert_eq!(s.last_server_frame, None);
    assert_eq!(s.client_sim.state.pos, Vec2 { x: 3, y: 3 });
}

#[test]
fn rollback_correction_reanchors_and_discards_the_future() {
    let mut s = fresh_state();
    s.recv_sync(&at(1_000_000_000), 500_000_000, 7, &encode_posvel(&snapshot(1, 1))).unwrap();
    // replay a few predicted frames past the anchor
    let r = s.update_render(&at(1_200_000_000)).unwrap();
    let frames_after_replay = s.clock.unwrap().frame_number;
    assert!(frames_after_replay > 7);
    assert!(s.interpolation_buffer.len() > 1);
    let _ = r;
    // a correction for frame 8, older than the reconstructed tick
    s.recv_sync(&at(1_250_000_000), 533_333_333, 8, &encode_posvel(&snapshot(9, 9))).unwrap();
    let c = s.clock.unwrap();
    assert_eq!(c.frame_number, 8);
    assert_eq!(c.absolute_time, 533_333_333);
    assert_eq!(s.client_sim.state, snapshot(9, 9));
    assert_eq!(s.last_server_frame, None);
    // every keyframe at or after the corrected time is gone
    for i in 0..s.interpolation_buffer.len() {
        assert!(s.interpolation_buffer.get(i).0 < 533_333_333);
    }
}

#[test]
fn update_render_before_any_sync_is_none() {
    let mut s = fresh_state();
    assert_eq!(s.update_render(&at(1_000_000_000)).unwrap(), None);
    assert!(s.clock.is_none());
}

#[test]
fn malformed_sync_payload_aborts() {
    let mut s = fresh_state();
    let r = s.recv_sync(&at(1_000_000_000), 500_000_000, 7, &[1, 2, 3]);
    assert_eq!(r, Err(SimError::MalformedSync));
    assert!(s.clock.is_none());
}

#[test]
fn unrepresentable_server_time_aborts() {
    let mut s = fresh_state();
    let msg = encode_posvel(&snapshot(0, 0));
    let r = s.recv_sync(&at(0), u64::MAX, 1, &msg);
    assert_eq!(r, Err(SimError::TimeOutOfRange));
    assert!(s.clock.is_none());
}

#[test]
fn local_time_running_backwards_is_a_clock_fault() {
    let mut s = fresh_state();
    s.recv_sync(&at(1_000_000_000), 500_000_000, 7, &encode_posvel(&snapshot(1, 1))).unwrap();
    s.update_render(&at(1_200_000_000)).unwrap();
    // the local time source must be monotone; running it backwards would
    // regress the reconstructed timeline
    let r = s.update_render(&at(1_000_000_000));
    assert_eq!(r, Err(SimError::Clock(ClockError::RemoteTimeRegressed)));
}

#[test]
fn wave_step_advances_position_by_velocity() {
    let s = PosVel { pos: Vec2 { x: 0, y: 0 }, velocity: Vec2 { x: 100_000_000, y: 0 } };
    // one whole second at absolute time zero: no forcing, full drift
    let s2 = wave_step(s, 0, 1_000_000_000);
    assert_eq!(s2.pos, Vec2 { x: 100_000_000, y: 0 });
    assert_eq!(s2.velocity, Vec2 { x: 100_000_000, y: 0 });
    // at the forcing peak the velocity gains the wave term
    let s3 = wave_step(s, 78_539_800, 1_000_000_000);
    assert_eq!(s3.velocity, Vec2 { x: 100_000_000, y: 299_999_700 });
}

#[test]
fn thin_client_renders_the_buffered_snapshot() {
    let mut tc = SineWaveThinClient::new(0, false);
    let t = at(100);
    assert_eq!(tc.update_render(&t), None);
    tc.recv_sync(&t, 50, &encode_posvel(&snapshot(77, 88))).unwrap();
    // keyed by local receipt time: exact at the keyframe
    assert_eq!(tc.update_render(&t), Some(Sample { pos: Vec2 { x: 77, y: 88 } }));
}

#[test]
fn thin_client_server_time_keys_use_the_server_timestamp() {
    let mut tc = SineWaveThinClient::new(0, true);
    let t = at(100);
    tc.recv_sync(&t, 50, &encode_posvel(&snapshot(77, 88))).unwrap();
    tc.recv_sync(&at(200), 150, &encode_posvel(&snapshot(177, 188))).unwrap();
    // halfway between the two server timestamps
    let mut probe = SineWaveThinClient::new(0, true);
    probe.recv_sync(&t, 50, &encode_posvel(&snapshot(77, 88))).unwrap();
    probe.recv_sync(&at(200), 150, &encode_posvel(&snapshot(177, 188))).unwrap();
    assert_eq!(probe.update_render(&at(100)), Some(Sample { pos: Vec2 { x: 127, y: 138 } }));
    let _ = tc;
}

#[test]
fn thin_client_render_delay_holds_back_sampling() {
    let mut tc = SineWaveThinClient::new(60, false);
    tc.recv_sync(&at(100), 50, &encode_posvel(&snapshot(1, 1))).unwrap();
    // delayed time 40 precedes the start time 100: nothing yet
    assert_eq!(tc.update_render(&at(100)), None);
    // delayed time 140 is past the start: clamped to the only keyframe
    assert_eq!(tc.update_render(&at(200)), Some(Sample { pos: Vec2 { x: 1, y: 1 } }));
}

#[test]
fn pure_function_starts_at_first_receipt() {
    let mut p = SineWavePureFunction::new();
    assert_eq!(p.update_render(&at(1_000_000_000)), None);
    p.recv_sync(&at(1_000_000_000));
    let r = p.update_render(&at(1_000_000_000)).unwrap();
    // zero elapsed: no wave, one second of drift at two thousand units each way
    assert_eq!(r.pos, Vec2 { x: 2_000_000_000, y: 2_000_000_000 });
    let s = p.update_server(&at(0));
    assert_eq!(s.pos, Vec2 { x: 0, y: 0 });
}

#[test]
fn player_input_path_blends_linearly() {
    assert_eq!(player_input_at(0), Vec2 { x: 0, y: 0 });
    assert_eq!(player_input_at(300_000_000), Vec2 { x: 1_000_000, y: 0 });
    assert_eq!(player_input_at(150_000_000), Vec2 { x: 500_000, y: 0 });
    assert_eq!(player_input_at(1_500_000_000), Vec2 { x: -1_000_000, y: 0 });
    // past the last keyframe the path clamps
    assert_eq!(player_input_at(9_000_000_000), Vec2 { x: 0, y: 0 });
}

#[test]
fn duplicate_rollback_correction_keeps_the_prediction() {
    let msg0 = encode_posvel(&snapshot(1, 1));
    let correction = encode_posvel(&snapshot(9, 9));

    let mut once = fresh_state();
    once.recv_sync(&at(1_000_000_000), 500_000_000, 7, &msg0).unwrap();
    once.update_render(&at(1_200_000_000)).unwrap();
    once.recv_sync(&at(1_250_000_000), 533_333_333, 8, &correction).unwrap();

    let mut twice = fresh_state();
    twice.recv_sync(&at(1_000_000_000), 500_000_000, 7, &msg0).unwrap();
    twice.update_render(&at(1_200_000_000)).unwrap();
    twice.recv_sync(&at(1_250_000_000), 533_333_333, 8, &correction).unwrap();
    twice.recv_sync(&at(1_300_000_000), 533_333_333, 8, &correction).unwrap();

    assert_eq!(once.client_sim, twice.client_sim);
    assert_eq!(once.clock.unwrap().frame_number, twice.clock.unwrap().frame_number);
    assert_eq!(once.clock.unwrap().absolute_time, twice.clock.unwrap().absolute_time);
    assert_eq!(once.interpolation_buffer.len(), twice.interpolation_buffer.len());
    for i in 0..once.interpolation_buffer.len() {
        assert_eq!(once.interpolation_buffer.get(i), twice.interpolation_buffer.get(i));
    }
}

#[test]
fn latency_interval_stays_ordered_under_edits() {
    let mut s = settings();
    s.set_min_latency(50);
    assert_eq!((s.min_latency, s.max_latency), (50, 50));
    s.set_max_latency(80);
    assert_eq!((s.min_latency, s.max_latency), (50, 80));
    s.set_max_latency(20);
    assert_eq!((s.min_latency, s.max_latency), (20, 20));
    s.set_min_latency(5);
    assert_eq!((s.min_latency, s.max_latency), (5, 20));
}

#[test]
fn render_time_variance_is_clamped_to_half_a_frame() {
    let mut s = settings();
    s.render_fps = 60;
    assert_eq!(s.max_render_time_variance(), 8_333_333);
    s.render_time_variance = 50_000_000;
    s.clamp_render_time_variance();
    assert_eq!(s.render_time_variance, 8_333_333);
    s.render_time_variance = 1_000_000;
    s.clamp_render_time_variance();
    assert_eq!(s.render_time_variance, 1_000_000);
}

#[test]
fn playback_advances_scaled_and_wraps() {
    let mut s = settings();
    s.sim_time_scale = 500_000;
    s.curr_time = 0;
    s.advance_playback(100, 1_000);
    assert_eq!(s.curr_time, 50);
    s.advance_playback(2_000, 1_000);
    // 50 + 1000 wraps around the recorded extent
    assert_eq!(s.curr_time, 50);
    s.advance_playback(100, 0);
    assert_eq!(s.curr_time, 0);
}

#[test]
fn behaviour_states_start_unstarted() {
    let s = settings();
    for b in [
        SimulationBehaviour::SineWaveClient,
        SimulationBehaviour::SineWaveServerRate,
        SimulationBehaviour::SineWaveThinClient,
        SimulationBehaviour::SineWaveThinClientServerTime,
        SimulationBehaviour::SineWavePureFunction,
        SimulationBehaviour::PlayerCharacterServerRate,
    ] {
        let mut st = b.new_state(&s);
        assert_eq!(st.update_render(&at(1_000)).unwrap(), None);
    }
}
