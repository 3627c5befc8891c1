use netsync::driver::run_simulation;
use netsync::fixed::{sin_fixed, sine_wave, Vec2};
use netsync::render::{sim_bounding_box_render, sim_min_max_time, SimRenderSystem};
use netsync::rng::SimRng;
use netsync::sim::{behaviour_data, behaviour_index, sim_behaviours, Sample, SimSettings,
    SimSide, SimulationBehaviour, SimulationResult, WorldFrame};
use netsync::transport::EmulatedLink;

fn all_behaviours() -> [SimulationBehaviour; 6] {
    [
        SimulationBehaviour::SineWaveClient,
        SimulationBehaviour::SineWaveServerRate,
        SimulationBehaviour::SineWaveThinClient,
        SimulationBehaviour::SineWaveThinClientServerTime,
        SimulationBehaviour::SineWavePureFunction,
        SimulationBehaviour::PlayerCharacterServerRate,
    ]
}

#[test]
fn repeated_runs_are_identical() {
    for b in all_behaviours() {
        let mut s = SimSettings::default();
        s.behaviour = b;
        s.render_time_variance = 2_000_000;
        s.min_latency = 10_000_000;
        s.max_latency = 30_000_000;
        s.loss_ppm = 100_000;
        let a = run_simulation(&s).unwrap();
        let c = run_simulation(&s).unwrap();
        assert_eq!(a.frames, c.frames);
        assert!(!a.frames.is_empty());
    }
}

#[test]
fn reconciling_end_to_end_scenario() {
    let mut s = SimSettings::default();
    s.server_fps = 30;
    s.render_fps = 60;
    s.sync_rate = 30;
    s.duration = 500_000_000;
    s.min_latency = 0;
    s.max_latency = 0;
    s.loss_ppm = 0;
    s.behaviour = SimulationBehaviour::SineWaveServerRate;
    let res = run_simulation(&s).unwrap();
    assert!(!res.frames.is_empty());
    let mut saw_server = false;
    let mut saw_client = false;
    let mut last_server_time = 0u64;
    let mut last_client_time = 0u64;
    // the first snapshot leaves the server at its first tick
    let first_arrival = 1_000_000_000 / 30;
    for f in res.frames.iter() {
        match f.side {
            SimSide::Server => {
                saw_server = true;
                assert!(f.render_time <= 500_000_000);
                assert!(f.render_time >= last_server_time);
                last_server_time = f.render_time;
            },
            SimSide::Client => {
                saw_client = true;
                assert!(f.render_time >= first_arrival);
                assert!(f.render_time >= last_client_time);
                last_client_time = f.render_time;
            },
        }
    }
    assert!(saw_server);
    assert!(saw_client);
}

#[test]
fn total_loss_means_no_client_frames() {
    let mut s = SimSettings::default();
    s.loss_ppm = 1_000_000;
    s.behaviour = SimulationBehaviour::SineWaveServerRate;
    let res = run_simulation(&s).unwrap();
    assert!(!res.frames.is_empty());
    for f in res.frames.iter() {
        assert!(f.side != SimSide::Client);
    }
}

#[test]
fn server_frames_keep_the_fixed_cadence() {
    let s = SimSettings::default();
    let res = run_simulation(&s).unwrap();
    let server_times: Vec<u64> = res
        .frames
        .iter()
        .filter(|f| f.side == SimSide::Server)
        .map(|f| f.render_time)
        .collect();
    assert!(!server_times.is_empty());
    let delta = 1_000_000_000 / 30;
    for (i, t) in server_times.iter().enumerate() {
        assert_eq!(*t, (i as u64 + 1) * delta);
    }
}

#[test]
fn behaviour_registry_lists_all_strategies() {
    let reg = sim_behaviours();
    assert_eq!(reg.len(), 6);
    let names: Vec<&str> = reg.iter().map(|e| e.1).collect();
    assert_eq!(names, vec![
        "Sine Wave Render-Rate Client Sim",
        "Sine Wave Server-Rate Client Sim",
        "Thin Client Sine Wave",
        "Thin Client Sine Wave + Server Sample Correction",
        "Sine Wave Pure Function",
        "Player Character Server-Rate",
    ]);
    let (b, name) = behaviour_data(SimulationBehaviour::SineWavePureFunction);
    assert_eq!(b, SimulationBehaviour::SineWavePureFunction);
    assert_eq!(name, "Sine Wave Pure Function");
    for (i, e) in reg.iter().enumerate() {
        assert_eq!(behaviour_index(e.0), i);
    }
}

#[test]
fn rng_is_deterministic_and_bounded() {
    let mut a = SimRng::new(0, 0, 0, 0);
    let mut b = SimRng::new(0, 0, 0, 0);
    for _ in 0..100 {
        assert_eq!(a.next_u32(), b.next_u32());
    }
    let mut c = SimRng::new(1, 2, 3, 4);
    assert_eq!(c.gauss_approx(0), 0);
    for _ in 0..100 {
        let g = c.gauss_approx(1_000_000);
        assert!(-6_000_000 <= g && g <= 6_000_000);
    }
}

#[test]
fn link_delivers_after_the_fixed_latency() {
    let mut link = EmulatedLink::new(10, 10, 0, SimRng::new(0, 0, 0, 0));
    link.send(100, vec![1, 2, 3]);
    assert_eq!(link.receive_due(109), Vec::<Vec<u8>>::new());
    assert_eq!(link.receive_due(110), vec![vec![1, 2, 3]]);
    assert_eq!(link.receive_due(110), Vec::<Vec<u8>>::new());
}

#[test]
fn link_with_total_loss_delivers_nothing() {
    let mut link = EmulatedLink::new(0, 0, 1_000_000, SimRng::new(0, 0, 0, 0));
    for i in 0..50u64 {
        link.send(i, vec![9]);
    }
    assert_eq!(link.receive_due(u64::MAX), Vec::<Vec<u8>>::new());
}

#[test]
fn link_keeps_later_messages_in_flight() {
    let mut link = EmulatedLink::new(0, 0, 0, SimRng::new(0, 0, 0, 0));
    link.send(10, vec![1]);
    link.send(20, vec![2]);
    assert_eq!(link.receive_due(10), vec![vec![1]]);
    assert_eq!(link.receive_due(20), vec![vec![2]]);
}

#[test]
fn sine_is_exact_at_the_quarter_turns() {
    assert_eq!(sin_fixed(0), 0);
    assert_eq!(sin_fixed(1_570_796), 999_999);
    assert_eq!(sin_fixed(3_141_593), 0);
    assert_eq!(sin_fixed(3_141_593 + 1_570_797), -999_999);
    assert_eq!(sin_fixed(2 * 3_141_593), 0);
}

#[test]
fn wave_forcing_is_exact_at_the_peak() {
    // at the peak of the wave, one second of forcing is three hundred units
    let f = sine_wave(1_000_000_000, 78_539_800);
    assert_eq!(f, Vec2 { x: 0, y: 299_999_700 });
    assert_eq!(sine_wave(1_000_000_000, 0), Vec2 { x: 0, y: 0 });
}

fn frame(side: SimSide, t: u64, x: i64, y: i64) -> WorldFrame {
    WorldFrame { side, render_time: t, net_time: t, sample: Sample { pos: Vec2 { x, y } } }
}

#[test]
fn min_max_time_over_recorded_frames() {
    let res = SimulationResult {
        frames: vec![
            frame(SimSide::Server, 30, 0, 0),
            frame(SimSide::Client, 10, 0, 0),
            frame(SimSide::Server, 20, 0, 0),
        ],
    };
    assert_eq!(sim_min_max_time(&res), (10, 30));
    let empty = SimulationResult { frames: Vec::new() };
    assert_eq!(sim_min_max_time(&empty), (0, 0));
}

#[test]
fn bounding_box_widens_degenerate_axes() {
    let res = SimulationResult {
        frames: vec![frame(SimSide::Server, 0, 5, -3), frame(SimSide::Client, 1, 9, -3)],
    };
    let (mn, mx) = sim_bounding_box_render(&res);
    assert_eq!(mn, Vec2 { x: 5, y: -3 });
    assert_eq!(mx, Vec2 { x: 9, y: -2 });
}

#[test]
fn layout_places_sides_in_their_panels() {
    let res = SimulationResult {
        frames: vec![frame(SimSide::Server, 0, 0, 0), frame(SimSide::Client, 1, 100, 200)],
    };
    let mut sys = SimRenderSystem;
    let mut settings = SimSettings::default();
    settings.curr_time = 0;
    let (points, server_pos, client_pos) = sys.run(1000, 1000, &res, &settings);
    assert_eq!(points.len(), 2);
    // the server frame sits at its panel's origin offset
    assert_eq!(points[0], Vec2 { x: 20, y: 20 });
    // the client frame spans the whole box: full panel extent plus offset
    assert_eq!(points[1], Vec2 { x: 950, y: 870 });
    // at playback time zero only the server frame has happened
    assert_eq!(server_pos, Some(Vec2 { x: 20, y: 20 }));
    assert_eq!(client_pos, None);
}
