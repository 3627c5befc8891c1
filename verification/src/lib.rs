//! A reproducible testbed for multiplayer network-synchronization techniques.
//!
//! The crate simulates an authoritative server and a client exchanging state
//! over an emulated lossy, latent link, and records what each side would have
//! rendered over time.  All quantities are integers: times are nanoseconds,
//! positions and velocities are fixed-point values with a scale of one
//! millionth of a unit, so every computation here is exact and every run is a
//! deterministic function of its settings.

pub mod behaviours;
pub mod buffer;
pub mod clock;
pub mod codec;
pub mod driver;
pub mod fixed;
pub mod reconcile;
pub mod render;
pub mod rng;
pub mod sim;
pub mod transport;

pub use behaviours::{AsymmetricSimulationState, DeterministicSimulation, InputPosVel,
    PlayerCharacterDeterministic, PosVel, SineWaveClientSim, SineWaveDeterministicSim,
    SineWavePureFunction, SineWaveThinClient};
pub use buffer::{InterpolationBuffer, Lerp};
pub use clock::{LocalClock, LocalTime};
pub use codec::{DecodeError, ServerMessage};
pub use driver::{run_simulation, ClientSimulationSystem, ServerSimulationSystem};
pub use fixed::Vec2;
pub use reconcile::{ServerRateSimulation, ServerRateSimulationState};
pub use render::{sim_bounding_box_render, sim_min_max_time, SimRenderSystem};
pub use rng::SimRng;
pub use sim::{behaviour_data, sim_behaviours, Sample, SimError, SimSettings, SimSide,
    SimulationBehaviour, SimulationResult, SimulationState, WorldFrame};
pub use transport::EmulatedLink;
