//! The concrete per-node simulation strategies.
//!
//! Two capability sets exist.  [`DeterministicSimulation`] is the narrow
//! one the reconciling strategy replays: a deterministic fixed-step update
//! rule plus a typed, byte-serializable snapshot.  [`AsymmetricSimulationState`]
//! is the wide one: a node that plays both the authoritative server role and
//! the rendering client role with its own logic for each.

use vstd::prelude::*;
use crate::buffer::{add_spec, clamped_sample_spec, lemma_clamped_sample_some, sorted_keys,
    InterpolationBuffer, Lerp};
use crate::clock::LocalTime;
use crate::codec::{i64_field, i64_field_at, lemma_i64_field_round_trip, read_i64, write_i64,
    DecodeError};
use crate::fixed::{sat_u64, sine_wave, sine_wave_spec, sub_u64_sat, vec2_add_spec,
    vec2_mul_div_spec, Vec2, FIXED_ONE, NANOS_PER_SEC};
use crate::sim::{Sample, SimError, SimSettings};

verus! {

/// A snapshot of the wave simulations: a position and a velocity.
#[derive(Clone, Copy, Debug, PartialEq, Eq, Structural)]
pub struct PosVel {
    pub pos: Vec2,
    pub velocity: Vec2,
}

impl Default for PosVel {
    /// At the origin, drifting right at one hundred units per second.
    fn default() -> (r: PosVel)
        ensures
            r == (PosVel {
                pos: (Vec2 { x: 0i64, y: 0i64 }),
                velocity: (Vec2 { x: 100_000_000i64, y: 0i64 }),
            }),
    {
        PosVel { pos: Vec2 { x: 0, y: 0 }, velocity: Vec2 { x: 100 * FIXED_ONE, y: 0 } }
    }
}

impl Lerp for PosVel {
    /// Positions blend linearly; the velocity rides along from the earlier
    /// keyframe.
    open spec fn lerp_spec(a: PosVel, b: PosVel, num: int, den: int) -> PosVel {
        (PosVel { pos: Vec2::lerp_spec(a.pos, b.pos, num, den), velocity: a.velocity })
    }

    proof fn lemma_lerp_zero(a: PosVel, b: PosVel, den: int) {
        Vec2::lemma_lerp_zero(a.pos, b.pos, den);
    }

    fn lerp(a: PosVel, b: PosVel, num: u64, den: u64) -> (r: PosVel) {
        PosVel { pos: Vec2::lerp(a.pos, b.pos, num, den), velocity: a.velocity }
    }
}

/// The bytes that encode a [`PosVel`] snapshot: four signed fields.
pub open spec fn posvel_encoded(v: PosVel) -> Seq<u8> {
    i64_field(v.pos.x) + i64_field(v.pos.y) + i64_field(v.velocity.x) + i64_field(v.velocity.y)
}

/// The snapshot 32 bytes decode to, if they are exactly 32.
pub open spec fn posvel_decoded(b: Seq<u8>) -> Option<PosVel> {
    if b.len() == 32 {
        Some(
            (PosVel {
                pos: (Vec2 { x: i64_field_at(b, 0) as i64, y: i64_field_at(b, 8) as i64 }),
                velocity: (Vec2 {
                    x: i64_field_at(b, 16) as i64,
                    y: i64_field_at(b, 24) as i64,
                }),
            }),
        )
    } else {
        None
    }
}

/// Encodes a [`PosVel`] snapshot, exactly as [`posvel_encoded`] says.
pub fn encode_posvel(v: &PosVel) -> (r: Vec<u8>)
    ensures
        r@ == posvel_encoded(*v),
        r@.len() == 32,
{
    let mut out: Vec<u8> = Vec::new();
    write_i64(&mut out, v.pos.x);
    write_i64(&mut out, v.pos.y);
    write_i64(&mut out, v.velocity.x);
    write_i64(&mut out, v.velocity.y);
    proof {
        assert(out@ =~= posvel_encoded(*v));
    }
    out
}

/// Decodes a [`PosVel`] snapshot, exactly as [`posvel_decoded`] says.
pub fn decode_posvel(b: &[u8]) -> (r: Result<PosVel, DecodeError>)
    ensures
        r is Ok <==> posvel_decoded(b@) is Some,
        (match r {
            Ok(v) => posvel_decoded(b@) == Some(v),
            Err(e) => e == DecodeError::LengthMismatch,
        }),
{
    if b.len() != 32 {
        return Err(DecodeError::LengthMismatch);
    }
    let px: i64 = read_i64(b, 0);
    let py: i64 = read_i64(b, 8);
    let vx: i64 = read_i64(b, 16);
    let vy: i64 = read_i64(b, 24);
    Ok(PosVel { pos: Vec2 { x: px, y: py }, velocity: Vec2 { x: vx, y: vy } })
}

/// Snapshot round trip: a [`PosVel`] decodes back from its own encoding.
pub proof fn lemma_posvel_round_trip(v: PosVel)
    ensures
        posvel_decoded(posvel_encoded(v)) == Some(v),
{
    let e = posvel_encoded(v);
    lemma_i64_field_round_trip(v.pos.x);
    lemma_i64_field_round_trip(v.pos.y);
    lemma_i64_field_round_trip(v.velocity.x);
    lemma_i64_field_round_trip(v.velocity.y);
    assert(e.subrange(0, 8) =~= i64_field(v.pos.x).subrange(0, 8));
    assert(e.subrange(8, 16) =~= i64_field(v.pos.y).subrange(0, 8));
    assert(e.subrange(16, 24) =~= i64_field(v.velocity.x).subrange(0, 8));
    assert(e.subrange(24, 32) =~= i64_field(v.velocity.y).subrange(0, 8));
}

/// A [`PosVel`] always encodes to exactly 32 bytes.
pub proof fn lemma_posvel_encoded_len(v: PosVel)
    ensures
        posvel_encoded(v).len() == 32,
{
    lemma_i64_field_round_trip(v.pos.x);
    lemma_i64_field_round_trip(v.pos.y);
    lemma_i64_field_round_trip(v.velocity.x);
    lemma_i64_field_round_trip(v.velocity.y);
}

/// A snapshot of the player-character simulation: the commanded input
/// direction alongside position and velocity.
#[derive(Clone, Copy, Debug, PartialEq, Eq, Structural)]
pub struct InputPosVel {
    pub input_dir: Vec2,
    pub pos: Vec2,
    pub velocity: Vec2,
}

impl Default for InputPosVel {
    /// All zero: at rest at the origin with no input.
    fn default() -> (r: InputPosVel)
        ensures
            r == (InputPosVel {
                input_dir: (Vec2 { x: 0i64, y: 0i64 }),
                pos: (Vec2 { x: 0i64, y: 0i64 }),
                velocity: (Vec2 { x: 0i64, y: 0i64 }),
            }),
    {
        InputPosVel {
            input_dir: Vec2 { x: 0, y: 0 },
            pos: Vec2 { x: 0, y: 0 },
            velocity: Vec2 { x: 0, y: 0 },
        }
    }
}

impl Lerp for InputPosVel {
    /// Positions blend linearly; input and velocity ride along from the
    /// earlier keyframe.
    open spec fn lerp_spec(a: InputPosVel, b: InputPosVel, num: int, den: int) -> InputPosVel {
        (InputPosVel {
            input_dir: a.input_dir,
            pos: Vec2::lerp_spec(a.pos, b.pos, num, den),
            velocity: a.velocity,
        })
    }

    proof fn lemma_lerp_zero(a: InputPosVel, b: InputPosVel, den: int) {
        Vec2::lemma_lerp_zero(a.pos, b.pos, den);
    }

    fn lerp(a: InputPosVel, b: InputPosVel, num: u64, den: u64) -> (r: InputPosVel) {
        InputPosVel {
            input_dir: a.input_dir,
            pos: Vec2::lerp(a.pos, b.pos, num, den),
            velocity: a.velocity,
        }
    }
}

/// The bytes that encode an [`InputPosVel`] snapshot: six signed fields.
pub open spec fn inputposvel_encoded(v: InputPosVel) -> Seq<u8> {
    i64_field(v.input_dir.x) + i64_field(v.input_dir.y) + i64_field(v.pos.x) + i64_field(v.pos.y)
        + i64_field(v.velocity.x) + i64_field(v.velocity.y)
}

/// The snapshot 48 bytes decode to, if they are exactly 48.
pub open spec fn inputposvel_decoded(b: Seq<u8>) -> Option<InputPosVel> {
    if b.len() == 48 {
        Some(
            (InputPosVel {
                input_dir: (Vec2 { x: i64_field_at(b, 0) as i64, y: i64_field_at(b, 8) as i64 }),
                pos: (Vec2 { x: i64_field_at(b, 16) as i64, y: i64_field_at(b, 24) as i64 }),
                velocity: (Vec2 {
                    x: i64_field_at(b, 32) as i64,
                    y: i64_field_at(b, 40) as i64,
                }),
            }),
        )
    } else {
        None
    }
}

/// Encodes an [`InputPosVel`] snapshot, exactly as [`inputposvel_encoded`] says.
pub fn encode_inputposvel(v: &InputPosVel) -> (r: Vec<u8>)
    ensures
        r@ == inputposvel_encoded(*v),
        r@.len() == 48,
{
    let mut out: Vec<u8> = Vec::new();
    write_i64(&mut out, v.input_dir.x);
    write_i64(&mut out, v.input_dir.y);
    write_i64(&mut out, v.pos.x);
    write_i64(&mut out, v.pos.y);
    write_i64(&mut out, v.velocity.x);
    write_i64(&mut out, v.velocity.y);
    proof {
        assert(out@ =~= inputposvel_encoded(*v));
    }
    out
}

/// Decodes an [`InputPosVel`] snapshot, exactly as [`inputposvel_decoded`] says.
pub fn decode_inputposvel(b: &[u8]) -> (r: Result<InputPosVel, DecodeError>)
    ensures
        r is Ok <==> inputposvel_decoded(b@) is Some,
        (match r {
            Ok(v) => inputposvel_decoded(b@) == Some(v),
            Err(e) => e == DecodeError::LengthMismatch,
        }),
{
    if b.len() != 48 {
        return Err(DecodeError::LengthMismatch);
    }
    let ix: i64 = read_i64(b, 0);
    let iy: i64 = read_i64(b, 8);
    let px: i64 = read_i64(b, 16);
    let py: i64 = read_i64(b, 24);
    let vx: i64 = read_i64(b, 32);
    let vy: i64 = read_i64(b, 40);
    Ok(
        InputPosVel {
            input_dir: Vec2 { x: ix, y: iy },
            pos: Vec2 { x: px, y: py },
            velocity: Vec2 { x: vx, y: vy },
        },
    )
}

/// Snapshot round trip: an [`InputPosVel`] decodes back from its own encoding.
pub proof fn lemma_inputposvel_round_trip(v: InputPosVel)
    ensures
        inputposvel_decoded(inputposvel_encoded(v)) == Some(v),
{
    let e = inputposvel_encoded(v);
    lemma_i64_field_round_trip(v.input_dir.x);
    lemma_i64_field_round_trip(v.input_dir.y);
    lemma_i64_field_round_trip(v.pos.x);
    lemma_i64_field_round_trip(v.pos.y);
    lemma_i64_field_round_trip(v.velocity.x);
    lemma_i64_field_round_trip(v.velocity.y);
    assert(e.subrange(0, 8) =~= i64_field(v.input_dir.x).subrange(0, 8));
    assert(e.subrange(8, 16) =~= i64_field(v.input_dir.y).subrange(0, 8));
    assert(e.subrange(16, 24) =~= i64_field(v.pos.x).subrange(0, 8));
    assert(e.subrange(24, 32) =~= i64_field(v.pos.y).subrange(0, 8));
    assert(e.subrange(32, 40) =~= i64_field(v.velocity.x).subrange(0, 8));
    assert(e.subrange(40, 48) =~= i64_field(v.velocity.y).subrange(0, 8));
}

/// One fixed step of the wave dynamics: the position advances by the old
/// velocity over `delta` nanoseconds, then the velocity takes the periodic
/// forcing term at absolute time `abs`.
pub open spec fn wave_step_spec(s: PosVel, abs: u64, delta: u64) -> PosVel {
    (PosVel {
        pos: vec2_add_spec(s.pos, vec2_mul_div_spec(s.velocity, delta as int, NANOS_PER_SEC as int)),
        velocity: vec2_add_spec(s.velocity, sine_wave_spec(delta as int, abs as int)),
    })
}

/// Evaluates [`wave_step_spec`] exactly.
pub fn wave_step(s: PosVel, abs: u64, delta: u64) -> (r: PosVel)
    ensures
        r == wave_step_spec(s, abs, delta),
{
    PosVel {
        pos: s.pos.add_sat(s.velocity.mul_div(delta, NANOS_PER_SEC)),
        velocity: s.velocity.add_sat(sine_wave(delta, abs)),
    }
}

/// The narrow capability set the reconciling strategy replays: a
/// deterministic step function and a typed, byte-serializable snapshot.
/// The same step runs on the server and in client-side prediction, so a
/// replay from a confirmed snapshot reproduces the server bit for bit.
pub trait DeterministicSimulation: Sized + Copy {
    /// The synchronized snapshot this simulation sends and receives.
    type SyncType: Lerp + Copy;

    /// The snapshot of the current state.
    spec fn send_state_spec(&self) -> Self::SyncType;

    /// The state after adopting a received snapshot.
    spec fn recv_state_spec(&self, val: Self::SyncType) -> Self;

    /// The state after one deterministic step of `delta` nanoseconds ending
    /// at absolute time `abs`.
    spec fn update_spec(&self, abs: u64, delta: u64) -> Self;

    /// The rendered sample a snapshot stands for.
    spec fn pos_spec(&self, val: Self::SyncType) -> Sample;

    /// The state after adopting another instance's synchronized state while
    /// keeping this instance's own role.
    spec fn sync_from_spec(&self, other: &Self) -> Self;

    /// The authoritative server's starting state.
    spec fn initial_spec(settings: SimSettings) -> Self;

    /// A fresh, unsynchronized instance.
    spec fn default_spec() -> Self;

    /// The bytes that encode a snapshot.
    spec fn encoded(val: Self::SyncType) -> Seq<u8>;

    /// The snapshot a byte string decodes to, if any.
    spec fn decoded(b: Seq<u8>) -> Option<Self::SyncType>;

    /// Snapshot round trip: decoding an encoding gives the snapshot back.
    proof fn lemma_codec_round_trip(val: Self::SyncType)
        ensures
            Self::decoded(Self::encoded(val)) == Some(val),
    ;

    /// Snapshots stay small enough to frame into a sync message.
    proof fn lemma_encoded_len(val: Self::SyncType)
        ensures
            Self::encoded(val).len() <= 4096,
    ;

    /// A received snapshot fully determines the synchronized part of the
    /// state: a second receive overwrites the first.
    proof fn lemma_recv_state_absorb(x: Self, v1: Self::SyncType, v2: Self::SyncType)
        ensures
            x.recv_state_spec(v1).recv_state_spec(v2) == x.recv_state_spec(v2),
    ;

    fn send_state(&self) -> (r: Self::SyncType)
        ensures
            r == self.send_state_spec(),
    ;

    fn recv_state(&mut self, val: Self::SyncType)
        ensures
            *final(self) == old(self).recv_state_spec(val),
    ;

    fn update(&mut self, abs: u64, delta: u64)
        ensures
            *final(self) == old(self).update_spec(abs, delta),
    ;

    fn pos_sample(&self, val: &Self::SyncType) -> (r: Sample)
        ensures
            r == self.pos_spec(*val),
    ;

    fn sync_from(&mut self, other: &Self)
        ensures
            *final(self) == old(self).sync_from_spec(other),
    ;

    fn initial(settings: &SimSettings) -> (r: Self)
        ensures
            r == Self::initial_spec(*settings),
    ;

    fn default_state() -> (r: Self)
        ensures
            r == Self::default_spec(),
    ;

    fn encode_sync(val: &Self::SyncType) -> (r: Vec<u8>)
        ensures
            r@ == Self::encoded(*val),
    ;

    fn decode_sync(b: &[u8]) -> (r: Result<Self::SyncType, DecodeError>)
        ensures
            r is Ok <==> Self::decoded(b@) is Some,
            (r matches Ok(v) ==> Self::decoded(b@) == Some(v)),
    ;
}

/// The incremental wave simulation, stepped deterministically so that the
/// reconciling strategy can replay it.
#[derive(Clone, Copy, Debug, PartialEq, Eq, Structural, Default)]
pub struct SineWaveDeterministicSim {
    pub state: PosVel,
}

impl DeterministicSimulation for SineWaveDeterministicSim {
    type SyncType = PosVel;

    open spec fn send_state_spec(&self) -> PosVel {
        self.state
    }

    open spec fn recv_state_spec(&self, val: PosVel) -> Self {
        (SineWaveDeterministicSim { state: val })
    }

    open spec fn update_spec(&self, abs: u64, delta: u64) -> Self {
        (SineWaveDeterministicSim { state: wave_step_spec(self.state, abs, delta) })
    }

    open spec fn pos_spec(&self, val: PosVel) -> Sample {
        (Sample { pos: val.pos })
    }

    open spec fn sync_from_spec(&self, other: &Self) -> Self {
        *other
    }

    open spec fn initial_spec(settings: SimSettings) -> Self {
        Self::default_spec()
    }

    open spec fn default_spec() -> Self {
        (SineWaveDeterministicSim {
            state: (PosVel {
                pos: (Vec2 { x: 0i64, y: 0i64 }),
                velocity: (Vec2 { x: 100_000_000i64, y: 0i64 }),
            }),
        })
    }

    open spec fn encoded(val: PosVel) -> Seq<u8> {
        posvel_encoded(val)
    }

    open spec fn decoded(b: Seq<u8>) -> Option<PosVel> {
        posvel_decoded(b)
    }

    proof fn lemma_codec_round_trip(val: PosVel) {
        lemma_posvel_round_trip(val);
    }

    proof fn lemma_encoded_len(val: PosVel) {
        lemma_i64_field_round_trip(val.pos.x);
        lemma_i64_field_round_trip(val.pos.y);
        lemma_i64_field_round_trip(val.velocity.x);
        lemma_i64_field_round_trip(val.velocity.y);
    }

    proof fn lemma_recv_state_absorb(x: Self, v1: PosVel, v2: PosVel) {
    }

    fn send_state(&self) -> (r: PosVel) {
        self.state
    }

    fn recv_state(&mut self, val: PosVel) {
        self.state = val;
    }

    fn update(&mut self, abs: u64, delta: u64) {
        self.state = wave_step(self.state, abs, delta);
    }

    fn pos_sample(&self, val: &PosVel) -> (r: Sample) {
        Sample { pos: val.pos }
    }

    fn sync_from(&mut self, other: &Self) {
        self.state = other.state;
    }

    fn initial(settings: &SimSettings) -> (r: Self) {
        Self::default_state()
    }

    fn default_state() -> (r: Self) {
        SineWaveDeterministicSim { state: PosVel::default() }
    }

    fn encode_sync(val: &PosVel) -> (r: Vec<u8>) {
        encode_posvel(val)
    }

    fn decode_sync(b: &[u8]) -> (r: Result<PosVel, DecodeError>) {
        decode_posvel(b)
    }
}

/// The recorded input path the player character follows: which direction is
/// commanded at each moment, as linearly blended keyframes.
pub open spec fn player_input_keys() -> Seq<(u64, Vec2)> {
    seq![
        (0u64, (Vec2 { x: 0i64, y: 0i64 })),
        (300_000_000u64, (Vec2 { x: FIXED_ONE as i64, y: 0i64 })),
        (500_000_000u64, (Vec2 { x: 0i64, y: 0i64 })),
        (700_000_000u64, (Vec2 { x: 0i64, y: FIXED_ONE as i64 })),
        (1_000_000_000u64, (Vec2 { x: 0i64, y: 0i64 })),
        (1_500_000_000u64, (Vec2 { x: -FIXED_ONE as i64, y: 0i64 })),
        (2_000_000_000u64, (Vec2 { x: 0i64, y: 0i64 })),
    ]
}

/// The commanded input direction at absolute time `abs`.
pub open spec fn player_input_spec(abs: u64) -> Vec2 {
    clamped_sample_spec(player_input_keys(), abs as int)->Some_0
}

/// The recorded input path as a sampleable buffer.
pub fn player_input_dir() -> (r: InterpolationBuffer<Vec2>)
    ensures
        r.view() == player_input_keys(),
        r.wf(),
{
    let mut entries: Vec<(u64, Vec2)> = Vec::new();
    entries.push((0, Vec2 { x: 0, y: 0 }));
    entries.push((300_000_000, Vec2 { x: FIXED_ONE, y: 0 }));
    entries.push((500_000_000, Vec2 { x: 0, y: 0 }));
    entries.push((700_000_000, Vec2 { x: 0, y: FIXED_ONE }));
    entries.push((1_000_000_000, Vec2 { x: 0, y: 0 }));
    entries.push((1_500_000_000, Vec2 { x: -FIXED_ONE, y: 0 }));
    entries.push((2_000_000_000, Vec2 { x: 0, y: 0 }));
    proof {
        assert(entries@ =~= player_input_keys());
        assert(sorted_keys(entries@));
    }
    InterpolationBuffer::from_vec(entries)
}

/// Samples the recorded input path, exactly as [`player_input_spec`] says.
pub fn player_input_at(abs: u64) -> (r: Vec2)
    ensures
        r == player_input_spec(abs),
{
    let curve = player_input_dir();
    let s = curve.clamped_sample(abs);
    proof {
        lemma_clamped_sample_some(player_input_keys(), abs as int);
    }
    match s {
        Some(v) => v,
        None => Vec2 { x: 0, y: 0 },
    }
}

/// A player character driven by the recorded input path.  Only the server
/// samples the path; a client instance moves by the input directions that
/// arrive inside snapshots.
#[derive(Clone, Copy, Debug, PartialEq, Eq, Structural, Default)]
pub struct PlayerCharacterDeterministic {
    pub state: InputPosVel,
    /// Whether this instance is the authoritative server.
    pub server: bool,
}

impl DeterministicSimulation for PlayerCharacterDeterministic {
    type SyncType = InputPosVel;

    open spec fn send_state_spec(&self) -> InputPosVel {
        self.state
    }

    open spec fn recv_state_spec(&self, val: InputPosVel) -> Self {
        (PlayerCharacterDeterministic { state: val, server: self.server })
    }

    open spec fn update_spec(&self, abs: u64, delta: u64) -> Self {
        let dir = if self.server {
            player_input_spec(abs)
        } else {
            self.state.input_dir
        };
        let vel = vec2_mul_div_spec(dir, 100, 1);
        (PlayerCharacterDeterministic {
            state: (InputPosVel {
                input_dir: dir,
                pos: vec2_add_spec(
                    self.state.pos,
                    vec2_mul_div_spec(vel, delta as int, NANOS_PER_SEC as int),
                ),
                velocity: vel,
            }),
            server: self.server,
        })
    }

    open spec fn pos_spec(&self, val: InputPosVel) -> Sample {
        (Sample { pos: val.pos })
    }

    open spec fn sync_from_spec(&self, other: &Self) -> Self {
        (PlayerCharacterDeterministic { state: other.state, server: self.server })
    }

    open spec fn initial_spec(settings: SimSettings) -> Self {
        (PlayerCharacterDeterministic {
            state: (InputPosVel {
                input_dir: (Vec2 { x: 0i64, y: 0i64 }),
                pos: (Vec2 { x: 0i64, y: 0i64 }),
                velocity: (Vec2 { x: 0i64, y: 0i64 }),
            }),
            server: true,
        })
    }

    open spec fn default_spec() -> Self {
        (PlayerCharacterDeterministic {
            state: (InputPosVel {
                input_dir: (Vec2 { x: 0i64, y: 0i64 }),
                pos: (Vec2 { x: 0i64, y: 0i64 }),
                velocity: (Vec2 { x: 0i64, y: 0i64 }),
            }),
            server: false,
        })
    }

    open spec fn encoded(val: InputPosVel) -> Seq<u8> {
        inputposvel_encoded(val)
    }

    open spec fn decoded(b: Seq<u8>) -> Option<InputPosVel> {
        inputposvel_decoded(b)
    }

    proof fn lemma_codec_round_trip(val: InputPosVel) {
        lemma_inputposvel_round_trip(val);
    }

    proof fn lemma_encoded_len(val: InputPosVel) {
        lemma_i64_field_round_trip(val.input_dir.x);
        lemma_i64_field_round_trip(val.input_dir.y);
        lemma_i64_field_round_trip(val.pos.x);
        lemma_i64_field_round_trip(val.pos.y);
        lemma_i64_field_round_trip(val.velocity.x);
        lemma_i64_field_round_trip(val.velocity.y);
    }

    proof fn lemma_recv_state_absorb(x: Self, v1: InputPosVel, v2: InputPosVel) {
    }

    fn send_state(&self) -> (r: InputPosVel) {
        self.state
    }

    fn recv_state(&mut self, val: InputPosVel) {
        self.state = val;
    }

    fn update(&mut self, abs: u64, delta: u64) {
        let dir: Vec2 = if self.server {
            player_input_at(abs)
        } else {
            self.state.input_dir
        };
        let vel: Vec2 = dir.mul_div(100, 1);
        self.state = InputPosVel {
            input_dir: dir,
            pos: self.state.pos.add_sat(vel.mul_div(delta, NANOS_PER_SEC)),
            velocity: vel,
        };
    }

    fn pos_sample(&self, val: &InputPosVel) -> (r: Sample) {
        Sample { pos: val.pos }
    }

    fn sync_from(&mut self, other: &Self) {
        self.state = other.state;
    }

    fn initial(settings: &SimSettings) -> (r: Self) {
        PlayerCharacterDeterministic { state: InputPosVel::default(), server: true }
    }

    fn default_state() -> (r: Self) {
        PlayerCharacterDeterministic { state: InputPosVel::default(), server: false }
    }

    fn encode_sync(val: &InputPosVel) -> (r: Vec<u8>) {
        encode_inputposvel(val)
    }

    fn decode_sync(b: &[u8]) -> (r: Result<InputPosVel, DecodeError>) {
        decode_inputposvel(b)
    }
}

/// The wide capability set of a node that plays both roles with logic of
/// its own: produce the authoritative sample, expose and adopt snapshots,
/// and produce an optional render sample.
pub trait AsymmetricSimulationState: Sized + Copy {
    /// The synchronized snapshot this state sends and receives.
    type SyncType: Copy;

    /// The state after one authoritative server step, and the sample it
    /// records.
    spec fn update_server_spec(&self, t: LocalTime) -> (Self, Sample);

    /// The snapshot of the current state.
    spec fn send_state_spec(&self) -> Self::SyncType;

    /// The state after adopting a received snapshot at local time `t`.
    spec fn recv_state_spec(&self, val: Self::SyncType, t: LocalTime) -> Self;

    /// The state after one render step, and the sample it shows, if any.
    spec fn update_render_spec(&self, t: LocalTime) -> (Self, Option<Sample>);

    /// The bytes that encode a snapshot.
    spec fn encoded(val: Self::SyncType) -> Seq<u8>;

    /// The snapshot a byte string decodes to, if any.
    spec fn decoded(b: Seq<u8>) -> Option<Self::SyncType>;

    /// Snapshot round trip: decoding an encoding gives the snapshot back.
    proof fn lemma_codec_round_trip(val: Self::SyncType)
        ensures
            Self::decoded(Self::encoded(val)) == Some(val),
    ;

    fn update_server(&mut self, t: &LocalTime) -> (r: Sample)
        ensures
            (*final(self), r) == old(self).update_server_spec(*t),
    ;

    fn send_state(&self) -> (r: Self::SyncType)
        ensures
            r == self.send_state_spec(),
    ;

    fn recv_state(&mut self, val: Self::SyncType, t: &LocalTime)
        ensures
            *final(self) == old(self).recv_state_spec(val, *t),
    ;

    fn update_render(&mut self, t: &LocalTime) -> (r: Option<Sample>)
        ensures
            (*final(self), r) == old(self).update_render_spec(*t),
    ;

    fn encode_sync(val: &Self::SyncType) -> (r: Vec<u8>)
        ensures
            r@ == Self::encoded(*val),
    ;

    fn decode_sync(b: &[u8]) -> (r: Result<Self::SyncType, DecodeError>)
        ensures
            r is Ok <==> Self::decoded(b@) is Some,
            (r matches Ok(v) ==> Self::decoded(b@) == Some(v)),
    ;
}

/// Naive state-snapshot replication: both sides run the identical
/// incremental wave at their own tick rate, and the client overwrites its
/// whole state with each received snapshot and keeps stepping from there.
#[derive(Clone, Copy, Debug, PartialEq, Eq, Structural, Default)]
pub struct SineWaveClientSim {
    pub state: PosVel,
    /// Local time of the first received snapshot; rendering starts there.
    pub start_time: Option<u64>,
}

impl AsymmetricSimulationState for SineWaveClientSim {
    type SyncType = PosVel;

    open spec fn update_server_spec(&self, t: LocalTime) -> (Self, Sample) {
        let s2 = wave_step_spec(self.state, t.absolute, t.delta);
        ((SineWaveClientSim { state: s2, start_time: self.start_time }), (Sample { pos: s2.pos }))
    }

    open spec fn send_state_spec(&self) -> PosVel {
        self.state
    }

    open spec fn recv_state_spec(&self, val: PosVel, t: LocalTime) -> Self {
        (SineWaveClientSim {
            state: val,
            start_time: if self.start_time is None {
                Some(t.absolute)
            } else {
                self.start_time
            },
        })
    }

    open spec fn update_render_spec(&self, t: LocalTime) -> (Self, Option<Sample>) {
        match self.start_time {
            None => (*self, None),
            Some(st) => {
                let s2 = wave_step_spec(self.state, sat_u64(t.absolute - st) as u64, t.delta);
                (
                    (SineWaveClientSim { state: s2, start_time: self.start_time }),
                    Some((Sample { pos: s2.pos })),
                )
            },
        }
    }

    open spec fn encoded(val: PosVel) -> Seq<u8> {
        posvel_encoded(val)
    }

    open spec fn decoded(b: Seq<u8>) -> Option<PosVel> {
        posvel_decoded(b)
    }

    proof fn lemma_codec_round_trip(val: PosVel) {
        lemma_posvel_round_trip(val);
    }

    fn update_server(&mut self, t: &LocalTime) -> (r: Sample) {
        self.state = wave_step(self.state, t.absolute, t.delta);
        Sample { pos: self.state.pos }
    }

    fn send_state(&self) -> (r: PosVel) {
        self.state
    }

    fn recv_state(&mut self, val: PosVel, t: &LocalTime) {
        self.state = val;
        if self.start_time.is_none() {
            self.start_time = Some(t.absolute);
        }
    }

    fn update_render(&mut self, t: &LocalTime) -> (r: Option<Sample>) {
        match self.start_time {
            None => None,
            Some(st) => {
                self.state = wave_step(self.state, sub_u64_sat(t.absolute, st), t.delta);
                Some(Sample { pos: self.state.pos })
            },
        }
    }

    fn encode_sync(val: &PosVel) -> (r: Vec<u8>) {
        encode_posvel(val)
    }

    fn decode_sync(b: &[u8]) -> (r: Result<PosVel, DecodeError>) {
        decode_posvel(b)
    }
}

/// The synchronization-relevant content of a [`SineWaveThinClient`].
pub struct ThinClientView {
    pub sim_state: PosVel,
    pub sample_buffer: Seq<(u64, PosVel)>,
    pub delay: u64,
    pub start_time: Option<u64>,
    pub recv_sample_server_time: bool,
}

/// What receiving a snapshot does to a thin client: record when rendering
/// may start, then file the snapshot under the configured time key.
pub open spec fn thin_recv_spec(
    v: ThinClientView,
    t: LocalTime,
    server_time: u64,
    msg: Seq<u8>,
) -> Result<ThinClientView, SimError> {
    match posvel_decoded(msg) {
        None => Err(SimError::MalformedSync),
        Some(sample) => Ok(
            (ThinClientView {
                sim_state: v.sim_state,
                sample_buffer: add_spec(
                    v.sample_buffer,
                    if v.recv_sample_server_time {
                        server_time
                    } else {
                        t.absolute
                    },
                    sample,
                ),
                delay: v.delay,
                start_time: if v.start_time is None {
                    Some(t.absolute)
                } else {
                    v.start_time
                },
                recv_sample_server_time: v.recv_sample_server_time,
            }),
        ),
    }
}

/// What a thin client renders at local time `t`: nothing before the first
/// snapshot's arrival, else the clamped interpolated sample at the delayed
/// time `t - delay`.
pub open spec fn thin_render_spec(v: ThinClientView, t: LocalTime) -> Option<Sample> {
    match v.start_time {
        None => None,
        Some(st) => {
            if t.absolute - v.delay < st {
                None
            } else {
                match clamped_sample_spec(v.sample_buffer, t.absolute - v.delay) {
                    Some(p) => Some((Sample { pos: p.pos })),
                    None => None,
                }
            }
        },
    }
}

/// A thin client: no local prediction at all.  It files every incoming
/// snapshot into an interpolation buffer and renders a delayed,
/// edge-clamped interpolated sample; as the server it runs the wave.
pub struct SineWaveThinClient {
    pub sim_state: PosVel,
    pub sample_buffer: InterpolationBuffer<PosVel>,
    /// Render delay, in nanoseconds.
    pub delay: u64,
    /// Local time of the first received snapshot.
    pub start_time: Option<u64>,
    /// Whether buffer keys are the server's timestamps rather than local
    /// receipt times.
    pub recv_sample_server_time: bool,
}

impl SineWaveThinClient {
    /// The synchronization-relevant content.
    pub open spec fn view(&self) -> ThinClientView {
        (ThinClientView {
            sim_state: self.sim_state,
            sample_buffer: self.sample_buffer.view(),
            delay: self.delay,
            start_time: self.start_time,
            recv_sample_server_time: self.recv_sample_server_time,
        })
    }

    pub open spec fn wf(&self) -> bool {
        self.sample_buffer.wf()
    }

    /// A fresh thin client with the configured render delay and time-key
    /// choice; no snapshot has arrived yet.
    pub fn new(delay: u64, recv_sample_server_time: bool) -> (r: SineWaveThinClient)
        ensures
            r.view() == (ThinClientView {
                sim_state: (PosVel {
                    pos: (Vec2 { x: 0i64, y: 0i64 }),
                    velocity: (Vec2 { x: 100_000_000i64, y: 0i64 }),
                }),
                sample_buffer: Seq::<(u64, PosVel)>::empty(),
                delay,
                start_time: None::<u64>,
                recv_sample_server_time,
            }),
            r.wf(),
    {
        SineWaveThinClient {
            sim_state: PosVel::default(),
            sample_buffer: InterpolationBuffer::new(),
            delay,
            start_time: None,
            recv_sample_server_time,
        }
    }

    /// Serializes the current state for transmission.
    pub fn send_sync(&self) -> (r: Vec<u8>)
        ensures
            r@ == posvel_encoded(self.sim_state),
    {
        encode_posvel(&self.sim_state)
    }

    /// Consumes one incoming snapshot, exactly as [`thin_recv_spec`] says.
    pub fn recv_sync(&mut self, t: &LocalTime, server_time: u64, msg: &[u8]) -> (r: Result<
        (),
        SimError,
    >)
        requires
            old(self).wf(),
        ensures
            (match thin_recv_spec(old(self).view(), *t, server_time, msg@) {
                Ok(v) => r is Ok && final(self).view() == v,
                Err(e) => r == Err::<(), SimError>(e) && final(self).view() == old(self).view(),
            }),
            final(self).wf(),
    {
        let sample = match decode_posvel(msg) {
            Ok(s) => s,
            Err(_) => {
                return Err(SimError::MalformedSync);
            },
        };
        if self.start_time.is_none() {
            self.start_time = Some(t.absolute);
        }
        let key: u64 = if self.recv_sample_server_time {
            server_time
        } else {
            t.absolute
        };
        self.sample_buffer.add(key, sample);
        Ok(())
    }

    /// Produces the delayed render sample, exactly as [`thin_render_spec`]
    /// says; the state does not change.
    pub fn update_render(&mut self, t: &LocalTime) -> (r: Option<Sample>)
        requires
            old(self).wf(),
        ensures
            r == thin_render_spec(old(self).view(), *t),
            final(self).view() == old(self).view(),
            final(self).wf(),
    {
        match self.start_time {
            None => None,
            Some(st) => {
                if t.absolute < self.delay || t.absolute - self.delay < st {
                    proof {
                        assert(t.absolute - self.delay < st);
                    }
                    None
                } else {
                    match self.sample_buffer.clamped_sample(t.absolute - self.delay) {
                        Some(p) => Some(Sample { pos: p.pos }),
                        None => None,
                    }
                }
            },
        }
    }

    /// Runs one authoritative wave step and records its sample.
    pub fn update_server(&mut self, t: &LocalTime) -> (r: Sample)
        ensures
            final(self).sim_state == wave_step_spec(old(self).sim_state, t.absolute, t.delta),
            r == (Sample { pos: final(self).sim_state.pos }),
            final(self).view() == (ThinClientView {
                sim_state: final(self).sim_state,
                ..old(self).view()
            }),
            old(self).wf() ==> final(self).wf(),
    {
        self.sim_state = wave_step(self.sim_state, t.absolute, t.delta);
        Sample { pos: self.sim_state.pos }
    }
}

/// A strategy whose sample is a closed-form function of absolute time
/// alone: the wave's forcing term over one second plus a constant drift.
/// No state crosses the wire; the first received message only anchors the
/// client's start time.
#[derive(Clone, Copy, Debug, PartialEq, Eq, Structural, Default)]
pub struct SineWavePureFunction {
    pub sim_state: PosVel,
    /// Local time of the first received message.
    pub start_time: Option<u64>,
}

/// The constant drift of the pure-function strategy: two thousand units
/// per second on both axes, integrated over `abs` nanoseconds.
pub open spec fn pure_drift_spec(abs: u64) -> Vec2 {
    vec2_mul_div_spec(
        (Vec2 { x: 2_000_000_000i64, y: 2_000_000_000i64 }),
        abs as int,
        NANOS_PER_SEC as int,
    )
}

/// The pure-function sample at elapsed time `since_start`, drifted by
/// absolute time `abs`.
pub open spec fn pure_sample_spec(since_start: u64, abs: u64) -> Sample {
    (Sample {
        pos: vec2_add_spec(
            sine_wave_spec(NANOS_PER_SEC as int, since_start as int),
            pure_drift_spec(abs),
        ),
    })
}

/// What receiving any message does to the pure-function strategy: only the
/// local start time is recorded, on first receipt.
pub open spec fn pure_recv_spec(p: SineWavePureFunction, t: LocalTime) -> SineWavePureFunction {
    (SineWavePureFunction {
        sim_state: p.sim_state,
        start_time: if p.start_time is None {
            Some(t.absolute)
        } else {
            p.start_time
        },
    })
}

/// What the pure-function strategy renders at local time `t`: nothing
/// before the first receipt, else the closed-form sample of the elapsed
/// time.
pub open spec fn pure_render_spec(p: SineWavePureFunction, t: LocalTime) -> Option<Sample> {
    match p.start_time {
        None => None,
        Some(st) => if t.absolute < st {
            None
        } else {
            Some(pure_sample_spec((t.absolute - st) as u64, t.absolute))
        },
    }
}

impl SineWavePureFunction {
    /// A fresh instance that has not heard from the server yet.
    pub fn new() -> (r: SineWavePureFunction)
        ensures
            r == (SineWavePureFunction {
                sim_state: (PosVel {
                    pos: (Vec2 { x: 0i64, y: 0i64 }),
                    velocity: (Vec2 { x: 100_000_000i64, y: 0i64 }),
                }),
                start_time: None::<u64>,
            }),
    {
        SineWavePureFunction { sim_state: PosVel::default(), start_time: None }
    }

    /// Serializes the (unused) local state for transmission.
    pub fn send_sync(&self) -> (r: Vec<u8>)
        ensures
            r@ == posvel_encoded(self.sim_state),
    {
        encode_posvel(&self.sim_state)
    }

    /// Records the local start time on first receipt; the payload carries
    /// no information this strategy uses.
    pub fn recv_sync(&mut self, t: &LocalTime)
        ensures
            *final(self) == pure_recv_spec(*old(self), *t),
    {
        if self.start_time.is_none() {
            self.start_time = Some(t.absolute);
        }
    }

    /// The closed-form sample at `t`, or nothing before the first receipt.
    pub fn update_render(&mut self, t: &LocalTime) -> (r: Option<Sample>)
        ensures
            *final(self) == *old(self),
            r == pure_render_spec(*old(self), *t),
    {
        match self.start_time {
            None => None,
            Some(st) => {
                if t.absolute < st {
                    None
                } else {
                    let since: u64 = t.absolute - st;
                    Some(self.sample_at(since, t.absolute))
                }
            },
        }
    }

    /// The closed-form authoritative sample at `t`.
    pub fn update_server(&mut self, t: &LocalTime) -> (r: Sample)
        ensures
            *final(self) == *old(self),
            r == pure_sample_spec(t.absolute, t.absolute),
    {
        self.sample_at(t.absolute, t.absolute)
    }

    /// Evaluates [`pure_sample_spec`] exactly.
    fn sample_at(&self, since_start: u64, abs: u64) -> (r: Sample)
        ensures
            r == pure_sample_spec(since_start, abs),
    {
        let wave: Vec2 = sine_wave(NANOS_PER_SEC, since_start);
        let drift: Vec2 = Vec2 { x: 2_000_000_000, y: 2_000_000_000 }.mul_div(
            abs,
            NANOS_PER_SEC,
        );
        Sample { pos: wave.add_sat(drift) }
    }
}

} // verus!
