//! Layout of a recorded run for a viewing surface.
//!
//! The recorded frames are normalized into two side-by-side panels (server
//! left, client right) of a screen given in fixed-point units, and the
//! frame each side most recently produced at the viewer's playback time is
//! singled out for highlighting.  All of it is exact integer arithmetic on
//! the recorded fixed-point samples.

use vstd::prelude::*;
use crate::fixed::{add_i64_sat, div_trunc, mul_div_sat, sat_i64, sub_i64_sat, Vec2};
use crate::sim::{SimSettings, SimSide, SimulationResult, WorldFrame};

verus! {

/// The least value `f` takes over the frames, or zero for no frames.
pub open spec fn fold_min(s: Seq<WorldFrame>, f: spec_fn(WorldFrame) -> int) -> int
    decreases s.len(),
{
    if s.len() == 0 {
        0
    } else if s.len() == 1 {
        f(s[0])
    } else {
        let m = fold_min(s.drop_last(), f);
        if f(s.last()) < m {
            f(s.last())
        } else {
            m
        }
    }
}

/// The greatest value `f` takes over the frames, or zero for no frames.
pub open spec fn fold_max(s: Seq<WorldFrame>, f: spec_fn(WorldFrame) -> int) -> int
    decreases s.len(),
{
    if s.len() == 0 {
        0
    } else if s.len() == 1 {
        f(s[0])
    } else {
        let m = fold_max(s.drop_last(), f);
        if f(s.last()) > m {
            f(s.last())
        } else {
            m
        }
    }
}

/// The earliest and latest recorded times of a run; both zero for an empty
/// run.
pub fn sim_min_max_time(sim: &SimulationResult) -> (r: (u64, u64))
    ensures
        r.0 == fold_min(sim.frames@, |f: WorldFrame| f.render_time as int),
        r.1 == fold_max(sim.frames@, |f: WorldFrame| f.render_time as int),
{
    let ghost ft = |f: WorldFrame| f.render_time as int;
    let n = sim.frames.len();
    if n == 0 {
        return (0, 0);
    }
    let mut mn: u64 = sim.frames[0].render_time;
    let mut mx: u64 = sim.frames[0].render_time;
    let mut i: usize = 1;
    while i < n
        invariant
            1 <= i <= n,
            n == sim.frames@.len(),
            mn == fold_min(sim.frames@.take(i as int), ft),
            mx == fold_max(sim.frames@.take(i as int), ft),
            ft == (|f: WorldFrame| f.render_time as int),
        decreases n - i,
    {
        proof {
            let taken = sim.frames@.take(i as int + 1);
            assert(taken.drop_last() =~= sim.frames@.take(i as int));
            assert(taken.last() == sim.frames@[i as int]);
        }
        let t = sim.frames[i].render_time;
        if t < mn {
            mn = t;
        }
        if t > mx {
            mx = t;
        }
        i = i + 1;
    }
    proof {
        assert(sim.frames@.take(n as int) =~= sim.frames@);
    }
    (mn, mx)
}

/// One axis of the recorded bounding box, widened to a nonempty interval:
/// when every sample agrees, the upper bound moves one unit up (or, at the
/// very top of the range, the lower bound one unit down).
pub open spec fn axis_bounds(mn: int, mx: int) -> (int, int) {
    if mx == mn {
        if mn == i64::MAX {
            (mn - 1, mx)
        } else {
            (mn, mn + 1)
        }
    } else {
        (mn, mx)
    }
}

/// The samples' bounding box, per axis, widened so that neither side is
/// degenerate; the origin and the unit square for an empty run.
pub open spec fn bounding_box_spec(s: Seq<WorldFrame>) -> (Vec2, Vec2) {
    let bx = axis_bounds(
        fold_min(s, |f: WorldFrame| f.sample.pos.x as int),
        fold_max(s, |f: WorldFrame| f.sample.pos.x as int),
    );
    let by = axis_bounds(
        fold_min(s, |f: WorldFrame| f.sample.pos.y as int),
        fold_max(s, |f: WorldFrame| f.sample.pos.y as int),
    );
    ((Vec2 { x: bx.0 as i64, y: by.0 as i64 }), (Vec2 { x: bx.1 as i64, y: by.1 as i64 }))
}

/// Computes [`bounding_box_spec`] exactly.
pub fn sim_bounding_box_render(sim: &SimulationResult) -> (r: (Vec2, Vec2))
    ensures
        r == bounding_box_spec(sim.frames@),
        r.0.x < r.1.x,
        r.0.y < r.1.y,
{
    let ghost fx = |f: WorldFrame| f.sample.pos.x as int;
    let ghost fy = |f: WorldFrame| f.sample.pos.y as int;
    let n = sim.frames.len();
    let mut min_x: i64 = 0;
    let mut max_x: i64 = 0;
    let mut min_y: i64 = 0;
    let mut max_y: i64 = 0;
    if n > 0 {
        min_x = sim.frames[0].sample.pos.x;
        max_x = min_x;
        min_y = sim.frames[0].sample.pos.y;
        max_y = min_y;
        let mut i: usize = 1;
        while i < n
            invariant
                1 <= i <= n,
                n == sim.frames@.len(),
                min_x == fold_min(sim.frames@.take(i as int), fx),
                max_x == fold_max(sim.frames@.take(i as int), fx),
                min_y == fold_min(sim.frames@.take(i as int), fy),
                max_y == fold_max(sim.frames@.take(i as int), fy),
                fx == (|f: WorldFrame| f.sample.pos.x as int),
                fy == (|f: WorldFrame| f.sample.pos.y as int),
            decreases n - i,
        {
            proof {
                let taken = sim.frames@.take(i as int + 1);
                assert(taken.drop_last() =~= sim.frames@.take(i as int));
                assert(taken.last() == sim.frames@[i as int]);
            }
            let p = sim.frames[i].sample.pos;
            if p.x < min_x {
                min_x = p.x;
            }
            if p.x > max_x {
                max_x = p.x;
            }
            if p.y < min_y {
                min_y = p.y;
            }
            if p.y > max_y {
                max_y = p.y;
            }
            i = i + 1;
        }
        proof {
            assert(sim.frames@.take(n as int) =~= sim.frames@);
        }
    }
    if max_x == min_x {
        if min_x == i64::MAX {
            min_x = min_x - 1;
        } else {
            max_x = max_x + 1;
        }
    }
    if max_y == min_y {
        if min_y == i64::MAX {
            min_y = min_y - 1;
        } else {
            max_y = max_y + 1;
        }
    }
    (Vec2 { x: min_x, y: min_y }, Vec2 { x: max_x, y: max_y })
}

/// Where one recorded frame lands on screen: its sample normalized into
/// the bounding box, scaled to a panel of 45% x 85% of the screen, and
/// offset into the producing side's panel.
pub open spec fn layout_point_spec(f: WorldFrame, mn: Vec2, mx: Vec2, w: i64, h: i64) -> Vec2
    recommends
        mn.x < mx.x,
        mn.y < mx.y,
{
    let size_x = div_trunc(w * 45, 100);
    let size_y = div_trunc(h * 85, 100);
    let base_x = match f.side {
        SimSide::Server => div_trunc(w * 2, 100),
        SimSide::Client => div_trunc(w * 50, 100),
    };
    let base_y = div_trunc(h * 2, 100);
    (Vec2 {
        x: sat_i64(
            base_x + sat_i64(div_trunc(sat_i64(f.sample.pos.x - mn.x) * size_x, mx.x - mn.x)),
        ) as i64,
        y: sat_i64(
            base_y + sat_i64(div_trunc(sat_i64(f.sample.pos.y - mn.y) * size_y, mx.y - mn.y)),
        ) as i64,
    })
}

/// The screen point of the frame a side most recently produced at or
/// before the playback time, if any.
pub open spec fn highlight_spec(
    s: Seq<WorldFrame>,
    side: SimSide,
    curr_time: u64,
    mn: Vec2,
    mx: Vec2,
    w: i64,
    h: i64,
) -> Option<Vec2>
    decreases s.len(),
{
    if s.len() == 0 {
        None
    } else if s.last().side == side && s.last().render_time <= curr_time {
        Some(layout_point_spec(s.last(), mn, mx, w, h))
    } else {
        highlight_spec(s.drop_last(), side, curr_time, mn, mx, w, h)
    }
}

/// Lays recorded runs out on screen for drawing.
pub struct SimRenderSystem;

impl SimRenderSystem {
    /// Computes every frame's screen point and each side's highlighted
    /// current point, for a screen of `w` by `h` fixed-point units at the
    /// playback time of `settings.curr_time`.
    pub fn run(&mut self, w: i64, h: i64, sim: &SimulationResult, settings: &SimSettings) -> (r: (
        Vec<Vec2>,
        Option<Vec2>,
        Option<Vec2>,
    ))
        ensures
            r.0@.len() == sim.frames@.len(),
            forall|i: int|
                0 <= i < sim.frames@.len() ==> r.0@[i] == layout_point_spec(
                    #[trigger] sim.frames@[i],
                    bounding_box_spec(sim.frames@).0,
                    bounding_box_spec(sim.frames@).1,
                    w,
                    h,
                ),
            r.1 == highlight_spec(sim.frames@, SimSide::Server, settings.curr_time,
            bounding_box_spec(sim.frames@).0, bounding_box_spec(sim.frames@).1, w, h),
            r.2 == highlight_spec(sim.frames@, SimSide::Client, settings.curr_time,
            bounding_box_spec(sim.frames@).0, bounding_box_spec(sim.frames@).1, w, h),
    {
        let (mn, mx) = sim_bounding_box_render(sim);
        let mut points: Vec<Vec2> = Vec::new();
        let mut server_pos: Option<Vec2> = None;
        let mut client_pos: Option<Vec2> = None;
        let n = sim.frames.len();
        let mut i: usize = 0;
        while i < n
            invariant
                i <= n,
                n == sim.frames@.len(),
                mn.x < mx.x,
                mn.y < mx.y,
                (mn, mx) == bounding_box_spec(sim.frames@),
                points@.len() == i,
                forall|j: int|
                    0 <= j < i ==> points@[j] == layout_point_spec(
                        #[trigger] sim.frames@[j],
                        mn,
                        mx,
                        w,
                        h,
                    ),
                server_pos == highlight_spec(sim.frames@.take(i as int), SimSide::Server,
                settings.curr_time, mn, mx, w, h),
                client_pos == highlight_spec(sim.frames@.take(i as int), SimSide::Client,
                settings.curr_time, mn, mx, w, h),
            decreases n - i,
        {
            proof {
                let taken = sim.frames@.take(i as int + 1);
                assert(taken.drop_last() =~= sim.frames@.take(i as int));
                assert(taken.last() == sim.frames@[i as int]);
            }
            let frame = &sim.frames[i];
            let p = Self::layout_point(frame, mn, mx, w, h);
            points.push(p);
            if frame.render_time <= settings.curr_time {
                match frame.side {
                    SimSide::Server => {
                        server_pos = Some(p);
                    },
                    SimSide::Client => {
                        client_pos = Some(p);
                    },
                }
            }
            i = i + 1;
        }
        proof {
            assert(sim.frames@.take(n as int) =~= sim.frames@);
        }
        (points, server_pos, client_pos)
    }

    /// Evaluates [`layout_point_spec`] exactly.
    fn layout_point(f: &WorldFrame, mn: Vec2, mx: Vec2, w: i64, h: i64) -> (r: Vec2)
        requires
            mn.x < mx.x,
            mn.y < mx.y,
        ensures
            r == layout_point_spec(*f, mn, mx, w, h),
    {
        let size_x: i64 = mul_div_sat_signed(w, 45, 100);
        let size_y: i64 = mul_div_sat_signed(h, 85, 100);
        let base_x: i64 = match f.side {
            SimSide::Server => mul_div_sat_signed(w, 2, 100),
            SimSide::Client => mul_div_sat_signed(w, 50, 100),
        };
        let base_y: i64 = mul_div_sat_signed(h, 2, 100);
        proof {
            lemma_small_scale_exact(w as int, 45);
            lemma_small_scale_exact(h as int, 85);
            lemma_small_scale_exact(w as int, 2);
            lemma_small_scale_exact(w as int, 50);
            lemma_small_scale_exact(h as int, 2);
        }
        let dx: i64 = sub_i64_sat(f.sample.pos.x, mn.x);
        let dy: i64 = sub_i64_sat(f.sample.pos.y, mn.y);
        let rx: i64 = mul_div_signed_denom(dx, size_x, mx.x, mn.x);
        let ry: i64 = mul_div_signed_denom(dy, size_y, mx.y, mn.y);
        Vec2 { x: add_i64_sat(base_x, rx), y: add_i64_sat(base_y, ry) }
    }
}

/// `v * k / 100` stays within the `i64` range for a small factor `k`, so
/// the saturating computation is the exact ratio.
proof fn lemma_small_scale_exact(v: int, k: int)
    requires
        i64::MIN <= v <= i64::MAX,
        0 <= k <= 100,
    ensures
        sat_i64(div_trunc(v * k, 100)) == div_trunc(v * k, 100),
{
    assert(v * k <= 100 * (i64::MAX as int) && -(100 * ((i64::MAX as int) + 1)) <= v * k)
        by (nonlinear_arith)
        requires
            i64::MIN <= v <= i64::MAX,
            0 <= k <= 100,
    ;
    let p = v * k;
    if p >= 0 {
        vstd::arithmetic::div_mod::lemma_div_is_ordered(p, 100 * (i64::MAX as int), 100);
        vstd::arithmetic::div_mod::lemma_div_by_multiple(i64::MAX as int, 100);
        vstd::arithmetic::div_mod::lemma_div_pos_is_pos(p, 100);
    } else {
        vstd::arithmetic::div_mod::lemma_div_is_ordered(-p, 100 * ((i64::MAX as int) + 1), 100);
        vstd::arithmetic::div_mod::lemma_div_by_multiple((i64::MAX as int) + 1, 100);
        vstd::arithmetic::div_mod::lemma_div_pos_is_pos(-p, 100);
    }
}

/// Computes `v * k / 100`, truncating and saturating.
fn mul_div_sat_signed(v: i64, k: u64, d: u64) -> (r: i64)
    requires
        1 <= d,
    ensures
        r == sat_i64(div_trunc(v * k, d as int)),
{
    mul_div_sat(v, k, d)
}

/// Computes `a * b / (hi - lo)`, truncating and saturating, for a positive
/// denominator given by its ordered ends.
fn mul_div_signed_denom(a: i64, b: i64, hi: i64, lo: i64) -> (r: i64)
    requires
        lo < hi,
    ensures
        r == sat_i64(div_trunc(a * b, hi - lo)),
{
    let den: u64 = if hi >= 0 && lo < 0 {
        (hi as u64) + crate::fixed::abs_u64(lo)
    } else {
        (hi - lo) as u64
    };
    crate::fixed::mul_div_i64_sat(a, b, den)
}

} // verus!
