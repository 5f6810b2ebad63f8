//! The motion system: every square's acceleration bonus accumulates, and
//! every predator — a square strictly larger than the player on both axes
//! — steers toward the player (away from it under the power-up), pushed
//! apart from nearby squares, with a speed bonus once full-grown.
//! Targets are computed for all squares first and applied second, so every
//! steering decision reads the same snapshot of positions.

use vstd::prelude::*;
use vstd::pervasive::VecAdditionalExecFns;

use crate::config::{
    ACCEL_CAP, ACCEL_RATE, FIELD_H, FIELD_W, INIT_SIZE, MAX_SIZE, MAX_SQUARES, SPEED, STEER_BIAS,
};
use crate::model::{wf_player, wf_square, wf_world, Player, Square, World};
use crate::num::{clamp_i64, clamp_spec, half, isqrt, scaled_div, scaled_spec, sqrt_floor};

verus! {

/// One frame of acceleration gain for a square, saturated at a bound far
/// above anything a run reaches.
pub open spec fn accel_spec(s: Square) -> Square {
    Square {
        acc: if s.acc + ACCEL_RATE <= ACCEL_CAP {
            (s.acc + ACCEL_RATE) as i64
        } else {
            s.acc
        },
        ..s
    }
}

/// Every square with its acceleration advanced.
pub open spec fn accel_all(sqs: Seq<Square>) -> Seq<Square> {
    sqs.map_values(|s: Square| accel_spec(s))
}

/// A predator is a square strictly larger than the player on both axes.
pub open spec fn is_predator(s: Square, p: Player) -> bool {
    s.w > p.w && s.h > p.h
}

/// Whether `t` repels `s`: their centers lie within squared distance
/// `s.w * s.h / 1.5` of each other (stated over integers as `3 d² < 2 w h`;
/// a square always repels itself, its own term being zero).
pub open spec fn near(s: Square, t: Square) -> bool {
    3 * ((s.x - t.x) * (s.x - t.x) + (s.y - t.y) * (s.y - t.y)) < 2 * (s.w * s.h)
}

/// Horizontal repulsion on `s`: the sum, over every square near it, of the
/// vector from that square to `s`.
pub open spec fn repulsion_x(sqs: Seq<Square>, s: Square) -> int
    decreases sqs.len(),
{
    if sqs.len() == 0 {
        0
    } else {
        repulsion_x(sqs.drop_last(), s) + if near(s, sqs.last()) {
            s.x - sqs.last().x
        } else {
            0
        }
    }
}

/// Vertical repulsion on `s`.
pub open spec fn repulsion_y(sqs: Seq<Square>, s: Square) -> int
    decreases sqs.len(),
{
    if sqs.len() == 0 {
        0
    } else {
        repulsion_y(sqs.drop_last(), s) + if near(s, sqs.last()) {
            s.y - sqs.last().y
        } else {
            0
        }
    }
}

/// Horizontal chase component: from the square's corner-adjusted position
/// to the player's.
pub open spec fn chase_dx(p: Player, s: Square) -> int {
    p.x - p.w / 2 - (s.x - s.w / 2)
}

/// Vertical chase component.
pub open spec fn chase_dy(p: Player, s: Square) -> int {
    p.y - p.h / 2 - (s.y - s.h / 2)
}

/// A predator's speed: the base speed, plus its acceleration bonus once it
/// is full-grown.
pub open spec fn square_speed(s: Square) -> int {
    if s.w == MAX_SIZE && s.h == MAX_SIZE {
        SPEED + s.acc
    } else {
        SPEED as int
    }
}

/// The horizontal steering target of predator `i`: its chase direction
/// (inverted under the player's power-up) stretched to its speed against
/// the chase vector's length, added to its position, the repulsion sum and
/// the constant bias, clamped into the field inset by half a spawn size.
/// A zero-length chase vector contributes no displacement.
pub open spec fn target_x(sqs: Seq<Square>, p: Player, i: int) -> int {
    let s = sqs[i];
    let dx0 = chase_dx(p, s);
    let dy0 = chase_dy(p, s);
    let len = sqrt_floor(dx0 * dx0 + dy0 * dy0);
    let dx = if p.squagum {
        -dx0
    } else {
        dx0
    };
    let dir = if len == 0 {
        0
    } else {
        scaled_spec(dx, square_speed(s), len)
    };
    clamp_spec(dir + s.x + repulsion_x(sqs, s) + STEER_BIAS, INIT_SIZE / 2, FIELD_W - INIT_SIZE / 2)
}

/// The vertical steering target of predator `i`.
pub open spec fn target_y(sqs: Seq<Square>, p: Player, i: int) -> int {
    let s = sqs[i];
    let dx0 = chase_dx(p, s);
    let dy0 = chase_dy(p, s);
    let len = sqrt_floor(dx0 * dx0 + dy0 * dy0);
    let dy = if p.squagum {
        -dy0
    } else {
        dy0
    };
    let dir = if len == 0 {
        0
    } else {
        scaled_spec(dy, square_speed(s), len)
    };
    clamp_spec(dir + s.y + repulsion_y(sqs, s) + STEER_BIAS, INIT_SIZE / 2, FIELD_H - INIT_SIZE / 2)
}

/// Square `i` after the apply pass: a predator moves its center to its
/// steering target (which the clamp keeps nonzero), any other square keeps
/// a zero target and stays put.
pub open spec fn moved_square(sqs: Seq<Square>, p: Player, i: int) -> Square {
    let s = sqs[i];
    if is_predator(s, p) {
        Square { x: target_x(sqs, p, i) as i64, y: target_y(sqs, p, i) as i64, ..s }
    } else {
        s
    }
}

/// The player's rectangle re-centered on the pointer, clamped into the
/// field inset by half its own size on each axis.
pub open spec fn player_tracked(p: Player, mouse_x: int, mouse_y: int) -> Player {
    Player {
        x: clamp_spec(mouse_x, p.w / 2, FIELD_W - p.w / 2) as i64,
        y: clamp_spec(mouse_y, p.h / 2, FIELD_H - p.h / 2) as i64,
        ..p
    }
}

/// Track the pointer: the player's center follows it, clamped so the
/// whole rectangle stays inside the field.
pub fn move_player(p: &mut Player, mouse_x: i64, mouse_y: i64)
    requires
        wf_player(*old(p)),
    ensures
        *final(p) == player_tracked(*old(p), mouse_x as int, mouse_y as int),
        wf_player(*final(p)),
{
    let hw = half(p.w);
    let hh = half(p.h);
    p.x = clamp_i64(mouse_x, hw, FIELD_W - hw);
    p.y = clamp_i64(mouse_y, hh, FIELD_H - hh);
}

/// Every square after one frame of the motion system: accelerations
/// advanced, every predator moved to its steering target.
pub open spec fn moved_all(sqs: Seq<Square>, p: Player) -> Seq<Square> {
    Seq::new(sqs.len(), |i: int| moved_square(accel_all(sqs), p, i))
}

/// Compute the steering target of predator `i` over a snapshot of the
/// squares.
#[verifier::rlimit(30)]
fn compute_target(sqs: &Vec<Square>, p: Player, i: usize) -> (r: (i64, i64))
    requires
        i < sqs@.len(),
        sqs@.len() <= MAX_SQUARES,
        forall|k: int| 0 <= k < sqs@.len() ==> wf_square(#[trigger] sqs@[k]),
        wf_player(p),
    ensures
        r.0 == target_x(sqs@, p, i as int),
        r.1 == target_y(sqs@, p, i as int),
        INIT_SIZE / 2 <= r.0 <= FIELD_W - INIT_SIZE / 2,
        INIT_SIZE / 2 <= r.1 <= FIELD_H - INIT_SIZE / 2,
{
    let s = sqs[i];
    let dx0 = (p.x - half(p.w)) - (s.x - half(s.w));
    let dy0 = (p.y - half(p.h)) - (s.y - half(s.h));
    proof {
        assert(dx0 * dx0 <= 131000int * 131000int && dx0 * dx0 >= 0) by (nonlinear_arith)
            requires
                -131000 <= dx0 <= 131000;
        assert(dy0 * dy0 <= 131000int * 131000int && dy0 * dy0 >= 0) by (nonlinear_arith)
            requires
                -131000 <= dy0 <= 131000;
    }
    let d2 = dx0 * dx0 + dy0 * dy0;
    let len_u = isqrt(d2 as u64);
    proof {
        assert(len_u <= 1000000) by (nonlinear_arith)
            requires
                len_u * len_u <= 34322000000int;
    }
    let len = len_u as i64;
    let dxs = if p.squagum {
        -dx0
    } else {
        dx0
    };
    let dys = if p.squagum {
        -dy0
    } else {
        dy0
    };
    let spd = if s.w == MAX_SIZE && s.h == MAX_SIZE {
        SPEED + s.acc
    } else {
        SPEED
    };
    let mut dirx: i64 = 0;
    let mut diry: i64 = 0;
    if len != 0 {
        proof {
            assert(-len <= dx0 <= len && -len <= dy0 <= len) by (nonlinear_arith)
                requires
                    dx0 * dx0 + dy0 * dy0 < (len + 1) * (len + 1),
                    dx0 * dx0 >= 0,
                    dy0 * dy0 >= 0,
                    len >= 0;
        }
        dirx = scaled_div(dxs, spd, len);
        diry = scaled_div(dys, spd, len);
    }

    let n = sqs.len();
    let mut rx: i64 = 0;
    let mut ry: i64 = 0;
    let mut j: usize = 0;
    while j < n
        invariant
            j <= n,
            n == sqs@.len() <= MAX_SQUARES,
            forall|k: int| 0 <= k < sqs@.len() ==> wf_square(#[trigger] sqs@[k]),
            i < n,
            s == sqs@[i as int],
            rx == repulsion_x(sqs@.take(j as int), s),
            ry == repulsion_y(sqs@.take(j as int), s),
            -128000 * (j as int) <= rx <= 128000 * (j as int),
            -128000 * (j as int) <= ry <= 128000 * (j as int),
        decreases n - j,
    {
        let t = sqs[j];
        let ddx = s.x - t.x;
        let ddy = s.y - t.y;
        proof {
            assert(0 <= ddx * ddx <= 128000int * 128000int) by (nonlinear_arith)
                requires
                    -128000 <= ddx <= 128000;
            assert(0 <= ddy * ddy <= 128000int * 128000int) by (nonlinear_arith)
                requires
                    -128000 <= ddy <= 128000;
            assert(0 <= s.w * s.h <= 5000int * 5000int) by (nonlinear_arith)
                requires
                    0 <= s.w <= 5000,
                    0 <= s.h <= 5000;
        }
        let nearby = 3 * (ddx * ddx + ddy * ddy) < 2 * (s.w * s.h);
        proof {
            assert(nearby == near(s, sqs@[j as int]));
            assert(sqs@.take(j + 1).drop_last() =~= sqs@.take(j as int));
            assert(sqs@.take(j + 1).last() == sqs@[j as int]);
        }
        if nearby {
            rx = rx + ddx;
            ry = ry + ddy;
        }
        j = j + 1;
    }
    proof {
        assert(sqs@.take(n as int) =~= sqs@);
    }

    let tx = clamp_i64(dirx + s.x + rx + STEER_BIAS, INIT_SIZE / 2, FIELD_W - INIT_SIZE / 2);
    let ty = clamp_i64(diry + s.y + ry + STEER_BIAS, INIT_SIZE / 2, FIELD_H - INIT_SIZE / 2);
    (tx, ty)
}

/// Advance every square's acceleration, then steer every predator and
/// apply all the targets at once.
pub fn move_square(w: &mut World)
    requires
        wf_world(*old(w)),
    ensures
        wf_world(*final(w)),
        final(w).player == old(w).player,
        final(w).squagums == old(w).squagums,
        final(w).squares@.len() == old(w).squares@.len(),
        forall|i: int|
            0 <= i < old(w).squares@.len() ==> #[trigger] final(w).squares@[i] == moved_square(
                accel_all(old(w).squares@),
                old(w).player,
                i,
            ),
        final(w).squares@ == moved_all(old(w).squares@, old(w).player),
{
    let n = w.squares.len();
    let mut i: usize = 0;
    while i < n
        invariant
            i <= n,
            n == w.squares@.len() == old(w).squares@.len(),
            wf_world(*w),
            w.player == old(w).player,
            w.squagums == old(w).squagums,
            forall|k: int|
                0 <= k < i ==> w.squares@[k] == accel_spec(#[trigger] old(w).squares@[k]),
            forall|k: int| i <= k < n ==> w.squares@[k] == old(w).squares@[k],
        decreases n - i,
    {
        let mut s = w.squares[i];
        if s.acc + ACCEL_RATE <= ACCEL_CAP {
            s.acc = s.acc + ACCEL_RATE;
        }
        w.squares.set(i, s);
        i = i + 1;
    }
    let ghost sq1 = accel_all(old(w).squares@);
    proof {
        assert(w.squares@ =~= sq1);
    }

    let p = w.player;
    let mut targets: Vec<(i64, i64)> = Vec::new();
    let mut i2: usize = 0;
    while i2 < n
        invariant
            i2 <= n,
            n == w.squares@.len() == old(w).squares@.len(),
            wf_world(*w),
            w.player == old(w).player,
            w.squagums == old(w).squagums,
            p == old(w).player,
            w.squares@ == sq1,
            sq1 == accel_all(old(w).squares@),
            wf_world(*old(w)),
            targets@.len() == i2,
            forall|k: int|
                0 <= k < i2 && is_predator(sq1[k], p) ==> (#[trigger] targets@[k]).0 == target_x(
                    sq1,
                    p,
                    k,
                ) && targets@[k].1 == target_y(sq1, p, k) && INIT_SIZE / 2 <= targets@[k].0
                    <= FIELD_W - INIT_SIZE / 2 && INIT_SIZE / 2 <= targets@[k].1 <= FIELD_H
                    - INIT_SIZE / 2,
            forall|k: int|
                0 <= k < i2 && !is_predator(sq1[k], p) ==> (#[trigger] targets@[k]).0 == 0
                    && targets@[k].1 == 0,
        decreases n - i2,
    {
        let s = w.squares[i2];
        if s.w > p.w && s.h > p.h {
            let t = compute_target(&w.squares, p, i2);
            targets.push(t);
        } else {
            targets.push((0, 0));
        }
        i2 = i2 + 1;
    }

    let mut i3: usize = 0;
    while i3 < n
        invariant
            i3 <= n,
            n == w.squares@.len() == old(w).squares@.len(),
            w.player == old(w).player,
            w.squagums == old(w).squagums,
            p == old(w).player,
            sq1 == accel_all(old(w).squares@),
            wf_world(*old(w)),
            targets@.len() == n,
            forall|k: int| 0 <= k < n ==> wf_square(#[trigger] w.squares@[k]),
            w.squares@.len() <= MAX_SQUARES,
            forall|k: int|
                0 <= k < n && is_predator(sq1[k], p) ==> (#[trigger] targets@[k]).0 == target_x(
                    sq1,
                    p,
                    k,
                ) && targets@[k].1 == target_y(sq1, p, k) && INIT_SIZE / 2 <= targets@[k].0
                    <= FIELD_W - INIT_SIZE / 2 && INIT_SIZE / 2 <= targets@[k].1 <= FIELD_H
                    - INIT_SIZE / 2,
            forall|k: int|
                0 <= k < n && !is_predator(sq1[k], p) ==> (#[trigger] targets@[k]).0 == 0
                    && targets@[k].1 == 0,
            forall|k: int|
                0 <= k < i3 ==> #[trigger] w.squares@[k] == moved_square(sq1, p, k),
            forall|k: int| i3 <= k < n ==> w.squares@[k] == sq1[k],
        decreases n - i3,
    {
        let t = targets[i3];
        if t.0 != 0 || t.1 != 0 {
            let mut s = w.squares[i3];
            s.x = t.0;
            s.y = t.1;
            w.squares.set(i3, s);
        }
        i3 = i3 + 1;
    }
    proof {
        assert forall|k: int| 0 <= k < n implies wf_square(#[trigger] w.squares@[k]) by {
            assert(w.squares@[k] == moved_square(sq1, p, k));
        }
        assert(w.squares@ =~= moved_all(old(w).squares@, old(w).player));
    }
}

} // verus!
