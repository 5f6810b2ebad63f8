//! Render-intent emission: the frame's drawable rectangles in draw order
//! — every square, every power-up, then the player — with the fixed color
//! rule.

use vstd::prelude::*;

use crate::config::{INIT_SIZE, MAX_SIZE};
use crate::model::{wf_world, Player, Squagum, Square, World};
use crate::num::half;

verus! {

/// The palette the host is asked to draw with.
#[derive(Clone, Copy, PartialEq, Eq, Structural, Debug)]
pub enum DrawColor {
    Red,
    Gray,
    Green,
    Yellow,
    Blue,
}

/// One rectangle to draw: top-left corner, extent, color.
#[derive(Clone, Copy, PartialEq, Eq, Structural, Debug)]
pub struct DrawIntent {
    pub x: i64,
    pub y: i64,
    pub w: i64,
    pub h: i64,
    pub color: DrawColor,
}

/// A square's intent: full-grown squares are red, predators gray, the
/// rest green; drawn from its top-left corner.
pub open spec fn square_intent(s: Square, p: Player) -> DrawIntent {
    DrawIntent {
        x: (s.x - s.w / 2) as i64,
        y: (s.y - s.h / 2) as i64,
        w: s.w,
        h: s.h,
        color: if s.h == MAX_SIZE && s.w == MAX_SIZE {
            DrawColor::Red
        } else if s.w > p.w && s.h > p.h {
            DrawColor::Gray
        } else {
            DrawColor::Green
        },
    }
}

/// A power-up's intent: a yellow square of the initial size at its stored
/// position.
pub open spec fn squagum_intent(g: Squagum) -> DrawIntent {
    DrawIntent { x: g.x, y: g.y, w: INIT_SIZE, h: INIT_SIZE, color: DrawColor::Yellow }
}

/// The player's intent: yellow while the power-up is held, blue
/// otherwise; drawn from its top-left corner.
pub open spec fn player_intent(p: Player) -> DrawIntent {
    DrawIntent {
        x: (p.x - p.w / 2) as i64,
        y: (p.y - p.h / 2) as i64,
        w: p.w,
        h: p.h,
        color: if p.squagum {
            DrawColor::Yellow
        } else {
            DrawColor::Blue
        },
    }
}

/// Emit the frame's draw intents, in draw order.
pub fn render(w: &World) -> (r: Vec<DrawIntent>)
    requires
        wf_world(*w),
    ensures
        r@.len() == w.squares@.len() + w.squagums@.len() + 1,
        forall|i: int|
            0 <= i < w.squares@.len() ==> r@[i] == square_intent(
                #[trigger] w.squares@[i],
                w.player,
            ),
        forall|i: int|
            0 <= i < w.squagums@.len() ==> r@[w.squares@.len() + i] == squagum_intent(
                #[trigger] w.squagums@[i],
            ),
        r@[r@.len() - 1] == player_intent(w.player),
{
    let mut r: Vec<DrawIntent> = Vec::new();
    let n = w.squares.len();
    let mut i: usize = 0;
    while i < n
        invariant
            i <= n,
            n == w.squares@.len(),
            wf_world(*w),
            r@.len() == i,
            forall|k: int|
                0 <= k < i ==> r@[k] == square_intent(#[trigger] w.squares@[k], w.player),
        decreases n - i,
    {
        let s = w.squares[i];
        let color = if s.h == MAX_SIZE && s.w == MAX_SIZE {
            DrawColor::Red
        } else if s.w > w.player.w && s.h > w.player.h {
            DrawColor::Gray
        } else {
            DrawColor::Green
        };
        r.push(DrawIntent { x: s.x - half(s.w), y: s.y - half(s.h), w: s.w, h: s.h, color });
        i = i + 1;
    }
    let m = w.squagums.len();
    let mut j: usize = 0;
    while j < m
        invariant
            j <= m,
            m == w.squagums@.len(),
            n == w.squares@.len(),
            wf_world(*w),
            r@.len() == n + j,
            forall|k: int|
                0 <= k < n ==> r@[k] == square_intent(#[trigger] w.squares@[k], w.player),
            forall|k: int|
                0 <= k < j ==> r@[n + k] == squagum_intent(#[trigger] w.squagums@[k]),
        decreases m - j,
    {
        let g = w.squagums[j];
        r.push(DrawIntent { x: g.x, y: g.y, w: INIT_SIZE, h: INIT_SIZE, color: DrawColor::Yellow });
        j = j + 1;
    }
    let p = w.player;
    let color = if p.squagum {
        DrawColor::Yellow
    } else {
        DrawColor::Blue
    };
    r.push(DrawIntent { x: p.x - half(p.w), y: p.y - half(p.h), w: p.w, h: p.h, color });
    r
}

} // verus!
