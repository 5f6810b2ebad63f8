//! The spawner: a fresh world is seeded with a fixed population, and each
//! frame one new square and one new power-up may appear, each with a fixed
//! probability and a uniformly random position.

use vstd::prelude::*;

use crate::config::{
    FIELD_H, FIELD_W, INIT_SIZE, INIT_SQUARES, MAX_SIZE, MAX_SQUARES, SQUAGUM_SPAWN_RATE,
    SQUARE_SPAWN_RATE,
};
use crate::model::{initial_player, wf_square, wf_world, Player, Squagum, Square, World};
use crate::num::half;
use crate::rng::rand_in_range;

verus! {

/// What a freshly spawned square looks like: the initial size, no
/// acceleration, unmarked, and both axes of its center drawn from the
/// width-based spawn range.  (The vertical draw deliberately uses the
/// field width too; it shapes the spawn distribution.)
pub open spec fn spawned_square(s: Square) -> bool {
    &&& s.w == INIT_SIZE
    &&& s.h == INIT_SIZE
    &&& s.acc == 0
    &&& !s.marked
    &&& MAX_SIZE / 2 <= s.x <= FIELD_W - MAX_SIZE / 2
    &&& MAX_SIZE / 2 <= s.y <= FIELD_W - MAX_SIZE / 2
}

/// What a freshly spawned power-up looks like: unmarked, anywhere in the
/// field.
pub open spec fn spawned_squagum(g: Squagum) -> bool {
    &&& !g.marked
    &&& 0 <= g.x <= FIELD_W
    &&& 0 <= g.y <= FIELD_H
}

/// Generate a new square at a random position.
pub fn new_square() -> (s: Square)
    ensures
        spawned_square(s),
        wf_square(s),
{
    let half_max = half(MAX_SIZE);
    Square {
        x: rand_in_range(half_max, FIELD_W - half_max),
        y: rand_in_range(half_max, FIELD_W - half_max),
        w: INIT_SIZE,
        h: INIT_SIZE,
        acc: 0,
        marked: false,
    }
}

/// Reset the world for a fresh run: the initial player, the fixed starting
/// population of squares, and no power-up.
pub fn init_world(w: &mut World)
    ensures
        final(w).player == initial_player(),
        final(w).squares@.len() == INIT_SQUARES,
        forall|i: int|
            0 <= i < final(w).squares@.len() ==> spawned_square(#[trigger] final(w).squares@[i]),
        final(w).squagums@.len() == 0,
        wf_world(*final(w)),
{
    w.player = Player {
        x: 0,
        y: 0,
        w: INIT_SIZE * 3,
        h: INIT_SIZE * 3,
        is_invincible: false,
        i_counter: 0,
        squagum: false,
        squagum_counter: 0,
    };
    w.squares = Vec::new();
    w.squagums = Vec::new();
    let mut i: usize = 0;
    while i < INIT_SQUARES
        invariant
            i <= INIT_SQUARES,
            w.player == initial_player(),
            w.squagums@.len() == 0,
            w.squares@.len() == i,
            forall|k: int|
                0 <= k < w.squares@.len() ==> spawned_square(#[trigger] w.squares@[k])
                    && wf_square(w.squares@[k]),
        decreases INIT_SQUARES - i,
    {
        let s = new_square();
        w.squares.push(s);
        i = i + 1;
    }
}

/// One frame of spawning: with probability one in `SQUARE_SPAWN_RATE` a
/// new square is appended (unless the population cap is reached), and
/// independently with probability one in `SQUAGUM_SPAWN_RATE` a new
/// power-up is appended.  Nothing else changes.
pub fn new_squares(w: &mut World)
    requires
        wf_world(*old(w)),
    ensures
        wf_world(*final(w)),
        final(w).player == old(w).player,
        final(w).squares@ == old(w).squares@ || (old(w).squares@.len() < MAX_SQUARES
            && exists|s: Square|
            final(w).squares@ == old(w).squares@.push(s) && #[trigger] spawned_square(s)),
        final(w).squagums@ == old(w).squagums@ || exists|g: Squagum|
            final(w).squagums@ == old(w).squagums@.push(g) && #[trigger] spawned_squagum(g),
{
    let roll = rand_in_range(0, SQUARE_SPAWN_RATE);
    if roll == 0 && w.squares.len() < MAX_SQUARES {
        let s = new_square();
        w.squares.push(s);
    }
    let roll_g = rand_in_range(0, SQUAGUM_SPAWN_RATE);
    if roll_g == 0 {
        let g = Squagum { x: rand_in_range(0, FIELD_W), y: rand_in_range(0, FIELD_H), marked: false };
        w.squagums.push(g);
        proof {
            assert(spawned_squagum(g));
        }
    }
}

} // verus!
