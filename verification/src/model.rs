//! The data the simulation runs on: squares, power-ups, the player
//! singleton, the world that gathers them, and the well-formedness
//! predicates every system preserves.

use vstd::prelude::*;

use crate::config::{
    ACCEL_CAP, FIELD_H, FIELD_W, INIT_SIZE, INVINCIBLE_TICKS, MAX_SIZE, MAX_SQUARES,
    PLAYER_SIZE_CAP, SQUAGUM_TICKS,
};

verus! {

/// A wandering square: an axis-aligned rectangle stored by its center,
/// always as wide as it is tall, with an accumulated acceleration bonus
/// that only matters once it is full-grown, and a transient removal mark.
#[derive(Clone, Copy, PartialEq, Eq, Structural, Debug)]
pub struct Square {
    pub x: i64,
    pub y: i64,
    pub w: i64,
    pub h: i64,
    pub acc: i64,
    pub marked: bool,
}

/// A power-up ("squagum"): a fixed-size pickup stored by one corner, with a
/// transient removal mark.
#[derive(Clone, Copy, PartialEq, Eq, Structural, Debug)]
pub struct Squagum {
    pub x: i64,
    pub y: i64,
    pub marked: bool,
}

/// The player singleton: a rectangle stored by its center plus the two
/// timed status effects.
#[derive(Clone, Copy, PartialEq, Eq, Structural, Debug)]
pub struct Player {
    pub x: i64,
    pub y: i64,
    pub w: i64,
    pub h: i64,
    pub is_invincible: bool,
    pub i_counter: u32,
    pub squagum: bool,
    pub squagum_counter: u32,
}

/// Outcome of a frame's cleanup step that ends the current run.
#[derive(Clone, Copy, PartialEq, Eq, Structural, Debug)]
pub enum GameOver {
    Lose,
    Victory,
}

/// The whole simulation state: every entity plus the player singleton.
#[derive(Debug)]
pub struct World {
    pub player: Player,
    pub squares: Vec<Square>,
    pub squagums: Vec<Squagum>,
}

/// The player a fresh run starts with: parked in the top-left corner at
/// three times the initial square size, with no status effect running.
pub open spec fn initial_player() -> Player {
    Player {
        x: 0,
        y: 0,
        w: (INIT_SIZE * 3) as i64,
        h: (INIT_SIZE * 3) as i64,
        is_invincible: false,
        i_counter: 0,
        squagum: false,
        squagum_counter: 0,
    }
}

/// A square is well formed: a true square, sized between the spawn size and
/// the growth cap, centered inside the spawn field, with a bounded
/// acceleration bonus.  (The spawner draws both axes of a square's position
/// from the field-width range, so the vertical bound is `FIELD_W` too.)
pub open spec fn wf_square(s: Square) -> bool {
    &&& INIT_SIZE <= s.w <= MAX_SIZE
    &&& s.h == s.w
    &&& 0 <= s.x <= FIELD_W
    &&& 0 <= s.y <= FIELD_W
    &&& 0 <= s.acc <= ACCEL_CAP
}

/// A power-up is well formed: positioned inside the field.
pub open spec fn wf_squagum(g: Squagum) -> bool {
    &&& 0 <= g.x <= FIELD_W
    &&& 0 <= g.y <= FIELD_H
}

/// The player is well formed between frames: a true square at least the
/// initial square size and below the player cap, centered inside the
/// field, with each status counter zero while its effect is off and
/// strictly below its threshold while it is on.
pub open spec fn wf_player(p: Player) -> bool {
    &&& INIT_SIZE <= p.w <= PLAYER_SIZE_CAP
    &&& p.h == p.w
    &&& 0 <= p.x <= FIELD_W
    &&& 0 <= p.y <= FIELD_H
    &&& p.i_counter < INVINCIBLE_TICKS
    &&& !p.is_invincible ==> p.i_counter == 0
    &&& p.squagum_counter < SQUAGUM_TICKS
    &&& !p.squagum ==> p.squagum_counter == 0
}

/// The whole world is well formed.
pub open spec fn wf_world(w: World) -> bool {
    &&& wf_player(w.player)
    &&& w.squares@.len() <= MAX_SQUARES
    &&& forall|i: int| 0 <= i < w.squares@.len() ==> wf_square(#[trigger] w.squares@[i])
    &&& forall|i: int| 0 <= i < w.squagums@.len() ==> wf_squagum(#[trigger] w.squagums@[i])
}

impl World {
    /// An empty world holding only the initial player; the spawner's
    /// `init_world` seeds the starting population.
    pub fn new() -> (w: World)
        ensures
            w.player == initial_player(),
            w.squares@.len() == 0,
            w.squagums@.len() == 0,
    {
        World {
            player: Player {
                x: 0,
                y: 0,
                w: INIT_SIZE * 3,
                h: INIT_SIZE * 3,
                is_invincible: false,
                i_counter: 0,
                squagum: false,
                squagum_counter: 0,
            },
            squares: Vec::new(),
            squagums: Vec::new(),
        }
    }
}

} // verus!
