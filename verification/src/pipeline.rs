//! The frame pipeline: one tick runs counters, player tracking, motion,
//! growth, spawning, collision and cleanup in fixed order, and surfaces
//! the frame's outcome.  On `Lose` or `Victory` the host must reset the
//! world (see [`crate::spawn::init_world`]) before ticking again.

use vstd::prelude::*;

use crate::cleanup::{
    clean_up, keep_squagums, keep_squares, lemma_keep_squagums, lemma_keep_squares, outcome_spec,
};
use crate::collision::{
    collide_squares, collision, marked_squagums, marked_squares, player_after_squagums,
};
use crate::config::{FIELD_H, FIELD_W, INIT_SIZE, MAX_SQUARES, PLAYER_SIZE_CAP};
use crate::counters::{counters, counters_spec};
use crate::growth::{grow_square, grown_all};
use crate::model::{wf_world, GameOver, Player, Squagum, Square, World};
use crate::motion::{move_player, move_square, moved_all, player_tracked};
use crate::num::clamp_spec;
use crate::spawn::{new_squares, spawned_squagum, spawned_square};

verus! {

/// An admissible spawn outcome for one frame over pre-state `w0`: at most
/// one new square (only below the population cap) and at most one new
/// power-up, each freshly spawned.
pub open spec fn frame_spawn_admissible(
    w0: World,
    sq_spawn: Option<Square>,
    g_spawn: Option<Squagum>,
) -> bool {
    &&& match sq_spawn {
        Some(s) => spawned_square(s) && w0.squares@.len() < MAX_SQUARES,
        None => true,
    }
    &&& match g_spawn {
        Some(g) => spawned_squagum(g),
        None => true,
    }
}

/// A cleanup result folded into the signal a tick returns.
pub open spec fn signal_of(o: Result<(), GameOver>) -> Option<GameOver> {
    match o {
        Ok(u) => None,
        Err(g) => Some(g),
    }
}

/// One whole frame as a function of the pre-state, the pointer and the
/// frame's spawn outcome, composing the systems in their fixed order:
/// counters, pointer tracking, motion, growth, spawning, collision,
/// cleanup.  Returns the player, the squares, the power-ups and the
/// signal the frame ends with.
pub open spec fn frame_result(
    w0: World,
    mouse_x: int,
    mouse_y: int,
    sq_spawn: Option<Square>,
    g_spawn: Option<Squagum>,
) -> (Player, Seq<Square>, Seq<Squagum>, Option<GameOver>) {
    let p_m = player_tracked(counters_spec(w0.player), mouse_x, mouse_y);
    let grown = grown_all(moved_all(w0.squares@, p_m));
    let sqs = match sq_spawn {
        Some(s) => grown.push(s),
        None => grown,
    };
    let gs = match g_spawn {
        Some(g) => w0.squagums@.push(g),
        None => w0.squagums@,
    };
    let p1 = player_after_squagums(p_m, gs);
    let p_end = collide_squares(p1, sqs);
    let sq_end = keep_squares(marked_squares(p1, sqs));
    let gs_end = keep_squagums(marked_squagums(p_m, gs));
    (p_end, sq_end, gs_end, signal_of(outcome_spec(p_end, sq_end)))
}

/// Advance the simulation by one frame.  `None` means the run goes on
/// with a well-formed world; `Some(Lose)` is returned exactly when the
/// player ended the frame below the initial square size (checked first),
/// `Some(Victory)` exactly when it did not and no square survived.  After
/// a termination signal no further system runs this frame.  The final
/// world is exactly the composition of the seven systems over the
/// pre-state, for some admissible spawn outcome of the frame.
pub fn tick(w: &mut World, mouse_x: i64, mouse_y: i64) -> (r: Option<GameOver>)
    requires
        wf_world(*old(w)),
    ensures
        exists|sq_spawn: Option<Square>, g_spawn: Option<Squagum>|
            {
                &&& frame_spawn_admissible(*old(w), sq_spawn, g_spawn)
                &&& final(w).player == (#[trigger] frame_result(
                    *old(w),
                    mouse_x as int,
                    mouse_y as int,
                    sq_spawn,
                    g_spawn,
                )).0
                &&& final(w).squares@ == frame_result(
                    *old(w),
                    mouse_x as int,
                    mouse_y as int,
                    sq_spawn,
                    g_spawn,
                ).1
                &&& final(w).squagums@ == frame_result(
                    *old(w),
                    mouse_x as int,
                    mouse_y as int,
                    sq_spawn,
                    g_spawn,
                ).2
                &&& r == frame_result(
                    *old(w),
                    mouse_x as int,
                    mouse_y as int,
                    sq_spawn,
                    g_spawn,
                ).3
            },
        final(w).player.x == clamp_spec(
            mouse_x as int,
            old(w).player.w / 2,
            FIELD_W - old(w).player.w / 2,
        ),
        final(w).player.y == clamp_spec(
            mouse_y as int,
            old(w).player.h / 2,
            FIELD_H - old(w).player.h / 2,
        ),
        final(w).player.h == final(w).player.w,
        INIT_SIZE / 2 <= final(w).player.w <= PLAYER_SIZE_CAP,
        (r == Some(GameOver::Lose)) <==> (final(w).player.w < INIT_SIZE || final(w).player.h
            < INIT_SIZE),
        (r == Some(GameOver::Victory)) <==> (final(w).player.w >= INIT_SIZE && final(w).player.h
            >= INIT_SIZE && final(w).squares@.len() == 0),
        r == None::<GameOver> ==> wf_world(*final(w)) && final(w).squares@.len() > 0 && (forall|
            i: int,
        |
            0 <= i < final(w).squares@.len() ==> !(#[trigger] final(w).squares@[i]).marked) && (
        forall|i: int|
            0 <= i < final(w).squagums@.len() ==> !(#[trigger] final(w).squagums@[i]).marked),
{
    let ghost w0 = *old(w);
    let mut p = w.player;
    counters(&mut p);
    move_player(&mut p, mouse_x, mouse_y);
    w.player = p;
    let ghost p_m = player_tracked(counters_spec(w0.player), mouse_x as int, mouse_y as int);
    proof {
        assert(w.player == p_m);
        assert(wf_world(*w));
    }
    move_square(w);
    grow_square(w);
    let ghost grown = grown_all(moved_all(w0.squares@, p_m));
    proof {
        assert(w.squares@ == grown);
    }
    new_squares(w);
    let ghost mut sq_spawn: Option<Square> = None;
    let ghost mut g_spawn: Option<Squagum> = None;
    proof {
        if w.squares@ != grown {
            let s = choose|s: Square| w.squares@ == grown.push(s) && #[trigger] spawned_square(s);
            sq_spawn = Some(s);
        }
        if w.squagums@ != w0.squagums@ {
            let g = choose|g: Squagum|
                w.squagums@ == w0.squagums@.push(g) && #[trigger] spawned_squagum(g);
            g_spawn = Some(g);
        }
    }
    let ghost sqs_pre = match sq_spawn {
        Some(s) => grown.push(s),
        None => grown,
    };
    let ghost gs_pre = match g_spawn {
        Some(g) => w0.squagums@.push(g),
        None => w0.squagums@,
    };
    proof {
        assert(w.squares@ == sqs_pre);
        assert(w.squagums@ == gs_pre);
        assert(w.player == p_m);
        assert(frame_spawn_admissible(w0, sq_spawn, g_spawn));
    }
    collision(w);
    let ghost w_pre = *w;
    proof {
        assert(w_pre.player == collide_squares(player_after_squagums(p_m, gs_pre), sqs_pre));
        assert(w_pre.squares@ == marked_squares(player_after_squagums(p_m, gs_pre), sqs_pre));
        assert(w_pre.squagums@ == marked_squagums(p_m, gs_pre));
    }
    let res = clean_up(w);
    proof {
        lemma_keep_squares(w_pre.squares@);
        lemma_keep_squagums(w_pre.squagums@);
        let fr = frame_result(w0, mouse_x as int, mouse_y as int, sq_spawn, g_spawn);
        assert(w.player == fr.0);
        assert(w.squares@ == fr.1);
        assert(w.squagums@ == fr.2);
        assert(res == outcome_spec(fr.0, fr.1));
    }
    match res {
        Ok(()) => None,
        Err(g) => Some(g),
    }
}

} // verus!
