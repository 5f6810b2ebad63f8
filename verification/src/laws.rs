//! The library's general laws, proved once and for all: bounded monotone
//! growth, the player's size clamp, the exact duration of both status
//! effects, and the precedence of the two termination signals.

use vstd::prelude::*;

use crate::cleanup::outcome_spec;
use crate::collision::{collide_squares, player_after_squagums, square_step};
use crate::config::{INIT_SIZE, INVINCIBLE_TICKS, MAX_SIZE, PLAYER_SIZE_CAP, SQUAGUM_TICKS};
use crate::counters::{counters_spec, iter_counters};
use crate::growth::grow_spec;
use crate::model::{wf_player, wf_square, GameOver, Player, Squagum, Square};

verus! {

/// `n` frames of growth applied to one square, with nothing in between.
pub open spec fn iter_grow(s: Square, n: nat) -> Square
    decreases n,
{
    if n == 0 {
        s
    } else {
        grow_spec(iter_grow(s, (n - 1) as nat))
    }
}

/// One frame of growth keeps a square well formed and never shrinks it.
pub proof fn lemma_grow_step(s: Square)
    requires
        wf_square(s),
    ensures
        wf_square(grow_spec(s)),
        grow_spec(s).w >= s.w,
        grow_spec(s).h >= s.h,
        grow_spec(s).w <= MAX_SIZE,
{
}

/// Growth is monotonic and bounded: across any number of frames a
/// well-formed square's sides never decrease and never exceed the maximum
/// size.
pub proof fn lemma_growth_monotonic_bounded(s: Square, m: nat, n: nat)
    requires
        wf_square(s),
        m <= n,
    ensures
        wf_square(iter_grow(s, n)),
        iter_grow(s, m).w <= iter_grow(s, n).w,
        iter_grow(s, m).h <= iter_grow(s, n).h,
        iter_grow(s, n).w <= MAX_SIZE,
        iter_grow(s, n).h <= MAX_SIZE,
    decreases n,
{
    if n == 0 {
    } else {
        lemma_growth_monotonic_bounded(s, if m <= n - 1 {
            m
        } else {
            (n - 1) as nat
        }, (n - 1) as nat);
        lemma_grow_step(iter_grow(s, (n - 1) as nat));
    }
}

/// The square pass keeps the player's size within its hard bounds: it is
/// a true square, never beyond the player cap (a hair under the maximum
/// square size), never below half the initial size, and below the initial
/// size only while invincible.
pub proof fn lemma_collide_fold_bounds(p: Player, sqs: Seq<Square>)
    requires
        INIT_SIZE / 2 <= p.w <= PLAYER_SIZE_CAP,
        p.h == p.w,
        !p.is_invincible ==> p.w >= INIT_SIZE,
    ensures
        INIT_SIZE / 2 <= collide_squares(p, sqs).w <= PLAYER_SIZE_CAP,
        collide_squares(p, sqs).h == collide_squares(p, sqs).w,
        !collide_squares(p, sqs).is_invincible ==> collide_squares(p, sqs).w >= INIT_SIZE,
    decreases sqs.len(),
{
    if sqs.len() > 0 {
        lemma_collide_fold_bounds(p, sqs.drop_last());
        assert(collide_squares(p, sqs) == square_step(
            collide_squares(p, sqs.drop_last()),
            sqs.last(),
        ));
    }
}

/// The player's size is clamped: whatever power-ups were picked up and
/// whatever squares collided this frame, the player stays a true square
/// of at most the player cap; and whenever it ends the frame below the
/// initial size, cleanup emits `Lose`.
pub proof fn lemma_player_size_clamped(p: Player, gs: Seq<Squagum>, sqs: Seq<Square>, rem: Seq<Square>)
    requires
        wf_player(p),
    ensures
        collide_squares(player_after_squagums(p, gs), sqs).w <= PLAYER_SIZE_CAP,
        collide_squares(player_after_squagums(p, gs), sqs).h == collide_squares(
            player_after_squagums(p, gs),
            sqs,
        ).w,
        collide_squares(player_after_squagums(p, gs), sqs).w >= INIT_SIZE / 2,
        collide_squares(player_after_squagums(p, gs), sqs).w < INIT_SIZE ==> outcome_spec(
            collide_squares(player_after_squagums(p, gs), sqs),
            rem,
        ) == Err::<(), GameOver>(GameOver::Lose),
{
    lemma_collide_fold_bounds(player_after_squagums(p, gs), sqs);
}

/// Invincibility lasts exactly its threshold number of counter
/// applications: freshly set, the flag survives every application before
/// the threshold with the counter counting up, and the application at the
/// threshold clears both.
pub proof fn lemma_invincibility_duration(p: Player, n: nat)
    requires
        p.is_invincible,
        p.i_counter == 0,
        n <= INVINCIBLE_TICKS,
    ensures
        n < INVINCIBLE_TICKS ==> iter_counters(p, n).is_invincible && iter_counters(
            p,
            n,
        ).i_counter == n,
        n == INVINCIBLE_TICKS ==> !iter_counters(p, n).is_invincible && iter_counters(
            p,
            n,
        ).i_counter == 0,
    decreases n,
{
    if n > 0 {
        lemma_invincibility_duration(p, (n - 1) as nat);
        assert(iter_counters(p, n) == counters_spec(iter_counters(p, (n - 1) as nat)));
    }
}

/// The power-up lasts exactly its threshold number of counter
/// applications, the same way.
pub proof fn lemma_powerup_duration(p: Player, n: nat)
    requires
        p.squagum,
        p.squagum_counter == 0,
        n <= SQUAGUM_TICKS,
    ensures
        n < SQUAGUM_TICKS ==> iter_counters(p, n).squagum && iter_counters(p, n).squagum_counter
            == n,
        n == SQUAGUM_TICKS ==> !iter_counters(p, n).squagum && iter_counters(
            p,
            n,
        ).squagum_counter == 0,
    decreases n,
{
    if n > 0 {
        lemma_powerup_duration(p, (n - 1) as nat);
        assert(iter_counters(p, n) == counters_spec(iter_counters(p, (n - 1) as nat)));
    }
}

/// Termination is exclusive and losing takes precedence: one frame's
/// cleanup emits at most one signal, and when the player is too small and
/// the field is empty at once, the emitted signal is `Lose`.
pub proof fn lemma_lose_precedence(p: Player, remaining: Seq<Square>)
    ensures
        outcome_spec(p, remaining) == Err::<(), GameOver>(GameOver::Lose) ==> outcome_spec(p, remaining) != Err::<(), GameOver>(
            GameOver::Victory,
        ),
        (p.w < INIT_SIZE || p.h < INIT_SIZE) && remaining.len() == 0 ==> outcome_spec(
            p,
            remaining,
        ) == Err::<(), GameOver>(GameOver::Lose),
        outcome_spec(p, remaining) == Err::<(), GameOver>(GameOver::Victory) ==> p.w >= INIT_SIZE && p.h
            >= INIT_SIZE && remaining.len() == 0,
{
}

} // verus!
