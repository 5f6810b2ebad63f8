//! The status-effect counters: each frame the player's invincibility and
//! power-up timers advance by one, and an effect switches off exactly when
//! its counter reaches its threshold.

use vstd::prelude::*;

use crate::config::{INVINCIBLE_TICKS, SQUAGUM_TICKS};
use crate::model::Player;

verus! {

/// One application of the counters to the player: an active effect's
/// counter advances; at its threshold the effect clears and the counter
/// resets to zero.  An inactive effect is untouched.
pub open spec fn counters_spec(p: Player) -> Player {
    let p1 = if p.is_invincible {
        if p.i_counter + 1 >= INVINCIBLE_TICKS {
            Player { is_invincible: false, i_counter: 0, ..p }
        } else {
            Player { i_counter: (p.i_counter + 1) as u32, ..p }
        }
    } else {
        p
    };
    if p1.squagum {
        if p1.squagum_counter + 1 >= SQUAGUM_TICKS {
            Player { squagum: false, squagum_counter: 0, ..p1 }
        } else {
            Player { squagum_counter: (p1.squagum_counter + 1) as u32, ..p1 }
        }
    } else {
        p1
    }
}

/// `n` applications of the counters in a row, with nothing in between.
pub open spec fn iter_counters(p: Player, n: nat) -> Player
    decreases n,
{
    if n == 0 {
        p
    } else {
        counters_spec(iter_counters(p, (n - 1) as nat))
    }
}

/// Advance the player's status-effect counters by one frame.
pub fn counters(p: &mut Player)
    requires
        old(p).i_counter < INVINCIBLE_TICKS,
        old(p).squagum_counter < SQUAGUM_TICKS,
    ensures
        *final(p) == counters_spec(*old(p)),
        final(p).i_counter < INVINCIBLE_TICKS,
        final(p).squagum_counter < SQUAGUM_TICKS,
        final(p).x == old(p).x && final(p).y == old(p).y && final(p).w == old(p).w && final(p).h
            == old(p).h,
{
    if p.is_invincible {
        p.i_counter = p.i_counter + 1;
        if p.i_counter >= INVINCIBLE_TICKS {
            p.is_invincible = false;
            p.i_counter = 0;
        }
    }
    if p.squagum {
        p.squagum_counter = p.squagum_counter + 1;
        if p.squagum_counter >= SQUAGUM_TICKS {
            p.squagum = false;
            p.squagum_counter = 0;
        }
    }
}

} // verus!
