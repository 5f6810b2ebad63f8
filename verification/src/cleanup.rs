//! Cleanup and termination: marked entities are purged, then the frame's
//! outcome is decided — a shrunken player loses, an empty field wins, and
//! the loss is checked first.

use vstd::prelude::*;

use crate::config::INIT_SIZE;
use crate::model::{wf_square, wf_squagum, wf_world, GameOver, Player, Squagum, Square, World};

verus! {

/// The squares that survive cleanup, in their original order.
pub open spec fn keep_squares(s: Seq<Square>) -> Seq<Square>
    decreases s.len(),
{
    if s.len() == 0 {
        Seq::empty()
    } else {
        let rest = keep_squares(s.drop_last());
        if s.last().marked {
            rest
        } else {
            rest.push(s.last())
        }
    }
}

/// The power-ups that survive cleanup, in their original order.
pub open spec fn keep_squagums(s: Seq<Squagum>) -> Seq<Squagum>
    decreases s.len(),
{
    if s.len() == 0 {
        Seq::empty()
    } else {
        let rest = keep_squagums(s.drop_last());
        if s.last().marked {
            rest
        } else {
            rest.push(s.last())
        }
    }
}

/// The frame's outcome, read off the player and the surviving squares:
/// a player shrunk below the initial square size loses; otherwise an empty
/// field is a victory; otherwise the run goes on.
pub open spec fn outcome_spec(p: Player, remaining: Seq<Square>) -> Result<(), GameOver> {
    if p.w < INIT_SIZE || p.h < INIT_SIZE {
        Err(GameOver::Lose)
    } else if remaining.len() == 0 {
        Err(GameOver::Victory)
    } else {
        Ok(())
    }
}

/// Every survivor of cleanup is an unmarked entity of the original
/// sequence, and no entity was added.
pub proof fn lemma_keep_squares(s: Seq<Square>)
    ensures
        keep_squares(s).len() <= s.len(),
        forall|i: int|
            0 <= i < keep_squares(s).len() ==> !(#[trigger] keep_squares(s)[i]).marked,
        forall|i: int|
            0 <= i < keep_squares(s).len() ==> exists|j: int|
                0 <= j < s.len() && (#[trigger] keep_squares(s)[i]) == (#[trigger] s[j]),
    decreases s.len(),
{
    if s.len() > 0 {
        lemma_keep_squares(s.drop_last());
        let rest = keep_squares(s.drop_last());
        assert forall|i: int| 0 <= i < keep_squares(s).len() implies exists|j: int|
            0 <= j < s.len() && (#[trigger] keep_squares(s)[i]) == (#[trigger] s[j]) by {
            if i < rest.len() {
                let j = choose|j: int|
                    0 <= j < s.drop_last().len() && rest[i] == s.drop_last()[j];
                assert(s.drop_last()[j] == s[j]);
                assert(keep_squares(s)[i] == s[j]);
            } else {
                assert(keep_squares(s)[i] == s[s.len() - 1]);
            }
        }
    }
}

/// The power-up counterpart of [`lemma_keep_squares`].
pub proof fn lemma_keep_squagums(s: Seq<Squagum>)
    ensures
        keep_squagums(s).len() <= s.len(),
        forall|i: int|
            0 <= i < keep_squagums(s).len() ==> !(#[trigger] keep_squagums(s)[i]).marked,
        forall|i: int|
            0 <= i < keep_squagums(s).len() ==> exists|j: int|
                0 <= j < s.len() && (#[trigger] keep_squagums(s)[i]) == (#[trigger] s[j]),
    decreases s.len(),
{
    if s.len() > 0 {
        lemma_keep_squagums(s.drop_last());
        let rest = keep_squagums(s.drop_last());
        assert forall|i: int| 0 <= i < keep_squagums(s).len() implies exists|j: int|
            0 <= j < s.len() && (#[trigger] keep_squagums(s)[i]) == (#[trigger] s[j]) by {
            if i < rest.len() {
                let j = choose|j: int|
                    0 <= j < s.drop_last().len() && rest[i] == s.drop_last()[j];
                assert(s.drop_last()[j] == s[j]);
                assert(keep_squagums(s)[i] == s[j]);
            } else {
                assert(keep_squagums(s)[i] == s[s.len() - 1]);
            }
        }
    }
}

/// Purge every marked entity, then decide the frame: `Err(Lose)` exactly
/// when the player's rectangle fell below the initial square size (checked
/// first), `Err(Victory)` exactly when no square is left, `Ok` otherwise.
pub fn clean_up(w: &mut World) -> (r: Result<(), GameOver>)
    ensures
        final(w).player == old(w).player,
        final(w).squares@ == keep_squares(old(w).squares@),
        final(w).squagums@ == keep_squagums(old(w).squagums@),
        r == outcome_spec(old(w).player, keep_squares(old(w).squares@)),
        forall|i: int|
            0 <= i < final(w).squares@.len() ==> !(#[trigger] final(w).squares@[i]).marked,
        forall|i: int|
            0 <= i < final(w).squagums@.len() ==> !(#[trigger] final(w).squagums@[i]).marked,
        wf_world(*old(w)) ==> wf_world(*final(w)),
        (forall|i: int| 0 <= i < old(w).squares@.len() ==> wf_square(#[trigger] old(w).squares@[i]))
            ==> forall|i: int|
                0 <= i < final(w).squares@.len() ==> wf_square(#[trigger] final(w).squares@[i]),
        (forall|i: int|
            0 <= i < old(w).squagums@.len() ==> wf_squagum(#[trigger] old(w).squagums@[i]))
            ==> forall|i: int|
                0 <= i < final(w).squagums@.len() ==> wf_squagum(
                    #[trigger] final(w).squagums@[i],
                ),
{
    let n = w.squares.len();
    let mut kept: Vec<Square> = Vec::new();
    let mut i: usize = 0;
    while i < n
        invariant
            i <= n,
            n == w.squares@.len(),
            *w == *old(w),
            kept@ == keep_squares(w.squares@.take(i as int)),
        decreases n - i,
    {
        let s = w.squares[i];
        proof {
            assert(w.squares@.take(i + 1).drop_last() =~= w.squares@.take(i as int));
            assert(w.squares@.take(i + 1).last() == w.squares@[i as int]);
        }
        if !s.marked {
            kept.push(s);
        }
        i = i + 1;
    }
    proof {
        assert(w.squares@.take(n as int) =~= w.squares@);
    }
    w.squares = kept;

    let m = w.squagums.len();
    let mut kept_g: Vec<Squagum> = Vec::new();
    let mut j: usize = 0;
    while j < m
        invariant
            j <= m,
            m == w.squagums@.len(),
            w.player == old(w).player,
            w.squares@ == keep_squares(old(w).squares@),
            w.squagums@ == old(w).squagums@,
            kept_g@ == keep_squagums(w.squagums@.take(j as int)),
        decreases m - j,
    {
        let g = w.squagums[j];
        proof {
            assert(w.squagums@.take(j + 1).drop_last() =~= w.squagums@.take(j as int));
            assert(w.squagums@.take(j + 1).last() == w.squagums@[j as int]);
        }
        if !g.marked {
            kept_g.push(g);
        }
        j = j + 1;
    }
    proof {
        assert(w.squagums@.take(m as int) =~= w.squagums@);
    }
    w.squagums = kept_g;

    proof {
        lemma_keep_squares(old(w).squares@);
        lemma_keep_squagums(old(w).squagums@);
        if (forall|i0: int|
            0 <= i0 < old(w).squares@.len() ==> wf_square(#[trigger] old(w).squares@[i0])) {
            assert forall|k: int| 0 <= k < w.squares@.len() implies wf_square(
                #[trigger] w.squares@[k],
            ) by {
                let j0 = choose|j0: int|
                    0 <= j0 < old(w).squares@.len() && keep_squares(old(w).squares@)[k] == old(
                        w,
                    ).squares@[j0];
                assert(wf_square(old(w).squares@[j0]));
            }
        }
        if (forall|i0: int|
            0 <= i0 < old(w).squagums@.len() ==> wf_squagum(#[trigger] old(w).squagums@[i0])) {
            assert forall|k: int| 0 <= k < w.squagums@.len() implies wf_squagum(
                #[trigger] w.squagums@[k],
            ) by {
                let j0 = choose|j0: int|
                    0 <= j0 < old(w).squagums@.len() && keep_squagums(old(w).squagums@)[k] == old(
                        w,
                    ).squagums@[j0];
                assert(wf_squagum(old(w).squagums@[j0]));
            }
        }
    }

    if w.player.w < INIT_SIZE || w.player.h < INIT_SIZE {
        Err(GameOver::Lose)
    } else if w.squares.len() == 0 {
        Err(GameOver::Victory)
    } else {
        Ok(())
    }
}

} // verus!
