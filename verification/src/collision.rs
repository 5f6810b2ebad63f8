//! The collision system: power-ups the player touches are consumed,
//! full-grown squares that overlap the player hurt it (or are eaten under
//! the power-up), and smaller overlapping squares feed it.  The player is
//! threaded through the square pass left to right, so the effect of each
//! square is decided by the player state the previous squares produced.

use vstd::prelude::*;
use vstd::pervasive::VecAdditionalExecFns;

use crate::config::{INIT_SIZE, MAX_SIZE, PLAYER_SIZE_CAP};
use crate::model::{wf_world, Player, Squagum, Square, World};
use crate::num::half;

verus! {

/// The containment test the power-up pass runs: the point lies within the
/// box spanned from the player's stored position by its extent.  (The
/// stored position is the rectangle's center everywhere else; this test
/// deliberately treats it as a corner.)
pub open spec fn rect_contains(p: Player, px: int, py: int) -> bool {
    &&& p.x <= px <= p.x + p.w
    &&& p.y <= py <= p.y + p.h
}

/// A power-up is picked up when the player's box contains its position or
/// its position offset by one initial square size on both axes.
pub open spec fn squagum_hit(p: Player, g: Squagum) -> bool {
    ||| rect_contains(p, g.x as int, g.y as int)
    ||| rect_contains(p, g.x + INIT_SIZE, g.y + INIT_SIZE)
}

/// Whether any power-up of the sequence is picked up this frame.
pub open spec fn any_squagum_hit(p: Player, gs: Seq<Squagum>) -> bool {
    exists|i: int| 0 <= i < gs.len() && squagum_hit(p, #[trigger] gs[i])
}

/// The player after the power-up pass: the flag is on if it was on or any
/// power-up was picked up; nothing else changes.
pub open spec fn player_after_squagums(p: Player, gs: Seq<Squagum>) -> Player {
    Player { squagum: p.squagum || any_squagum_hit(p, gs), ..p }
}

/// The axis-aligned overlap test a full-grown square runs against the
/// player, both rectangles taken as center plus half-extent.
pub open spec fn max_square_overlap(s: Square, p: Player) -> bool {
    &&& s.w == MAX_SIZE
    &&& s.h == MAX_SIZE
    &&& s.x - s.w / 2 <= p.x + p.w / 2
    &&& s.x + s.w / 2 >= p.x - p.w / 2
    &&& s.y - s.h / 2 <= p.y + p.h / 2
    &&& s.y + s.h / 2 >= p.y - p.h / 2
}

/// The asymmetric test an ordinary square must pass to be eaten: the
/// guard deliberately compares the player's position and height against
/// the square's extent, then the rectangles must overlap.
pub open spec fn eat_overlap(p: Player, s: Square) -> bool {
    &&& p.x >= s.w
    &&& p.h >= s.h
    &&& p.x - p.w / 2 <= s.x + s.w / 2
    &&& p.x + p.w / 2 >= s.x - s.w / 2
    &&& p.y - p.h / 2 <= s.y + s.h / 2
    &&& p.y + p.h / 2 >= s.y - s.h / 2
}

/// The player grown by `amount` on each axis, capped at the player size
/// cap.
pub open spec fn grow_player(p: Player, amount: int) -> Player {
    Player {
        w: if p.w + amount <= PLAYER_SIZE_CAP {
            (p.w + amount) as i64
        } else {
            PLAYER_SIZE_CAP
        },
        h: if p.h + amount <= PLAYER_SIZE_CAP {
            (p.h + amount) as i64
        } else {
            PLAYER_SIZE_CAP
        },
        ..p
    }
}

/// What one square does to the player: a full-grown overlapping square is
/// eaten under the power-up (growing the player by a quarter square) and,
/// if the player is not invincible, also deals the hit — invincibility
/// plus a shrink of half a square; an ordinary square passing the eat
/// test feeds the player half a square.  Only one branch runs per square.
pub open spec fn square_step(p: Player, s: Square) -> Player {
    if max_square_overlap(s, p) {
        let p1 = if p.squagum {
            grow_player(p, INIT_SIZE / 2 / 2)
        } else {
            p
        };
        if !p1.is_invincible {
            Player {
                is_invincible: true,
                w: (p1.w - INIT_SIZE / 2) as i64,
                h: (p1.h - INIT_SIZE / 2) as i64,
                ..p1
            }
        } else {
            p1
        }
    } else if eat_overlap(p, s) {
        grow_player(p, INIT_SIZE / 2)
    } else {
        p
    }
}

/// Whether one square is marked for removal by its step: a full-grown
/// overlapping square only under the power-up, an ordinary one when eaten.
pub open spec fn square_mark(p: Player, s: Square) -> bool {
    if max_square_overlap(s, p) {
        p.squagum
    } else {
        eat_overlap(p, s)
    }
}

/// The player threaded through the square pass, left to right.
pub open spec fn collide_squares(p: Player, sqs: Seq<Square>) -> Player
    decreases sqs.len(),
{
    if sqs.len() == 0 {
        p
    } else {
        square_step(collide_squares(p, sqs.drop_last()), sqs.last())
    }
}

/// Whether square `i` of the pass is marked, decided by the player state
/// the squares before it produced.
pub open spec fn square_marked_in(p: Player, sqs: Seq<Square>, i: int) -> bool {
    square_mark(collide_squares(p, sqs.take(i)), sqs[i])
}

/// Every power-up with this frame's pickup marks applied.
pub open spec fn marked_squagums(p: Player, gs: Seq<Squagum>) -> Seq<Squagum> {
    Seq::new(gs.len(), |i: int| Squagum { marked: gs[i].marked || squagum_hit(p, gs[i]), ..gs[i] })
}

/// Every square with this frame's removal marks applied, `p1` being the
/// player that entered the square pass.
pub open spec fn marked_squares(p1: Player, sqs: Seq<Square>) -> Seq<Square> {
    Seq::new(
        sqs.len(),
        |i: int| Square { marked: sqs[i].marked || square_marked_in(p1, sqs, i), ..sqs[i] },
    )
}

/// Resolve every overlap of this frame against the player.
pub fn collision(w: &mut World)
    requires
        wf_world(*old(w)),
    ensures
        final(w).squagums@.len() == old(w).squagums@.len(),
        forall|i: int|
            0 <= i < old(w).squagums@.len() ==> #[trigger] final(w).squagums@[i] == (Squagum {
                marked: old(w).squagums@[i].marked || squagum_hit(
                    old(w).player,
                    old(w).squagums@[i],
                ),
                ..old(w).squagums@[i]
            }),
        final(w).squares@.len() == old(w).squares@.len(),
        forall|i: int|
            0 <= i < old(w).squares@.len() ==> #[trigger] final(w).squares@[i] == (Square {
                marked: old(w).squares@[i].marked || square_marked_in(
                    player_after_squagums(old(w).player, old(w).squagums@),
                    old(w).squares@,
                    i,
                ),
                ..old(w).squares@[i]
            }),
        final(w).player == collide_squares(
            player_after_squagums(old(w).player, old(w).squagums@),
            old(w).squares@,
        ),
        final(w).player.x == old(w).player.x,
        final(w).player.y == old(w).player.y,
        final(w).player.i_counter == old(w).player.i_counter,
        final(w).player.squagum_counter == old(w).player.squagum_counter,
        final(w).player.h == final(w).player.w,
        INIT_SIZE / 2 <= final(w).player.w <= PLAYER_SIZE_CAP,
        !final(w).player.is_invincible ==> final(w).player.w >= INIT_SIZE,
        final(w).player.squagum == (old(w).player.squagum || any_squagum_hit(
            old(w).player,
            old(w).squagums@,
        )),
        old(w).player.is_invincible ==> final(w).player.is_invincible,
        final(w).squagums@ == marked_squagums(old(w).player, old(w).squagums@),
        final(w).squares@ == marked_squares(
            player_after_squagums(old(w).player, old(w).squagums@),
            old(w).squares@,
        ),
{
    let ghost p0 = w.player;
    let m = w.squagums.len();
    let mut j: usize = 0;
    while j < m
        invariant
            j <= m,
            m == w.squagums@.len() == old(w).squagums@.len(),
            w.squares == old(w).squares,
            w.player == (Player {
                squagum: p0.squagum || any_squagum_hit(p0, old(w).squagums@.take(j as int)),
                ..p0
            }),
            p0 == old(w).player,
            wf_world(*old(w)),
            forall|k: int|
                0 <= k < j ==> #[trigger] w.squagums@[k] == (Squagum {
                    marked: old(w).squagums@[k].marked || squagum_hit(
                        p0,
                        old(w).squagums@[k],
                    ),
                    ..old(w).squagums@[k]
                }),
            forall|k: int| j <= k < m ==> w.squagums@[k] == old(w).squagums@[k],
        decreases m - j,
    {
        let g = w.squagums[j];
        let px = w.player.x;
        let py = w.player.y;
        let pw = w.player.w;
        let ph = w.player.h;
        let hit = (px <= g.x && g.x <= px + pw && py <= g.y && g.y <= py + ph) || (px <= g.x
            + INIT_SIZE && g.x + INIT_SIZE <= px + pw && py <= g.y + INIT_SIZE && g.y + INIT_SIZE
            <= py + ph);
        proof {
            assert(hit == squagum_hit(p0, old(w).squagums@[j as int]));
            assert(old(w).squagums@.take(j + 1).drop_last() =~= old(w).squagums@.take(j as int));
            assert(old(w).squagums@.take(j + 1).last() == old(w).squagums@[j as int]);
            if hit {
                assert(any_squagum_hit(p0, old(w).squagums@.take(j + 1)));
            } else {
                if any_squagum_hit(p0, old(w).squagums@.take(j + 1)) {
                    let k = choose|k: int|
                        0 <= k < old(w).squagums@.take(j + 1).len() && squagum_hit(
                            p0,
                            #[trigger] old(w).squagums@.take(j + 1)[k],
                        );
                    assert(k < j);
                    assert(old(w).squagums@.take(j + 1)[k] == old(w).squagums@.take(j as int)[k]);
                    assert(squagum_hit(p0, old(w).squagums@.take(j as int)[k]));
                }
                if any_squagum_hit(p0, old(w).squagums@.take(j as int)) {
                    let k = choose|k: int|
                        0 <= k < old(w).squagums@.take(j as int).len() && squagum_hit(
                            p0,
                            #[trigger] old(w).squagums@.take(j as int)[k],
                        );
                    assert(old(w).squagums@.take(j + 1)[k] == old(w).squagums@.take(j as int)[k]);
                    assert(squagum_hit(p0, old(w).squagums@.take(j + 1)[k]));
                }
                assert(any_squagum_hit(p0, old(w).squagums@.take(j + 1)) == any_squagum_hit(
                    p0,
                    old(w).squagums@.take(j as int),
                ));
            }
        }
        if hit {
            w.player.squagum = true;
            let mut g2 = g;
            g2.marked = true;
            w.squagums.set(j, g2);
        }
        j = j + 1;
    }
    proof {
        assert(old(w).squagums@.take(m as int) =~= old(w).squagums@);
    }

    let ghost p1 = player_after_squagums(p0, old(w).squagums@);
    let mut pl = w.player;
    proof {
        assert(pl == p1);
    }

    let n = w.squares.len();
    let mut i: usize = 0;
    while i < n
        invariant
            i <= n,
            n == w.squares@.len() == old(w).squares@.len(),
            wf_world(*old(w)),
            p0 == old(w).player,
            p1 == player_after_squagums(p0, old(w).squagums@),
            w.squagums@.len() == old(w).squagums@.len(),
            forall|k: int|
                0 <= k < old(w).squagums@.len() ==> #[trigger] w.squagums@[k] == (Squagum {
                    marked: old(w).squagums@[k].marked || squagum_hit(
                        p0,
                        old(w).squagums@[k],
                    ),
                    ..old(w).squagums@[k]
                }),
            forall|k: int|
                0 <= k < i ==> #[trigger] w.squares@[k] == (Square {
                    marked: old(w).squares@[k].marked || square_marked_in(
                        p1,
                        old(w).squares@,
                        k,
                    ),
                    ..old(w).squares@[k]
                }),
            forall|k: int| i <= k < n ==> w.squares@[k] == old(w).squares@[k],
            pl == collide_squares(p1, old(w).squares@.take(i as int)),
            pl.x == p1.x && pl.y == p1.y,
            pl.i_counter == p1.i_counter && pl.squagum_counter == p1.squagum_counter,
            pl.squagum == p1.squagum,
            pl.h == pl.w,
            INIT_SIZE / 2 <= pl.w <= PLAYER_SIZE_CAP,
            !pl.is_invincible ==> pl.w >= INIT_SIZE,
            p1.is_invincible ==> pl.is_invincible,
            p1.x == p0.x && p1.y == p0.y && p1.w == p0.w && p1.h == p0.h,
        decreases n - i,
    {
        let s = w.squares[i];
        proof {
            assert(s == old(w).squares@[i as int]);
            assert(old(w).squares@.take(i + 1).drop_last() =~= old(w).squares@.take(i as int));
            assert(old(w).squares@.take(i + 1).last() == old(w).squares@[i as int]);
        }
        let sw2 = half(s.w);
        let sh2 = half(s.h);
        let pw2 = half(pl.w);
        let ph2 = half(pl.h);
        let mut mark = false;
        if s.w == MAX_SIZE && s.h == MAX_SIZE && s.x - sw2 <= pl.x + pw2 && s.x + sw2 >= pl.x - pw2
            && s.y - sh2 <= pl.y + ph2 && s.y + sh2 >= pl.y - ph2 {
            if pl.squagum {
                pl.w = if pl.w + INIT_SIZE / 2 / 2 <= PLAYER_SIZE_CAP {
                    pl.w + INIT_SIZE / 2 / 2
                } else {
                    PLAYER_SIZE_CAP
                };
                pl.h = if pl.h + INIT_SIZE / 2 / 2 <= PLAYER_SIZE_CAP {
                    pl.h + INIT_SIZE / 2 / 2
                } else {
                    PLAYER_SIZE_CAP
                };
                mark = true;
            }
            if !pl.is_invincible {
                pl.is_invincible = true;
                pl.w = pl.w - INIT_SIZE / 2;
                pl.h = pl.h - INIT_SIZE / 2;
            }
        } else {
            let pw2b = half(pl.w);
            let ph2b = half(pl.h);
            if pl.x >= s.w && pl.h >= s.h && pl.x - pw2b <= s.x + sw2 && pl.x + pw2b >= s.x - sw2
                && pl.y - ph2b <= s.y + sh2 && pl.y + ph2b >= s.y - sh2 {
                pl.w = if pl.w + INIT_SIZE / 2 <= PLAYER_SIZE_CAP {
                    pl.w + INIT_SIZE / 2
                } else {
                    PLAYER_SIZE_CAP
                };
                pl.h = if pl.h + INIT_SIZE / 2 <= PLAYER_SIZE_CAP {
                    pl.h + INIT_SIZE / 2
                } else {
                    PLAYER_SIZE_CAP
                };
                mark = true;
            }
        }
        if mark {
            let mut s2 = s;
            s2.marked = true;
            w.squares.set(i, s2);
        }
        i = i + 1;
    }
    proof {
        assert(old(w).squares@.take(n as int) =~= old(w).squares@);
        assert(w.squagums@ =~= marked_squagums(p0, old(w).squagums@));
        assert(w.squares@ =~= marked_squares(p1, old(w).squares@));
    }
    w.player = pl;
}

} // verus!
