//! The growth system: every square's sides creep toward the maximum size
//! by a fixed rate each frame, never past it.

use vstd::prelude::*;
use vstd::pervasive::VecAdditionalExecFns;

use crate::config::{GROWTH_RATE, MAX_SIZE};
use crate::model::{wf_world, Square, World};

verus! {

/// One frame of growth for a single square: both sides advance by the
/// growth rate, capped at the maximum size.
pub open spec fn grow_spec(s: Square) -> Square {
    Square {
        w: if s.w + GROWTH_RATE <= MAX_SIZE {
            (s.w + GROWTH_RATE) as i64
        } else {
            MAX_SIZE
        },
        h: if s.h + GROWTH_RATE <= MAX_SIZE {
            (s.h + GROWTH_RATE) as i64
        } else {
            MAX_SIZE
        },
        ..s
    }
}

/// Every square grown one frame.
pub open spec fn grown_all(sqs: Seq<Square>) -> Seq<Square> {
    sqs.map_values(|s: Square| grow_spec(s))
}

/// Grow every square one frame.
pub fn grow_square(w: &mut World)
    requires
        wf_world(*old(w)),
    ensures
        wf_world(*final(w)),
        final(w).player == old(w).player,
        final(w).squagums == old(w).squagums,
        final(w).squares@.len() == old(w).squares@.len(),
        forall|i: int|
            0 <= i < old(w).squares@.len() ==> final(w).squares@[i] == grow_spec(
                #[trigger] old(w).squares@[i],
            ),
        final(w).squares@ == grown_all(old(w).squares@),
{
    let n = w.squares.len();
    let mut i: usize = 0;
    while i < n
        invariant
            wf_world(*w),
            n == w.squares@.len() == old(w).squares@.len(),
            i <= n,
            w.player == old(w).player,
            w.squagums == old(w).squagums,
            forall|k: int|
                0 <= k < i ==> w.squares@[k] == grow_spec(#[trigger] old(w).squares@[k]),
            forall|k: int| i <= k < n ==> w.squares@[k] == old(w).squares@[k],
        decreases n - i,
    {
        let mut s = w.squares[i];
        s.w = if s.w + GROWTH_RATE <= MAX_SIZE {
            s.w + GROWTH_RATE
        } else {
            MAX_SIZE
        };
        s.h = if s.h + GROWTH_RATE <= MAX_SIZE {
            s.h + GROWTH_RATE
        } else {
            MAX_SIZE
        };
        w.squares.set(i, s);
        i = i + 1;
    }
    proof {
        assert(w.squares@ =~= grown_all(old(w).squares@));
    }
}

} // verus!
