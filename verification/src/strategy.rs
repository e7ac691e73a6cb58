use vstd::prelude::*;

use crate::pieces::{any_active, fish_movable, Piece, Status, Strategy};

verus! {

/// The piece one tile closer to the sea, status untouched.
pub open spec fn dec_piece(p: Piece) -> Piece {
    Piece { position: (p.position - 1) as u16, status: p.status }
}

/// The fish array after the fish in slot `k` moved one tile, or unchanged
/// when `k == 4` (the sentinel for "no active fish").
pub open spec fn displaced(fish: Seq<Piece>, k: int) -> Seq<Piece> {
    if k == 4 {
        fish
    } else {
        fish.update(k, dec_piece(fish[k]))
    }
}

/// The first active slot among `fish[0..n)`, or 4 if none is active.
pub open spec fn first_active_prefix(fish: Seq<Piece>, n: int) -> int
    decreases n,
{
    if n <= 0 {
        4
    } else {
        let r = first_active_prefix(fish, n - 1);
        if r != 4 {
            r
        } else if fish[n - 1].status == Status::Active {
            n - 1
        } else {
            4
        }
    }
}

/// The active slot of least position among `fish[0..n)`, the first on ties,
/// or 4 if none is active.
pub open spec fn nearest_active_prefix(fish: Seq<Piece>, n: int) -> int
    decreases n,
{
    if n <= 0 {
        4
    } else {
        let r = nearest_active_prefix(fish, n - 1);
        if fish[n - 1].status != Status::Active {
            r
        } else if r == 4 || fish[n - 1].position < fish[r].position {
            n - 1
        } else {
            r
        }
    }
}

/// The active slot of greatest position among `fish[0..n)`, the last on ties,
/// or 4 if none is active.
pub open spec fn farthest_active_prefix(fish: Seq<Piece>, n: int) -> int
    decreases n,
{
    if n <= 0 {
        4
    } else {
        let r = farthest_active_prefix(fish, n - 1);
        if fish[n - 1].status != Status::Active {
            r
        } else if r == 4 || fish[n - 1].position >= fish[r].position {
            n - 1
        } else {
            r
        }
    }
}

/// The slot each policy picks for a displaced move, or 4 when no fish is active.
pub open spec fn chosen_index(strategy: Strategy, fish: Seq<Piece>) -> int {
    match strategy {
        Strategy::NextActive => first_active_prefix(fish, 4),
        Strategy::NearestSea => nearest_active_prefix(fish, 4),
        Strategy::FarthestFromSea => farthest_active_prefix(fish, 4),
    }
}

/// The first-active scan picks an active slot, the least one, exactly when one exists.
pub proof fn lemma_first_active_prefix_props(fish: Seq<Piece>, n: int)
    requires
        fish.len() == 4,
        0 <= n <= 4,
    ensures
        ({
            let k = first_active_prefix(fish, n);
            &&& (k == 4 <==> (forall|i: int|
                0 <= i < n ==> (#[trigger] fish[i]).status != Status::Active))
            &&& (k != 4 ==> 0 <= k < n && fish[k].status == Status::Active && (forall|i: int|
                0 <= i < k ==> (#[trigger] fish[i]).status != Status::Active))
        }),
    decreases n,
{
    if n > 0 {
        lemma_first_active_prefix_props(fish, n - 1);
    }
}

/// The nearest-sea scan picks an active slot of least position exactly when
/// one exists, and the first such slot on ties.
pub proof fn lemma_nearest_active_prefix_props(fish: Seq<Piece>, n: int)
    requires
        fish.len() == 4,
        0 <= n <= 4,
    ensures
        ({
            let k = nearest_active_prefix(fish, n);
            &&& (k == 4 <==> (forall|i: int|
                0 <= i < n ==> (#[trigger] fish[i]).status != Status::Active))
            &&& (k != 4 ==> 0 <= k < n && fish[k].status == Status::Active && (forall|i: int|
                0 <= i < n && (#[trigger] fish[i]).status == Status::Active
                    ==> fish[k].position <= fish[i].position) && (forall|i: int|
                0 <= i < k && (#[trigger] fish[i]).status == Status::Active
                    ==> fish[k].position < fish[i].position))
        }),
    decreases n,
{
    if n > 0 {
        lemma_nearest_active_prefix_props(fish, n - 1);
    }
}

/// The farthest-from-sea scan picks an active slot of greatest position
/// exactly when one exists, and the last such slot on ties.
pub proof fn lemma_farthest_active_prefix_props(fish: Seq<Piece>, n: int)
    requires
        fish.len() == 4,
        0 <= n <= 4,
    ensures
        ({
            let k = farthest_active_prefix(fish, n);
            &&& (k == 4 <==> (forall|i: int|
                0 <= i < n ==> (#[trigger] fish[i]).status != Status::Active))
            &&& (k != 4 ==> 0 <= k < n && fish[k].status == Status::Active && (forall|i: int|
                0 <= i < n && (#[trigger] fish[i]).status == Status::Active
                    ==> fish[i].position <= fish[k].position) && (forall|i: int|
                k < i < n && (#[trigger] fish[i]).status == Status::Active
                    ==> fish[i].position < fish[k].position))
        }),
    decreases n,
{
    if n > 0 {
        lemma_farthest_active_prefix_props(fish, n - 1);
    }
}

/// Every policy picks an active slot exactly when one exists.
pub proof fn lemma_chosen_index_props(strategy: Strategy, fish: Seq<Piece>)
    requires
        fish.len() == 4,
    ensures
        ({
            let k = chosen_index(strategy, fish);
            &&& (k == 4 <==> !any_active(fish))
            &&& (k != 4 ==> 0 <= k < 4 && fish[k].status == Status::Active)
        }),
{
    match strategy {
        Strategy::NextActive => lemma_first_active_prefix_props(fish, 4),
        Strategy::NearestSea => lemma_nearest_active_prefix_props(fish, 4),
        Strategy::FarthestFromSea => lemma_farthest_active_prefix_props(fish, 4),
    }
}

/// Move the first active fish one tile toward the sea, if any fish is active.
pub fn move_next_active_fish(fish: &mut [Piece; 4])
    requires
        fish_movable(old(fish)@),
    ensures
        final(fish)@ == displaced(old(fish)@, first_active_prefix(old(fish)@, 4)),
{
    let mut i: usize = 0;
    while i < 4
        invariant
            0 <= i <= 4,
            fish@ == old(fish)@,
            fish_movable(fish@),
            first_active_prefix(fish@, i as int) == 4,
        decreases 4 - i,
    {
        if fish[i].status == Status::Active {
            proof {
                lemma_first_active_prefix_props(fish@, i as int);
                lemma_first_active_prefix_props(fish@, 4);
            }
            let p = fish[i];
            fish[i] = Piece { position: p.position - 1, status: p.status };
            assert(fish@ =~= displaced(old(fish)@, first_active_prefix(old(fish)@, 4)));
            return ;
        }
        i = i + 1;
    }
    proof {
        lemma_first_active_prefix_props(fish@, 4);
    }
}

/// Move the active fish nearest the sea one tile, if any fish is active.
pub fn move_fish_nearest_sea(fish: &mut [Piece; 4])
    requires
        fish_movable(old(fish)@),
    ensures
        final(fish)@ == displaced(old(fish)@, nearest_active_prefix(old(fish)@, 4)),
{
    let mut best: usize = 4;
    let mut i: usize = 0;
    while i < 4
        invariant
            0 <= i <= 4,
            fish@ == old(fish)@,
            fish_movable(fish@),
            best as int == nearest_active_prefix(fish@, i as int),
            best == 4 || best < i,
        decreases 4 - i,
    {
        if fish[i].status == Status::Active && (best == 4 || fish[i].position
            < fish[best].position) {
            best = i;
        }
        i = i + 1;
    }
    if best < 4 {
        proof {
            lemma_nearest_active_prefix_props(fish@, 4);
        }
        let p = fish[best];
        fish[best] = Piece { position: p.position - 1, status: p.status };
    }
    assert(fish@ =~= displaced(old(fish)@, nearest_active_prefix(old(fish)@, 4)));
}

/// Move the active fish farthest from the sea one tile, if any fish is active.
pub fn move_fish_farthest_from_sea(fish: &mut [Piece; 4])
    requires
        fish_movable(old(fish)@),
    ensures
        final(fish)@ == displaced(old(fish)@, farthest_active_prefix(old(fish)@, 4)),
{
    let mut best: usize = 4;
    let mut i: usize = 0;
    while i < 4
        invariant
            0 <= i <= 4,
            fish@ == old(fish)@,
            fish_movable(fish@),
            best as int == farthest_active_prefix(fish@, i as int),
            best == 4 || best < i,
        decreases 4 - i,
    {
        if fish[i].status == Status::Active && (best == 4 || fish[i].position
            >= fish[best].position) {
            best = i;
        }
        i = i + 1;
    }
    if best < 4 {
        proof {
            lemma_farthest_active_prefix_props(fish@, 4);
        }
        let p = fish[best];
        fish[best] = Piece { position: p.position - 1, status: p.status };
    }
    assert(fish@ =~= displaced(old(fish)@, farthest_active_prefix(old(fish)@, 4)));
}

/// Make the displaced move that the selected policy calls for.
pub fn update_by_strategy(fish: &mut [Piece; 4], strategy: Strategy)
    requires
        fish_movable(old(fish)@),
    ensures
        final(fish)@ == displaced(old(fish)@, chosen_index(strategy, old(fish)@)),
{
    match strategy {
        Strategy::NextActive => move_next_active_fish(fish),
        Strategy::NearestSea => move_fish_nearest_sea(fish),
        Strategy::FarthestFromSea => move_fish_farthest_from_sea(fish),
    }
}

} // verus!
