//! What holds of the search for every catalog and every weight limit.

use crate::armor::{bare, combine, ArmorPiece, Loadout};
use crate::catalog::pools_of;
use crate::optimizer::best_set;
use crate::search::{
    beats, best_loadout, best_pick, chunk_length, feasible, is_winner, lemma_best_pick,
    lemma_split, lemma_winner_unique, prefer, Pick, Pools, MAX_THREADS,
};
use vstd::prelude::*;

verus! {

/// `found` is what a search of the catalog must return: the loadout of a
/// winning pick, or the bare loadout where no feasible pick scores above zero.
pub open spec fn is_best(pieces: Seq<ArmorPiece>, limit: int, found: Loadout) -> bool {
    let pools = pools_of(pieces);
    ||| exists|pick: Pick|
        is_winner(pools, limit, 0, pools.helms.len() as int, pick) && found == pools.worn(pick)
    ||| {
        &&& found == bare()
        &&& forall|pick: Pick| #[trigger]
            feasible(pools, limit, pick) ==> pools.worn(pick).maximize_stat <= 0
    }
}

/// The search returns what it must.
pub proof fn lemma_best_set_is_best(pieces: Seq<ArmorPiece>, limit: int)
    ensures
        is_best(pieces, limit, best_set(pieces, limit)),
{
    let pools = pools_of(pieces);
    lemma_best_pick(pools, limit, 0, pools.helms.len() as int);
}

/// The search is a function of its inputs: only one loadout is best, so two
/// runs on the same catalog and limit return the same set.
pub proof fn lemma_best_is_unique(pieces: Seq<ArmorPiece>, limit: int, a: Loadout, b: Loadout)
    requires
        is_best(pieces, limit, a),
        is_best(pieces, limit, b),
    ensures
        a == b,
{
    let pools = pools_of(pieces);
    let count = pools.helms.len() as int;
    if exists|pick: Pick| is_winner(pools, limit, 0, count, pick) && a == pools.worn(pick) {
        let p = choose|pick: Pick| is_winner(pools, limit, 0, count, pick) && a == pools.worn(pick);
        assert(feasible(pools, limit, p));
        if exists|pick: Pick| is_winner(pools, limit, 0, count, pick) && b == pools.worn(pick) {
            let q = choose|pick: Pick|
                is_winner(pools, limit, 0, count, pick) && b == pools.worn(pick);
            lemma_winner_unique(pools, limit, 0, count, p, q);
        }
    } else if exists|pick: Pick| is_winner(pools, limit, 0, count, pick) && b == pools.worn(pick) {
        let q = choose|pick: Pick| is_winner(pools, limit, 0, count, pick) && b == pools.worn(pick);
        assert(feasible(pools, limit, q));
    }
}

/// The set returned is never heavier than the limit: a winning pick is
/// feasible, and the bare set weighs nothing.
pub proof fn lemma_within_budget(pieces: Seq<ArmorPiece>, limit: int)
    requires
        0 <= limit,
    ensures
        best_set(pieces, limit).weight <= limit,
{
    let pools = pools_of(pieces);
    lemma_best_pick(pools, limit, 0, pools.helms.len() as int);
}

/// A higher limit never lowers the score of the set returned.
pub proof fn lemma_monotone(pieces: Seq<ArmorPiece>, low: int, high: int)
    requires
        low <= high,
    ensures
        best_set(pieces, low).maximize_stat <= best_set(pieces, high).maximize_stat,
{
    let pools = pools_of(pieces);
    let count = pools.helms.len() as int;
    lemma_best_pick(pools, low, 0, count);
    lemma_best_pick(pools, high, 0, count);
    match best_pick(pools, low, 0, count) {
        Some(pick) => {
            assert(feasible(pools, high, pick));
        },
        None => {
            match best_pick(pools, high, 0, count) {
                Some(pick) => {},
                None => {},
            }
        },
    }
}

/// Every total of the set returned is the exact sum of the values of four
/// pieces, one from each pool of the catalog; the bare set is the sum of no
/// piece at all.
pub proof fn lemma_additive(pieces: Seq<ArmorPiece>, limit: int)
    ensures
        match best_pick(pools_of(pieces), limit, 0, pools_of(pieces).helms.len() as int) {
            Some(pick) => {
                let pools = pools_of(pieces);
                &&& pools.holds(pick)
                &&& best_set(pieces, limit) == combine(
                    pools.helms[pick.helm],
                    pools.chests[pick.chest],
                    pools.gauntlets[pick.gauntlet],
                    pools.legs[pick.leg],
                )
            },
            None => best_set(pieces, limit) == bare(),
        },
{
    let pools = pools_of(pieces);
    lemma_best_pick(pools, limit, 0, pools.helms.len() as int);
}

/// Where the `chunk`th chunk of `count` helms begins, the chunks being of the
/// given length.
pub open spec fn chunk_start(count: int, length: int, chunk: int) -> int {
    if chunk * length < count {
        chunk * length
    } else {
        count
    }
}

/// The bests of the first `chunks` chunks of helms, merged in their order.
pub open spec fn merged(pools: Pools, limit: int, length: int, chunks: nat) -> Loadout
    decreases chunks,
{
    let count = pools.helms.len() as int;
    if chunks == 0 {
        bare()
    } else {
        prefer(
            merged(pools, limit, length, (chunks - 1) as nat),
            best_loadout(
                pools,
                limit,
                chunk_start(count, length, chunks - 1),
                chunk_start(count, length, chunks as int),
            ),
        )
    }
}

/// Merging the bests of the first chunks gives the best over the helms that
/// these chunks cover.
pub proof fn lemma_merged_is_best(pools: Pools, limit: int, length: int, chunks: nat)
    requires
        0 <= length,
    ensures
        merged(pools, limit, length, chunks) == best_loadout(
            pools,
            limit,
            0,
            chunk_start(pools.helms.len() as int, length, chunks as int),
        ),
    decreases chunks,
{
    let count = pools.helms.len() as int;
    if chunks == 0 {
        lemma_best_pick(pools, limit, 0, 0);
    } else {
        lemma_merged_is_best(pools, limit, length, (chunks - 1) as nat);
        assert(0 <= (chunks - 1) * length <= chunks * length) by (nonlinear_arith)
            requires
                0 <= length,
                chunks >= 1,
        ;
        lemma_split(
            pools,
            limit,
            0,
            chunk_start(count, length, chunks - 1),
            chunk_start(count, length, chunks as int),
        );
    }
}

/// The search cut into chunks agrees with the search in one pass: merging
/// the bests of all chunks gives the best set of the catalog, the same set
/// and not only the same score.
pub proof fn lemma_chunks_agree(pieces: Seq<ArmorPiece>, limit: int)
    ensures
        merged(
            pools_of(pieces),
            limit,
            chunk_length(pools_of(pieces).helms.len() as int),
            MAX_THREADS as nat,
        ) == best_set(pieces, limit),
{
    let pools = pools_of(pieces);
    let count = pools.helms.len() as int;
    lemma_merged_is_best(pools, limit, chunk_length(count), MAX_THREADS as nat);
}

/// The better of two loadouts where only a higher score replaces the one
/// kept.
pub open spec fn prefer_by_score(kept: Loadout, other: Loadout) -> Loadout {
    if other.maximize_stat > kept.maximize_stat {
        other
    } else {
        kept
    }
}

/// A merge that goes by the score alone still finds the best score, and it
/// finds the best set wherever the scores of the two differ. Where they are
/// equal it keeps the first, though the second may be lighter: such a merge
/// can return a heavier set than a search in one pass.
pub proof fn lemma_merge_by_score(kept: Loadout, other: Loadout)
    ensures
        prefer_by_score(kept, other).maximize_stat == prefer(kept, other).maximize_stat,
        kept.maximize_stat != other.maximize_stat ==> prefer_by_score(kept, other) == prefer(
            kept,
            other,
        ),
        !beats(prefer_by_score(kept, other), prefer(kept, other)),
{
}

} // verus!
