//! The two entry points of the search over a whole catalog: one pass over
//! all helms, and the same search cut into chunks of helms whose bests are
//! merged. Both give the same set.

use crate::armor::{ArmorPiece, ArmorSet, Loadout};
use crate::catalog::{partition, pools_of};
use crate::search::{
    best_loadout, chunk_len, lemma_best_pick, lemma_split, merge, search_chunk, sound,
};
use vstd::prelude::*;

verus! {

/// The best loadout of a catalog under a weight limit: of the picks of one
/// piece from each pool whose weight is within the limit, the one with the
/// highest score, the lightest of these, and the first of those as the search
/// goes through them, helms outermost and legs innermost; the bare loadout
/// where no such pick scores above zero.
pub open spec fn best_set(pieces: Seq<ArmorPiece>, limit: int) -> Loadout {
    best_loadout(pools_of(pieces), limit, 0, pools_of(pieces).helms.len() as int)
}

/// Searches the whole catalog in one pass. The totals of every set within
/// the limit have to fit sixteen bits; `is_searchable` tells of a catalog
/// whether they do.
pub fn find_best(weight_limit: u16, items: &Vec<ArmorPiece>) -> (best: ArmorSet)
    requires
        sound(pools_of(items@), weight_limit as int),
    ensures
        best@ == best_set(items@, weight_limit as int),
        best.weight <= weight_limit,
{
    let parts = partition(items);
    search_chunk(
        weight_limit,
        &parts.helms,
        0,
        parts.helms.len(),
        &parts.chests,
        &parts.gauntlets,
        &parts.legs,
    )
}

/// Searches the catalog chunk by chunk: the helms are cut into chunks, each
/// chunk is searched against all chests, gauntlets and legs, and the bests of
/// the chunks are merged in the order of the chunks. The merge goes by the
/// rule of the search itself, score first and weight among equal scores, so
/// the set returned is the one that a single pass returns. The totals of
/// every set within the limit have to fit sixteen bits, as for a single pass.
#[must_use]
pub fn get_set(weight_restriction: u16, pieces: Vec<ArmorPiece>) -> (best: ArmorSet)
    requires
        sound(pools_of(pieces@), weight_restriction as int),
    ensures
        best@ == best_set(pieces@, weight_restriction as int),
        best.weight <= weight_restriction,
{
    let parts = partition(&pieces);
    let count: usize = parts.helms.len();
    let chunk_size: usize = chunk_len(count);
    let mut best = ArmorSet::new();
    let mut lo: usize = 0;
    proof {
        // No helm has been looked at yet, and the result will be within the limit.
        lemma_best_pick(parts@, weight_restriction as int, 0, 0);
        lemma_best_pick(parts@, weight_restriction as int, 0, count as int);
    }
    while lo < count
        invariant
            lo <= count == parts.helms.len(),
            count > 0 ==> chunk_size > 0,
            parts@ == pools_of(pieces@),
            sound(parts@, weight_restriction as int),
            best@ == best_loadout(parts@, weight_restriction as int, 0, lo as int),
        decreases count - lo,
    {
        let hi: usize = if count - lo > chunk_size {
            lo + chunk_size
        } else {
            count
        };
        let found = search_chunk(
            weight_restriction,
            &parts.helms,
            lo,
            hi,
            &parts.chests,
            &parts.gauntlets,
            &parts.legs,
        );
        proof {
            lemma_split(parts@, weight_restriction as int, 0, lo as int, hi as int);
        }
        best = merge(best, found);
        lo = hi;
    }
    best
}

} // verus!
