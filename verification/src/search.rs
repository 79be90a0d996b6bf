//! The search: which four pieces, one from each pool, give the highest score
//! within a weight limit.
//!
//! A set is better than another when its score is higher, or when the scores
//! are equal and it is lighter. The search starts from the bare set, so a set
//! is only ever returned when it scores above zero; among sets that are equal
//! in score and weight the one that comes first in the order of enumeration
//! is kept.

use crate::armor::{bare, combine, fits, ArmorPiece, ArmorSet, Loadout};
use vstd::prelude::*;

verus! {

/// The four pools that the search combines, one per slot.
pub struct Pools {
    pub helms: Seq<ArmorPiece>,
    pub chests: Seq<ArmorPiece>,
    pub gauntlets: Seq<ArmorPiece>,
    pub legs: Seq<ArmorPiece>,
}

/// One choice of a piece from each pool, by position.
pub struct Pick {
    pub helm: int,
    pub chest: int,
    pub gauntlet: int,
    pub leg: int,
}

impl Pools {
    /// Every position of the pick lies inside its pool.
    pub open spec fn holds(self, pick: Pick) -> bool {
        &&& 0 <= pick.helm < self.helms.len()
        &&& 0 <= pick.chest < self.chests.len()
        &&& 0 <= pick.gauntlet < self.gauntlets.len()
        &&& 0 <= pick.leg < self.legs.len()
    }

    /// The loadout of the four pieces that the pick names.
    pub open spec fn worn(self, pick: Pick) -> Loadout {
        combine(
            self.helms[pick.helm],
            self.chests[pick.chest],
            self.gauntlets[pick.gauntlet],
            self.legs[pick.leg],
        )
    }
}

/// The pick names four pieces of the pools whose weight is within the limit.
pub open spec fn feasible(pools: Pools, limit: int, pick: Pick) -> bool {
    pools.holds(pick) && pools.worn(pick).weight <= limit
}

/// A feasible pick whose helm lies in the range from `lo` up to, not
/// including, `hi`.
pub open spec fn eligible(pools: Pools, limit: int, lo: int, hi: int, pick: Pick) -> bool {
    feasible(pools, limit, pick) && lo <= pick.helm < hi
}

/// The totals of every feasible pick fit the sixteen bits of a total.
pub open spec fn sound(pools: Pools, limit: int) -> bool {
    forall|pick: Pick| #[trigger] feasible(pools, limit, pick) ==> fits(pools.worn(pick))
}

/// `a` is better than `b`: a higher score, or the same score at a lower
/// weight.
pub open spec fn beats(a: Loadout, b: Loadout) -> bool {
    a.maximize_stat > b.maximize_stat || (a.maximize_stat == b.maximize_stat && a.weight
        < b.weight)
}

/// The better of two loadouts; the first one stays unless the second beats it.
pub open spec fn prefer(kept: Loadout, other: Loadout) -> Loadout {
    if beats(other, kept) {
        other
    } else {
        kept
    }
}

/// The order of enumeration: helms outermost, then chests, gauntlets, legs.
pub open spec fn earlier(a: Pick, b: Pick) -> bool {
    a.helm < b.helm || (a.helm == b.helm && (a.chest < b.chest || (a.chest == b.chest && (
    a.gauntlet < b.gauntlet || (a.gauntlet == b.gauntlet && a.leg < b.leg)))))
}

/// `pick` wins among the eligible picks: it scores above zero, no eligible
/// pick beats it, and it beats every eligible pick that comes before it.
pub open spec fn is_winner(pools: Pools, limit: int, lo: int, hi: int, pick: Pick) -> bool {
    &&& eligible(pools, limit, lo, hi, pick)
    &&& pools.worn(pick).maximize_stat > 0
    &&& forall|other: Pick| #[trigger]
        feasible(pools, limit, other) && lo <= other.helm < hi ==> {
            &&& !beats(pools.worn(other), pools.worn(pick))
            &&& earlier(other, pick) ==> beats(pools.worn(pick), pools.worn(other))
        }
}

/// The winning pick, if there is one.
pub open spec fn best_pick(pools: Pools, limit: int, lo: int, hi: int) -> Option<Pick> {
    if exists|pick: Pick| is_winner(pools, limit, lo, hi, pick) {
        Some(choose|pick: Pick| is_winner(pools, limit, lo, hi, pick))
    } else {
        None
    }
}

/// What a pick, or none, puts on.
pub open spec fn loadout_of(pools: Pools, pick: Option<Pick>) -> Loadout {
    match pick {
        Some(p) => pools.worn(p),
        None => bare(),
    }
}

/// The result of the search over the helms from `lo` up to `hi`: the loadout
/// of the winning pick, or the bare loadout when no eligible pick scores above
/// zero.
pub open spec fn best_loadout(pools: Pools, limit: int, lo: int, hi: int) -> Loadout {
    loadout_of(pools, best_pick(pools, limit, lo, hi))
}

/// The state of an enumeration that has looked at every pick before `bound`:
/// `champion` is the winner among the feasible picks seen so far.
pub open spec fn leads(pools: Pools, limit: int, lo: int, bound: Pick, champion: Option<Pick>) -> bool {
    &&& champion matches Some(p) ==> {
        &&& feasible(pools, limit, p)
        &&& lo <= p.helm
        &&& earlier(p, bound)
        &&& pools.worn(p).maximize_stat > 0
    }
    &&& forall|other: Pick| #[trigger]
        feasible(pools, limit, other) && lo <= other.helm && earlier(other, bound) ==> {
            &&& !beats(pools.worn(other), loadout_of(pools, champion))
            &&& champion matches Some(p) ==> (earlier(other, p) ==> beats(
                pools.worn(p),
                pools.worn(other),
            ))
        }
}

/// The first pick whose helm is at `helm`.
pub open spec fn row(helm: int) -> Pick {
    Pick { helm, chest: 0, gauntlet: 0, leg: 0 }
}

/// There is at most one winner.
pub proof fn lemma_winner_unique(pools: Pools, limit: int, lo: int, hi: int, a: Pick, b: Pick)
    requires
        is_winner(pools, limit, lo, hi, a),
        is_winner(pools, limit, lo, hi, b),
    ensures
        a == b,
{
    assert(feasible(pools, limit, a));
    assert(feasible(pools, limit, b));
    if a != b {
        assert(earlier(a, b) || earlier(b, a));
    }
}

/// An enumeration that has reached the end of the range has found the result
/// of the search.
pub proof fn lemma_champion_is_best(
    pools: Pools,
    limit: int,
    lo: int,
    hi: int,
    champion: Option<Pick>,
)
    requires
        leads(pools, limit, lo, row(hi), champion),
    ensures
        best_pick(pools, limit, lo, hi) == champion,
{
    match champion {
        Some(p) => {
            assert(is_winner(pools, limit, lo, hi, p));
            let chosen = choose|pick: Pick| is_winner(pools, limit, lo, hi, pick);
            lemma_winner_unique(pools, limit, lo, hi, chosen, p);
        },
        None => {
            if exists|pick: Pick| is_winner(pools, limit, lo, hi, pick) {
                let chosen = choose|pick: Pick| is_winner(pools, limit, lo, hi, pick);
                assert(feasible(pools, limit, chosen));
            }
        },
    }
}

/// What an enumeration holds after it has looked at `here`.
pub open spec fn advance(pools: Pools, limit: int, here: Pick, champion: Option<Pick>) -> Option<
    Pick,
> {
    if feasible(pools, limit, here) && beats(pools.worn(here), loadout_of(pools, champion)) {
        Some(here)
    } else {
        champion
    }
}

/// Enumerates in proof every pick before `bound` and hands back the champion.
proof fn lemma_scan(pools: Pools, limit: int, lo: int, bound: Pick) -> (champion: Option<Pick>)
    requires
        lo <= bound.helm,
        0 <= bound.chest <= pools.chests.len(),
        0 <= bound.gauntlet <= pools.gauntlets.len(),
        0 <= bound.leg <= pools.legs.len(),
    ensures
        leads(pools, limit, lo, bound, champion),
    decreases bound.helm - lo, bound.chest, bound.gauntlet, bound.leg,
{
    if bound.leg > 0 {
        let here = Pick { leg: bound.leg - 1, ..bound };
        let before = lemma_scan(pools, limit, lo, here);
        advance(pools, limit, here, before)
    } else if bound.gauntlet > 0 {
        lemma_scan(
            pools,
            limit,
            lo,
            Pick { gauntlet: bound.gauntlet - 1, leg: pools.legs.len() as int, ..bound },
        )
    } else if bound.chest > 0 {
        lemma_scan(
            pools,
            limit,
            lo,
            Pick {
                chest: bound.chest - 1,
                gauntlet: pools.gauntlets.len() as int,
                leg: pools.legs.len() as int,
                ..bound
            },
        )
    } else if bound.helm > lo {
        lemma_scan(
            pools,
            limit,
            lo,
            Pick {
                helm: bound.helm - 1,
                chest: pools.chests.len() as int,
                gauntlet: pools.gauntlets.len() as int,
                leg: pools.legs.len() as int,
            },
        )
    } else {
        None
    }
}

/// What the search finds: a winner where there is one, and none only where
/// no eligible pick scores above zero.
pub proof fn lemma_best_pick(pools: Pools, limit: int, lo: int, hi: int)
    ensures
        match best_pick(pools, limit, lo, hi) {
            Some(pick) => is_winner(pools, limit, lo, hi, pick),
            None => forall|other: Pick| #[trigger]
                feasible(pools, limit, other) && lo <= other.helm < hi ==> pools.worn(
                    other,
                ).maximize_stat <= 0,
        },
{
    if lo <= hi {
        let champion = lemma_scan(pools, limit, lo, row(hi));
        lemma_champion_is_best(pools, limit, lo, hi, champion);
    }
}

/// The best over a range of helms is the better of the bests over its two
/// parts, the earlier part being kept where neither beats the other.
pub proof fn lemma_split(pools: Pools, limit: int, lo: int, mid: int, hi: int)
    requires
        lo <= mid <= hi,
    ensures
        best_loadout(pools, limit, lo, hi) == prefer(
            best_loadout(pools, limit, lo, mid),
            best_loadout(pools, limit, mid, hi),
        ),
{
    lemma_best_pick(pools, limit, lo, mid);
    lemma_best_pick(pools, limit, mid, hi);
    let left = best_pick(pools, limit, lo, mid);
    let right = best_pick(pools, limit, mid, hi);
    let both = if beats(loadout_of(pools, right), loadout_of(pools, left)) {
        right
    } else {
        left
    };
    assert(leads(pools, limit, lo, row(hi), both)) by {
        assert forall|other: Pick| #[trigger]
            feasible(pools, limit, other) && lo <= other.helm && earlier(
                other,
                row(hi),
            ) implies {
            &&& !beats(pools.worn(other), loadout_of(pools, both))
            &&& both matches Some(p) ==> (earlier(other, p) ==> beats(
                pools.worn(p),
                pools.worn(other),
            ))
        } by {
            if other.helm < mid {
                assert(lo <= other.helm < mid);
            } else {
                assert(mid <= other.helm < hi);
            }
        }
    }
    lemma_champion_is_best(pools, limit, lo, hi, both);
}

/// The number of chunks that the helms are cut into.
pub const MAX_THREADS: usize = 4;

/// The least length of a chunk with which `MAX_THREADS` chunks cover `count`
/// pieces.
pub open spec fn chunk_length(count: int) -> int {
    (count + MAX_THREADS - 1) / (MAX_THREADS as int)
}

/// The length of the chunks that `count` helms are cut into: as many chunks
/// as `MAX_THREADS` at most, all of this length but the last, which may be
/// shorter.
pub fn chunk_len(count: usize) -> (length: usize)
    ensures
        length == chunk_length(count as int),
        length * MAX_THREADS >= count,
        count > 0 ==> 0 < length <= count,
{
    let whole: usize = count / MAX_THREADS;
    if count % MAX_THREADS == 0 {
        whole
    } else {
        whole + 1
    }
}

/// The better of two sets: `other` where it beats `kept`, else `kept`. This
/// is the rule by which the search replaces the set it holds, so bests of
/// chunks merged in the order of their chunks give the best of the whole.
pub fn merge(kept: ArmorSet, other: ArmorSet) -> (better: ArmorSet)
    ensures
        better == if beats(other@, kept@) {
            other
        } else {
            kept
        },
        better@ == prefer(kept@, other@),
{
    if other.maximize_stat > kept.maximize_stat || (other.maximize_stat == kept.maximize_stat
        && other.weight < kept.weight) {
        other
    } else {
        kept
    }
}

/// The best set over the helms from `lo` up to, not including, `hi`, each
/// combined with every chest, gauntlet and leg piece. A pick that is too
/// heavy is passed over before anything else is added up; the pick at hand
/// replaces the set held when it scores higher, or scores the same and is
/// lighter.
pub fn search_chunk(
    weight_limit: u16,
    helms: &Vec<ArmorPiece>,
    lo: usize,
    hi: usize,
    chests: &Vec<ArmorPiece>,
    gauntlets: &Vec<ArmorPiece>,
    legs: &Vec<ArmorPiece>,
) -> (best: ArmorSet)
    requires
        lo <= hi <= helms.len(),
        sound(
            (Pools { helms: helms@, chests: chests@, gauntlets: gauntlets@, legs: legs@ }),
            weight_limit as int,
        ),
    ensures
        best@ == best_loadout(
            (Pools { helms: helms@, chests: chests@, gauntlets: gauntlets@, legs: legs@ }),
            weight_limit as int,
            lo as int,
            hi as int,
        ),
        best.weight <= weight_limit,
{
    let ghost pools = Pools { helms: helms@, chests: chests@, gauntlets: gauntlets@, legs: legs@ };
    let ghost limit = weight_limit as int;
    let ghost mut champion: Option<Pick> = None;
    let mut best = ArmorSet::new();
    let mut h: usize = lo;
    while h < hi
        invariant
            lo <= h <= hi <= helms.len(),
            pools == (Pools { helms: helms@, chests: chests@, gauntlets: gauntlets@, legs: legs@ }),
            limit == weight_limit as int,
            sound(pools, limit),
            leads(pools, limit, lo as int, row(h as int), champion),
            best@ == loadout_of(pools, champion),
        decreases hi - h,
    {
        let helm = &helms[h];
        let mut c: usize = 0;
        while c < chests.len()
            invariant
                lo <= h < hi <= helms.len(),
                c <= chests.len(),
                pools == (Pools {
                    helms: helms@,
                    chests: chests@,
                    gauntlets: gauntlets@,
                    legs: legs@,
                }),
                limit == weight_limit as int,
                sound(pools, limit),
                *helm == helms@[h as int],
                leads(
                    pools,
                    limit,
                    lo as int,
                    (Pick { helm: h as int, chest: c as int, gauntlet: 0, leg: 0 }),
                    champion,
                ),
                best@ == loadout_of(pools, champion),
            decreases chests.len() - c,
        {
            let chest = &chests[c];
            let mut g: usize = 0;
            while g < gauntlets.len()
                invariant
                    lo <= h < hi <= helms.len(),
                    c < chests.len(),
                    g <= gauntlets.len(),
                    pools == (Pools {
                        helms: helms@,
                        chests: chests@,
                        gauntlets: gauntlets@,
                        legs: legs@,
                    }),
                    limit == weight_limit as int,
                    sound(pools, limit),
                    *helm == helms@[h as int],
                    *chest == chests@[c as int],
                    leads(
                        pools,
                        limit,
                        lo as int,
                        (Pick { helm: h as int, chest: c as int, gauntlet: g as int, leg: 0 }),
                        champion,
                    ),
                    best@ == loadout_of(pools, champion),
                decreases gauntlets.len() - g,
            {
                let gauntlet = &gauntlets[g];
                let mut l: usize = 0;
                while l < legs.len()
                    invariant
                        lo <= h < hi <= helms.len(),
                        c < chests.len(),
                        g < gauntlets.len(),
                        l <= legs.len(),
                        pools == (Pools {
                            helms: helms@,
                            chests: chests@,
                            gauntlets: gauntlets@,
                            legs: legs@,
                        }),
                        limit == weight_limit as int,
                        sound(pools, limit),
                        *helm == helms@[h as int],
                        *chest == chests@[c as int],
                        *gauntlet == gauntlets@[g as int],
                        leads(
                            pools,
                            limit,
                            lo as int,
                            (Pick {
                                helm: h as int,
                                chest: c as int,
                                gauntlet: g as int,
                                leg: l as int,
                            }),
                            champion,
                        ),
                        best@ == loadout_of(pools, champion),
                    decreases legs.len() - l,
                {
                    let leg = &legs[l];
                    let ghost here = Pick {
                        helm: h as int,
                        chest: c as int,
                        gauntlet: g as int,
                        leg: l as int,
                    };
                    // The weight is looked at first: a set that is too heavy
                    // is never built.
                    let weight: u32 = helm.weight as u32 + chest.weight as u32
                        + gauntlet.weight as u32 + leg.weight as u32;
                    if weight <= weight_limit as u32 {
                        let score: u32 = helm.maximize_stat as u32 + chest.maximize_stat as u32
                            + gauntlet.maximize_stat as u32 + leg.maximize_stat as u32;
                        let held: u32 = best.maximize_stat as u32;
                        if score > held || (score == held && weight < best.weight as u32) {
                            assert(feasible(pools, limit, here));
                            best = ArmorSet::from(
                                helm.clone(),
                                chest.clone(),
                                gauntlet.clone(),
                                leg.clone(),
                            );
                            proof {
                                champion = Some(here);
                            }
                        }
                    }
                    l += 1;
                }
                g += 1;
            }
            c += 1;
        }
        h += 1;
    }
    proof {
        lemma_champion_is_best(pools, limit, lo as int, hi as int, champion);
        lemma_best_pick(pools, limit, lo as int, hi as int);
    }
    best
}

} // verus!
