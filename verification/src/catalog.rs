//! The catalog: a flat list of pieces and its split into four pools.
//!
//! Helms, chests and gauntlets are told by their slot. Every other piece goes
//! to the pool of the legs, whatever its slot says.

use crate::armor::{ArmorPiece, Slot};
use crate::search::{feasible, sound, Pick, Pools};
use vstd::prelude::*;

verus! {

/// The pool that a piece of the given slot is put in.
pub open spec fn bucket(slot: Slot) -> Slot {
    match slot {
        Slot::Helm => Slot::Helm,
        Slot::Chest => Slot::Chest,
        Slot::Gauntlets => Slot::Gauntlets,
        Slot::Legs => Slot::Legs,
        Slot::Empty => Slot::Legs,
    }
}

/// The pieces of one pool, in the order in which the catalog lists them.
pub open spec fn pool(pieces: Seq<ArmorPiece>, slot: Slot) -> Seq<ArmorPiece> {
    pieces.filter(|piece: ArmorPiece| bucket(piece.slot) == slot)
}

/// The four pools of a catalog.
pub open spec fn pools_of(pieces: Seq<ArmorPiece>) -> Pools {
    Pools {
        helms: pool(pieces, Slot::Helm),
        chests: pool(pieces, Slot::Chest),
        gauntlets: pool(pieces, Slot::Gauntlets),
        legs: pool(pieces, Slot::Legs),
    }
}

/// A catalog split into its four pools.
#[derive(Debug)]
pub struct Partition {
    pub helms: Vec<ArmorPiece>,
    pub chests: Vec<ArmorPiece>,
    pub gauntlets: Vec<ArmorPiece>,
    pub legs: Vec<ArmorPiece>,
}

impl View for Partition {
    type V = Pools;

    open spec fn view(&self) -> Pools {
        Pools {
            helms: self.helms@,
            chests: self.chests@,
            gauntlets: self.gauntlets@,
            legs: self.legs@,
        }
    }
}

/// Filtering one more piece of a list adds the piece to the end of what was
/// kept where the test holds of it, and changes nothing where it does not.
proof fn lemma_filter_grows(pieces: Seq<ArmorPiece>, count: int, keep: spec_fn(ArmorPiece) -> bool)
    requires
        0 <= count < pieces.len(),
    ensures
        pieces.take(count + 1).filter(keep) == if keep(pieces[count]) {
            pieces.take(count).filter(keep).push(pieces[count])
        } else {
            pieces.take(count).filter(keep)
        },
{
    reveal(Seq::filter);
    assert(pieces.take(count + 1).drop_last() =~= pieces.take(count));
}

/// Taking one more piece of the catalog adds it to the end of its own pool
/// and leaves the other pools as they are.
proof fn lemma_pool_grows(pieces: Seq<ArmorPiece>, count: int, slot: Slot)
    requires
        0 <= count < pieces.len(),
    ensures
        pool(pieces.take(count + 1), slot) == if bucket(pieces[count].slot) == slot {
            pool(pieces.take(count), slot).push(pieces[count])
        } else {
            pool(pieces.take(count), slot)
        },
{
    lemma_filter_grows(pieces, count, |piece: ArmorPiece| bucket(piece.slot) == slot);
}

/// The split is a classification: a pool holds only pieces that belong in
/// it, every piece of the catalog is in the pool it belongs in, and the four
/// pools together hold as many pieces as the catalog.
pub proof fn lemma_pools_classify(pieces: Seq<ArmorPiece>)
    ensures
        forall|slot: Slot, at: int|
            0 <= at < pool(pieces, slot).len() ==> bucket(
                (#[trigger] pool(pieces, slot)[at]).slot,
            ) == slot,
        forall|i: int|
            0 <= i < pieces.len() ==> pool(pieces, bucket(pieces[i].slot)).contains(
                #[trigger] pieces[i],
            ),
        pool(pieces, Slot::Helm).len() + pool(pieces, Slot::Chest).len() + pool(
            pieces,
            Slot::Gauntlets,
        ).len() + pool(pieces, Slot::Legs).len() == pieces.len(),
        pool(pieces, Slot::Empty).len() == 0,
    decreases pieces.len(),
{
    assert forall|slot: Slot, at: int| 0 <= at < pool(pieces, slot).len() implies bucket(
        (#[trigger] pool(pieces, slot)[at]).slot,
    ) == slot by {
        pieces.lemma_filter_pred(|piece: ArmorPiece| bucket(piece.slot) == slot, at);
    }
    assert forall|i: int| 0 <= i < pieces.len() implies pool(
        pieces,
        bucket(pieces[i].slot),
    ).contains(#[trigger] pieces[i]) by {
        let slot = bucket(pieces[i].slot);
        pieces.lemma_filter_contains(|piece: ArmorPiece| bucket(piece.slot) == slot, i);
    }
    if pieces.len() == 0 {
        reveal(Seq::filter);
    } else {
        let count = pieces.len() - 1;
        lemma_pools_classify(pieces.take(count));
        assert(pieces.take(count + 1) =~= pieces);
        lemma_pool_grows(pieces, count, Slot::Helm);
        lemma_pool_grows(pieces, count, Slot::Chest);
        lemma_pool_grows(pieces, count, Slot::Gauntlets);
        lemma_pool_grows(pieces, count, Slot::Legs);
        lemma_pool_grows(pieces, count, Slot::Empty);
    }
}

/// Every piece of the catalog has one of the four slots that a piece can
/// be worn in.
pub open spec fn all_slotted(pieces: Seq<ArmorPiece>) -> bool {
    forall|i: int| 0 <= i < pieces.len() ==> (#[trigger] pieces[i]).slot != Slot::Empty
}

/// Tells whether every piece of the catalog has one of the four slots. In
/// such a catalog the pool of the legs holds leg pieces only.
pub fn is_slotted(pieces: &Vec<ArmorPiece>) -> (yes: bool)
    ensures
        yes == all_slotted(pieces@),
{
    let mut i: usize = 0;
    while i < pieces.len()
        invariant
            i <= pieces.len(),
            forall|j: int| 0 <= j < i ==> (#[trigger] pieces@[j]).slot != Slot::Empty,
        decreases pieces.len() - i,
    {
        if pieces[i].slot == Slot::Empty {
            return false;
        }
        i += 1;
    }
    true
}

/// In a catalog whose pieces all have one of the four slots, every pool
/// holds pieces of its own slot only.
pub proof fn lemma_slotted_pools(pieces: Seq<ArmorPiece>, slot: Slot, at: int)
    requires
        all_slotted(pieces),
        0 <= at < pool(pieces, slot).len(),
    ensures
        pool(pieces, slot)[at].slot == slot,
{
    lemma_pool_member(pieces, slot, at);
    lemma_pools_classify(pieces);
}

/// Splits the catalog into its four pools. Every piece lands in exactly one
/// pool, and each pool keeps the order of the catalog.
pub fn partition(pieces: &Vec<ArmorPiece>) -> (parts: Partition)
    ensures
        parts@ == pools_of(pieces@),
        parts.helms.len() + parts.chests.len() + parts.gauntlets.len() + parts.legs.len()
            == pieces.len(),
{
    let mut helms: Vec<ArmorPiece> = Vec::new();
    let mut chests: Vec<ArmorPiece> = Vec::new();
    let mut gauntlets: Vec<ArmorPiece> = Vec::new();
    let mut legs: Vec<ArmorPiece> = Vec::new();
    let mut i: usize = 0;
    proof {
        reveal(Seq::filter);
        assert(pieces@.take(0) =~= Seq::<ArmorPiece>::empty());
    }
    while i < pieces.len()
        invariant
            i <= pieces.len(),
            helms@ == pool(pieces@.take(i as int), Slot::Helm),
            chests@ == pool(pieces@.take(i as int), Slot::Chest),
            gauntlets@ == pool(pieces@.take(i as int), Slot::Gauntlets),
            legs@ == pool(pieces@.take(i as int), Slot::Legs),
            helms.len() + chests.len() + gauntlets.len() + legs.len() == i,
        decreases pieces.len() - i,
    {
        proof {
            lemma_pool_grows(pieces@, i as int, Slot::Helm);
            lemma_pool_grows(pieces@, i as int, Slot::Chest);
            lemma_pool_grows(pieces@, i as int, Slot::Gauntlets);
            lemma_pool_grows(pieces@, i as int, Slot::Legs);
        }
        let piece = pieces[i].clone();
        match piece.slot {
            Slot::Helm => helms.push(piece),
            Slot::Chest => chests.push(piece),
            Slot::Gauntlets => gauntlets.push(piece),
            _ => legs.push(piece),
        }
        i += 1;
    }
    proof {
        assert(pieces@.take(pieces.len() as int) =~= pieces@);
    }
    Partition { helms, chests, gauntlets, legs }
}

impl ArmorPiece {
    /// Every number of the piece is at most a quarter of what sixteen bits
    /// hold, so that four such pieces can always be added up.
    pub open spec fn summable(&self) -> bool {
        &&& self.physical <= 16383
        &&& self.strike <= 16383
        &&& self.slash <= 16383
        &&& self.pierce <= 16383
        &&& self.magic <= 16383
        &&& self.fire <= 16383
        &&& self.lightning <= 16383
        &&& self.holy <= 16383
        &&& self.immunity <= 16383
        &&& self.robustness <= 16383
        &&& self.focus <= 16383
        &&& self.vitality <= 16383
        &&& self.poise <= 16383
        &&& self.weight <= 16383
        &&& self.maximize_stat <= 16383
    }

    /// Tells whether the piece is summable.
    pub fn is_summable(&self) -> (yes: bool)
        ensures
            yes == self.summable(),
    {
        self.physical <= 16383 && self.strike <= 16383 && self.slash <= 16383 && self.pierce
            <= 16383 && self.magic <= 16383 && self.fire <= 16383 && self.lightning <= 16383
            && self.holy <= 16383 && self.immunity <= 16383 && self.robustness <= 16383
            && self.focus <= 16383 && self.vitality <= 16383 && self.poise <= 16383 && self.weight
            <= 16383 && self.maximize_stat <= 16383
    }
}

/// Every piece of the catalog is summable.
pub open spec fn all_summable(pieces: Seq<ArmorPiece>) -> bool {
    forall|i: int| 0 <= i < pieces.len() ==> (#[trigger] pieces[i]).summable()
}

/// Tells whether every piece of the catalog is summable. A catalog that
/// passes can be searched under any weight limit.
pub fn is_searchable(pieces: &Vec<ArmorPiece>) -> (yes: bool)
    ensures
        yes == all_summable(pieces@),
        yes ==> forall|limit: int| sound(pools_of(pieces@), limit),
{
    let mut i: usize = 0;
    while i < pieces.len()
        invariant
            i <= pieces.len(),
            forall|j: int| 0 <= j < i ==> (#[trigger] pieces@[j]).summable(),
        decreases pieces.len() - i,
    {
        if !pieces[i].is_summable() {
            return false;
        }
        i += 1;
    }
    proof {
        assert forall|limit: int| sound(pools_of(pieces@), limit) by {
            lemma_summable_is_sound(pieces@, limit);
        }
    }
    true
}

/// Every piece of a pool is a piece of the catalog.
proof fn lemma_pool_member(pieces: Seq<ArmorPiece>, slot: Slot, at: int)
    requires
        0 <= at < pool(pieces, slot).len(),
    ensures
        pieces.contains(pool(pieces, slot)[at]),
{
    let kept = pool(pieces, slot);
    assert(kept.contains(kept[at]));
    pieces.lemma_filter_contains_rev(|piece: ArmorPiece| bucket(piece.slot) == slot, kept[at]);
}

/// In a catalog of summable pieces the totals of any four pieces fit, so the
/// catalog can be searched under any weight limit.
pub proof fn lemma_summable_is_sound(pieces: Seq<ArmorPiece>, limit: int)
    requires
        all_summable(pieces),
    ensures
        sound(pools_of(pieces), limit),
{
    let pools = pools_of(pieces);
    assert forall|pick: Pick| #[trigger] feasible(pools, limit, pick) implies crate::armor::fits(
        pools.worn(pick),
    ) by {
        lemma_pool_member(pieces, Slot::Helm, pick.helm);
        lemma_pool_member(pieces, Slot::Chest, pick.chest);
        lemma_pool_member(pieces, Slot::Gauntlets, pick.gauntlet);
        lemma_pool_member(pieces, Slot::Legs, pick.leg);
        assert(pools.helms[pick.helm].summable());
        assert(pools.chests[pick.chest].summable());
        assert(pools.gauntlets[pick.gauntlet].summable());
        assert(pools.legs[pick.leg].summable());
    }
}

/// The pieces that weigh less than the limit, in their order.
pub open spec fn lighter(pieces: Seq<ArmorPiece>, limit: int) -> Seq<ArmorPiece> {
    pieces.filter(|piece: ArmorPiece| piece.weight < limit)
}

/// Keeps the pieces that weigh less than the limit. A piece as heavy as the
/// limit is dropped too.
pub fn lighter_than(pieces: &Vec<ArmorPiece>, limit: u16) -> (kept: Vec<ArmorPiece>)
    ensures
        kept@ == lighter(pieces@, limit as int),
{
    let mut kept: Vec<ArmorPiece> = Vec::new();
    let mut i: usize = 0;
    proof {
        reveal(Seq::filter);
        assert(pieces@.take(0) =~= Seq::<ArmorPiece>::empty());
    }
    while i < pieces.len()
        invariant
            i <= pieces.len(),
            kept@ == lighter(pieces@.take(i as int), limit as int),
        decreases pieces.len() - i,
    {
        proof {
            lemma_filter_grows(pieces@, i as int, |piece: ArmorPiece| piece.weight < limit as int);
        }
        if pieces[i].weight < limit {
            kept.push(pieces[i].clone());
        }
        i += 1;
    }
    proof {
        assert(pieces@.take(pieces.len() as int) =~= pieces@);
    }
    kept
}

/// `part` occurs in `text`: some stretch of `text` equals it.
pub open spec fn occurs_in(part: Seq<char>, text: Seq<char>) -> bool {
    exists|at: int|
        0 <= at <= text.len() - part.len() && #[trigger] text.subrange(at, at + part.len()) == part
}

/// One of the keywords occurs in the name.
pub open spec fn names_any(name: Seq<char>, keywords: Seq<String>) -> bool {
    exists|k: int| 0 <= k < keywords.len() && occurs_in(#[trigger] keywords[k]@, name)
}

/// The pieces whose names hold none of the keywords, in their order.
pub open spec fn unnamed(pieces: Seq<ArmorPiece>, keywords: Seq<String>) -> Seq<ArmorPiece> {
    pieces.filter(|piece: ArmorPiece| !names_any(piece.name@, keywords))
}

/// Calls `str::contains` with a string as the pattern: it tells whether the
/// pattern equals some part of the text.
#[verifier::external_body]
fn contains(text: &str, part: &str) -> (found: bool)
    ensures
        found == occurs_in(part@, text@),
{
    text.contains(part)
}

/// Tells whether one of the keywords occurs in the name.
pub fn is_named(name: &str, keywords: &Vec<String>) -> (found: bool)
    ensures
        found == names_any(name@, keywords@),
{
    let mut k: usize = 0;
    while k < keywords.len()
        invariant
            k <= keywords.len(),
            forall|j: int| 0 <= j < k ==> !occurs_in(#[trigger] keywords@[j]@, name@),
        decreases keywords.len() - k,
    {
        if contains(name, keywords[k].as_str()) {
            return true;
        }
        k += 1;
    }
    false
}

/// Drops the pieces whose names hold one of the keywords.
pub fn without_keywords(pieces: &Vec<ArmorPiece>, keywords: &Vec<String>) -> (kept: Vec<ArmorPiece>)
    ensures
        kept@ == unnamed(pieces@, keywords@),
{
    let mut kept: Vec<ArmorPiece> = Vec::new();
    let mut i: usize = 0;
    proof {
        reveal(Seq::filter);
        assert(pieces@.take(0) =~= Seq::<ArmorPiece>::empty());
    }
    while i < pieces.len()
        invariant
            i <= pieces.len(),
            kept@ == unnamed(pieces@.take(i as int), keywords@),
        decreases pieces.len() - i,
    {
        proof {
            lemma_filter_grows(
                pieces@,
                i as int,
                |piece: ArmorPiece| !names_any(piece.name@, keywords@),
            );
        }
        if !is_named(pieces[i].name.as_str(), keywords) {
            kept.push(pieces[i].clone());
        }
        i += 1;
    }
    proof {
        assert(pieces@.take(pieces.len() as int) =~= pieces@);
    }
    kept
}

} // verus!
