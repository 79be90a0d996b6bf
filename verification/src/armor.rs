//! The data model: slots, armor pieces and the totals of a four-piece set.

use vstd::prelude::*;

verus! {

/// The body slot a piece is worn in. `Empty` marks a piece that has not been
/// given a slot yet.
#[derive(Debug, Clone, Copy, PartialEq, Eq, Structural)]
pub enum Slot {
    Helm,
    Chest,
    Gauntlets,
    Legs,
    Empty,
}

/// One piece of armor. Every number is a fixed-point value in tenths.
/// `maximize_stat` repeats the attribute that the search maximizes.
#[derive(Debug, PartialEq)]
pub struct ArmorPiece {
    pub name: String,
    pub slot: Slot,
    pub physical: u16,
    pub strike: u16,
    pub slash: u16,
    pub pierce: u16,
    pub magic: u16,
    pub fire: u16,
    pub lightning: u16,
    pub holy: u16,
    pub immunity: u16,
    pub robustness: u16,
    pub focus: u16,
    pub vitality: u16,
    pub poise: u16,
    pub weight: u16,
    pub maximize_stat: u16,
}

impl ArmorPiece {
    /// A piece is blank when it has no name and every number is zero.
    pub open spec fn is_blank(&self) -> bool {
        &&& self.name@ == Seq::<char>::empty()
        &&& self.physical == 0
        &&& self.strike == 0
        &&& self.slash == 0
        &&& self.pierce == 0
        &&& self.magic == 0
        &&& self.fire == 0
        &&& self.lightning == 0
        &&& self.holy == 0
        &&& self.immunity == 0
        &&& self.robustness == 0
        &&& self.focus == 0
        &&& self.vitality == 0
        &&& self.poise == 0
        &&& self.weight == 0
        &&& self.maximize_stat == 0
    }

    /// The blank piece of a slot: wearing it means going without that slot.
    #[must_use]
    pub fn new(slot: Slot) -> (piece: Self)
        ensures
            piece.slot == slot,
            piece.is_blank(),
    {
        Self {
            name: String::new(),
            slot,
            physical: 0,
            strike: 0,
            slash: 0,
            pierce: 0,
            magic: 0,
            fire: 0,
            lightning: 0,
            holy: 0,
            immunity: 0,
            robustness: 0,
            focus: 0,
            vitality: 0,
            poise: 0,
            weight: 0,
            maximize_stat: 0,
        }
    }
}

impl Clone for ArmorPiece {
    fn clone(&self) -> (copy: Self)
        ensures
            copy == *self,
    {
        Self {
            name: self.name.clone(),
            slot: self.slot,
            physical: self.physical,
            strike: self.strike,
            slash: self.slash,
            pierce: self.pierce,
            magic: self.magic,
            fire: self.fire,
            lightning: self.lightning,
            holy: self.holy,
            immunity: self.immunity,
            robustness: self.robustness,
            focus: self.focus,
            vitality: self.vitality,
            poise: self.poise,
            weight: self.weight,
            maximize_stat: self.maximize_stat,
        }
    }
}

/// The mathematical value of an [`ArmorSet`]: the four names as sequences of
/// characters and every total as an unbounded integer.
pub struct Loadout {
    pub helm: Seq<char>,
    pub chest: Seq<char>,
    pub gauntlets: Seq<char>,
    pub legs: Seq<char>,
    pub physical: int,
    pub strike: int,
    pub slash: int,
    pub pierce: int,
    pub magic: int,
    pub fire: int,
    pub lightning: int,
    pub holy: int,
    pub immunity: int,
    pub robustness: int,
    pub focus: int,
    pub vitality: int,
    pub poise: int,
    pub weight: int,
    pub maximize_stat: int,
}

/// The loadout that wears nothing: no names, every total zero.
pub open spec fn bare() -> Loadout {
    Loadout {
        helm: Seq::empty(),
        chest: Seq::empty(),
        gauntlets: Seq::empty(),
        legs: Seq::empty(),
        physical: 0,
        strike: 0,
        slash: 0,
        pierce: 0,
        magic: 0,
        fire: 0,
        lightning: 0,
        holy: 0,
        immunity: 0,
        robustness: 0,
        focus: 0,
        vitality: 0,
        poise: 0,
        weight: 0,
        maximize_stat: 0,
    }
}

/// The loadout made of four pieces: their names, and for every attribute the
/// exact sum of the four values.
pub open spec fn combine(
    helm: ArmorPiece,
    chest: ArmorPiece,
    gauntlet: ArmorPiece,
    leg: ArmorPiece,
) -> Loadout {
    Loadout {
        helm: helm.name@,
        chest: chest.name@,
        gauntlets: gauntlet.name@,
        legs: leg.name@,
        physical: helm.physical + chest.physical + gauntlet.physical + leg.physical,
        strike: helm.strike + chest.strike + gauntlet.strike + leg.strike,
        slash: helm.slash + chest.slash + gauntlet.slash + leg.slash,
        pierce: helm.pierce + chest.pierce + gauntlet.pierce + leg.pierce,
        magic: helm.magic + chest.magic + gauntlet.magic + leg.magic,
        fire: helm.fire + chest.fire + gauntlet.fire + leg.fire,
        lightning: helm.lightning + chest.lightning + gauntlet.lightning + leg.lightning,
        holy: helm.holy + chest.holy + gauntlet.holy + leg.holy,
        immunity: helm.immunity + chest.immunity + gauntlet.immunity + leg.immunity,
        robustness: helm.robustness + chest.robustness + gauntlet.robustness + leg.robustness,
        focus: helm.focus + chest.focus + gauntlet.focus + leg.focus,
        vitality: helm.vitality + chest.vitality + gauntlet.vitality + leg.vitality,
        poise: helm.poise + chest.poise + gauntlet.poise + leg.poise,
        weight: helm.weight + chest.weight + gauntlet.weight + leg.weight,
        maximize_stat: helm.maximize_stat + chest.maximize_stat + gauntlet.maximize_stat
            + leg.maximize_stat,
    }
}

/// Every total of the loadout can be held in sixteen bits.
pub open spec fn fits(totals: Loadout) -> bool {
    &&& totals.physical <= u16::MAX
    &&& totals.strike <= u16::MAX
    &&& totals.slash <= u16::MAX
    &&& totals.pierce <= u16::MAX
    &&& totals.magic <= u16::MAX
    &&& totals.fire <= u16::MAX
    &&& totals.lightning <= u16::MAX
    &&& totals.holy <= u16::MAX
    &&& totals.immunity <= u16::MAX
    &&& totals.robustness <= u16::MAX
    &&& totals.focus <= u16::MAX
    &&& totals.vitality <= u16::MAX
    &&& totals.poise <= u16::MAX
    &&& totals.weight <= u16::MAX
    &&& totals.maximize_stat <= u16::MAX
}

/// The names of four pieces and the totals of their attributes.
#[derive(Debug, PartialEq)]
pub struct ArmorSet {
    pub helm: String,
    pub chest: String,
    pub gauntlets: String,
    pub legs: String,
    pub physical: u16,
    pub strike: u16,
    pub slash: u16,
    pub pierce: u16,
    pub magic: u16,
    pub fire: u16,
    pub lightning: u16,
    pub holy: u16,
    pub immunity: u16,
    pub robustness: u16,
    pub focus: u16,
    pub vitality: u16,
    pub poise: u16,
    pub weight: u16,
    pub maximize_stat: u16,
}

impl View for ArmorSet {
    type V = Loadout;

    open spec fn view(&self) -> Loadout {
        Loadout {
            helm: self.helm@,
            chest: self.chest@,
            gauntlets: self.gauntlets@,
            legs: self.legs@,
            physical: self.physical as int,
            strike: self.strike as int,
            slash: self.slash as int,
            pierce: self.pierce as int,
            magic: self.magic as int,
            fire: self.fire as int,
            lightning: self.lightning as int,
            holy: self.holy as int,
            immunity: self.immunity as int,
            robustness: self.robustness as int,
            focus: self.focus as int,
            vitality: self.vitality as int,
            poise: self.poise as int,
            weight: self.weight as int,
            maximize_stat: self.maximize_stat as int,
        }
    }
}

impl Clone for ArmorSet {
    fn clone(&self) -> (copy: Self)
        ensures
            copy == *self,
    {
        Self {
            helm: self.helm.clone(),
            chest: self.chest.clone(),
            gauntlets: self.gauntlets.clone(),
            legs: self.legs.clone(),
            physical: self.physical,
            strike: self.strike,
            slash: self.slash,
            pierce: self.pierce,
            magic: self.magic,
            fire: self.fire,
            lightning: self.lightning,
            holy: self.holy,
            immunity: self.immunity,
            robustness: self.robustness,
            focus: self.focus,
            vitality: self.vitality,
            poise: self.poise,
            weight: self.weight,
            maximize_stat: self.maximize_stat,
        }
    }
}

impl ArmorSet {
    /// The set that wears nothing. It also stands for "no set found".
    #[must_use]
    pub fn new() -> (set: Self)
        ensures
            set@ == bare(),
    {
        Self {
            helm: String::new(),
            chest: String::new(),
            gauntlets: String::new(),
            legs: String::new(),
            physical: 0,
            strike: 0,
            slash: 0,
            pierce: 0,
            magic: 0,
            fire: 0,
            lightning: 0,
            holy: 0,
            immunity: 0,
            robustness: 0,
            focus: 0,
            vitality: 0,
            poise: 0,
            weight: 0,
            maximize_stat: 0,
        }
    }

    /// The set made of the four pieces. Its totals are exact, so the sums
    /// have to fit the sixteen bits of a total.
    #[must_use]
    pub fn from(helm: ArmorPiece, chest: ArmorPiece, gauntlet: ArmorPiece, leg: ArmorPiece) -> (set:
        Self)
        requires
            fits(combine(helm, chest, gauntlet, leg)),
        ensures
            set@ == combine(helm, chest, gauntlet, leg),
    {
        Self {
            physical: helm.physical + chest.physical + gauntlet.physical + leg.physical,
            slash: helm.slash + chest.slash + gauntlet.slash + leg.slash,
            strike: helm.strike + chest.strike + gauntlet.strike + leg.strike,
            pierce: helm.pierce + chest.pierce + gauntlet.pierce + leg.pierce,
            magic: helm.magic + chest.magic + gauntlet.magic + leg.magic,
            fire: helm.fire + chest.fire + gauntlet.fire + leg.fire,
            lightning: helm.lightning + chest.lightning + gauntlet.lightning + leg.lightning,
            holy: helm.holy + chest.holy + gauntlet.holy + leg.holy,
            immunity: helm.immunity + chest.immunity + gauntlet.immunity + leg.immunity,
            robustness: helm.robustness + chest.robustness + gauntlet.robustness + leg.robustness,
            focus: helm.focus + chest.focus + gauntlet.focus + leg.focus,
            vitality: helm.vitality + chest.vitality + gauntlet.vitality + leg.vitality,
            poise: helm.poise + chest.poise + gauntlet.poise + leg.poise,
            weight: helm.weight + chest.weight + gauntlet.weight + leg.weight,
            maximize_stat: helm.maximize_stat + chest.maximize_stat + gauntlet.maximize_stat
                + leg.maximize_stat,
            helm: helm.name,
            chest: chest.name,
            gauntlets: gauntlet.name,
            legs: leg.name,
        }
    }
}

} // verus!
