//! Text for display: the names of the slots, fixed-point values with their one
//! decimal digit, and the listing of a set.

use crate::armor::{ArmorSet, Loadout, Slot};
use vstd::prelude::*;
use vstd::string::*;

verus! {

/// The character of a decimal digit.
pub open spec fn digit(value: int) -> char {
    if value == 0 {
        '0'
    } else if value == 1 {
        '1'
    } else if value == 2 {
        '2'
    } else if value == 3 {
        '3'
    } else if value == 4 {
        '4'
    } else if value == 5 {
        '5'
    } else if value == 6 {
        '6'
    } else if value == 7 {
        '7'
    } else if value == 8 {
        '8'
    } else {
        '9'
    }
}

/// A natural number in decimal digits, without leading zeros.
pub open spec fn decimal(value: nat) -> Seq<char>
    decreases value,
{
    if value < 10 {
        seq![digit(value as int)]
    } else {
        decimal(value / 10).push(digit((value % 10) as int))
    }
}

/// A value in tenths, written in units: the whole part, then a point and the
/// tenth where the tenth is not zero. 357 reads "35.7", and 350 reads "35".
pub open spec fn tenths(value: nat) -> Seq<char> {
    if value % 10 == 0 {
        decimal(value / 10)
    } else {
        decimal(value / 10).push('.').push(digit((value % 10) as int))
    }
}

/// One line of a listing: the label, the value, and the end of the line.
pub open spec fn line(label: Seq<char>, value: Seq<char>) -> Seq<char> {
    label + value + "\n"@
}

/// The listing of a loadout: the four names, then the weight and the
/// thirteen attributes in units, one line each.
pub open spec fn rendered(set: Loadout) -> Seq<char> {
    line("chest:      "@, set.chest)
        + line("helm:       "@, set.helm)
        + line("gauntlets:  "@, set.gauntlets)
        + line("legs:       "@, set.legs)
        + line("weight:     "@, tenths(set.weight as nat))
        + line("physical:   "@, tenths(set.physical as nat))
        + line("strike:     "@, tenths(set.strike as nat))
        + line("slash:      "@, tenths(set.slash as nat))
        + line("pierce:     "@, tenths(set.pierce as nat))
        + line("magic:      "@, tenths(set.magic as nat))
        + line("fire:       "@, tenths(set.fire as nat))
        + line("lightning:  "@, tenths(set.lightning as nat))
        + line("holy:       "@, tenths(set.holy as nat))
        + line("immunity:   "@, tenths(set.immunity as nat))
        + line("robustness: "@, tenths(set.robustness as nat))
        + line("focus:      "@, tenths(set.focus as nat))
        + line("vitality:   "@, tenths(set.vitality as nat))
        + line("poise:      "@, tenths(set.poise as nat))
}

/// The name of a slot.
pub open spec fn slot_name(slot: Slot) -> Seq<char> {
    match slot {
        Slot::Helm => "Helm"@,
        Slot::Chest => "Chest"@,
        Slot::Gauntlets => "Gauntlets"@,
        Slot::Legs => "Legs"@,
        Slot::Empty => "Empty"@,
    }
}

impl Slot {
    /// The name of the slot.
    pub fn to_text(&self) -> (text: String)
        ensures
            text@ == slot_name(*self),
    {
        match self {
            Slot::Helm => String::from_str("Helm"),
            Slot::Chest => String::from_str("Chest"),
            Slot::Gauntlets => String::from_str("Gauntlets"),
            Slot::Legs => String::from_str("Legs"),
            Slot::Empty => String::from_str("Empty"),
        }
    }
}

/// The text of one decimal digit.
fn digit_text(value: u16) -> (text: &'static str)
    requires
        value < 10,
    ensures
        text@ == seq![digit(value as int)],
{
    proof {
        reveal_strlit("0");
        reveal_strlit("1");
        reveal_strlit("2");
        reveal_strlit("3");
        reveal_strlit("4");
        reveal_strlit("5");
        reveal_strlit("6");
        reveal_strlit("7");
        reveal_strlit("8");
        reveal_strlit("9");
    }
    let text = match value {
        0 => "0",
        1 => "1",
        2 => "2",
        3 => "3",
        4 => "4",
        5 => "5",
        6 => "6",
        7 => "7",
        8 => "8",
        _ => "9",
    };
    assert(text@ =~= seq![digit(value as int)]);
    text
}

/// Appends a number in decimal digits.
fn push_decimal(out: &mut String, value: u16)
    ensures
        final(out)@ == old(out)@ + decimal(value as nat),
    decreases value,
{
    if value >= 10 {
        push_decimal(out, value / 10);
    }
    out.append(digit_text(value % 10));
    assert(out@ =~= old(out)@ + decimal(value as nat));
}

/// A value in tenths, written in units.
pub fn tenths_text(value: u16) -> (text: String)
    ensures
        text@ == tenths(value as nat),
{
    let mut text = String::new();
    push_decimal(&mut text, value / 10);
    if value % 10 != 0 {
        proof {
            reveal_strlit(".");
        }
        text.append(".");
        text.append(digit_text(value % 10));
    }
    assert(text@ =~= tenths(value as nat));
    text
}

/// Appends one line of a listing.
fn push_line(out: &mut String, label: &str, value: &str)
    ensures
        final(out)@ == old(out)@ + line(label@, value@),
{
    out.append(label);
    out.append(value);
    out.append("\n");
    assert(out@ =~= old(out)@ + line(label@, value@));
}

/// Appends one line of a listing whose value is a number in tenths.
fn push_value(out: &mut String, label: &str, value: u16)
    ensures
        final(out)@ == old(out)@ + line(label@, tenths(value as nat)),
{
    let text = tenths_text(value);
    push_line(out, label, text.as_str());
}

impl ArmorSet {
    /// The listing of the set.
    pub fn to_text(&self) -> (text: String)
        ensures
            text@ == rendered(self@),
    {
        let mut text = String::new();
        push_line(&mut text, "chest:      ", self.chest.as_str());
        assert(text@ =~= line("chest:      "@, self.chest@));
        push_line(&mut text, "helm:       ", self.helm.as_str());
        push_line(&mut text, "gauntlets:  ", self.gauntlets.as_str());
        push_line(&mut text, "legs:       ", self.legs.as_str());
        push_value(&mut text, "weight:     ", self.weight);
        push_value(&mut text, "physical:   ", self.physical);
        push_value(&mut text, "strike:     ", self.strike);
        push_value(&mut text, "slash:      ", self.slash);
        push_value(&mut text, "pierce:     ", self.pierce);
        push_value(&mut text, "magic:      ", self.magic);
        push_value(&mut text, "fire:       ", self.fire);
        push_value(&mut text, "lightning:  ", self.lightning);
        push_value(&mut text, "holy:       ", self.holy);
        push_value(&mut text, "immunity:   ", self.immunity);
        push_value(&mut text, "robustness: ", self.robustness);
        push_value(&mut text, "focus:      ", self.focus);
        push_value(&mut text, "vitality:   ", self.vitality);
        push_value(&mut text, "poise:      ", self.poise);
        text
    }
}

} // verus!
