use elden_boc::armor::{ArmorPiece, ArmorSet, Slot};

fn cleanrot_helm() -> ArmorPiece {
    ArmorPiece {
        name: "cleanrot helm".to_string(),
        slot: Slot::Helm,
        physical: 52,
        slash: 58,
        strike: 48,
        pierce: 63,
        magic: 45,
        fire: 46,
        lightning: 40,
        holy: 48,
        immunity: 270,
        robustness: 290,
        focus: 120,
        vitality: 140,
        poise: 90,
        weight: 64,
        maximize_stat: 52,
    }
}

fn cleanrot_armor() -> ArmorPiece {
    ArmorPiece {
        name: "cleanrot armor".to_string(),
        slot: Slot::Chest,
        physical: 146,
        slash: 160,
        strike: 134,
        pierce: 175,
        magic: 126,
        fire: 128,
        lightning: 114,
        holy: 135,
        immunity: 630,
        robustness: 670,
        focus: 280,
        vitality: 320,
        poise: 270,
        weight: 150,
        maximize_stat: 146,
    }
}

fn cleanrot_gauntlets() -> ArmorPiece {
    ArmorPiece {
        name: "cleanrot gauntlets".to_string(),
        slot: Slot::Gauntlets,
        physical: 36,
        slash: 40,
        strike: 33,
        pierce: 44,
        magic: 31,
        fire: 32,
        lightning: 28,
        holy: 33,
        immunity: 210,
        robustness: 220,
        focus: 90,
        vitality: 110,
        poise: 60,
        weight: 50,
        maximize_stat: 36,
    }
}

fn cleanrot_greaves() -> ArmorPiece {
    ArmorPiece {
        name: "cleanrot greaves".to_string(),
        slot: Slot::Legs,
        physical: 84,
        slash: 92,
        strike: 76,
        pierce: 101,
        magic: 72,
        fire: 73,
        lightning: 65,
        holy: 77,
        immunity: 390,
        robustness: 410,
        focus: 170,
        vitality: 200,
        poise: 160,
        weight: 93,
        maximize_stat: 84,
    }
}

#[test]
fn test_attribute_numbers_set() {
    let cleanrot_set: ArmorSet = ArmorSet::from(
        cleanrot_helm(),
        cleanrot_armor(),
        cleanrot_gauntlets(),
        cleanrot_greaves(),
    );

    let expected: ArmorSet = ArmorSet {
        helm: "cleanrot helm".to_string(),
        chest: "cleanrot armor".to_string(),
        gauntlets: "cleanrot gauntlets".to_string(),
        legs: "cleanrot greaves".to_string(),
        physical: 318,
        slash: 350,
        strike: 291,
        pierce: 383,
        magic: 274,
        fire: 279,
        lightning: 247,
        holy: 293,
        immunity: 1500,
        robustness: 1590,
        focus: 660,
        vitality: 770,
        poise: 580,
        weight: 357,
        maximize_stat: 318,
    };

    assert_eq!(cleanrot_set, expected);
}

#[test]
fn the_blank_piece_has_its_slot_and_nothing_else() {
    let blank = ArmorPiece::new(Slot::Gauntlets);
    let expected = ArmorPiece {
        name: String::new(),
        slot: Slot::Gauntlets,
        physical: 0,
        slash: 0,
        strike: 0,
        pierce: 0,
        magic: 0,
        fire: 0,
        lightning: 0,
        holy: 0,
        immunity: 0,
        robustness: 0,
        focus: 0,
        vitality: 0,
        poise: 0,
        weight: 0,
        maximize_stat: 0,
    };
    assert_eq!(blank, expected);
    assert_eq!(ArmorPiece::new(Slot::Empty).slot, Slot::Empty);
}

#[test]
fn the_bare_set_is_all_zero() {
    let bare = ArmorSet::new();
    let expected = ArmorSet {
        helm: String::new(),
        chest: String::new(),
        gauntlets: String::new(),
        legs: String::new(),
        physical: 0,
        slash: 0,
        strike: 0,
        pierce: 0,
        magic: 0,
        fire: 0,
        lightning: 0,
        holy: 0,
        immunity: 0,
        robustness: 0,
        focus: 0,
        vitality: 0,
        poise: 0,
        weight: 0,
        maximize_stat: 0,
    };
    assert_eq!(bare, expected);
}

#[test]
fn a_set_of_blank_pieces_is_the_bare_set() {
    let set = ArmorSet::from(
        ArmorPiece::new(Slot::Helm),
        ArmorPiece::new(Slot::Chest),
        ArmorPiece::new(Slot::Gauntlets),
        ArmorPiece::new(Slot::Legs),
    );
    assert_eq!(set, ArmorSet::new());
}

#[test]
fn a_set_keeps_each_attribute_apart() {
    let mut helm = ArmorPiece::new(Slot::Helm);
    helm.physical = 1;
    helm.strike = 2;
    helm.slash = 3;
    helm.pierce = 4;
    helm.magic = 5;
    helm.fire = 6;
    helm.lightning = 7;
    helm.holy = 8;
    helm.immunity = 9;
    helm.robustness = 10;
    helm.focus = 11;
    helm.vitality = 12;
    helm.poise = 13;
    helm.weight = 14;
    helm.maximize_stat = 15;
    let set = ArmorSet::from(
        helm,
        ArmorPiece::new(Slot::Chest),
        ArmorPiece::new(Slot::Gauntlets),
        ArmorPiece::new(Slot::Legs),
    );
    assert_eq!(
        [
            set.physical,
            set.strike,
            set.slash,
            set.pierce,
            set.magic,
            set.fire,
            set.lightning,
            set.holy,
            set.immunity,
            set.robustness,
            set.focus,
            set.vitality,
            set.poise,
            set.weight,
            set.maximize_stat
        ],
        [1, 2, 3, 4, 5, 6, 7, 8, 9, 10, 11, 12, 13, 14, 15]
    );
}

#[test]
fn a_clone_of_a_piece_equals_it() {
    let helm = cleanrot_helm();
    assert_eq!(helm.clone(), helm);
    assert_ne!(helm.clone(), cleanrot_armor());
}
