use elden_boc::armor::{ArmorPiece, ArmorSet, Slot};
use elden_boc::catalog::is_searchable;
use elden_boc::optimizer::{find_best, get_set};
use elden_boc::table::{add_slot, piece_from_row, table_rows, Missing};

const MAXIMIZE_STAT: usize = 0;
const WEIGHT_RESTRICTION: u16 = 60;

/// A cell is read as a number with a decimal point and kept in tenths.
fn tenths(text: &str) -> Option<u16> {
    let value = text.parse::<f32>().ok()?;
    if value < 0.0 {
        return None;
    }
    Some((value * 10.0) as u16)
}

fn row(cells: &[&str]) -> String {
    let mut out = String::from("<tr>");
    for cell in cells {
        out.push_str(&format!("<td> {cell}\n</td>"));
    }
    out.push_str("</tr>");
    out
}

fn page(rows: &[String]) -> String {
    format!(
        "<html><body><h1>Armor</h1><table><thead><tr><th>Name</th></tr></thead><tbody>{}</tbody></table></body></html>",
        rows.concat()
    )
}

fn pieces_from_text(slot: Slot, text: &str, maximize_stat: usize) -> Vec<ArmorPiece> {
    let rows = table_rows(text).expect("no table");
    let mut pieces = Vec::new();
    for cells in rows {
        let name = cells.first().map_or("", String::as_str);
        let values: Vec<Option<u16>> = cells.iter().skip(1).map(|cell| tenths(cell)).collect();
        pieces.push(piece_from_row(slot, name, &values, maximize_stat));
    }
    pieces
}

fn helms() -> String {
    page(&[
        row(&[
            "Cleanrot Helm", "5.2", "4.8", "5.8", "6.3", "4.5", "4.6", "4", "4.8", "27", "29",
            "12", "14", "9", "6.4", "How to get it",
        ]),
        row(&[
            "Small Hat", "1.4", "1.2", "1.1", "1", "3", "3", "3", "3", "10", "5", "13", "13", "0",
            "1.2",
        ]),
    ])
}

fn chests() -> String {
    page(&[
        row(&[
            "Cleanrot Armor", "14.6", "13.4", "16", "17.5", "12.6", "12.8", "11.4", "13.5", "63",
            "67", "28", "32", "27", "15",
        ]),
        row(&[
            "Cloth Garb", "5.3", "4.5", "3.4", "4.2", "11", "11", "10.5", "10.3", "42", "23", "53",
            "55", "4", "3.2",
        ]),
    ])
}

fn gauntlets() -> String {
    page(&[
        row(&[
            "Cleanrot Gauntlets", "3.6", "3.3", "4", "4.4", "3.1", "3.2", "2.8", "3.3", "21", "22",
            "9", "11", "6", "5",
        ]),
        row(&[
            "Gold Bracelets", "1.3", "1.1", "0.9", "1", "2.7", "2.7", "2.6", "2.6", "10", "5",
            "13", "13", "1", "1.1",
        ]),
    ])
}

fn legs() -> String {
    page(&[
        row(&[
            "Cleanrot Greaves", "8.4", "7.6", "9.2", "10.1", "7.2", "7.3", "6.5", "7.7", "39",
            "41", "17", "20", "16", "9.3",
        ]),
        row(&[
            "Old Aristocrat Shoes", "3.1", "2.6", "2", "2.5", "6.5", "6.5", "6.2", "6.1", "25",
            "14", "31", "32", "3", "1.7",
        ]),
    ])
}

fn all_pieces(maximize_stat: usize) -> Vec<ArmorPiece> {
    let mut pieces: Vec<ArmorPiece> = Vec::new();
    for (slot, text) in [
        (Slot::Helm, helms()),
        (Slot::Chest, chests()),
        (Slot::Gauntlets, gauntlets()),
        (Slot::Legs, legs()),
    ] {
        let slot_pieces = pieces_from_text(slot, &text, maximize_stat);
        add_slot(&mut pieces, slot_pieces, slot);
    }
    pieces
}

fn find(pieces: &[ArmorPiece], name: &str) -> ArmorPiece {
    let mut found = ArmorPiece::new(Slot::Empty);
    for piece in pieces {
        if piece.name == name {
            found = piece.clone();
            break;
        }
    }
    found
}

#[test]
fn test_attribtue_numbers_helm() {
    let cleanrot_helm = find(&all_pieces(MAXIMIZE_STAT), "cleanrot helm");
    let expected = ArmorPiece {
        // Cleanrot Helm has a unique number for each stat.
        name: "cleanrot helm".to_string(),
        slot: Slot::Helm,
        physical: 52,
        slash: 58,
        strike: 48,
        pierce: 63,
        magic: 45,
        fire: 46,
        lightning: 40,
        holy: 48,
        immunity: 270,
        robustness: 290,
        focus: 120,
        vitality: 140,
        poise: 90,
        weight: 64,
        maximize_stat: 52,
    };
    assert_eq!(cleanrot_helm, expected);
}

#[test]
fn test_attribute_numbers_chest() {
    let cleanrot_armor = find(&all_pieces(MAXIMIZE_STAT), "cleanrot armor");
    let expected = ArmorPiece {
        name: "cleanrot armor".to_string(),
        slot: Slot::Chest,
        physical: 146,
        slash: 160,
        strike: 134,
        pierce: 175,
        magic: 126,
        fire: 128,
        lightning: 114,
        holy: 135,
        immunity: 630,
        robustness: 670,
        focus: 280,
        vitality: 320,
        poise: 270,
        weight: 150,
        maximize_stat: 146,
    };
    assert_eq!(cleanrot_armor, expected);
}

#[test]
fn test_attribute_numbers_gauntlet() {
    let cleanrot_gauntlets = find(&all_pieces(MAXIMIZE_STAT), "cleanrot gauntlets");
    let expected = ArmorPiece {
        name: "cleanrot gauntlets".to_string(),
        slot: Slot::Gauntlets,
        physical: 36,
        slash: 40,
        strike: 33,
        pierce: 44,
        magic: 31,
        fire: 32,
        lightning: 28,
        holy: 33,
        immunity: 210,
        robustness: 220,
        focus: 90,
        vitality: 110,
        poise: 60,
        weight: 50,
        maximize_stat: 36,
    };
    assert_eq!(cleanrot_gauntlets, expected);
}

#[test]
fn test_attribute_numbers_greaves() {
    let cleanrot_greaves = find(&all_pieces(MAXIMIZE_STAT), "cleanrot greaves");
    let expected = ArmorPiece {
        name: "cleanrot greaves".to_string(),
        slot: Slot::Legs,
        physical: 84,
        slash: 92,
        strike: 76,
        pierce: 101,
        magic: 72,
        fire: 73,
        lightning: 65,
        holy: 77,
        immunity: 390,
        robustness: 410,
        focus: 170,
        vitality: 200,
        poise: 160,
        weight: 93,
        maximize_stat: 84,
    };
    assert_eq!(cleanrot_greaves, expected);
}

#[test]
fn test_best_set() {
    let expected = ArmorSet {
        helm: "".to_string(),
        chest: "cloth garb".to_string(),
        gauntlets: "gold bracelets".to_string(),
        legs: "old aristocrat shoes".to_string(),
        physical: 97,
        slash: 63,
        strike: 82,
        pierce: 77,
        magic: 202,
        fire: 202,
        lightning: 193,
        holy: 190,
        immunity: 770,
        robustness: 420,
        focus: 970,
        vitality: 1000,
        poise: 80,
        weight: 60,
        maximize_stat: 97,
    };
    let pieces = all_pieces(MAXIMIZE_STAT);
    assert!(is_searchable(&pieces));
    let result = get_set(WEIGHT_RESTRICTION, pieces.clone());
    println!("{}", result.to_text());
    assert_eq!(result, expected);
    assert_eq!(find_best(WEIGHT_RESTRICTION, &pieces), expected);
}

#[test]
fn the_catalog_lists_each_slot_and_then_its_blank_piece() {
    let pieces = all_pieces(MAXIMIZE_STAT);
    let names: Vec<&str> = pieces.iter().map(|piece| piece.name.as_str()).collect();
    assert_eq!(
        names,
        vec![
            "cleanrot helm",
            "small hat",
            "",
            "cleanrot armor",
            "cloth garb",
            "",
            "cleanrot gauntlets",
            "gold bracelets",
            "",
            "cleanrot greaves",
            "old aristocrat shoes",
            "",
        ]
    );
    assert_eq!(pieces[2], ArmorPiece::new(Slot::Helm));
    assert_eq!(pieces[5], ArmorPiece::new(Slot::Chest));
    assert_eq!(pieces[8], ArmorPiece::new(Slot::Gauntlets));
    assert_eq!(pieces[11], ArmorPiece::new(Slot::Legs));
}

#[test]
fn add_slot_to_an_empty_catalog_adds_the_blank_piece() {
    let mut pieces: Vec<ArmorPiece> = Vec::new();
    add_slot(&mut pieces, Vec::new(), Slot::Chest);
    assert_eq!(pieces, vec![ArmorPiece::new(Slot::Chest)]);
}

#[test]
fn the_score_follows_the_chosen_attribute() {
    let expected: [u16; 13] = [52, 48, 58, 63, 45, 46, 40, 48, 270, 290, 120, 140, 90];
    for (index, value) in expected.iter().enumerate() {
        let helm = find(&all_pieces(index), "cleanrot helm");
        assert_eq!(helm.maximize_stat, *value);
        assert_eq!(helm.attribute_at(index), *value);
    }
    assert_eq!(find(&all_pieces(13), "cleanrot helm").maximize_stat, 0);
    assert_eq!(find(&all_pieces(usize::MAX), "cleanrot helm").maximize_stat, 0);
}

#[test]
fn table_rows_trims_every_cell() {
    let text = page(&[row(&["  Cleanrot Helm  ", "\t5.2 "]), row(&["x"]), row(&[])]);
    let rows = table_rows(&text).unwrap();
    assert_eq!(
        rows,
        vec![
            vec!["Cleanrot Helm".to_string(), "5.2".to_string()],
            vec!["x".to_string()],
            vec![],
        ]
    );
}

#[test]
fn table_rows_trims_white_space_of_every_kind() {
    let text = "<table><tr><td>\u{a0}\u{3000}Iron  Helmet\r\n\t</td><td>\u{2003}</td></tr></table>";
    let rows = table_rows(text).unwrap();
    assert_eq!(rows, vec![vec!["Iron  Helmet".to_string(), String::new()]]);
}

#[test]
fn table_rows_reads_nested_markup_as_text() {
    let text = "<table><tr><td><a href=\"/x\">Iron <b>Helmet</b></a></td><td>4.6</td></tr></table>";
    let rows = table_rows(text).unwrap();
    assert_eq!(rows, vec![vec!["Iron Helmet".to_string(), "4.6".to_string()]]);
}

#[test]
fn table_rows_reads_the_first_table_only() {
    let text = "<table><tbody><tr><td>one</td></tr></tbody></table>\
                <table><tbody><tr><td>two</td></tr></tbody></table>";
    assert_eq!(table_rows(text).unwrap(), vec![vec!["one".to_string()]]);
}

#[test]
fn a_page_without_a_table_is_refused() {
    assert_eq!(table_rows("<html><body><p>nothing</p></body></html>"), Err(Missing::Table));
    assert_eq!(table_rows(""), Err(Missing::Table));
}

#[test]
fn a_table_without_a_body_is_refused() {
    assert_eq!(table_rows("<table></table>"), Err(Missing::Body));
    assert_eq!(
        table_rows("<table><caption>empty</caption></table>"),
        Err(Missing::Body)
    );
}

#[test]
fn a_table_with_an_empty_body_has_no_rows() {
    assert_eq!(table_rows("<table><tbody></tbody></table>"), Ok(Vec::new()));
}

#[test]
fn a_row_keeps_its_name_in_lower_case() {
    let piece = piece_from_row(Slot::Helm, "Cleanrot HELM", &Vec::new(), 0);
    assert_eq!(piece.name, "cleanrot helm");
    assert_eq!(piece.slot, Slot::Helm);
    assert_eq!(piece.weight, 0);
}

#[test]
fn a_row_leaves_out_what_its_cells_do_not_give() {
    let values = vec![Some(1), None, Some(3), None, None, None, None, None, None, None, None];
    let piece = piece_from_row(Slot::Legs, "short", &values, 2);
    assert_eq!(piece.physical, 1);
    assert_eq!(piece.strike, 0);
    assert_eq!(piece.slash, 3);
    assert_eq!(piece.pierce, 0);
    assert_eq!(piece.poise, 0);
    assert_eq!(piece.weight, 0);
    assert_eq!(piece.maximize_stat, 3);
}

#[test]
fn a_row_takes_fourteen_numbers_and_no_more() {
    let values: Vec<Option<u16>> = (1..=20).map(Some).collect();
    let piece = piece_from_row(Slot::Chest, "long", &values, 12);
    let expected = ArmorPiece {
        name: "long".to_string(),
        slot: Slot::Chest,
        physical: 1,
        strike: 2,
        slash: 3,
        pierce: 4,
        magic: 5,
        fire: 6,
        lightning: 7,
        holy: 8,
        immunity: 9,
        robustness: 10,
        focus: 11,
        vitality: 12,
        poise: 13,
        weight: 14,
        maximize_stat: 13,
    };
    assert_eq!(piece, expected);
}

#[test]
fn cells_that_are_no_numbers_leave_zero() {
    let text = page(&[row(&["Odd", "-", "-1.5", "2.5", "", "n/a", "7"])]);
    let pieces = pieces_from_text(Slot::Gauntlets, &text, 2);
    assert_eq!(pieces.len(), 1);
    assert_eq!(pieces[0].name, "odd");
    assert_eq!(pieces[0].physical, 0);
    assert_eq!(pieces[0].strike, 0);
    assert_eq!(pieces[0].slash, 25);
    assert_eq!(pieces[0].pierce, 0);
    assert_eq!(pieces[0].magic, 0);
    assert_eq!(pieces[0].fire, 70);
    assert_eq!(pieces[0].maximize_stat, 25);
}
