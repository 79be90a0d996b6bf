//! From the rows of an armor table to the pieces of a catalog.
//!
//! A row names a piece in its first cell and gives fourteen numbers in the
//! cells that follow: the thirteen attributes, then the weight. The markup is
//! read by the `soup` crate; turning the text of a cell into a number is left
//! to the caller, who hands the numbers in.

use crate::armor::{ArmorPiece, Slot};
use soup::{NodeExt, QueryBuilderExt, Soup};
use vstd::prelude::*;

verus! {

/// What a page lacks when no rows can be read from it.
#[derive(Debug, Clone, Copy, PartialEq, Eq, Structural)]
pub enum Missing {
    /// The page has no `table` element.
    Table,
    /// The first table has no `tbody` element.
    Body,
}

/// What `soup` reads from a page: for every `tr` element below the first
/// `tbody` of the first `table`, in the order of the document, the texts of
/// the `td` elements below it.
pub uninterp spec fn table_cells(page: Seq<char>) -> Result<Seq<Seq<Seq<char>>>, Missing>;

/// What `char::is_whitespace` tells of a character: whether it is white space
/// as Unicode defines it.
pub uninterp spec fn is_white_space(character: char) -> bool;

/// The text without the white space at its start.
pub open spec fn without_leading_space(text: Seq<char>) -> Seq<char>
    decreases text.len(),
{
    if text.len() > 0 && is_white_space(text.first()) {
        without_leading_space(text.drop_first())
    } else {
        text
    }
}

/// The text without the white space at its end.
pub open spec fn without_trailing_space(text: Seq<char>) -> Seq<char>
    decreases text.len(),
{
    if text.len() > 0 && is_white_space(text.last()) {
        without_trailing_space(text.drop_last())
    } else {
        text
    }
}

/// The text without the white space at its two ends.
pub open spec fn trimmed(text: Seq<char>) -> Seq<char> {
    without_trailing_space(without_leading_space(text))
}

/// What `str::to_lowercase` makes of a text.
pub uninterp spec fn lowercased(text: Seq<char>) -> Seq<char>;

/// The texts of a row of cells.
pub open spec fn texts(row: Seq<String>) -> Seq<Seq<char>> {
    row.map_values(|cell: String| cell@)
}

/// The texts of the rows of a table.
pub open spec fn row_texts(rows: Seq<Vec<String>>) -> Seq<Seq<Seq<char>>> {
    rows.map_values(|row: Vec<String>| texts(row@))
}

/// Every cell of the table, trimmed.
pub open spec fn trimmed_cells(cells: Seq<Seq<Seq<char>>>) -> Seq<Seq<Seq<char>>> {
    cells.map_values(|row: Seq<Seq<char>>| row.map_values(|cell: Seq<char>| trimmed(cell)))
}

/// Parses the page with `Soup::new` and queries it with `tag`, `find` and
/// `find_all`; each cell is read with `NodeExt::text`. The contract claims
/// only that what comes back is a function of the page: the same page gives
/// the same cells, and a page without a table or a table body gives the
/// matching error.
#[verifier::external_body]
fn read_table(page: &str) -> (cells: Result<Vec<Vec<String>>, Missing>)
    ensures
        match cells {
            Ok(rows) => table_cells(page@) == Ok::<Seq<Seq<Seq<char>>>, Missing>(row_texts(rows@)),
            Err(missing) => table_cells(page@) == Err::<Seq<Seq<Seq<char>>>, Missing>(missing),
        },
{
    let soup = Soup::new(page);
    let table = soup.tag("table").find().ok_or(Missing::Table)?;
    let body = table.tag("tbody").find().ok_or(Missing::Body)?;
    let rows = body.tag("tr").find_all();
    Ok(rows.map(|row| row.tag("td").find_all().map(|cell| cell.text()).collect()).collect())
}

/// Calls `str::trim`, which takes the white space off the two ends of a
/// text. White space is what `char::is_whitespace` tells it to be.
#[verifier::external_body]
fn trim(text: &str) -> (inner: &str)
    ensures
        inner@ == trimmed(text@),
        inner@.len() > 0 ==> !is_white_space(inner@.first()) && !is_white_space(inner@.last()),
{
    text.trim()
}

/// Calls `str::to_lowercase`. The contract names the result.
#[verifier::external_body]
fn lowercase(text: &str) -> (lower: String)
    ensures
        lower@ == lowercased(text@),
{
    text.to_lowercase()
}

/// The cells of one row, trimmed.
fn trim_row(row: &Vec<String>) -> (out: Vec<String>)
    ensures
        texts(out@) == texts(row@).map_values(|cell: Seq<char>| trimmed(cell)),
{
    let mut out: Vec<String> = Vec::new();
    let mut i: usize = 0;
    while i < row.len()
        invariant
            i <= row.len(),
            out.len() == i,
            forall|j: int| 0 <= j < i ==> (#[trigger] out@[j])@ == trimmed(row@[j]@),
        decreases row.len() - i,
    {
        let inner = trim(row[i].as_str());
        out.push(String::from_str(inner));
        i += 1;
    }
    assert(texts(out@) =~= texts(row@).map_values(|cell: Seq<char>| trimmed(cell)));
    out
}

/// The rows of the armor table of a page, every cell trimmed. A page
/// without a table, or whose table has no body, gives the matching error.
pub fn table_rows(page: &str) -> (rows: Result<Vec<Vec<String>>, Missing>)
    ensures
        match rows {
            Ok(found) => table_cells(page@) is Ok && row_texts(found@) == trimmed_cells(
                table_cells(page@)->Ok_0,
            ),
            Err(missing) => table_cells(page@) == Err::<Seq<Seq<Seq<char>>>, Missing>(missing),
        },
{
    match read_table(page) {
        Ok(raw) => {
            let mut found: Vec<Vec<String>> = Vec::new();
            let mut i: usize = 0;
            while i < raw.len()
                invariant
                    i <= raw.len(),
                    found.len() == i,
                    forall|j: int|
                        0 <= j < i ==> texts((#[trigger] found@[j])@) == texts(
                            raw@[j]@,
                        ).map_values(|cell: Seq<char>| trimmed(cell)),
                decreases raw.len() - i,
            {
                found.push(trim_row(&raw[i]));
                i += 1;
            }
            assert(row_texts(found@) =~= trimmed_cells(row_texts(raw@)));
            Ok(found)
        },
        Err(missing) => Err(missing),
    }
}

/// The attribute of a piece that the index chooses: the thirteen attributes
/// in the order of the columns of the table, from 0 for `physical` to 12 for
/// `poise`. Any other index chooses nothing and gives zero.
pub open spec fn attribute(piece: ArmorPiece, index: int) -> int {
    if index == 0 {
        piece.physical as int
    } else if index == 1 {
        piece.strike as int
    } else if index == 2 {
        piece.slash as int
    } else if index == 3 {
        piece.pierce as int
    } else if index == 4 {
        piece.magic as int
    } else if index == 5 {
        piece.fire as int
    } else if index == 6 {
        piece.lightning as int
    } else if index == 7 {
        piece.holy as int
    } else if index == 8 {
        piece.immunity as int
    } else if index == 9 {
        piece.robustness as int
    } else if index == 10 {
        piece.focus as int
    } else if index == 11 {
        piece.vitality as int
    } else if index == 12 {
        piece.poise as int
    } else {
        0
    }
}

impl ArmorPiece {
    /// The value of the attribute that the index chooses.
    pub fn attribute_at(&self, index: usize) -> (value: u16)
        ensures
            value == attribute(*self, index as int),
    {
        match index {
            0 => self.physical,
            1 => self.strike,
            2 => self.slash,
            3 => self.pierce,
            4 => self.magic,
            5 => self.fire,
            6 => self.lightning,
            7 => self.holy,
            8 => self.immunity,
            9 => self.robustness,
            10 => self.focus,
            11 => self.vitality,
            12 => self.poise,
            _ => 0,
        }
    }
}

/// The number in a column of a row: zero where the row is shorter or the
/// cell gave no number.
pub open spec fn column(values: Seq<Option<u16>>, at: int) -> u16 {
    if 0 <= at < values.len() {
        match values[at] {
            Some(value) => value,
            None => 0,
        }
    } else {
        0
    }
}

/// The number in a column of a row.
fn column_at(values: &Vec<Option<u16>>, at: usize) -> (value: u16)
    ensures
        value == column(values@, at as int),
{
    if at < values.len() {
        match values[at] {
            Some(value) => value,
            None => 0,
        }
    } else {
        0
    }
}

/// The piece that a row of the table describes. `name` is the text of the
/// first cell and is kept in lower case. `values` are the numbers of the cells
/// that follow, in tenths, `None` where a cell gave none: the thirteen
/// attributes, then the weight; further values are not looked at. The score of
/// the piece is the attribute that `maximize_stat` chooses.
pub fn piece_from_row(slot: Slot, name: &str, values: &Vec<Option<u16>>, maximize_stat: usize) -> (piece:
    ArmorPiece)
    ensures
        piece.slot == slot,
        piece.name@ == lowercased(name@),
        piece.physical == column(values@, 0),
        piece.strike == column(values@, 1),
        piece.slash == column(values@, 2),
        piece.pierce == column(values@, 3),
        piece.magic == column(values@, 4),
        piece.fire == column(values@, 5),
        piece.lightning == column(values@, 6),
        piece.holy == column(values@, 7),
        piece.immunity == column(values@, 8),
        piece.robustness == column(values@, 9),
        piece.focus == column(values@, 10),
        piece.vitality == column(values@, 11),
        piece.poise == column(values@, 12),
        piece.weight == column(values@, 13),
        piece.maximize_stat == attribute(piece, maximize_stat as int),
{
    let mut piece = ArmorPiece {
        name: lowercase(name),
        slot,
        physical: column_at(values, 0),
        strike: column_at(values, 1),
        slash: column_at(values, 2),
        pierce: column_at(values, 3),
        magic: column_at(values, 4),
        fire: column_at(values, 5),
        lightning: column_at(values, 6),
        holy: column_at(values, 7),
        immunity: column_at(values, 8),
        robustness: column_at(values, 9),
        focus: column_at(values, 10),
        vitality: column_at(values, 11),
        poise: column_at(values, 12),
        weight: column_at(values, 13),
        maximize_stat: 0,
    };
    piece.maximize_stat = piece.attribute_at(maximize_stat);
    piece
}

/// Adds the pieces of one slot to a catalog, and after them the blank piece
/// of the slot, so that a set can go without the slot.
pub fn add_slot(catalog: &mut Vec<ArmorPiece>, pieces: Vec<ArmorPiece>, slot: Slot)
    ensures
        final(catalog)@.len() == old(catalog)@.len() + pieces@.len() + 1,
        final(catalog)@.drop_last() == old(catalog)@ + pieces@,
        final(catalog)@.last().slot == slot,
        final(catalog)@.last().is_blank(),
{
    let mut pieces = pieces;
    let ghost before = catalog@;
    let ghost added = pieces@;
    catalog.append(&mut pieces);
    catalog.push(ArmorPiece::new(slot));
    assert(catalog@.drop_last() =~= before + added);
}

} // verus!
