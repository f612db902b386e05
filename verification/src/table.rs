//! The script listing as a table of the `prettytable` crate.
//!
//! The table is built here and printed by the caller. The functions that
//! call into `prettytable` are marked `external_body`: what they state of
//! that crate is taken from its source and is not proved.
//!
//! `prettytable` panics on some texts that hold an escape character, so
//! the table shows each text with its escape characters left out.

use crate::script::rows_view;
use crate::script::RowView;
use crate::script::ScriptRow;
use crate::text::lines_of;
use crate::text::strip_escapes;
use crate::text::without_escapes;
use crate::text::ESCAPE;
use prettytable::Cell;
use prettytable::Row;
use prettytable::Table;
use vstd::prelude::*;

verus! {

/// `prettytable::Cell`, a cell of a table. Nothing inside it is visible
/// here.
#[verifier::external_type_specification]
#[verifier::external_body]
pub struct ExCell(prettytable::Cell);

/// `prettytable::Row`, a row of a table. Nothing inside it is visible
/// here.
#[verifier::external_type_specification]
#[verifier::external_body]
pub struct ExRow(prettytable::Row);

/// `prettytable::Table`, a table. Nothing inside it is visible here.
#[verifier::external_type_specification]
#[verifier::external_body]
pub struct ExTable(prettytable::Table);

/// The lines of text that a cell holds: the content that
/// `Cell::get_content` joins with line feeds.
pub uninterp spec fn cell_lines(cell: Cell) -> Seq<Seq<char>>;

/// The cells of a row, each as the lines of text that it holds.
pub uninterp spec fn row_cells(row: Row) -> Seq<Seq<Seq<char>>>;

/// The rows of a table below its titles, each as its cells.
pub uninterp spec fn table_rows(table: Table) -> Seq<Seq<Seq<Seq<char>>>>;

/// The title row of a table, if it has one, as its cells.
pub uninterp spec fn table_titles(table: Table) -> Option<Seq<Seq<Seq<char>>>>;

/// Calls `prettytable::Cell::new`. Not proved: the new cell holds the
/// lines of `text`. The crate splits the text with `str::lines`, which
/// [`lines_of`] describes. To measure a line, the crate counts what
/// follows an escape character as hidden, and panics where it counts more
/// hidden than the line is wide: `text` must hold no escape character.
#[verifier::external_body]
fn new_cell(text: &str) -> (cell: Cell)
    requires
        !text@.contains(ESCAPE),
    ensures
        cell_lines(cell) == lines_of(text@),
{
    Cell::new(text)
}

/// Calls `prettytable::Cell::style_spec`, which gives the cell the
/// colours and the alignment that `spec` names. Not proved: the cell
/// keeps its text. Nothing is stated of the style. The crate panics on a
/// span specifier, the letter H, that no number follows: `spec` must hold
/// no H.
#[verifier::external_body]
fn style_cell(cell: Cell, spec: &str) -> (styled: Cell)
    requires
        !spec@.contains('H'),
    ensures
        cell_lines(styled) == cell_lines(cell),
{
    cell.style_spec(spec)
}

/// Calls `prettytable::Row::new`. Not proved: the new row holds `cells`
/// in their order.
#[verifier::external_body]
fn new_row(cells: Vec<Cell>) -> (row: Row)
    ensures
        row_cells(row) == Seq::new(cells@.len(), |i: int| cell_lines(cells@[i])),
{
    Row::new(cells)
}

/// Calls `prettytable::Table::new`. Not proved: the new table has no
/// title row and no rows.
#[verifier::external_body]
fn new_table() -> (table: Table)
    ensures
        table_rows(table) == Seq::<Seq<Seq<Seq<char>>>>::empty(),
        table_titles(table) is None,
{
    Table::new()
}

/// Calls `prettytable::Table::set_titles`. Not proved: `titles` becomes
/// the title row, and the rows stay as they are.
#[verifier::external_body]
fn set_titles(table: &mut Table, titles: Row)
    ensures
        table_titles(*final(table)) == Some(row_cells(titles)),
        table_rows(*final(table)) == table_rows(*old(table)),
{
    table.set_titles(titles);
}

/// Calls `prettytable::Table::add_row`. Not proved: `row` becomes the
/// last row, and the rows before it and the title row stay as they are.
#[verifier::external_body]
fn add_row(table: &mut Table, row: Row)
    ensures
        table_rows(*final(table)) == table_rows(*old(table)).push(row_cells(row)),
        table_titles(*final(table)) == table_titles(*old(table)),
{
    table.add_row(row);
}

/// The cells of the title row of the script listing.
pub open spec fn title_cells() -> Seq<Seq<Seq<char>>> {
    seq![
        lines_of("Alias"@),
        lines_of("Tags"@),
        lines_of("Query"@),
        lines_of("Data Sources"@),
        lines_of("Description"@),
        lines_of("References"@),
    ]
}

/// The lines of the cell that shows `text`: those of `text` with its
/// escape characters left out.
pub open spec fn shown_lines(text: Seq<char>) -> Seq<Seq<char>> {
    lines_of(without_escapes(text))
}

/// The cells of the table row that shows `row`.
pub open spec fn row_lines(row: RowView) -> Seq<Seq<Seq<char>>> {
    seq![
        shown_lines(row.alias),
        shown_lines(row.tags),
        shown_lines(row.query),
        shown_lines(row.sources),
        shown_lines(row.description),
        shown_lines(row.references),
    ]
}

/// The rows of the table that shows `rows`.
pub open spec fn table_lines(rows: Seq<RowView>) -> Seq<Seq<Seq<Seq<char>>>> {
    Seq::new(rows.len(), |i: int| row_lines(rows[i]))
}

/// A cell with the text `text` in the style `spec`.
fn styled(text: &str, spec: &str) -> (cell: Cell)
    requires
        !text@.contains(ESCAPE),
        !spec@.contains('H'),
    ensures
        cell_lines(cell) == lines_of(text@),
{
    style_cell(new_cell(text), spec)
}

/// A row of six cells with the given texts. The first three are in the
/// styles `first`, `second` and `third`, the others in the style `rest`.
fn six_cells(
    texts: (&str, &str, &str, &str, &str, &str),
    first: &str,
    second: &str,
    third: &str,
    rest: &str,
) -> (row: Row)
    requires
        !texts.0@.contains(ESCAPE),
        !texts.1@.contains(ESCAPE),
        !texts.2@.contains(ESCAPE),
        !texts.3@.contains(ESCAPE),
        !texts.4@.contains(ESCAPE),
        !texts.5@.contains(ESCAPE),
        !first@.contains('H'),
        !second@.contains('H'),
        !third@.contains('H'),
        !rest@.contains('H'),
    ensures
        row_cells(row) == seq![
            lines_of(texts.0@),
            lines_of(texts.1@),
            lines_of(texts.2@),
            lines_of(texts.3@),
            lines_of(texts.4@),
            lines_of(texts.5@),
        ],
{
    let mut cells: Vec<Cell> = Vec::new();
    cells.push(styled(texts.0, first));
    cells.push(styled(texts.1, second));
    cells.push(styled(texts.2, third));
    cells.push(styled(texts.3, rest));
    cells.push(styled(texts.4, rest));
    cells.push(styled(texts.5, rest));
    new_row(cells)
}

/// The row of the table that shows `shown`: each text with its escape
/// characters left out. The alias is bright yellow, the tags are green,
/// the query is blue, and the other cells are white.
fn listing_row(shown: &ScriptRow) -> (row: Row)
    ensures
        row_cells(row) == row_lines(shown@),
{
    proof {
        reveal_strlit("FY");
        reveal_strlit("Fg");
        reveal_strlit("Fb");
        reveal_strlit("Fw");
    }
    let alias = strip_escapes(shown.alias.as_str());
    let tags = strip_escapes(shown.tags.as_str());
    let query = strip_escapes(shown.query.as_str());
    let sources = strip_escapes(shown.sources.as_str());
    let description = strip_escapes(shown.description.as_str());
    let references = strip_escapes(shown.references.as_str());
    six_cells(
        (
            alias.as_str(),
            tags.as_str(),
            query.as_str(),
            sources.as_str(),
            description.as_str(),
            references.as_str(),
        ),
        "FY",
        "Fg",
        "Fb",
        "Fw",
    )
}

/// The row of cyan titles of the script listing.
fn title_row() -> (row: Row)
    ensures
        row_cells(row) == title_cells(),
{
    proof {
        reveal_strlit("Fc");
        reveal_strlit("Alias");
        reveal_strlit("Tags");
        reveal_strlit("Query");
        reveal_strlit("Data Sources");
        reveal_strlit("Description");
        reveal_strlit("References");
    }
    six_cells(
        ("Alias", "Tags", "Query", "Data Sources", "Description", "References"),
        "Fc",
        "Fc",
        "Fc",
        "Fc",
    )
}

/// The table of the script listing: a title row, and one row for each row
/// of `rows`, in their order. A cell shows its text with the escape
/// characters left out.
pub fn listing_table(rows: &Vec<ScriptRow>) -> (table: Table)
    ensures
        table_titles(table) == Some(title_cells()),
        table_rows(table) == table_lines(rows_view(rows@)),
{
    let mut table = new_table();
    set_titles(&mut table, title_row());
    let mut i: usize = 0;
    while i < rows.len()
        invariant
            i <= rows.len(),
            table_titles(table) == Some(title_cells()),
            table_rows(table) == table_lines(rows_view(rows@.take(i as int))),
        decreases rows.len() - i,
    {
        add_row(&mut table, listing_row(&rows[i]));
        i += 1;
    }
    table
}

} // verus!
