//! The table renderer. Everything here is taken on trust from `comfy_table`:
//! the contracts say what its source shows and are not proved.

use vstd::prelude::*;
use comfy_table::{Attribute, Cell, Color, Table};
use crate::table::{CellView, Paint, plain};

verus! {

/// `comfy_table::Table`, carried through as it is: the library sees of it
/// only [`table_header`] and [`table_rows`].
#[verifier::external_type_specification]
#[verifier::external_body]
pub struct ExTable(comfy_table::Table);

/// `comfy_table::Cell`, carried through as it is: the library sees of it
/// only [`cell_view`].
#[verifier::external_type_specification]
#[verifier::external_body]
pub struct ExCell(comfy_table::Cell);

/// What a cell of the renderer holds: its text as `Cell::content` gives it,
/// the colours last set on it by `Cell::fg` and `Cell::bg`, each as the
/// [`Paint`] of the same name, and whether `Attribute::Underlined` was added
/// to it.
pub uninterp spec fn cell_view(cell: comfy_table::Cell) -> CellView;

/// The cells of the header row of a table of the renderer, where one was
/// set.
pub uninterp spec fn table_header(table: comfy_table::Table) -> Option<Seq<CellView>>;

/// The cells of the rows of a table of the renderer, first added first,
/// without the header.
pub uninterp spec fn table_rows(table: comfy_table::Table) -> Seq<Seq<CellView>>;

/// What a row of cells of the renderer holds.
pub open spec fn cell_views(cells: Seq<Cell>) -> Seq<CellView> {
    Seq::new(cells.len(), |i: int| cell_view(cells[i]))
}

/// `Cell::new`: a cell with the given text, no colour set and no attribute.
#[verifier::external_body]
pub(crate) fn new_cell(text: &str) -> (cell: Cell)
    ensures
        cell_view(cell) == plain(text@),
{
    Cell::new(text)
}

/// `Cell::fg`: the same cell with its text colour set to `paint`.
#[verifier::external_body]
pub(crate) fn with_fg(cell: Cell, paint: Paint) -> (painted: Cell)
    ensures
        cell_view(painted) == cell_view(cell).with_fg(paint),
{
    cell.fg(
        match paint {
            Paint::Reset => Color::Reset,
            Paint::Black => Color::Black,
            Paint::Yellow => Color::Yellow,
            Paint::Green => Color::Green,
        },
    )
}

/// `Cell::bg`: the same cell with the colour behind its text set to `paint`.
#[verifier::external_body]
pub(crate) fn with_bg(cell: Cell, paint: Paint) -> (painted: Cell)
    ensures
        cell_view(painted) == cell_view(cell).with_bg(paint),
{
    cell.bg(
        match paint {
            Paint::Reset => Color::Reset,
            Paint::Black => Color::Black,
            Paint::Yellow => Color::Yellow,
            Paint::Green => Color::Green,
        },
    )
}

/// `Cell::add_attribute` with `Attribute::Underlined`: the same cell,
/// underlined.
#[verifier::external_body]
pub(crate) fn with_underline(cell: Cell) -> (marked: Cell)
    ensures
        cell_view(marked) == cell_view(cell).with_underline(),
{
    cell.add_attribute(Attribute::Underlined)
}

/// `Table::new`: a table with no header and no rows.
#[verifier::external_body]
pub(crate) fn new_table() -> (table: Table)
    ensures
        table_header(table) == None::<Seq<CellView>>,
        table_rows(table) == Seq::<Seq<CellView>>::empty(),
{
    Table::new()
}

/// `Table::load_preset` with `presets::NOTHING`, which draws no borders:
/// the header and the rows stay as they are.
#[verifier::external_body]
pub(crate) fn load_blank_preset(table: &mut Table)
    ensures
        table_header(*final(table)) == table_header(*old(table)),
        table_rows(*final(table)) == table_rows(*old(table)),
{
    table.load_preset(comfy_table::presets::NOTHING);
}

/// `Table::set_header`: the cells become the header, the rows stay.
#[verifier::external_body]
pub(crate) fn set_header(table: &mut Table, cells: Vec<Cell>)
    ensures
        table_header(*final(table)) == Some(cell_views(cells@)),
        table_rows(*final(table)) == table_rows(*old(table)),
{
    table.set_header(cells);
}

/// `Table::add_row`: the cells become the last row, the header and the
/// earlier rows stay.
#[verifier::external_body]
pub(crate) fn add_row(table: &mut Table, cells: Vec<Cell>)
    ensures
        table_header(*final(table)) == table_header(*old(table)),
        table_rows(*final(table)) == table_rows(*old(table)).push(cell_views(cells@)),
{
    table.add_row(cells);
}

} // verus!
