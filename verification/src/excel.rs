//! Rows of the output workbook, as simple_excel_writer takes them.

use vstd::prelude::*;

verus! {

/// simple_excel_writer's row of cells, held as an opaque value.
#[verifier::external_type_specification]
#[verifier::external_body]
pub struct ExRow(simple_excel_writer::Row);

/// The texts of the cells of a row that hold text, in the order of the
/// cells.
pub uninterp spec fn row_cells(row: simple_excel_writer::Row) -> Seq<Seq<char>>;

/// The number of columns that a row has taken up so far. The next cell
/// goes to the column after them.
pub uninterp spec fn row_width(row: simple_excel_writer::Row) -> nat;

/// Calls `Row::new`, which gives a row without cells that has taken up no
/// column.
#[verifier::external_body]
fn new_row() -> (row: simple_excel_writer::Row)
    ensures
        row_cells(row) == Seq::<Seq<char>>::empty(),
        row_width(row) == 0,
{
    simple_excel_writer::Row::new()
}

/// Calls `Row::add_cell` with a string. The row takes up one more column
/// and gets one more cell, after those it has; the cell holds the string's
/// text. (The writer keeps a text that starts with `=` as a formula and any
/// other as a plain string; the text is the same either way.) The count of
/// columns must have room for one more.
#[verifier::external_body]
fn add_text_cell(row: &mut simple_excel_writer::Row, cell: String)
    requires
        row_width(*old(row)) < usize::MAX,
    ensures
        row_cells(*final(row)) == row_cells(*old(row)).push(cell@),
        row_width(*final(row)) == row_width(*old(row)) + 1,
{
    row.add_cell(cell)
}

/// Makes a row of the workbook from the cells of a report row: one cell
/// for each text, in the same order and in adjoining columns.
pub fn make_row(cells: Vec<String>) -> (row: simple_excel_writer::Row)
    ensures
        row_cells(row) == cells.deep_view(),
        row_width(row) == cells@.len(),
{
    let ghost all = cells.deep_view();
    let ghost count = cells.len();
    let mut row = new_row();
    for cell in it: cells
        invariant
            all == cells.deep_view(),
            count == cells@.len(),
            it.seq() == cells@,
            row_cells(row) == all.take(it.index() as int),
            row_width(row) == it.index(),
    {
        proof {
            assert(all.take(it.index() + 1) =~= all.take(it.index() as int).push(cell@));
        }
        add_text_cell(&mut row, cell);
    }
    proof {
        assert(all.take(all.len() as int) =~= all);
    }
    row
}

} // verus!
