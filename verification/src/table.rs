//! The text table of `comfy_table`, as far as the printers use it.

use comfy_table::Table;
use vstd::prelude::*;

verus! {

#[verifier::external_type_specification]
#[verifier::external_body]
pub struct ExTable(Table);

/// The header of a table: the texts of its cells, or `None` while none is set.
pub uninterp spec fn table_header(table: Table) -> Option<Seq<Seq<char>>>;

/// The data rows of a table, first added first, each as the texts of its cells.
pub uninterp spec fn table_rows(table: Table) -> Seq<Seq<Seq<char>>>;

/// The text that `comfy_table` draws for a table with this header and these
/// rows, with the style and the arrangement that a new table has, and with as
/// many columns as the longest of the header and the rows has cells.
pub uninterp spec fn table_text(
    header: Option<Seq<Seq<char>>>,
    rows: Seq<Seq<Seq<char>>>,
) -> Seq<char>;

/// `Table::new`: a table without a header and without rows.
#[verifier::external_body]
pub(crate) fn new_table() -> (table: Table)
    ensures
        table_header(table) is None,
        table_rows(table) == Seq::<Seq<Seq<char>>>::empty(),
{
    Table::new()
}

/// `Table::set_header`: the cells of the header become the texts given, in
/// their order; the rows stay.
///
/// A table takes its header once. It keeps a column for every cell that a
/// header or a row ever had, so a second, shorter header would leave columns
/// behind that neither the header nor the rows account for.
#[verifier::external_body]
pub(crate) fn set_header(table: &mut Table, header: Vec<String>)
    requires
        table_header(*old(table)) is None,
    ensures
        table_header(*final(table)) == Some(header.deep_view()),
        table_rows(*final(table)) == table_rows(*old(table)),
{
    table.set_header(header);
}

/// `Table::add_row`: one row more, behind those that are there, whose cells
/// are the texts given, in their order; the header stays.
#[verifier::external_body]
pub(crate) fn add_row(table: &mut Table, row: Vec<String>)
    ensures
        table_header(*final(table)) == table_header(*old(table)),
        table_rows(*final(table)) == table_rows(*old(table)).push(row.deep_view()),
{
    table.add_row(row);
}

/// `Table::to_string`, through the table's `Display`: the drawing of the
/// header and the rows that the table holds.
///
/// A table reaches this function from `new_table` through `add_row` and at
/// most one `set_header`. Its style, arrangement and constraints are then
/// those of a new table, and it has as many columns as the longest of its
/// header and its rows has cells, so the drawing depends on the header and
/// the rows alone, and not on the terminal.
#[verifier::external_body]
pub(crate) fn draw(table: &Table) -> (out: String)
    ensures
        out@ == table_text(table_header(*table), table_rows(*table)),
{
    table.to_string()
}

} // verus!
