//! Building `comfy_table` tables from verified row contents.

use vstd::prelude::*;

use crate::text::strings_view;

verus! {

#[verifier::external_type_specification]
#[verifier::external_body]
pub struct ExTable(comfy_table::Table);

/// The texts of the header cells of a table, once a header is set.
pub uninterp spec fn table_header(t: comfy_table::Table) -> Option<Seq<Seq<char>>>;

/// The texts of the cells of each row of a table, in insertion order.
pub uninterp spec fn table_rows(t: comfy_table::Table) -> Seq<Seq<Seq<char>>>;

/// `comfy_table::Table::new`: a table with no header and no rows.
#[verifier::external_body]
pub(crate) fn new_table() -> (t: comfy_table::Table)
    ensures
        table_header(t) is None,
        table_rows(t) == Seq::<Seq<Seq<char>>>::empty(),
{
    comfy_table::Table::new()
}

/// `Table::set_content_arrangement(ContentArrangement::Dynamic)`: column
/// widths follow the terminal; header and rows are untouched.
#[verifier::external_body]
pub(crate) fn use_dynamic_arrangement(t: &mut comfy_table::Table)
    ensures
        table_header(*final(t)) == table_header(*old(t)),
        table_rows(*final(t)) == table_rows(*old(t)),
{
    t.set_content_arrangement(comfy_table::ContentArrangement::Dynamic);
}

/// `Table::set_header`: the header becomes one cell per given text; the
/// rows are untouched.
#[verifier::external_body]
pub(crate) fn set_header(t: &mut comfy_table::Table, cells: Vec<String>)
    ensures
        table_header(*final(t)) == Some(strings_view(cells@)),
        table_rows(*final(t)) == table_rows(*old(t)),
{
    t.set_header(cells);
}

/// `Table::add_row`: appends a row with one cell per given text; the
/// header is untouched.
#[verifier::external_body]
pub(crate) fn add_row(t: &mut comfy_table::Table, cells: Vec<String>)
    ensures
        table_header(*final(t)) == table_header(*old(t)),
        table_rows(*final(t)) == table_rows(*old(t)).push(strings_view(cells@)),
{
    t.add_row(cells);
}

} // verus!
