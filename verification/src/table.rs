//! The boundary to the table drawing crate.
//!
//! Everything in this file that is marked `external_body` is believed, not proved: each such
//! function makes one call into `comfy_table`, and its contract says what that call does to a
//! table as described by [`TableModel`].

use vstd::prelude::*;

verus! {

/// How the text of a cell is aligned.
#[derive(Clone, Copy, Debug, PartialEq, Eq, Structural)]
pub enum Alignment {
    Left,
    Right,
    Center,
}

/// How the columns of a table are fitted into its width.
#[derive(Clone, Copy, Debug, PartialEq, Eq, Structural)]
pub enum Arrangement {
    Disabled,
    Dynamic,
    DynamicFullWidth,
}

/// The characters that a table is drawn with, line by line from the top. Lines between the rows
/// of the body are not drawn.
///
/// A ruled line has four characters: the left end, the fill, the crossing with a column border
/// and the right end. A line of text has three: the left border, the column border and the right
/// border.
#[derive(Clone, Copy, Debug, PartialEq, Eq)]
pub struct TableStyle {
    pub top_border: [char; 4],
    pub header_lines: [char; 3],
    pub header_separator: [char; 4],
    pub content_lines: [char; 3],
    pub bottom_border: [char; 4],
}

/// What a cell holds.
pub ghost struct CellModel {
    pub text: Seq<char>,
    /// `None` where the alignment was never set.
    pub alignment: Option<Alignment>,
}

/// What a table holds and how it is to be drawn.
#[verifier::ext_equal]
pub ghost struct TableModel {
    /// `None` where no style was loaded yet: the crate's own default is in use.
    pub style: Option<TableStyle>,
    pub header: Option<Seq<CellModel>>,
    pub rows: Seq<Seq<CellModel>>,
    pub arrangement: Arrangement,
    /// The width that was set, if any.
    pub width: Option<u16>,
    /// Whether the table was told to leave the terminal alone.
    pub detached: bool,
}

#[verifier::external_type_specification]
#[verifier::external_body]
pub struct ExTable(comfy_table::Table);

#[verifier::external_type_specification]
#[verifier::external_body]
pub struct ExCell(comfy_table::Cell);

/// What a cell of `comfy_table` holds. Colours and attributes are left out: the cells of this crate
/// are made by [`new_cell`] and [`set_alignment`] alone, and have none.
pub uninterp spec fn cell_model(cell: comfy_table::Cell) -> CellModel;

/// What a table of `comfy_table` holds. Its columns are left out: this crate sets nothing on them.
pub uninterp spec fn table_model(table: comfy_table::Table) -> TableModel;

/// The text that `comfy_table` draws a table as.
pub uninterp spec fn drawn_table(table: TableModel) -> Seq<char>;

/// What the cells in `cells` hold.
pub open spec fn cell_models(cells: Seq<comfy_table::Cell>) -> Seq<CellModel> {
    cells.map_values(|cell: comfy_table::Cell| cell_model(cell))
}

/// `comfy_table::Cell::new`: a cell with the given text, whose alignment is not set.
#[verifier::external_body]
pub(crate) fn new_cell(text: &str) -> (cell: comfy_table::Cell)
    ensures
        cell_model(cell) == (CellModel { text: text@, alignment: None }),
{
    comfy_table::Cell::new(text)
}

/// `comfy_table::Cell::set_alignment`: the same cell with its alignment set.
#[verifier::external_body]
pub(crate) fn set_alignment(cell: comfy_table::Cell, alignment: Alignment) -> (aligned:
    comfy_table::Cell)
    ensures
        cell_model(aligned) == (CellModel {
            alignment: Some(alignment),
            ..cell_model(cell)
        }),
{
    cell.set_alignment(
        match alignment {
            Alignment::Left => comfy_table::CellAlignment::Left,
            Alignment::Right => comfy_table::CellAlignment::Right,
            Alignment::Center => comfy_table::CellAlignment::Center,
        },
    )
}

/// `comfy_table::Table::new`: an empty table without a header, in the crate's default style,
/// with the arrangement of content disabled, with no width set and free to ask the terminal.
#[verifier::external_body]
pub(crate) fn new_table() -> (table: comfy_table::Table)
    ensures
        table_model(table) == (TableModel {
            style: None,
            header: None,
            rows: Seq::empty(),
            arrangement: Arrangement::Disabled,
            width: None,
            detached: false,
        }),
{
    comfy_table::Table::new()
}

/// `comfy_table::Table::load_style`: replaces the style by one that draws the given lines and no
/// others.
#[verifier::external_body]
pub(crate) fn load_style(table: &mut comfy_table::Table, style: TableStyle)
    ensures
        table_model(*final(table)) == (TableModel {
            style: Some(style),
            ..table_model(*old(table))
        }),
{
    let (t, h, s) = (style.top_border, style.header_lines, style.header_separator);
    let (c, b) = (style.content_lines, style.bottom_border);
    let lines = comfy_table::TableStyle::new()
        .top_border(comfy_table::LineStyle::new(t[0], t[1], t[2], t[3]))
        .header_lines(comfy_table::ContentLineStyle::new(h[0], h[1], h[2]))
        .header_separator(comfy_table::LineStyle::new(s[0], s[1], s[2], s[3]))
        .content_lines(comfy_table::ContentLineStyle::new(c[0], c[1], c[2]))
        .bottom_border(comfy_table::LineStyle::new(b[0], b[1], b[2], b[3]));
    table.load_style(lines);
}

/// `comfy_table::Table::set_header`: gives a table that has no header yet the given header row.
#[verifier::external_body]
pub(crate) fn set_header(table: &mut comfy_table::Table, cells: Vec<comfy_table::Cell>)
    requires
        table_model(*old(table)).header is None,
    ensures
        table_model(*final(table)) == (TableModel {
            header: Some(cell_models(cells@)),
            ..table_model(*old(table))
        }),
{
    table.set_header(cells);
}

/// `comfy_table::Table::add_row`: adds a row at the end.
#[verifier::external_body]
pub(crate) fn add_row(table: &mut comfy_table::Table, cells: Vec<comfy_table::Cell>)
    ensures
        table_model(*final(table)) == (TableModel {
            rows: table_model(*old(table)).rows.push(cell_models(cells@)),
            ..table_model(*old(table))
        }),
{
    table.add_row(cells);
}

/// `comfy_table::Table::set_content_arrangement`: sets how the columns are fitted.
#[verifier::external_body]
pub(crate) fn set_content_arrangement(table: &mut comfy_table::Table, arrangement: Arrangement)
    ensures
        table_model(*final(table)) == (TableModel {
            arrangement,
            ..table_model(*old(table))
        }),
{
    table.set_content_arrangement(
        match arrangement {
            Arrangement::Disabled => comfy_table::ContentArrangement::Disabled,
            Arrangement::Dynamic => comfy_table::ContentArrangement::Dynamic,
            Arrangement::DynamicFullWidth => comfy_table::ContentArrangement::DynamicFullWidth,
        },
    );
}

/// `comfy_table::Table::set_width`: sets the width that the table may take.
#[verifier::external_body]
pub(crate) fn set_width(table: &mut comfy_table::Table, width: u16)
    ensures
        table_model(*final(table)) == (TableModel {
            width: Some(width),
            ..table_model(*old(table))
        }),
{
    table.set_width(width);
}

/// `comfy_table::Table::force_no_tty`: the table no longer asks the terminal for its width.
#[verifier::external_body]
pub(crate) fn force_no_tty(table: &mut comfy_table::Table)
    ensures
        table_model(*final(table)) == (TableModel {
            detached: true,
            ..table_model(*old(table))
        }),
{
    table.force_no_tty();
}

/// `comfy_table::Table::width`: the width that was set. Where none was set and the table is
/// free to ask the terminal, the answer is the terminal's, and nothing is said of it.
#[verifier::external_body]
pub(crate) fn table_width(table: &comfy_table::Table) -> (width: Option<u16>)
    ensures
        table_model(*table).width is Some || table_model(*table).detached ==> width
            == table_model(*table).width,
{
    table.width()
}

/// `Display` of `comfy_table::Table`: the table drawn as text, without a line break at the end.
/// With a width set, or none to be asked for, the text depends on what the table holds alone.
#[verifier::external_body]
pub(crate) fn table_text(table: &comfy_table::Table) -> (text: String)
    requires
        table_model(*table).width is Some || table_model(*table).detached,
    ensures
        text@ == drawn_table(table_model(*table)),
{
    table.to_string()
}

} // verus!
