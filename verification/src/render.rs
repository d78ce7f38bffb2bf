//! Instances as a table and as a JSON document.

use vstd::prelude::*;

use crate::instances::InstanceInfo;
use crate::json::{
    insert_member, list_value, new_members, number_value, object_value, text_value, value_text,
};
use crate::states::state_display;
use crate::table::{
    add_row, force_no_tty, load_style, new_cell, new_table, set_alignment, set_content_arrangement,
    set_header, set_width, table_text, table_width, Alignment, Arrangement, TableStyle,
};

#[allow(unused_imports)]
use crate::instances::InfoModel;
#[allow(unused_imports)]
use crate::json::{json_model, json_models, pretty_json, Json};
#[allow(unused_imports)]
use crate::states::state_display_of;
#[allow(unused_imports)]
use crate::table::{cell_model, cell_models, drawn_table, table_model, CellModel, TableModel};

verus! {

/// The look of the instance table: solid outer borders, dotted column borders and a double line
/// below the header.
pub open spec fn beautiful_style_model() -> TableStyle {
    TableStyle {
        top_border: ['┌', '─', '┬', '┐'],
        header_lines: ['│', '┆', '│'],
        header_separator: ['╞', '═', '╪', '╡'],
        content_lines: ['│', '┆', '│'],
        bottom_border: ['└', '─', '┴', '┘'],
    }
}

/// The look of the instance table.
pub fn beautiful_style() -> (style: TableStyle)
    ensures
        style == beautiful_style_model(),
{
    TableStyle {
        top_border: ['┌', '─', '┬', '┐'],
        header_lines: ['│', '┆', '│'],
        header_separator: ['╞', '═', '╪', '╡'],
        content_lines: ['│', '┆', '│'],
        bottom_border: ['└', '─', '┴', '┘'],
    }
}

/// A cell with the given text, aligned to the left.
pub open spec fn left_cell_model(text: Seq<char>) -> CellModel {
    CellModel { text, alignment: Some(Alignment::Left) }
}

/// A cell with the given text, aligned to the left.
fn left_cell(text: &str) -> (cell: comfy_table::Cell)
    ensures
        cell_model(cell) == left_cell_model(text@),
{
    set_alignment(new_cell(text), Alignment::Left)
}

/// The header of the instance table.
pub open spec fn header_model() -> Seq<CellModel> {
    seq![
        left_cell_model("  ID"@),
        left_cell_model("  Name"@),
        left_cell_model("  Type"@),
        left_cell_model("  State"@),
        left_cell_model("  Private IP"@),
    ]
}

/// The row of an instance: its identifier, name, type, state and private address.
pub open spec fn row_model(info: InfoModel) -> Seq<CellModel> {
    seq![
        left_cell_model(info.instance_id),
        left_cell_model(info.name),
        left_cell_model(info.instance_type),
        left_cell_model(state_display_of(info.state)),
        left_cell_model(info.private_ip),
    ]
}

/// The table of `infos`, one row each in their order, fitted into `width` columns of text; with
/// no width it is as wide as its content.
pub open spec fn instance_table_model(infos: Seq<InfoModel>, width: Option<u16>) -> TableModel {
    TableModel {
        style: Some(beautiful_style_model()),
        header: Some(header_model()),
        rows: infos.map_values(|info: InfoModel| row_model(info)),
        arrangement: Arrangement::Dynamic,
        width,
        detached: width is None,
    }
}

/// A title and, below it, what the title is about.
pub open spec fn titled_model(title: Seq<char>, body: Seq<char>) -> Seq<char> {
    "\n  "@ + title + "\n"@ + body
}

/// The table of `infos` with a title above it.
pub open spec fn rendered_table(
    infos: Seq<InfoModel>,
    title: Seq<char>,
    width: Option<u16>,
) -> Seq<char> {
    titled_model(title, drawn_table(instance_table_model(infos, width)))
}

/// Puts a title above a text.
pub fn titled(title: &str, body: &str) -> (text: String)
    ensures
        text@ == titled_model(title@, body@),
        text@ == "\n  "@ + title@ + "\n"@ + body@,
{
    let mut text = "\n  ".to_owned();
    text.append(title);
    text.append("\n");
    text.append(body);
    text
}

/// The cells of the header row.
fn header_cells() -> (cells: Vec<comfy_table::Cell>)
    ensures
        cell_models(cells@) == header_model(),
{
    vec![
        left_cell("  ID"),
        left_cell("  Name"),
        left_cell("  Type"),
        left_cell("  State"),
        left_cell("  Private IP"),
    ]
}

/// The cells of the row of an instance.
fn row_cells(info: &InstanceInfo) -> (cells: Vec<comfy_table::Cell>)
    ensures
        cell_models(cells@) == row_model(info.deep_view()),
{
    let state = state_display(info.state.as_str());
    vec![
        left_cell(info.instance_id.as_str()),
        left_cell(info.name.as_str()),
        left_cell(info.instance_type.as_str()),
        left_cell(state.as_str()),
        left_cell(info.private_ip.as_str()),
    ]
}

/// The table of the given instances, fitted into the given width.
fn instance_table(instances: &[InstanceInfo], width: Option<u16>) -> (table: comfy_table::Table)
    ensures
        table_model(table) == instance_table_model(instances.deep_view(), width),
{
    let mut table = new_table();
    load_style(&mut table, beautiful_style());
    set_header(&mut table, header_cells());
    let ghost row = |info: InfoModel| row_model(info);
    let ghost empty = TableModel {
        style: Some(beautiful_style_model()),
        header: Some(header_model()),
        rows: Seq::empty(),
        arrangement: Arrangement::Disabled,
        width: None,
        detached: false,
    };
    let mut i: usize = 0;
    assert(instances.deep_view().take(0).map_values(row) == Seq::<Seq<CellModel>>::empty());
    while i < instances.len()
        invariant
            i <= instances@.len(),
            row == (|info: InfoModel| row_model(info)),
            table_model(table) == (TableModel {
                rows: instances.deep_view().take(i as int).map_values(row),
                ..empty
            }),
        decreases instances@.len() - i,
    {
        assert(instances.deep_view().take(i + 1) == instances.deep_view().take(i as int).push(
            instances.deep_view()[i as int],
        ));
        assert(instances.deep_view().take(i + 1).map_values(row) == instances.deep_view().take(
            i as int,
        ).map_values(row).push(row_model(instances.deep_view()[i as int])));
        add_row(&mut table, row_cells(&instances[i]));
        i = i + 1;
    }
    assert(instances.deep_view().take(i as int) == instances.deep_view());
    set_content_arrangement(&mut table, Arrangement::Dynamic);
    match width {
        Some(width) => set_width(&mut table, width),
        None => force_no_tty(&mut table),
    }
    table
}

/// Draws the table of the given instances, fitted into the given width, with a title above it.
pub fn render_instance_table_to_width(
    instances: &[InstanceInfo],
    title: &str,
    width: Option<u16>,
) -> (text: String)
    ensures
        text@ == rendered_table(instances.deep_view(), title@, width),
{
    let table = instance_table(instances, width);
    titled(title, table_text(&table).as_str())
}

/// The width of the terminal that tables are written to, if there is one. The answer is the
/// terminal's, and nothing is said of it.
pub fn terminal_width() -> Option<u16> {
    table_width(&new_table())
}

/// Draws the table of the given instances with a title above it, fitted into whatever width the
/// terminal has.
pub fn render_instance_table(instances: &[InstanceInfo], title: &str) -> (text: String)
    ensures
        exists|width: Option<u16>| text@ == rendered_table(instances.deep_view(), title@, width),
{
    render_instance_table_to_width(instances, title, terminal_width())
}

/// An instance as a JSON object.
pub open spec fn info_json(info: InfoModel) -> Json {
    Json::Object(
        map![
            "instance_id"@ => Json::Text(info.instance_id),
            "name"@ => Json::Text(info.name),
            "instance_type"@ => Json::Text(info.instance_type),
            "state"@ => Json::Text(info.state),
            "private_ip"@ => Json::Text(info.private_ip),
        ],
    )
}

/// The JSON document of `infos`: the instances in their order, and how many they are.
pub open spec fn document(infos: Seq<InfoModel>) -> Json {
    Json::Object(
        map![
            "instances"@ => Json::List(infos.map_values(|info: InfoModel| info_json(info))),
            "count"@ => Json::Number(infos.len()),
        ],
    )
}

/// An instance as a JSON object.
fn info_value(info: &InstanceInfo) -> (value: serde_json::Value)
    ensures
        json_model(value) == info_json(info.deep_view()),
{
    let mut members = new_members();
    insert_member(&mut members, "instance_id".to_owned(), text_value(info.instance_id.clone()));
    insert_member(&mut members, "name".to_owned(), text_value(info.name.clone()));
    insert_member(&mut members, "instance_type".to_owned(), text_value(info.instance_type.clone()));
    insert_member(&mut members, "state".to_owned(), text_value(info.state.clone()));
    insert_member(&mut members, "private_ip".to_owned(), text_value(info.private_ip.clone()));
    object_value(members)
}

/// The JSON document of the given instances.
fn document_value(instances: &[InstanceInfo]) -> (value: serde_json::Value)
    ensures
        json_model(value) == document(instances.deep_view()),
{
    let ghost entry = |info: InfoModel| info_json(info);
    let mut values: Vec<serde_json::Value> = Vec::new();
    let mut i: usize = 0;
    while i < instances.len()
        invariant
            i <= instances@.len(),
            entry == (|info: InfoModel| info_json(info)),
            json_models(values@) == instances.deep_view().take(i as int).map_values(entry),
        decreases instances@.len() - i,
    {
        let ghost before = json_models(values@);
        let value = info_value(&instances[i]);
        values.push(value);
        assert(json_models(values@) == before.push(info_json(instances.deep_view()[i as int])));
        assert(instances.deep_view().take(i + 1) == instances.deep_view().take(i as int).push(
            instances.deep_view()[i as int],
        ));
        i = i + 1;
    }
    assert(instances.deep_view().take(i as int) == instances.deep_view());
    let mut members = new_members();
    insert_member(&mut members, "instances".to_owned(), list_value(values));
    insert_member(&mut members, "count".to_owned(), number_value(instances.len()));
    object_value(members)
}

/// Writes the JSON document of the given instances.
pub fn render_instance_json(instances: &[InstanceInfo]) -> (text: String)
    ensures
        text@ == pretty_json(document(instances.deep_view())),
{
    value_text(&document_value(instances)).unwrap()
}

} // verus!
