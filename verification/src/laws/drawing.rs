//! Laws of what the user gets to see of instances, said of the table that is drawn and of the
//! document that is written.

use vstd::prelude::*;

use crate::action::ActionModel;
use crate::commands::{output_model, OutputFormat};
use crate::instances::InfoModel;
use crate::json::{pretty_json, Json};
use crate::laws::showing::{law_document_counts_the_instances, law_object_holds_the_instance};
use crate::render::{document, instance_table_model, rendered_table};
use crate::states::{emoji_of, lowercase, uppercase};
use crate::table::{drawn_table, Alignment, Arrangement, CellModel, TableModel};

verus! {

/// Whether a row has the given texts, one in each cell, all of them aligned to the left.
pub open spec fn reads(row: Seq<CellModel>, texts: Seq<Seq<char>>) -> bool {
    &&& row.len() == texts.len()
    &&& forall|i: int|
        0 <= i < row.len() ==> (#[trigger] row[i]).text == texts[i] && row[i].alignment == Some(
            Alignment::Left,
        )
}

/// Whether a row begins with the identifier of an instance and goes on with its name, its type,
/// its state and its private address.
pub open spec fn tells(row: Seq<CellModel>, info: InfoModel) -> bool {
    reads(
        row,
        seq![
            info.instance_id,
            info.name,
            info.instance_type,
            emoji_of(lowercase(info.state)) + " "@ + uppercase(info.state),
            info.private_ip,
        ],
    )
}

/// Whether a table has the look of instance tables and the headings of their columns.
pub open spec fn looks_right(table: TableModel) -> bool {
    &&& table.style is Some
    &&& table.style->Some_0.top_border@ == seq!['┌', '─', '┬', '┐']
    &&& table.style->Some_0.header_lines@ == seq!['│', '┆', '│']
    &&& table.style->Some_0.header_separator@ == seq!['╞', '═', '╪', '╡']
    &&& table.style->Some_0.content_lines@ == seq!['│', '┆', '│']
    &&& table.style->Some_0.bottom_border@ == seq!['└', '─', '┴', '┘']
    &&& table.header is Some
    &&& reads(
        table.header->Some_0,
        seq!["  ID"@, "  Name"@, "  Type"@, "  State"@, "  Private IP"@],
    )
}

/// Whether a table tells of each of `infos` in a row of its own, in their order, and has no other
/// rows, and is fitted into `width`.
pub open spec fn tabulates(table: TableModel, infos: Seq<InfoModel>, width: Option<u16>) -> bool {
    &&& looks_right(table)
    &&& table.rows.len() == infos.len()
    &&& forall|i: int| 0 <= i < infos.len() ==> tells(#[trigger] table.rows[i], infos[i])
    &&& table.arrangement == Arrangement::Dynamic
    &&& table.width == width
    &&& table.detached == (width is None)
}

/// Whether `text` is `title` and, below it, the drawing of a table of all of `infos`.
pub open spec fn shows_table(
    text: Seq<char>,
    title: Seq<char>,
    infos: Seq<InfoModel>,
    width: Option<u16>,
) -> bool {
    exists|table: TableModel| #[trigger]
        tabulates(table, infos, width) && text == "\n  "@ + title + "\n"@ + drawn_table(table)
}

/// Whether a JSON value is an object with the five parts of an instance and nothing else.
pub open spec fn records(value: Json, info: InfoModel) -> bool {
    &&& value is Object
    &&& value->Object_0.dom() == set![
        "instance_id"@,
        "name"@,
        "instance_type"@,
        "state"@,
        "private_ip"@,
    ]
    &&& value->Object_0["instance_id"@] == Json::Text(info.instance_id)
    &&& value->Object_0["name"@] == Json::Text(info.name)
    &&& value->Object_0["instance_type"@] == Json::Text(info.instance_type)
    &&& value->Object_0["state"@] == Json::Text(info.state)
    &&& value->Object_0["private_ip"@] == Json::Text(info.private_ip)
}

/// Whether a JSON value is an object with a record of each of `infos`, in their order, and their
/// number.
pub open spec fn documents(value: Json, infos: Seq<InfoModel>) -> bool {
    &&& value is Object
    &&& value->Object_0.dom() == set!["instances"@, "count"@]
    &&& value->Object_0["count"@] == Json::Number(infos.len())
    &&& value->Object_0["instances"@] is List
    &&& value->Object_0["instances"@]->List_0.len() == infos.len()
    &&& forall|i: int|
        0 <= i < infos.len() ==> records(
            #[trigger] value->Object_0["instances"@]->List_0[i],
            infos[i],
        )
}

/// Whether `text` is a JSON document of all of `infos`.
pub open spec fn shows_document(text: Seq<char>, infos: Seq<InfoModel>) -> bool {
    exists|value: Json| #[trigger] documents(value, infos) && text == pretty_json(value)
}

/// Whether an action shows all of `infos`: printed as a table with a title, the same in a pager, or
/// printed as a document.
pub open spec fn shows(
    action: ActionModel,
    title: Seq<char>,
    infos: Seq<InfoModel>,
    format: OutputFormat,
    width: Option<u16>,
) -> bool {
    match format {
        OutputFormat::Table => action is Print && shows_table(
            action->Print_text,
            title,
            infos,
            width,
        ),
        OutputFormat::Less => action is Page && shows_table(
            action->Page_text,
            title,
            infos,
            width,
        ),
        OutputFormat::Json => action is Print && shows_document(action->Print_text, infos),
    }
}

/// What is drawn for instances is a table of all of them, below its title.
pub proof fn law_every_instance_is_drawn(
    infos: Seq<InfoModel>,
    title: Seq<char>,
    width: Option<u16>,
)
    ensures
        shows_table(rendered_table(infos, title, width), title, infos, width),
{
    let table = instance_table_model(infos, width);
    assert(looks_right(table));
    assert forall|i: int| 0 <= i < infos.len() implies tells(
        #[trigger] table.rows[i],
        infos[i],
    ) by {}
    assert(tabulates(table, infos, width));
}

/// What is written for instances is a document of all of them.
pub proof fn law_every_instance_is_documented(infos: Seq<InfoModel>)
    ensures
        shows_document(pretty_json(document(infos)), infos),
{
    law_document_counts_the_instances(infos);
    let list = document(infos)->Object_0["instances"@]->List_0;
    assert forall|i: int| 0 <= i < infos.len() implies records(#[trigger] list[i], infos[i]) by {
        law_object_holds_the_instance(infos[i]);
    }
    assert(documents(document(infos), infos));
}

/// In every format, all instances are shown.
pub proof fn law_every_format_shows_every_instance(
    infos: Seq<InfoModel>,
    title: Seq<char>,
    format: OutputFormat,
    width: Option<u16>,
)
    ensures
        shows(output_model(infos, title, format, width), title, infos, format, width),
{
    law_every_instance_is_drawn(infos, title, width);
    law_every_instance_is_documented(infos);
}

} // verus!
