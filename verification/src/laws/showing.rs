//! Laws of summarising, selecting and showing instances.

use vstd::prelude::*;

use crate::instances::{
    info_of, infos_of, name_in, InfoModel, InstanceModel, ReservationModel, TagModel, NAME_KEY,
};
use crate::json::Json;
use crate::laws::reading::law_pieces_hold_no_separator;
use crate::render::{document, header_model, info_json, instance_table_model, row_model};
use crate::states::{
    ascii_lowercase, ascii_uppercase, default_states, emoji_of, is_ascii_text, listed_states,
    state_filter_of,
};
use crate::text::{pieces, trimmed};

verus! {

/// Every instance of every reservation is summarised, in the order in which they were described:
/// the summaries of two descriptions one after the other are the summaries of the first and then
/// those of the second.
pub proof fn law_summaries_follow_the_description(
    first: Seq<ReservationModel>,
    second: Seq<ReservationModel>,
)
    ensures
        infos_of(first + second) == infos_of(first) + infos_of(second),
    decreases second.len(),
{
    if second.len() == 0 {
        assert(first + second == first);
        assert(infos_of(first) + infos_of(second) == infos_of(first));
    } else {
        law_summaries_follow_the_description(first, second.drop_last());
        assert((first + second).drop_last() == first + second.drop_last());
        assert((first + second).last() == second.last());
        assert(infos_of(first + second) == infos_of(first) + infos_of(second));
    }
}

/// The instances of one reservation are summarised one by one.
pub proof fn law_each_instance_is_summarized(reservation: ReservationModel)
    ensures
        infos_of(seq![reservation]).len() == reservation.instances.len(),
        forall|i: int|
            0 <= i < reservation.instances.len() ==> #[trigger] infos_of(seq![reservation])[i]
                == info_of(reservation.instances[i]),
{
    assert(seq![reservation].drop_last() == Seq::<ReservationModel>::empty());
    assert(infos_of(Seq::<ReservationModel>::empty()) == Seq::<InfoModel>::empty());
    assert(infos_of(seq![reservation]) == reservation.instances.map_values(
        |instance: InstanceModel| info_of(instance),
    ));
}

/// The name of an instance is the value of the first tag with the key for names, whatever the
/// tags after it hold.
pub proof fn law_first_name_tag_counts(tags: Seq<TagModel>, i: int)
    requires
        0 <= i < tags.len(),
        tags[i].key == Some(NAME_KEY@),
        forall|j: int| 0 <= j < i ==> (#[trigger] tags[j]).key != Some(NAME_KEY@),
    ensures
        name_in(tags) == tags[i].value,
    decreases i,
{
    if i > 0 {
        let rest = tags.drop_first();
        assert(tags[0].key != Some(NAME_KEY@));
        assert forall|j: int| 0 <= j < i - 1 implies (#[trigger] rest[j]).key != Some(
            NAME_KEY@,
        ) by {
            assert(rest[j] == tags[j + 1]);
        }
        law_first_name_tag_counts(rest, i - 1);
    }
}

/// An instance without a tag for its name has none.
pub proof fn law_no_name_tag_no_name(tags: Seq<TagModel>)
    requires
        forall|j: int| 0 <= j < tags.len() ==> (#[trigger] tags[j]).key != Some(NAME_KEY@),
    ensures
        name_in(tags) is None,
    decreases tags.len(),
{
    if tags.len() > 0 {
        let rest = tags.drop_first();
        assert(tags[0].key != Some(NAME_KEY@));
        assert forall|j: int| 0 <= j < rest.len() implies (#[trigger] rest[j]).key != Some(
            NAME_KEY@,
        ) by {
            assert(rest[j] == tags[j + 1]);
        }
        law_no_name_tag_no_name(rest);
    }
}

/// Where states are listed, the filter is for just these, as many as there are pieces between the
/// commas; where none is, it is for the default states. It is never for no state at all.
pub proof fn law_filter_follows_the_list(list: Option<Seq<char>>)
    ensures
        state_filter_of(listed_states(list)).values.len() > 0,
        list is None ==> state_filter_of(listed_states(list)).values == default_states(),
        list is Some ==> {
            let parts = pieces(list->Some_0, ',');
            let values = state_filter_of(listed_states(list)).values;
            values.len() == parts.len() && forall|i: int|
                0 <= i < parts.len() ==> #[trigger] values[i] == trimmed(parts[i])
        },
{
    if list is Some {
        law_pieces_hold_no_separator(list->Some_0, ',');
    }
}

/// Of a name in ASCII, the case that it is written in makes no difference once it is in lower case,
/// nor once it is in upper case; and in either case it stays in ASCII.
pub proof fn law_case_makes_no_difference(s: Seq<char>)
    ensures
        ascii_lowercase(ascii_uppercase(s)) == ascii_lowercase(s),
        ascii_lowercase(ascii_lowercase(s)) == ascii_lowercase(s),
        ascii_uppercase(ascii_lowercase(s)) == ascii_uppercase(s),
        is_ascii_text(s) ==> is_ascii_text(ascii_lowercase(s)) && is_ascii_text(
            ascii_uppercase(s),
        ),
{
    assert(ascii_lowercase(ascii_uppercase(s)) =~= ascii_lowercase(s));
    assert(ascii_lowercase(ascii_lowercase(s)) =~= ascii_lowercase(s));
    assert(ascii_uppercase(ascii_lowercase(s)) =~= ascii_uppercase(s));
    if is_ascii_text(s) {
        assert forall|i: int| 0 <= i < s.len() implies #[trigger] ascii_lowercase(s)[i]
            <= '\u{7f}' by {
            assert(s[i] <= '\u{7f}');
        }
        assert forall|i: int| 0 <= i < s.len() implies #[trigger] ascii_uppercase(s)[i]
            <= '\u{7f}' by {
            assert(s[i] <= '\u{7f}');
        }
    }
}

/// What the summary of an instance holds: of each part what the service said or, where it said
/// nothing, a dash.
pub proof fn law_summary_holds_what_was_said(instance: InstanceModel)
    ensures
        ({
            let info = info_of(instance);
            &&& instance.instance_id is Some ==> info.instance_id == instance.instance_id->Some_0
            &&& instance.instance_id is None ==> info.instance_id == "-"@
            &&& instance.instance_type is Some ==> info.instance_type
                == instance.instance_type->Some_0
            &&& instance.instance_type is None ==> info.instance_type == "-"@
            &&& instance.private_ip_address is Some ==> info.private_ip
                == instance.private_ip_address->Some_0
            &&& instance.private_ip_address is None ==> info.private_ip == "-"@
            &&& instance.state is Some && instance.state->Some_0.name is Some ==> info.state
                == instance.state->Some_0.name->Some_0
            &&& instance.state is None || instance.state->Some_0.name is None ==> info.state
                == "-"@
        }),
{
}

/// The name in the summary of an instance is the value of the first tag with the key `Name`; it is
/// a dash where there is no such tag, or where that tag has no value.
pub proof fn law_summary_holds_the_name(instance: InstanceModel)
    ensures
        forall|i: int|
            0 <= i < instance.tags.len() && (#[trigger] instance.tags[i]).key == Some("Name"@)
                && (forall|j: int|
                0 <= j < i ==> (#[trigger] instance.tags[j]).key != Some("Name"@))
                ==> info_of(instance).name == if instance.tags[i].value is Some {
                instance.tags[i].value->Some_0
            } else {
                "-"@
            },
        (forall|j: int|
            0 <= j < instance.tags.len() ==> (#[trigger] instance.tags[j]).key != Some("Name"@))
            ==> info_of(instance).name == "-"@,
{
    assert forall|i: int|
        0 <= i < instance.tags.len() && (#[trigger] instance.tags[i]).key == Some("Name"@) && (
        forall|j: int|
            0 <= j < i ==> (#[trigger] instance.tags[j]).key != Some(
                "Name"@,
            )) implies info_of(instance).name == if instance.tags[i].value is Some {
        instance.tags[i].value->Some_0
    } else {
        "-"@
    } by {
        law_first_name_tag_counts(instance.tags, i);
    }
    if forall|j: int|
        0 <= j < instance.tags.len() ==> (#[trigger] instance.tags[j]).key != Some("Name"@) {
        law_no_name_tag_no_name(instance.tags);
    }
}

/// A filter is for the states that it is made for, all of them in their order; without any, for
/// the four states of an instance that is not on its way out.
pub proof fn law_filter_is_for_the_states(states: Seq<Seq<char>>)
    ensures
        state_filter_of(states).name == "instance-state-name"@,
        states.len() > 0 ==> state_filter_of(states).values == states,
        states.len() == 0 ==> state_filter_of(states).values == seq![
            "pending"@,
            "running"@,
            "stopping"@,
            "stopped"@,
        ],
{
}

/// Whether `state` is one of the states that an instance can be in.
pub open spec fn is_known_state(state: Seq<char>) -> bool {
    ||| state == "running"@
    ||| state == "pending"@
    ||| state == "stopping"@
    ||| state == "stopped"@
    ||| state == "shutting-down"@
    ||| state == "terminated"@
}

/// The mark of each known state, and the one mark of all others.
pub proof fn law_marks_of_states(state: Seq<char>)
    ensures
        state == "running"@ ==> emoji_of(state) == "\u{1F7E2}"@,
        state == "pending"@ ==> emoji_of(state) == "\u{1F535}"@,
        state == "stopping"@ ==> emoji_of(state) == "\u{1F7E1}"@,
        state == "stopped"@ ==> emoji_of(state) == "\u{1F534}"@,
        state == "shutting-down"@ ==> emoji_of(state) == "\u{1F7E0}"@,
        state == "terminated"@ ==> emoji_of(state) == "\u{26AB}"@,
        !is_known_state(state) ==> emoji_of(state) == "\u{26AA}"@,
{
    reveal_strlit("running");
    reveal_strlit("pending");
    reveal_strlit("stopping");
    reveal_strlit("stopped");
    reveal_strlit("shutting-down");
    reveal_strlit("terminated");
    assert("running"@.len() == 7 && "running"@[0] == 'r');
    assert("pending"@.len() == 7 && "pending"@[0] == 'p');
    assert("stopped"@.len() == 7 && "stopped"@[0] == 's');
    assert("stopping"@.len() == 8);
    assert("shutting-down"@.len() == 13);
    assert("terminated"@.len() == 10);
}

/// Each of the known states has a mark of its own, which no other state has.
pub proof fn law_marks_tell_states_apart(a: Seq<char>, b: Seq<char>)
    requires
        is_known_state(a),
        emoji_of(a) == emoji_of(b),
    ensures
        a == b,
{
    reveal_strlit("\u{1F7E2}");
    reveal_strlit("\u{1F535}");
    reveal_strlit("\u{1F7E1}");
    reveal_strlit("\u{1F534}");
    reveal_strlit("\u{1F7E0}");
    reveal_strlit("\u{26AB}");
    reveal_strlit("\u{26AA}");
    assert("\u{1F7E2}"@[0] == '\u{1F7E2}' && "\u{1F535}"@[0] == '\u{1F535}' && "\u{1F7E1}"@[0]
        == '\u{1F7E1}' && "\u{1F534}"@[0] == '\u{1F534}' && "\u{1F7E0}"@[0] == '\u{1F7E0}'
        && "\u{26AB}"@[0] == '\u{26AB}' && "\u{26AA}"@[0] == '\u{26AA}');
}

/// A table has one row for each instance, in their order, and as many cells in each row as in the
/// header.
pub proof fn law_table_has_a_row_for_each_instance(infos: Seq<InfoModel>, width: Option<u16>)
    ensures
        instance_table_model(infos, width).header == Some(header_model()),
        instance_table_model(infos, width).rows.len() == infos.len(),
        forall|i: int|
            0 <= i < infos.len() ==> #[trigger] instance_table_model(infos, width).rows[i]
                == row_model(infos[i]) && row_model(infos[i]).len() == header_model().len(),
{
}

/// What the JSON object of an instance holds under each of its keys, and that it holds nothing
/// else.
pub proof fn law_object_holds_the_instance(info: InfoModel)
    ensures
        info_json(info) is Object,
        ({
            let members = info_json(info)->Object_0;
            &&& members.dom() == set![
                "instance_id"@,
                "name"@,
                "instance_type"@,
                "state"@,
                "private_ip"@,
            ]
            &&& members["instance_id"@] == Json::Text(info.instance_id)
            &&& members["name"@] == Json::Text(info.name)
            &&& members["instance_type"@] == Json::Text(info.instance_type)
            &&& members["state"@] == Json::Text(info.state)
            &&& members["private_ip"@] == Json::Text(info.private_ip)
        }),
{
    reveal_strlit("instance_id");
    reveal_strlit("name");
    reveal_strlit("instance_type");
    reveal_strlit("state");
    reveal_strlit("private_ip");
    assert("instance_id"@.len() == 11 && "name"@.len() == 4 && "instance_type"@.len() == 13
        && "state"@.len() == 5 && "private_ip"@.len() == 10);
    assert(info_json(info)->Object_0.dom() =~= set![
        "instance_id"@,
        "name"@,
        "instance_type"@,
        "state"@,
        "private_ip"@,
    ]);
}

/// The JSON document holds the objects of the instances in their order, and their number, and
/// nothing else.
pub proof fn law_document_counts_the_instances(infos: Seq<InfoModel>)
    ensures
        document(infos) is Object,
        ({
            let members = document(infos)->Object_0;
            &&& members.dom() == set!["instances"@, "count"@]
            &&& members["count"@] == Json::Number(infos.len())
            &&& members["instances"@] is List
            &&& members["instances"@]->List_0.len() == infos.len()
            &&& forall|i: int|
                0 <= i < infos.len() ==> #[trigger] members["instances"@]->List_0[i]
                    == info_json(infos[i])
        }),
{
    reveal_strlit("instances");
    reveal_strlit("count");
    assert("instances"@.len() == 9 && "count"@.len() == 5);
    assert(document(infos)->Object_0.dom() =~= set!["instances"@, "count"@]);
}

/// No two lists of instances have the same JSON document.
pub proof fn law_document_is_faithful(a: Seq<InfoModel>, b: Seq<InfoModel>)
    requires
        document(a) == document(b),
    ensures
        a == b,
{
    law_document_counts_the_instances(a);
    law_document_counts_the_instances(b);
    let list = document(a)->Object_0["instances"@]->List_0;
    assert forall|i: int| 0 <= i < a.len() implies a[i] == b[i] by {
        assert(list[i] == info_json(a[i]));
        assert(list[i] == info_json(b[i]));
        law_object_holds_the_instance(a[i]);
        law_object_holds_the_instance(b[i]);
        assert(a[i] =~= b[i]);
    }
    assert(a =~= b);
}

} // verus!
