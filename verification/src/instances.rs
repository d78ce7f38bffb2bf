//! Instances as the service describes them, and the summaries that the tool shows.

use vstd::prelude::*;

use crate::text::same_text;

verus! {

/// What stands in a summary for something that the service did not say.
pub const ABSENT: &'static str = "-";

/// The key of the tag that holds the name of an instance.
pub const NAME_KEY: &'static str = "Name";

/// A tag of an instance.
#[derive(Debug)]
pub struct Tag {
    pub key: Option<String>,
    pub value: Option<String>,
}

/// The state of an instance.
#[derive(Debug)]
pub struct InstanceState {
    pub name: Option<String>,
}

/// An instance, as far as a summary needs it.
#[derive(Debug)]
pub struct Instance {
    pub instance_id: Option<String>,
    pub instance_type: Option<String>,
    pub state: Option<InstanceState>,
    pub private_ip_address: Option<String>,
    pub tags: Vec<Tag>,
}

/// A reservation: a group of instances that were launched together.
#[derive(Debug)]
pub struct Reservation {
    pub instances: Vec<Instance>,
}

/// The summary of an instance.
#[derive(Debug, PartialEq, Eq)]
pub struct InstanceInfo {
    pub instance_id: String,
    pub name: String,
    pub instance_type: String,
    pub state: String,
    pub private_ip: String,
}

/// The content of a [`Tag`].
pub ghost struct TagModel {
    pub key: Option<Seq<char>>,
    pub value: Option<Seq<char>>,
}

/// The content of an [`InstanceState`].
pub ghost struct StateModel {
    pub name: Option<Seq<char>>,
}

/// The content of an [`Instance`].
pub ghost struct InstanceModel {
    pub instance_id: Option<Seq<char>>,
    pub instance_type: Option<Seq<char>>,
    pub state: Option<StateModel>,
    pub private_ip_address: Option<Seq<char>>,
    pub tags: Seq<TagModel>,
}

/// The content of a [`Reservation`].
pub ghost struct ReservationModel {
    pub instances: Seq<InstanceModel>,
}

/// The content of an [`InstanceInfo`].
#[verifier::ext_equal]
pub ghost struct InfoModel {
    pub instance_id: Seq<char>,
    pub name: Seq<char>,
    pub instance_type: Seq<char>,
    pub state: Seq<char>,
    pub private_ip: Seq<char>,
}

impl DeepView for Tag {
    type V = TagModel;

    open spec fn deep_view(&self) -> TagModel {
        TagModel { key: self.key.deep_view(), value: self.value.deep_view() }
    }
}

impl DeepView for InstanceState {
    type V = StateModel;

    open spec fn deep_view(&self) -> StateModel {
        StateModel { name: self.name.deep_view() }
    }
}

impl DeepView for Instance {
    type V = InstanceModel;

    open spec fn deep_view(&self) -> InstanceModel {
        InstanceModel {
            instance_id: self.instance_id.deep_view(),
            instance_type: self.instance_type.deep_view(),
            state: self.state.deep_view(),
            private_ip_address: self.private_ip_address.deep_view(),
            tags: self.tags.deep_view(),
        }
    }
}

impl DeepView for Reservation {
    type V = ReservationModel;

    open spec fn deep_view(&self) -> ReservationModel {
        ReservationModel { instances: self.instances.deep_view() }
    }
}

impl DeepView for InstanceInfo {
    type V = InfoModel;

    open spec fn deep_view(&self) -> InfoModel {
        InfoModel {
            instance_id: self.instance_id@,
            name: self.name@,
            instance_type: self.instance_type@,
            state: self.state@,
            private_ip: self.private_ip@,
        }
    }
}

/// A text that the service may not have given.
pub open spec fn or_absent(text: Option<Seq<char>>) -> Seq<char> {
    match text {
        Some(text) => text,
        None => ABSENT@,
    }
}

/// The value of the first tag whose key is [`NAME_KEY`].
pub open spec fn name_in(tags: Seq<TagModel>) -> Option<Seq<char>>
    decreases tags.len(),
{
    if tags.len() == 0 {
        None
    } else if tags[0].key == Some(NAME_KEY@) {
        tags[0].value
    } else {
        name_in(tags.drop_first())
    }
}

/// The name of the state of an instance.
pub open spec fn state_in(instance: InstanceModel) -> Option<Seq<char>> {
    match instance.state {
        Some(state) => state.name,
        None => None,
    }
}

/// The summary of `instance`.
pub open spec fn info_of(instance: InstanceModel) -> InfoModel {
    InfoModel {
        instance_id: or_absent(instance.instance_id),
        name: or_absent(name_in(instance.tags)),
        instance_type: or_absent(instance.instance_type),
        state: or_absent(state_in(instance)),
        private_ip: or_absent(instance.private_ip_address),
    }
}

/// The summaries of all instances in `reservations`, in their order.
pub open spec fn infos_of(reservations: Seq<ReservationModel>) -> Seq<InfoModel>
    decreases reservations.len(),
{
    if reservations.len() == 0 {
        Seq::empty()
    } else {
        infos_of(reservations.drop_last()) + reservations.last().instances.map_values(
            |instance: InstanceModel| info_of(instance),
        )
    }
}

/// The text, or what stands for its absence.
fn text_or_absent(text: &Option<String>) -> (shown: String)
    ensures
        shown@ == or_absent(text.deep_view()),
{
    match text {
        Some(text) => text.clone(),
        None => ABSENT.to_owned(),
    }
}

/// The name of an instance with the given tags.
pub fn extract_name(tags: &[Tag]) -> (name: String)
    ensures
        name@ == or_absent(name_in(tags.deep_view())),
{
    let mut i: usize = 0;
    assert(tags.deep_view().skip(0) == tags.deep_view());
    while i < tags.len()
        invariant
            i <= tags@.len(),
            name_in(tags.deep_view()) == name_in(tags.deep_view().skip(i as int)),
        decreases tags@.len() - i,
    {
        assert(tags.deep_view().skip(i as int).drop_first() == tags.deep_view().skip(i + 1));
        if let Some(key) = &tags[i].key {
            if same_text(key.as_str(), NAME_KEY) {
                return text_or_absent(&tags[i].value);
            }
        }
        i = i + 1;
    }
    ABSENT.to_owned()
}

/// The type of an instance.
pub fn extract_instance_type(instance: &Instance) -> (instance_type: String)
    ensures
        instance_type@ == or_absent(instance.deep_view().instance_type),
{
    text_or_absent(&instance.instance_type)
}

/// The name of the state that an instance is in.
pub fn extract_state(instance: &Instance) -> (state: String)
    ensures
        state@ == or_absent(state_in(instance.deep_view())),
{
    match &instance.state {
        Some(state) => text_or_absent(&state.name),
        None => ABSENT.to_owned(),
    }
}

/// Summarises one instance.
pub fn summarize(instance: &Instance) -> (info: InstanceInfo)
    ensures
        info.deep_view() == info_of(instance.deep_view()),
{
    InstanceInfo {
        instance_id: text_or_absent(&instance.instance_id),
        name: extract_name(instance.tags.as_slice()),
        instance_type: extract_instance_type(instance),
        state: extract_state(instance),
        private_ip: text_or_absent(&instance.private_ip_address),
    }
}

/// Summarises all instances that the service described, in the order in which it gave them.
pub fn summarize_all(reservations: &[Reservation]) -> (infos: Vec<InstanceInfo>)
    ensures
        infos.deep_view() == infos_of(reservations.deep_view()),
{
    let mut infos: Vec<InstanceInfo> = Vec::new();
    let mut i: usize = 0;
    while i < reservations.len()
        invariant
            i <= reservations@.len(),
            infos.deep_view() == infos_of(reservations.deep_view().take(i as int)),
        decreases reservations@.len() - i,
    {
        let instances = &reservations[i].instances;
        let ghost summary = |instance: InstanceModel| info_of(instance);
        let ghost before = infos.deep_view();
        let mut j: usize = 0;
        while j < instances.len()
            invariant
                j <= instances@.len(),
                summary == (|instance: InstanceModel| info_of(instance)),
                infos.deep_view() == before + instances.deep_view().take(j as int).map_values(
                    summary,
                ),
            decreases instances@.len() - j,
        {
            let ghost done = infos.deep_view();
            let info = summarize(&instances[j]);
            infos.push(info);
            assert(infos.deep_view() == done.push(info_of(instances.deep_view()[j as int])));
            assert(instances.deep_view().take(j + 1) == instances.deep_view().take(j as int).push(
                instances.deep_view()[j as int],
            ));
            j = j + 1;
        }
        assert(instances.deep_view().take(j as int) == instances.deep_view());
        assert(reservations.deep_view().take(i + 1).drop_last() == reservations.deep_view().take(
            i as int,
        ));
        i = i + 1;
    }
    assert(reservations.deep_view().take(i as int) == reservations.deep_view());
    infos
}

} // verus!
