use ec2::instances::{
    extract_instance_type, extract_name, extract_state, summarize, summarize_all, Instance,
    InstanceInfo, InstanceState, Reservation, Tag,
};

fn text(s: &str) -> Option<String> {
    Some(s.to_string())
}

fn tag(key: Option<&str>, value: Option<&str>) -> Tag {
    Tag { key: key.map(|k| k.to_string()), value: value.map(|v| v.to_string()) }
}

fn bare() -> Instance {
    Instance {
        instance_id: None,
        instance_type: None,
        state: None,
        private_ip_address: None,
        tags: Vec::new(),
    }
}

fn named(id: &str, name: &str) -> Instance {
    Instance {
        instance_id: text(id),
        instance_type: text("t3.micro"),
        state: Some(InstanceState { name: text("running") }),
        private_ip_address: text("10.0.0.1"),
        tags: vec![tag(Some("Name"), Some(name))],
    }
}

#[test]
fn the_name_is_a_tag() {
    assert_eq!(extract_name(&[]), "-");
    assert_eq!(extract_name(&[tag(Some("Name"), Some("web"))]), "web");
    assert_eq!(extract_name(&[tag(None, Some("x")), tag(Some("Name"), Some("web"))]), "web");
    assert_eq!(extract_name(&[tag(Some("name"), Some("web"))]), "-");
    assert_eq!(extract_name(&[tag(Some("Name"), Some(""))]), "");
}

#[test]
fn the_first_name_tag_counts() {
    let tags = [
        tag(Some("Owner"), Some("ops")),
        tag(Some("Name"), Some("first")),
        tag(Some("Name"), Some("second")),
    ];
    assert_eq!(extract_name(&tags), "first");
    let tags = [tag(Some("Name"), None), tag(Some("Name"), Some("second"))];
    assert_eq!(extract_name(&tags), "-");
}

#[test]
fn types_and_states_may_be_absent() {
    assert_eq!(extract_instance_type(&bare()), "-");
    assert_eq!(extract_state(&bare()), "-");
    let unnamed = Instance { state: Some(InstanceState { name: None }), ..bare() };
    assert_eq!(extract_state(&unnamed), "-");
    assert_eq!(extract_instance_type(&named("i-1", "web")), "t3.micro");
    assert_eq!(extract_state(&named("i-1", "web")), "running");
}

#[test]
fn summaries_hold_every_part() {
    assert_eq!(
        summarize(&named("i-1", "web")),
        InstanceInfo {
            instance_id: "i-1".to_string(),
            name: "web".to_string(),
            instance_type: "t3.micro".to_string(),
            state: "running".to_string(),
            private_ip: "10.0.0.1".to_string(),
        }
    );
    assert_eq!(
        summarize(&bare()),
        InstanceInfo {
            instance_id: "-".to_string(),
            name: "-".to_string(),
            instance_type: "-".to_string(),
            state: "-".to_string(),
            private_ip: "-".to_string(),
        }
    );
}

#[test]
fn all_reservations_are_summarized_in_order() {
    let reservations = [
        Reservation { instances: vec![named("i-1", "a"), named("i-2", "b")] },
        Reservation { instances: vec![] },
        Reservation { instances: vec![named("i-3", "c")] },
    ];
    let infos = summarize_all(&reservations);
    let ids: Vec<&str> = infos.iter().map(|info| info.instance_id.as_str()).collect();
    assert_eq!(ids, vec!["i-1", "i-2", "i-3"]);
    assert_eq!(infos[2].name, "c");
    assert!(summarize_all(&[]).is_empty());
}
