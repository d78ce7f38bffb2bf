use ec2::states::{
    lowered_state_emoji, marked_state, parse_states, state_display, state_emoji, state_filter,
    STATE_ATTRIBUTE,
};

#[test]
fn every_state_has_its_mark() {
    assert_eq!(lowered_state_emoji("running"), "\u{1F7E2}");
    assert_eq!(lowered_state_emoji("pending"), "\u{1F535}");
    assert_eq!(lowered_state_emoji("stopping"), "\u{1F7E1}");
    assert_eq!(lowered_state_emoji("stopped"), "\u{1F534}");
    assert_eq!(lowered_state_emoji("shutting-down"), "\u{1F7E0}");
    assert_eq!(lowered_state_emoji("terminated"), "\u{26AB}");
}

#[test]
fn other_states_have_a_common_mark() {
    assert_eq!(lowered_state_emoji(""), "\u{26AA}");
    assert_eq!(lowered_state_emoji("-"), "\u{26AA}");
    assert_eq!(lowered_state_emoji("Running"), "\u{26AA}");
    assert_eq!(lowered_state_emoji("running "), "\u{26AA}");
}

#[test]
fn the_case_of_a_state_does_not_matter() {
    assert_eq!(state_emoji("Running"), "\u{1F7E2}");
    assert_eq!(state_emoji("SHUTTING-DOWN"), "\u{1F7E0}");
    assert_eq!(state_emoji("stopped"), "\u{1F534}");
    assert_eq!(state_emoji("unheard-of"), "\u{26AA}");
}

#[test]
fn states_are_shown_in_upper_case() {
    assert_eq!(state_display("shutting-down"), "\u{1F7E0} SHUTTING-DOWN");
    assert_eq!(state_display("-"), "\u{26AA} -");
    assert_eq!(marked_state("x", "Y"), "x Y");
}

#[test]
fn lists_of_states_are_read() {
    assert_eq!(parse_states(&None), Vec::<String>::new());
    assert_eq!(parse_states(&Some("running".to_string())), vec!["running"]);
    assert_eq!(parse_states(&Some("running,stopped".to_string())), vec!["running", "stopped"]);
    assert_eq!(parse_states(&Some(" running ,\tstopped ".to_string())), vec!["running", "stopped"]);
    assert_eq!(parse_states(&Some("".to_string())), vec![""]);
    assert_eq!(parse_states(&Some("a,,b".to_string())), vec!["a", "", "b"]);
}

#[test]
fn filters_select_the_given_states() {
    let filter = state_filter(&["running".to_string(), "terminated".to_string()]);
    assert_eq!(filter.name, "instance-state-name");
    assert_eq!(filter.name, STATE_ATTRIBUTE);
    assert_eq!(filter.values, vec!["running", "terminated"]);
}

#[test]
fn filters_have_default_states() {
    let filter = state_filter(&[]);
    assert_eq!(filter.name, "instance-state-name");
    assert_eq!(filter.values, vec!["pending", "running", "stopping", "stopped"]);
}

#[test]
fn letters_beyond_ascii_have_a_case_too() {
    assert_eq!(state_display("\u{e9}teint"), "\u{26AA} \u{c9}TEINT");
    assert_eq!(state_emoji("RUNN\u{130}NG"), "\u{26AA}");
}

#[test]
fn every_ascii_character_has_its_case() {
    for code in 0u8..128 {
        let text = (code as char).to_string();
        let raised = code.to_ascii_uppercase() as char;
        assert_eq!(state_display(&text), format!("\u{26AA} {}", raised));
    }
    assert_eq!(state_display("StOpPeD"), state_display("sToPpEd"));
}

#[test]
fn marks_tell_states_apart() {
    let states = ["running", "pending", "stopping", "stopped", "shutting-down", "terminated", "-"];
    for a in states {
        for b in states {
            assert_eq!(state_emoji(a) == state_emoji(b), a == b);
        }
    }
    assert_eq!(state_emoji("Terminated"), "\u{26AB}");
}
