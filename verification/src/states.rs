//! Instance states: the marks that they are shown with, and the filters that select by them.

use vstd::prelude::*;

use crate::text::{copy_texts, same_text, split, trim};

#[allow(unused_imports)]
use crate::text::{pieces, trimmed};

verus! {

/// `s` in lower case, as `str::to_lowercase` gives it.
pub uninterp spec fn lowercase(s: Seq<char>) -> Seq<char>;

/// `s` in upper case, as `str::to_uppercase` gives it.
pub uninterp spec fn uppercase(s: Seq<char>) -> Seq<char>;

/// Whether `s` is made of ASCII characters alone.
pub open spec fn is_ascii_text(s: Seq<char>) -> bool {
    forall|i: int| 0 <= i < s.len() ==> #[trigger] s[i] <= '\u{7f}'
}

/// `s` with each of the letters `A` to `Z` in lower case.
pub open spec fn ascii_lowercase(s: Seq<char>) -> Seq<char> {
    s.map_values(
        |c: char|
            if 'A' <= c <= 'Z' {
                (c as nat + 32) as char
            } else {
                c
            },
    )
}

/// `s` with each of the letters `a` to `z` in upper case.
pub open spec fn ascii_uppercase(s: Seq<char>) -> Seq<char> {
    s.map_values(
        |c: char|
            if 'a' <= c <= 'z' {
                (c as nat - 32) as char
            } else {
                c
            },
    )
}

/// `str::to_lowercase`: the text in lower case by the rules of Unicode. In a text of ASCII
/// characters these change the letters `A` to `Z` and nothing else.
#[verifier::external_body]
pub(crate) fn to_lowercase(text: &str) -> (lowered: String)
    ensures
        lowered@ == lowercase(text@),
        is_ascii_text(text@) ==> lowered@ == ascii_lowercase(text@),
{
    text.to_lowercase()
}

/// `str::to_uppercase`: the text in upper case by the rules of Unicode. In a text of ASCII
/// characters these change the letters `a` to `z` and nothing else.
#[verifier::external_body]
pub(crate) fn to_uppercase(text: &str) -> (raised: String)
    ensures
        raised@ == uppercase(text@),
        is_ascii_text(text@) ==> raised@ == ascii_uppercase(text@),
{
    text.to_uppercase()
}

/// The mark of a state whose name is given in lower case.
pub open spec fn emoji_of(lowered: Seq<char>) -> Seq<char> {
    if lowered == "running"@ {
        "\u{1F7E2}"@
    } else if lowered == "pending"@ {
        "\u{1F535}"@
    } else if lowered == "stopping"@ {
        "\u{1F7E1}"@
    } else if lowered == "stopped"@ {
        "\u{1F534}"@
    } else if lowered == "shutting-down"@ {
        "\u{1F7E0}"@
    } else if lowered == "terminated"@ {
        "\u{26AB}"@
    } else {
        "\u{26AA}"@
    }
}

/// The mark of a state whose name is given in lower case.
pub fn lowered_state_emoji(lowered: &str) -> (emoji: &'static str)
    ensures
        emoji@ == emoji_of(lowered@),
{
    if same_text(lowered, "running") {
        "\u{1F7E2}"
    } else if same_text(lowered, "pending") {
        "\u{1F535}"
    } else if same_text(lowered, "stopping") {
        "\u{1F7E1}"
    } else if same_text(lowered, "stopped") {
        "\u{1F534}"
    } else if same_text(lowered, "shutting-down") {
        "\u{1F7E0}"
    } else if same_text(lowered, "terminated") {
        "\u{26AB}"
    } else {
        "\u{26AA}"
    }
}

/// The mark of a state, whatever the case that its name is written in.
pub fn state_emoji(state: &str) -> (emoji: &'static str)
    ensures
        emoji@ == emoji_of(lowercase(state@)),
        is_ascii_text(state@) ==> emoji@ == emoji_of(ascii_lowercase(state@)),
{
    let lowered = to_lowercase(state);
    lowered_state_emoji(lowered.as_str())
}

/// A mark and the name of a state, side by side.
pub fn marked_state(emoji: &str, raised: &str) -> (display: String)
    ensures
        display@ == emoji@ + " "@ + raised@,
{
    let mut display = emoji.to_owned();
    display.append(" ");
    display.append(raised);
    display
}

/// A state as it is shown: its mark and its name in upper case.
pub open spec fn state_display_of(state: Seq<char>) -> Seq<char> {
    emoji_of(lowercase(state)) + " "@ + uppercase(state)
}

/// A state as it is shown: its mark and its name in upper case.
pub fn state_display(state: &str) -> (display: String)
    ensures
        display@ == state_display_of(state@),
        is_ascii_text(state@) ==> display@ == emoji_of(ascii_lowercase(state@)) + " "@
            + ascii_uppercase(state@),
{
    let raised = to_uppercase(state);
    marked_state(state_emoji(state), raised.as_str())
}

/// A condition on the instances to describe: the attribute called `name` has one of `values`.
#[derive(Debug, PartialEq, Eq)]
pub struct Filter {
    pub name: String,
    pub values: Vec<String>,
}

/// The content of a [`Filter`].
pub ghost struct FilterModel {
    pub name: Seq<char>,
    pub values: Seq<Seq<char>>,
}

impl DeepView for Filter {
    type V = FilterModel;

    open spec fn deep_view(&self) -> FilterModel {
        FilterModel { name: self.name@, values: self.values.deep_view() }
    }
}

/// The attribute that holds the name of the state of an instance.
pub const STATE_ATTRIBUTE: &'static str = "instance-state-name";

/// The states that are of interest where none is asked for: all but those of an instance that
/// is on its way out.
pub open spec fn default_states() -> Seq<Seq<char>> {
    seq!["pending"@, "running"@, "stopping"@, "stopped"@]
}

/// The filter for instances in one of `states`, or in one of the default states where `states`
/// is empty.
pub open spec fn state_filter_of(states: Seq<Seq<char>>) -> FilterModel {
    FilterModel {
        name: STATE_ATTRIBUTE@,
        values: if states.len() == 0 {
            default_states()
        } else {
            states
        },
    }
}

/// The states that a comma-separated list names, each without the white space around it. A list
/// that was not given names none.
pub open spec fn listed_states(list: Option<Seq<char>>) -> Seq<Seq<char>> {
    match list {
        Some(list) => pieces(list, ',').map_values(|piece: Seq<char>| trimmed(piece)),
        None => Seq::empty(),
    }
}

/// The filter for instances in one of the given states, or in one of the default states where
/// none is given.
pub fn state_filter(states: &[String]) -> (filter: Filter)
    ensures
        filter.deep_view() == state_filter_of(states.deep_view()),
{
    let values = if states.len() == 0 {
        let values = vec![
            "pending".to_owned(),
            "running".to_owned(),
            "stopping".to_owned(),
            "stopped".to_owned(),
        ];
        assert(values.deep_view() == default_states());
        values
    } else {
        copy_texts(states)
    };
    Filter { name: STATE_ATTRIBUTE.to_owned(), values }
}

/// Reads a comma-separated list of states.
pub fn parse_states(list: &Option<String>) -> (states: Vec<String>)
    ensures
        states.deep_view() == listed_states(list.deep_view()),
{
    let mut states: Vec<String> = Vec::new();
    if let Some(list) = list {
        let parts = split(list.as_str(), ',');
        let ghost clean = |piece: Seq<char>| trimmed(piece);
        let mut i: usize = 0;
        while i < parts.len()
            invariant
                i <= parts@.len(),
                clean == (|piece: Seq<char>| trimmed(piece)),
                states.deep_view() == parts.deep_view().take(i as int).map_values(clean),
            decreases parts@.len() - i,
        {
            let ghost before = states.deep_view();
            states.push(trim(parts[i].as_str()).to_owned());
            assert(states.deep_view() == before.push(trimmed(parts.deep_view()[i as int])));
            assert(parts.deep_view().take(i + 1) == parts.deep_view().take(i as int).push(
                parts.deep_view()[i as int],
            ));
            i = i + 1;
        }
        assert(parts.deep_view().take(i as int) == parts.deep_view());
    }
    states
}

} // verus!
