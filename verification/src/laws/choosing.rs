//! Laws of choosing an instance and of confirming a termination.

use vstd::prelude::*;

use crate::commands::{chosen_ids, confirms};
use crate::instances::InfoModel;
use crate::laws::reading::{
    all_white, law_decimal_reads_back, law_trim_ignores_padding, law_trim_takes_the_ends,
    lemma_decimal, padded, tight,
};
use crate::text::{decimal, is_digit, parsed_number, trimmed, white_space};

verus! {

/// A number between one and the number of instances chooses the instance at that place, whatever
/// white space stands around it.
pub proof fn law_number_chooses(
    infos: Seq<InfoModel>,
    number: usize,
    before: Seq<char>,
    after: Seq<char>,
)
    requires
        0 < number <= infos.len(),
        all_white(before),
        all_white(after),
    ensures
        chosen_ids(infos, padded(before, decimal(number as nat), after))
            == seq![infos[number - 1].instance_id],
{
    lemma_number_is_read(number, before, after);
}

/// Zero, like every number beyond the last instance, chooses none.
pub proof fn law_other_numbers_cancel(
    infos: Seq<InfoModel>,
    number: usize,
    before: Seq<char>,
    after: Seq<char>,
)
    requires
        number == 0 || number > infos.len(),
        all_white(before),
        all_white(after),
    ensures
        chosen_ids(infos, padded(before, decimal(number as nat), after)) == Seq::<Seq<char>>::empty(),
{
    lemma_number_is_read(number, before, after);
}

/// A line that is no number, apart from white space around it, chooses none.
pub proof fn law_other_lines_cancel(infos: Seq<InfoModel>, line: Seq<char>)
    requires
        parsed_number(trimmed(line)) is None,
    ensures
        chosen_ids(infos, line) == Seq::<Seq<char>>::empty(),
{
}

/// A line with a number and white space around it is read as that number.
proof fn lemma_number_is_read(number: usize, before: Seq<char>, after: Seq<char>)
    requires
        all_white(before),
        all_white(after),
    ensures
        parsed_number(trimmed(padded(before, decimal(number as nat), after))) == Some(
            number,
        ),
{
    let digits = decimal(number as nat);
    lemma_decimal(number as nat);
    assert(is_digit(digits[0]));
    assert(is_digit(digits[digits.len() - 1]));
    assert(tight(digits));
    law_trim_ignores_padding(before, digits, after);
    law_decimal_reads_back(number);
}

/// A line chooses at most one instance, and only one that was offered.
pub proof fn law_choice_was_offered(infos: Seq<InfoModel>, line: Seq<char>)
    ensures
        chosen_ids(infos, line).len() <= 1,
        forall|id: Seq<char>| #[trigger]
            chosen_ids(infos, line).contains(id) ==> exists|i: int|
                0 <= i < infos.len() && #[trigger] infos[i].instance_id == id,
{
    let ids = chosen_ids(infos, line);
    assert forall|id: Seq<char>| #[trigger] ids.contains(id) implies exists|i: int|
        0 <= i < infos.len() && #[trigger] infos[i].instance_id == id by {
        let number = parsed_number(trimmed(line))->Some_0;
        assert(ids[0] == infos[number - 1].instance_id);
        assert(infos[number - 1].instance_id == id);
    }
}

/// Termination is confirmed by the word `terminate` with any white space around it, and by
/// nothing else.
pub proof fn law_confirmation(line: Seq<char>)
    ensures
        confirms(line) <==> exists|before: Seq<char>, after: Seq<char>|
            all_white(before) && all_white(after) && line == #[trigger] padded(
                before,
                "terminate"@,
                after,
            ),
{
    reveal_strlit("terminate");
    assert(!white_space("terminate"@[0]));
    assert("terminate"@.last() == 'e');
    assert(tight("terminate"@));
    if confirms(line) {
        law_trim_takes_the_ends(line);
    }
    if exists|before: Seq<char>, after: Seq<char>|
        all_white(before) && all_white(after) && line == #[trigger] padded(
            before,
            "terminate"@,
            after,
        ) {
        let (before, after) = choose|before: Seq<char>, after: Seq<char>|
            all_white(before) && all_white(after) && line == #[trigger] padded(
                before,
                "terminate"@,
                after,
            );
        law_trim_ignores_padding(before, "terminate"@, after);
    }
}

} // verus!
