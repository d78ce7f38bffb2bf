//! Laws of reading and writing texts.

use vstd::prelude::*;

use crate::text::{
    all_digits, decimal, digit_char, digits_value, is_digit, joined, parsed_number, pieces,
    trimmed, trimmed_end, trimmed_start, white_space, without_sign,
};

verus! {

/// Whether `s` is made of white space alone.
pub open spec fn all_white(s: Seq<char>) -> bool {
    forall|i: int| 0 <= i < s.len() ==> white_space(#[trigger] s[i])
}

/// Whether `s` has no white space at either end.
pub open spec fn tight(s: Seq<char>) -> bool {
    s.len() > 0 ==> !white_space(s[0]) && !white_space(s.last())
}

/// `s` with `before` in front of it and `after` behind it.
pub open spec fn padded(before: Seq<char>, s: Seq<char>, after: Seq<char>) -> Seq<char> {
    before + s + after
}

/// White space is what Unicode lists as such: these characters, by their code points, and no
/// others.
pub proof fn law_white_space_is_what_unicode_lists(c: char)
    ensures
        white_space(c) <==> seq![
            0x9int, 0xa, 0xb, 0xc, 0xd, 0x20, 0x85, 0xa0, 0x1680, 0x2000, 0x2001, 0x2002, 0x2003,
            0x2004, 0x2005, 0x2006, 0x2007, 0x2008, 0x2009, 0x200a, 0x2028, 0x2029, 0x202f, 0x205f,
            0x3000,
        ].contains(c as int),
{
    let listed = seq![
        0x9int, 0xa, 0xb, 0xc, 0xd, 0x20, 0x85, 0xa0, 0x1680, 0x2000, 0x2001, 0x2002, 0x2003,
        0x2004, 0x2005, 0x2006, 0x2007, 0x2008, 0x2009, 0x200a, 0x2028, 0x2029, 0x202f, 0x205f,
        0x3000,
    ];
    let code = c as int;
    if white_space(c) {
        let place = if code <= 0xd {
            code - 0x9
        } else if code <= 0x85 {
            if code == 0x20 { 5int } else { 6 }
        } else if code <= 0x1680 {
            if code == 0xa0 { 7int } else { 8 }
        } else if code <= 0x200a {
            code - 0x2000 + 9
        } else if code <= 0x2029 {
            code - 0x2028 + 20
        } else if code == 0x202f {
            22
        } else if code == 0x205f {
            23
        } else {
            24
        };
        assert(listed[place] == code);
    }
}

/// What was cut at a separator is the same text again when it is joined with that separator.
pub proof fn law_split_joins_back(s: Seq<char>, separator: char)
    ensures
        joined(pieces(s, separator), seq![separator]) == s,
    decreases s.len(),
{
    lemma_pieces_not_empty(s, separator);
    let parts = pieces(s, separator);
    if s.len() > 0 {
        let before = pieces(s.drop_last(), separator);
        law_split_joins_back(s.drop_last(), separator);
        lemma_pieces_not_empty(s.drop_last(), separator);
        if s.last() == separator {
            assert(parts.drop_last() == before);
            assert(parts.last() == Seq::<char>::empty());
            assert(joined(parts, seq![separator]) == s.drop_last() + seq![separator]);
            assert(s == s.drop_last().push(separator));
        } else {
            assert(parts.drop_last() == before.drop_last());
            assert(parts.last() == before.last().push(s.last()));
            if before.len() > 1 {
                assert(joined(before, seq![separator]) == joined(
                    before.drop_last(),
                    seq![separator],
                ) + seq![separator] + before.last());
                assert(joined(parts, seq![separator]) == joined(before, seq![separator]).push(
                    s.last(),
                ));
            } else {
                assert(parts.len() == 1);
                assert(joined(before, seq![separator]) == before[0]);
                assert(joined(parts, seq![separator]) == parts[0]);
            }
            assert(s == s.drop_last().push(s.last()));
        }
    }
}

/// A text has at least one piece.
proof fn lemma_pieces_not_empty(s: Seq<char>, separator: char)
    ensures
        pieces(s, separator).len() > 0,
    decreases s.len(),
{
    if s.len() > 0 {
        lemma_pieces_not_empty(s.drop_last(), separator);
    }
}

/// No piece of a text holds the separator.
pub proof fn law_pieces_hold_no_separator(s: Seq<char>, separator: char)
    ensures
        pieces(s, separator).len() > 0,
        forall|i: int|
            0 <= i < pieces(s, separator).len() ==> !(#[trigger] pieces(
                s,
                separator,
            )[i]).contains(separator),
    decreases s.len(),
{
    lemma_pieces_not_empty(s, separator);
    if s.len() > 0 {
        let parts = pieces(s, separator);
        let before = pieces(s.drop_last(), separator);
        law_pieces_hold_no_separator(s.drop_last(), separator);
        assert forall|i: int| 0 <= i < parts.len() implies !(#[trigger] parts[i]).contains(
            separator,
        ) by {
            if s.last() == separator {
                if i < before.len() {
                    assert(parts[i] == before[i]);
                }
            } else {
                assert(!before.last().contains(separator));
                if i < before.len() - 1 {
                    assert(parts[i] == before[i]);
                } else {
                    assert(parts[i] == before.last().push(s.last()));
                    if parts[i].contains(separator) {
                        let j = choose|j: int| 0 <= j < parts[i].len() && parts[i][j] == separator;
                        assert(before.last()[j] == separator);
                    }
                }
            }
        }
    }
}

/// Trimming takes away white space at the two ends, all of it and nothing else.
pub proof fn law_trim_takes_the_ends(s: Seq<char>)
    ensures
        tight(trimmed(s)),
        exists|before: Seq<char>, after: Seq<char>|
            all_white(before) && all_white(after) && s == #[trigger] padded(before, trimmed(s), after),
{
    let (before, rest) = lemma_trimmed_start(s);
    let after = lemma_trimmed_end(rest);
    assert(trimmed(s) == trimmed_end(rest));
    if trimmed(s).len() > 0 {
        assert(rest.len() > 0);
        assert(trimmed(s)[0] == rest[0]);
    }
    assert(s == padded(before, trimmed(s), after));
}

/// What is trimmed from the start.
proof fn lemma_trimmed_start(s: Seq<char>) -> (parts: (Seq<char>, Seq<char>))
    ensures
        all_white(parts.0),
        parts.1 == trimmed_start(s),
        s == parts.0 + parts.1,
        parts.1.len() > 0 ==> !white_space(parts.1[0]),
    decreases s.len(),
{
    if s.len() > 0 && white_space(s[0]) {
        let (before, rest) = lemma_trimmed_start(s.drop_first());
        let white = seq![s[0]] + before;
        assert(s == seq![s[0]] + s.drop_first());
        assert(white + rest == seq![s[0]] + (before + rest));
        (white, rest)
    } else {
        assert(s == Seq::<char>::empty() + s);
        (Seq::empty(), s)
    }
}

/// What is trimmed from the end.
proof fn lemma_trimmed_end(s: Seq<char>) -> (after: Seq<char>)
    ensures
        all_white(after),
        s == trimmed_end(s) + after,
        trimmed_end(s).len() > 0 ==> !white_space(trimmed_end(s).last()),
    decreases s.len(),
{
    if s.len() > 0 && white_space(s.last()) {
        let rest = lemma_trimmed_end(s.drop_last());
        let after = rest.push(s.last());
        assert(s == s.drop_last().push(s.last()));
        assert(trimmed_end(s) + after == (trimmed_end(s) + rest).push(s.last()));
        after
    } else {
        assert(s == s + Seq::<char>::empty());
        Seq::empty()
    }
}

/// White space around a text without white space at its ends is trimmed away.
pub proof fn law_trim_ignores_padding(before: Seq<char>, s: Seq<char>, after: Seq<char>)
    requires
        all_white(before),
        all_white(after),
        tight(s),
    ensures
        trimmed(padded(before, s, after)) == s,
    decreases before.len(), after.len(),
{
    let whole = padded(before, s, after);
    if before.len() > 0 {
        let rest = before.drop_first();
        assert(whole[0] == before[0]);
        assert(whole.drop_first() == padded(rest, s, after));
        assert forall|i: int| 0 <= i < rest.len() implies white_space(#[trigger] rest[i]) by {
            assert(rest[i] == before[i + 1]);
        }
        law_trim_ignores_padding(rest, s, after);
    } else if s.len() == 0 {
        if after.len() > 0 {
            let rest = after.drop_first();
            assert(whole[0] == after[0]);
            assert(whole.drop_first() == padded(before, s, rest));
            assert forall|i: int| 0 <= i < rest.len() implies white_space(#[trigger] rest[i]) by {
                assert(rest[i] == after[i + 1]);
            }
            law_trim_ignores_padding(before, s, rest);
        } else {
            assert(whole == s);
        }
    } else {
        assert(whole[0] == s[0]);
        assert(whole == s + after);
        lemma_trimmed_end_ignores_padding(s, after);
    }
}

/// White space after a text without white space at its end is trimmed away.
proof fn lemma_trimmed_end_ignores_padding(s: Seq<char>, after: Seq<char>)
    requires
        all_white(after),
        s.len() > 0 ==> !white_space(s.last()),
    ensures
        trimmed_end(s + after) == s,
    decreases after.len(),
{
    if after.len() > 0 {
        assert((s + after).last() == after.last());
        assert((s + after).drop_last() == s + after.drop_last());
        lemma_trimmed_end_ignores_padding(s, after.drop_last());
    } else {
        assert(s + after == s);
    }
}

/// Trimming a second time changes nothing.
pub proof fn law_trim_is_idempotent(s: Seq<char>)
    ensures
        trimmed(trimmed(s)) == trimmed(s),
{
    law_trim_takes_the_ends(s);
    law_trim_ignores_padding(Seq::empty(), trimmed(s), Seq::empty());
    assert(padded(Seq::empty(), trimmed(s), Seq::empty()) == trimmed(s));
}

/// A number that was written in decimal reads back as the same number, with or without a plus
/// sign.
pub proof fn law_decimal_reads_back(n: usize)
    ensures
        parsed_number(decimal(n as nat)) == Some(n),
        parsed_number(seq!['+'] + decimal(n as nat)) == Some(n),
{
    lemma_decimal(n as nat);
    let digits = decimal(n as nat);
    assert(is_digit(digits[0]));
    assert(without_sign(digits) == digits);
    let signed = seq!['+'] + digits;
    assert(signed[0] == '+');
    assert(without_sign(signed) == digits);
}

/// A number in decimal is made of digits that stand for it.
pub(crate) proof fn lemma_decimal(n: nat)
    ensures
        decimal(n).len() > 0,
        all_digits(decimal(n)),
        digits_value(decimal(n)) == n,
    decreases n,
{
    let d = n % 10;
    assert(is_digit(digit_char(d)));
    assert(digit_char(d) as nat - '0' as nat == d);
    if n < 10 {
        assert(decimal(n).drop_last() == Seq::<char>::empty());
        assert(digits_value(Seq::empty()) == 0);
    } else {
        lemma_decimal(n / 10);
        assert(decimal(n).drop_last() == decimal(n / 10));
    }
}

/// A number below ten is written as one digit; of any other number the last digit is what remains
/// of it after division by ten, and the digits before it are those of the quotient.
pub proof fn law_decimal_is_positional(n: nat)
    ensures
        n < 10 ==> decimal(n).len() == 1,
        decimal(n).len() > 0,
        decimal(n).last() as nat == '0' as nat + n % 10,
        n >= 10 ==> decimal(n).drop_last() == decimal(n / 10),
{
    if n >= 10 {
        assert(decimal(n).drop_last() == decimal(n / 10));
    }
}

/// No texts join to an empty text, one text to itself, and two lists of texts to what each of them
/// joins to with the separator in between.
pub proof fn law_join_puts_the_separator_between(
    part: Seq<char>,
    a: Seq<Seq<char>>,
    b: Seq<Seq<char>>,
    separator: Seq<char>,
)
    ensures
        joined(Seq::empty(), separator) == Seq::<char>::empty(),
        joined(seq![part], separator) == part,
        a.len() > 0 && b.len() > 0 ==> joined(a + b, separator) == joined(a, separator) + separator
            + joined(b, separator),
    decreases b.len(),
{
    if a.len() > 0 && b.len() > 0 {
        assert((a + b).drop_last() == a + b.drop_last());
        assert((a + b).last() == b.last());
        if b.len() == 1 {
            assert(a + b.drop_last() == a);
        } else {
            law_join_puts_the_separator_between(part, a, b.drop_last(), separator);
            assert(joined(a + b, separator) =~= joined(a, separator) + separator + joined(
                b,
                separator,
            ));
        }
    }
}

/// So many zeros.
pub open spec fn zeros(count: nat) -> Seq<char> {
    Seq::new(count, |i: int| '0')
}

/// `n` in decimal with so many zeros in front of it.
pub open spec fn zero_padded(count: nat, n: nat) -> Seq<char> {
    zeros(count) + decimal(n)
}

/// What reads as a number is that number in decimal, with any number of zeros in front of it, and
/// with or without a plus sign in front of these; and nothing else reads as a number.
pub proof fn law_numbers_are_read_as_written(s: Seq<char>, n: usize)
    ensures
        parsed_number(s) == Some(n) <==> exists|count: nat|
            s == #[trigger] zero_padded(count, n as nat) || s == seq!['+'] + zero_padded(
                count,
                n as nat,
            ),
{
    let digits = without_sign(s);
    if parsed_number(s) == Some(n) {
        let count = lemma_digits_are_padded(digits);
        assert(digits == zero_padded(count, n as nat));
        if s[0] == '+' {
            assert(s == seq!['+'] + digits);
        }
    }
    if exists|count: nat|
        s == #[trigger] zero_padded(count, n as nat) || s == seq!['+'] + zero_padded(
            count,
            n as nat,
        ) {
        let count = choose|count: nat|
            s == #[trigger] zero_padded(count, n as nat) || s == seq!['+'] + zero_padded(
                count,
                n as nat,
            );
        let padded = zero_padded(count, n as nat);
        lemma_padded_digits(count, n as nat);
        assert(is_digit(padded[0]));
        if s == padded {
            assert(without_sign(s) == padded);
        } else {
            assert(s[0] == '+');
            assert(without_sign(s) == padded);
        }
    }
}

/// Digits are the number that they stand for, with zeros in front of it.
proof fn lemma_digits_are_padded(digits: Seq<char>) -> (count: nat)
    requires
        digits.len() > 0,
        all_digits(digits),
    ensures
        digits == zero_padded(count, digits_value(digits)),
    decreases digits.len(),
{
    let d = (digits.last() as nat - '0' as nat) as nat;
    assert(is_digit(digits[digits.len() - 1]));
    assert(digit_char(d) == digits.last());
    if digits.len() == 1 {
        assert(digits.drop_last() == Seq::<char>::empty());
        assert(digits_value(digits.drop_last()) == 0);
        assert(digits_value(digits) == d);
        assert(digits == zero_padded(0, d));
        0
    } else {
        let front = digits.drop_last();
        assert forall|i: int| 0 <= i < front.len() implies is_digit(#[trigger] front[i]) by {
            assert(front[i] == digits[i]);
        }
        let count = lemma_digits_are_padded(front);
        let value = digits_value(front);
        assert(digits == front.push(digits.last()));
        assert(digits_value(digits) == value * 10 + d);
        if value == 0 {
            assert(decimal(0) == seq!['0']);
            assert(front == zeros(count + 1));
            assert(decimal(d) == seq![digits.last()]);
            assert(digits == zero_padded(count + 1, d));
            count + 1
        } else {
            let n = digits_value(digits);
            assert(n / 10 == value && n % 10 == d);
            assert(decimal(n) == decimal(value).push(digit_char(d)));
            assert(digits == zero_padded(count, n));
            count
        }
    }
}

/// Zeros in front of a number in decimal do not change what the digits stand for.
proof fn lemma_padded_digits(count: nat, n: nat)
    ensures
        zero_padded(count, n).len() > 0,
        all_digits(zero_padded(count, n)),
        digits_value(zero_padded(count, n)) == n,
{
    lemma_decimal(n);
    let padded = zero_padded(count, n);
    assert forall|i: int| 0 <= i < padded.len() implies is_digit(#[trigger] padded[i]) by {
        if i >= count {
            assert(padded[i] == decimal(n)[i - count]);
        }
    }
    lemma_zeros_in_front(count, decimal(n));
}

/// Zeros in front of digits do not change what these stand for.
proof fn lemma_zeros_in_front(count: nat, digits: Seq<char>)
    ensures
        digits_value(zeros(count) + digits) == digits_value(digits),
    decreases digits.len(), count,
{
    let whole = zeros(count) + digits;
    if digits.len() > 0 {
        assert(whole.drop_last() == zeros(count) + digits.drop_last());
        lemma_zeros_in_front(count, digits.drop_last());
    } else if count > 0 {
        let fewer = (count - 1) as nat;
        assert(whole.drop_last() == zeros(fewer) + digits);
        assert(whole.last() == '0');
        lemma_zeros_in_front(fewer, digits);
    } else {
        assert(whole == digits);
    }
}

} // verus!
