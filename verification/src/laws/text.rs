//! Laws of text operations.

use crate::name_map::{lemma_entry_map, NameMap};
use crate::text::{
    char_vec, concat2, concat3, contains, decimal_digits, decimal_i32, decimal_u64,
    matches_at, occurs_at, same_text, starts_with, strip_prefix, trim, trim_start_matches, trimmed,
    white_space, without_leading_space, without_trailing_space,
};
use vstd::prelude::*;

verus! {

// ---------------------------------------------------------------------------
// Comparison and occurrences
// ---------------------------------------------------------------------------

/// The characters of a text are the text, and texts are the same if their
/// characters are.
pub proof fn law_characters(left: &str, right: &str, chars: Vec<char>, same: bool)
    requires
        call_ensures(char_vec, (left,), chars),
        call_ensures(same_text, (left, right), same),
    ensures
        chars@ == left@,
        same <==> left@ == right@,
{
}

/// Joined texts stand one after the other.
pub proof fn law_joined_texts(first: &str, second: &str, third: &str, two: String, three: String)
    requires
        call_ensures(concat2, (first, second), two),
        call_ensures(concat3, (first, second, third), three),
    ensures
        two@ == first@ + second@,
        three@ == first@ + second@ + third@,
{
}

/// A pattern stands at a position if the text can be cut there into what is
/// before, the pattern and what is after.
pub proof fn law_occurrence(text: Seq<char>, pattern: Seq<char>, at: int)
    ensures
        occurs_at(text, pattern, at) <==> exists|before: Seq<char>, after: Seq<char>|
            before.len() == at && text == #[trigger] (before + pattern + after),
{
    if occurs_at(text, pattern, at) {
        let before = text.take(at);
        let after = text.skip(at + pattern.len());
        assert(text =~= before + pattern + after);
    }
    if exists|before: Seq<char>, after: Seq<char>|
        before.len() == at && text == #[trigger] (before + pattern + after) {
        let (before, after) = choose|before: Seq<char>, after: Seq<char>|
            before.len() == at && text == #[trigger] (before + pattern + after);
        assert(text.subrange(at, at + pattern.len()) =~= pattern);
    }
}

/// The test for a pattern at a position cuts the text there.
pub proof fn law_matches_at(text: &Vec<char>, pattern: &Vec<char>, at: usize, found: bool)
    requires
        call_ensures(matches_at, (text, pattern, at), found),
    ensures
        found <==> exists|before: Seq<char>, after: Seq<char>|
            before.len() == at && text@ == #[trigger] (before + pattern@ + after),
{
    law_occurrence(text@, pattern@, at as int);
}

/// A text contains a pattern if it can be cut into what is before, the pattern
/// and what is after.
pub proof fn law_contains(text: &str, pattern: &str, found: bool)
    requires
        call_ensures(contains, (text, pattern), found),
    ensures
        found <==> exists|before: Seq<char>, after: Seq<char>|
            text@ == #[trigger] (before + pattern@ + after),
{
    if found {
        let at = choose|at: int| occurs_at(text@, pattern@, at);
        law_occurrence(text@, pattern@, at);
    }
    if exists|before: Seq<char>, after: Seq<char>|
        text@ == #[trigger] (before + pattern@ + after) {
        let (before, after) = choose|before: Seq<char>, after: Seq<char>|
            text@ == #[trigger] (before + pattern@ + after);
        law_occurrence(text@, pattern@, before.len() as int);
        assert(occurs_at(text@, pattern@, before.len() as int));
    }
}

/// A text begins with a prefix if it is the prefix and a rest, and stripping the
/// prefix gives that rest.
pub proof fn law_prefix(text: &str, prefix: &str, found: bool, rest: Option<&str>)
    requires
        call_ensures(starts_with, (text, prefix), found),
        call_ensures(strip_prefix, (text, prefix), rest),
    ensures
        found <==> rest is Some,
        rest matches Some(rest) ==> text@ == prefix@ + rest@,
        rest is None ==> forall|after: Seq<char>| text@ != #[trigger] (prefix@ + after),
{
    if rest is Some {
        assert(text@ =~= prefix@ + text@.skip(prefix@.len() as int));
    } else {
        assert forall|after: Seq<char>| text@ != #[trigger] (prefix@ + after) by {
            if text@ == prefix@ + after {
                assert(text@.subrange(0, prefix@.len() as int) =~= prefix@);
            }
        }
    }
}

/// A leading copy of a prefix makes no difference to what is left after all of
/// them are removed, and a text that does not begin with it is left as it is.
pub proof fn law_leading_copies(
    text: &str,
    longer: &str,
    prefix: &str,
    rest: &str,
    longer_rest: &str,
)
    requires
        prefix@.len() > 0,
        longer@ == prefix@ + text@,
        call_ensures(trim_start_matches, (text, prefix), rest),
        call_ensures(trim_start_matches, (longer, prefix), longer_rest),
    ensures
        longer_rest@ == rest@,
        (forall|after: Seq<char>| text@ != #[trigger] (prefix@ + after)) ==> rest@ == text@,
{
    assert(longer@.subrange(0, prefix@.len() as int) =~= prefix@);
    assert(longer@.skip(prefix@.len() as int) =~= text@);
    if occurs_at(text@, prefix@, 0) {
        assert(text@ =~= prefix@ + text@.skip(prefix@.len() as int));
    }
}

// ---------------------------------------------------------------------------
// White space
// ---------------------------------------------------------------------------

/// A text of white space only.
pub open spec fn blank(text: Seq<char>) -> bool {
    forall|i: int| 0 <= i < text.len() ==> white_space(#[trigger] text[i])
}

/// A text with no white space at its ends.
pub open spec fn tight(text: Seq<char>) -> bool {
    text.len() > 0 ==> !white_space(text[0]) && !white_space(text[text.len() - 1])
}

/// Without its leading white space a text is what follows that white space.
pub proof fn lemma_leading(text: Seq<char>) -> (before: Seq<char>)
    ensures
        text == before + without_leading_space(text),
        blank(before),
        without_leading_space(text).len() > 0 ==> !white_space(without_leading_space(text)[0]),
    decreases text.len(),
{
    if text.len() > 0 && white_space(text[0]) {
        let before = lemma_leading(text.skip(1));
        let longer = seq![text[0]] + before;
        assert(text =~= seq![text[0]] + text.skip(1));
        assert(seq![text[0]] + (before + without_leading_space(text.skip(1))) =~= longer
            + without_leading_space(text.skip(1)));
        assert(text =~= longer + without_leading_space(text));
        longer
    } else {
        assert(text =~= Seq::<char>::empty() + text);
        Seq::empty()
    }
}

/// Without its trailing white space a text is what precedes that white space.
pub proof fn lemma_trailing(text: Seq<char>) -> (after: Seq<char>)
    ensures
        text == without_trailing_space(text) + after,
        blank(after),
        without_trailing_space(text).len() > 0 ==> !white_space(
            without_trailing_space(text)[without_trailing_space(text).len() - 1],
        ),
    decreases text.len(),
{
    if text.len() > 0 && white_space(text.last()) {
        let after = lemma_trailing(text.drop_last());
        let longer = after.push(text.last());
        assert(text =~= text.drop_last().push(text.last()));
        assert((without_trailing_space(text.drop_last()) + after).push(text.last())
            =~= without_trailing_space(text.drop_last()) + longer);
        assert(text =~= without_trailing_space(text) + longer);
        longer
    } else {
        assert(text =~= text + Seq::<char>::empty());
        Seq::empty()
    }
}

/// Trimming takes white space away at both ends, all of it and nothing else.
pub proof fn law_trim(text: &str, rest: &str)
    requires
        call_ensures(trim, (text,), rest),
    ensures
        tight(rest@),
        exists|before: Seq<char>, after: Seq<char>|
            blank(before) && blank(after) && text@ == #[trigger] (before + rest@ + after),
{
    let before = lemma_leading(text@);
    let middle = without_leading_space(text@);
    let after = lemma_trailing(middle);
    assert(text@ =~= before + rest@ + after);
    if rest@.len() > 0 {
        assert(rest@[0] == middle[0]);
    }
}

/// A text with no white space at its ends is trimmed to itself.
pub proof fn lemma_tight_is_trimmed(text: Seq<char>)
    requires
        tight(text),
    ensures
        trimmed(text) == text,
{
}

/// White space around a text makes no difference to its trimmed form.
pub proof fn law_blanks_are_trimmed(before: Seq<char>, text: Seq<char>, after: Seq<char>)
    requires
        blank(before),
        blank(after),
        tight(text),
    ensures
        trimmed(before + text + after) == text,
    decreases before.len() + after.len(),
{
    if before.len() > 0 {
        let whole = before + text + after;
        assert(whole[0] == before[0]);
        assert(whole.skip(1) =~= before.skip(1) + text + after);
        law_blanks_are_trimmed(before.skip(1), text, after);
    } else if text.len() > 0 {
        lemma_trailing_blanks(text, after);
        assert(before + text + after =~= text + after);
        assert((text + after)[0] == text[0]);
    } else if after.len() > 0 {
        assert(before + text + after =~= after);
        assert(after.skip(1) =~= before + text + after.skip(1));
        law_blanks_are_trimmed(before, text, after.skip(1));
    } else {
        assert(before + text + after =~= text);
    }
}

/// White space after a text is taken away.
proof fn lemma_trailing_blanks(text: Seq<char>, after: Seq<char>)
    requires
        blank(after),
        text.len() > 0,
        !white_space(text[text.len() - 1]),
    ensures
        without_trailing_space(text + after) == text,
    decreases after.len(),
{
    if after.len() == 0 {
        assert(text + after =~= text);
    } else {
        assert((text + after).last() == after[after.len() - 1]);
        assert((text + after).drop_last() =~= text + after.drop_last());
        lemma_trailing_blanks(text, after.drop_last());
    }
}

// ---------------------------------------------------------------------------
// Decimal numbers
// ---------------------------------------------------------------------------

/// The number that a row of decimal digits stands for.
pub open spec fn number_of(digits: Seq<char>) -> int
    decreases digits.len(),
{
    if digits.len() == 0 {
        0
    } else {
        10 * number_of(digits.drop_last()) + (digits.last() as int - '0' as int)
    }
}

/// A row of decimal digits that does not begin with a zero, but for the zero
/// itself.
pub open spec fn canonical_digits(digits: Seq<char>) -> bool {
    &&& digits.len() > 0
    &&& forall|i: int| 0 <= i < digits.len() ==> '0' <= #[trigger] digits[i] <= '9'
    &&& digits.len() > 1 ==> digits[0] != '0'
}

/// The digits of a number stand for it.
proof fn lemma_digits(number: nat)
    ensures
        canonical_digits(decimal_digits(number)),
        number_of(decimal_digits(number)) == number,
        number > 0 ==> decimal_digits(number)[0] != '0',
    decreases number,
{
    let digits = decimal_digits(number);
    if number < 10 {
        assert(digits.drop_last() =~= Seq::<char>::empty());
        assert(number_of(digits.drop_last()) == 0);
    } else {
        lemma_digits(number / 10);
        assert(digits.drop_last() =~= decimal_digits(number / 10));
        assert(digits[0] == decimal_digits(number / 10)[0]);
    }
}

/// An unsigned number is written with digits only, without needless zeros, and
/// they stand for the number.
pub proof fn law_decimal_u64(number: u64, text: String)
    requires
        call_ensures(decimal_u64, (number,), text),
    ensures
        canonical_digits(text@),
        number_of(text@) == number,
{
    lemma_digits(number as nat);
}

/// A signed number is written with digits only, without needless zeros, behind a
/// minus sign where it is negative.
pub proof fn law_decimal_i32(number: i32, text: String)
    requires
        call_ensures(decimal_i32, (number,), text),
    ensures
        number >= 0 ==> canonical_digits(text@) && number_of(text@) == number,
        number < 0 ==> text@.len() > 0 && text@[0] == '-' && canonical_digits(text@.skip(1))
            && number_of(text@.skip(1)) == -number,
{
    if number < 0 {
        lemma_digits((-number) as nat);
        assert(text@.skip(1) =~= decimal_digits((-number) as nat));
    } else {
        lemma_digits(number as nat);
    }
}

// ---------------------------------------------------------------------------
// Maps from names
// ---------------------------------------------------------------------------

/// What was put under a name is found there, and nothing else changes.
pub proof fn law_value_is_found<V>(
    map: NameMap<V>,
    name: String,
    value: V,
    longer: NameMap<V>,
    other: &str,
    before: Option<&V>,
    after: Option<&V>,
    known: bool,
)
    requires
        call_ensures(NameMap::<V>::with, (map, name, value), longer),
        call_ensures(NameMap::<V>::get, (&map, other), before),
        call_ensures(NameMap::<V>::get, (&longer, other), after),
        call_ensures(NameMap::<V>::contains_key, (&longer, other), known),
    ensures
        other@ == name@ ==> (after matches Some(found) && *found == value),
        other@ != name@ ==> after == before,
        known <==> after is Some,
{
}

/// A new map is empty.
pub proof fn law_new_map_is_empty<V>(map: NameMap<V>, name: &str, value: Option<&V>)
    requires
        call_ensures(NameMap::<V>::new, (), map),
        call_ensures(NameMap::<V>::get, (&map, name), value),
    ensures
        value is None,
{
}

/// The entries of a map are what is found in it, each name once.
pub proof fn law_entries<V>(
    map: NameMap<V>,
    entries: &Vec<(String, V)>,
    taken: Vec<(String, V)>,
    name: &str,
    value: Option<&V>,
)
    requires
        call_ensures(NameMap::<V>::entries, (&map,), entries),
        call_ensures(NameMap::<V>::into_entries, (map,), taken),
        call_ensures(NameMap::<V>::get, (&map, name), value),
    ensures
        value is Some <==> exists|i: int|
            0 <= i < entries@.len() && (#[trigger] entries@[i]).0@ == name@,
        value is Some <==> exists|i: int|
            0 <= i < taken@.len() && (#[trigger] taken@[i]).0@ == name@,
        forall|i: int|
            0 <= i < entries@.len() && (#[trigger] entries@[i]).0@ == name@ ==> (value matches Some(
                value,
            ) && *value == entries@[i].1),
        forall|i: int|
            0 <= i < taken@.len() && (#[trigger] taken@[i]).0@ == name@ ==> (value matches Some(
                value,
            ) && *value == taken@[i].1),
        forall|i: int, j: int|
            0 <= i < j < entries@.len() ==> (#[trigger] entries@[i]).0@ != (
            #[trigger] entries@[j]).0@,
        forall|i: int, j: int|
            0 <= i < j < taken@.len() ==> (#[trigger] taken@[i]).0@ != (#[trigger] taken@[j]).0@,
{
    lemma_entry_map(entries@);
    lemma_entry_map(taken@);
}

} // verus!
