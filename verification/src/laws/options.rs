//! Laws of options that are written as lines of text.

use crate::error::ServiceResult;
use crate::jobs::options::{
    law_options_of_joined_texts, line_length, lines, lowercase, option_texts, options_in,
    parse_options, read_option, separated_at, SEPARATOR,
};
use crate::laws::text::{law_occurrence, lemma_tight_is_trimmed, tight};
use crate::name_map::NameMap;
use crate::text::{occurs_at, trim};
use vstd::prelude::*;
use vstd::utf8::is_ascii_chars;

verus! {

/// A text is another one with its ASCII capital letters made small.
pub open spec fn is_small_form(small: Seq<char>, text: Seq<char>) -> bool {
    &&& small.len() == text.len()
    &&& forall|i: int|
        0 <= i < text.len() ==> #[trigger] small[i] as int == if 'A' <= text[i] <= 'Z' {
            text[i] as int + 32
        } else {
            text[i] as int
        }
}

/// A line can be cut at the separator in one way only.
proof fn lemma_cut_once(before: Seq<char>, after: Seq<char>)
    requires
        forall|front: Seq<char>, back: Seq<char>|
            before + ": "@ + after == #[trigger] (front + ": "@ + back) ==> front.len()
                == before.len(),
    ensures
        separated_at(before + ": "@ + after, before.len() as int),
{
    let line = before + ": "@ + after;
    law_occurrence(line, ": "@, before.len() as int);
    assert forall|other: int| #[trigger] occurs_at(line, SEPARATOR@, other) implies other
        == before.len() by {
        law_occurrence(line, ": "@, other);
        let (front, back) = choose|front: Seq<char>, back: Seq<char>|
            front.len() == other && line == #[trigger] (front + ": "@ + back);
        assert(front.len() == before.len());
    }
}

/// A line that can be cut at a colon and a blank in one way only holds the option
/// whose name stands before them and whose value stands behind them, both without
/// the white space around them, the name in small letters.
pub proof fn law_line_holds_its_option(
    line: &str,
    before: &str,
    after: &str,
    name: &str,
    value: &str,
    option: Option<(String, String)>,
)
    requires
        line@ == before@ + ": "@ + after@,
        forall|front: Seq<char>, back: Seq<char>|
            line@ == #[trigger] (front + ": "@ + back) ==> front.len() == before@.len(),
        call_ensures(trim, (before,), name),
        call_ensures(trim, (after,), value),
        call_ensures(read_option, (line,), option),
    ensures
        option is Some,
        (option->0).1@ == value@,
        is_ascii_chars(name@) ==> is_small_form((option->0).0@, name@),
        !is_ascii_chars(name@) ==> (option->0).0@ == lowercase(name@),
{
    reveal_strlit(": ");
    lemma_cut_once(before@, after@);
    let at = choose|at: int| separated_at(line@, at);
    assert(occurs_at(line@, SEPARATOR@, at));
    assert(at == before@.len());
    assert(line@.take(at) =~= before@);
    assert(line@.skip(at + SEPARATOR@.len()) =~= after@);
}

/// A name and a value without white space at their ends, written as a line with
/// the separator once, come back whole, the name in small letters.
pub proof fn law_option_comes_back(
    line: &str,
    name: Seq<char>,
    value: Seq<char>,
    option: Option<(String, String)>,
)
    requires
        tight(name),
        tight(value),
        line@ == name + ": "@ + value,
        forall|front: Seq<char>, back: Seq<char>|
            line@ == #[trigger] (front + ": "@ + back) ==> front.len() == name.len(),
        call_ensures(read_option, (line,), option),
    ensures
        option is Some,
        (option->0).1@ == value,
        is_ascii_chars(name) ==> is_small_form((option->0).0@, name),
        !is_ascii_chars(name) ==> (option->0).0@ == lowercase(name),
{
    reveal_strlit(": ");
    lemma_cut_once(name, value);
    let at = choose|at: int| separated_at(line@, at);
    assert(occurs_at(line@, SEPARATOR@, at));
    assert(at == name.len());
    assert(line@.take(at) =~= name);
    assert(line@.skip(at + SEPARATOR@.len()) =~= value);
    lemma_tight_is_trimmed(name);
    lemma_tight_is_trimmed(value);
}

/// A line that cannot be cut at a colon and a blank, or that can be cut there in
/// two ways, holds no option.
pub proof fn law_other_line_holds_no_option(line: &str, option: Option<(String, String)>)
    requires
        (forall|front: Seq<char>, back: Seq<char>| line@ != #[trigger] (front + ": "@ + back)) || (
        exists|first: int, second: int|
            first != second && #[trigger] occurs_at(line@, ": "@, first) && #[trigger] occurs_at(
                line@,
                ": "@,
                second,
            )),
        call_ensures(read_option, (line,), option),
    ensures
        option is None,
{
    assert forall|at: int| !separated_at(line@, at) by {
        if separated_at(line@, at) {
            law_occurrence(line@, ": "@, at);
            assert(occurs_at(line@, SEPARATOR@, at));
            if exists|first: int, second: int|
                first != second && #[trigger] occurs_at(line@, ": "@, first)
                    && #[trigger] occurs_at(line@, ": "@, second) {
                let (first, second) = choose|first: int, second: int|
                    first != second && #[trigger] occurs_at(line@, ": "@, first)
                        && #[trigger] occurs_at(line@, ": "@, second);
                assert(occurs_at(line@, SEPARATOR@, first));
                assert(occurs_at(line@, SEPARATOR@, second));
            }
        }
    }
}

/// The first line of a text without line feeds is the text.
proof fn lemma_one_line(text: Seq<char>)
    requires
        forall|i: int| 0 <= i < text.len() ==> #[trigger] text[i] != '\n',
    ensures
        line_length(text) == text.len(),
    decreases text.len(),
{
    if text.len() > 0 {
        lemma_one_line(text.skip(1));
    }
}

/// The options of a text of one line are the option of that line, or none.
pub proof fn law_options_of_one_line(
    text: &str,
    option: Option<(String, String)>,
    options: ServiceResult<NameMap<String>>,
)
    requires
        forall|i: int| 0 <= i < text@.len() ==> #[trigger] text@[i] != '\n',
        call_ensures(read_option, (text,), option),
        call_ensures(parse_options, (text,), options),
    ensures
        options is Ok,
        forall|key: Seq<char>| #[trigger]
            options->Ok_0@.contains_key(key) <==> option is Some && key == (option->0).0@,
        option is Some ==> options->Ok_0@[(option->0).0@]@ == (option->0).1@,
{
    lemma_one_line(text@);
    let found = options_in(lines(text@));
    if text@.len() == 0 {
        reveal_strlit(": ");
        law_other_line_holds_no_option(text, option);
        assert(lines(text@) =~= Seq::empty());
    } else {
        assert(lines(text@) =~= seq![text@]);
        assert(seq![text@].drop_last() =~= Seq::<Seq<char>>::empty());
        assert(options_in(seq![text@].drop_last()) == Map::<Seq<char>, Seq<char>>::empty());
    }
    assert forall|key: Seq<char>| #[trigger]
        options->Ok_0@.contains_key(key) <==> option is Some && key == (option->0).0@ by {
        assert(option_texts(options->Ok_0@).contains_key(key) == found.contains_key(key));
    }
    if option is Some {
        assert(option_texts(options->Ok_0@)[(option->0).0@] == found[(option->0).0@]);
    }
}

/// The options of two texts joined by a line feed are those of both; where both
/// have one of a name, the second text counts.
pub proof fn law_later_text_counts(
    first: &str,
    second: &str,
    text: &str,
    first_options: ServiceResult<NameMap<String>>,
    second_options: ServiceResult<NameMap<String>>,
    options: ServiceResult<NameMap<String>>,
)
    requires
        text@ == first@ + seq!['\n'] + second@,
        call_ensures(parse_options, (first,), first_options),
        call_ensures(parse_options, (second,), second_options),
        call_ensures(parse_options, (text,), options),
    ensures
        options is Ok && first_options is Ok && second_options is Ok,
        forall|key: Seq<char>| #[trigger]
            options->Ok_0@.contains_key(key) <==> first_options->Ok_0@.contains_key(key)
                || second_options->Ok_0@.contains_key(key),
        forall|key: Seq<char>|
            second_options->Ok_0@.contains_key(key) ==> (#[trigger] options->Ok_0@[key])@
                == second_options->Ok_0@[key]@,
        forall|key: Seq<char>|
            first_options->Ok_0@.contains_key(key) && !second_options->Ok_0@.contains_key(key)
                ==> (#[trigger] options->Ok_0@[key])@ == first_options->Ok_0@[key]@,
{
    law_options_of_joined_texts(first@, second@);
    let a = option_texts(first_options->Ok_0@);
    let b = option_texts(second_options->Ok_0@);
    let c = option_texts(options->Ok_0@);
    assert(c == a.union_prefer_right(b));
    assert forall|key: Seq<char>| #[trigger]
        options->Ok_0@.contains_key(key) <==> first_options->Ok_0@.contains_key(key)
            || second_options->Ok_0@.contains_key(key) by {
        assert(c.contains_key(key) == (a.contains_key(key) || b.contains_key(key)));
    }
    assert forall|key: Seq<char>|
        second_options->Ok_0@.contains_key(key) implies (#[trigger] options->Ok_0@[key])@
        == second_options->Ok_0@[key]@ by {
        assert(b.contains_key(key) && c[key] == b[key]);
    }
    assert forall|key: Seq<char>|
        first_options->Ok_0@.contains_key(key) && !second_options->Ok_0@.contains_key(
            key,
        ) implies (#[trigger] options->Ok_0@[key])@ == first_options->Ok_0@[key]@ by {
        assert(a.contains_key(key) && !b.contains_key(key) && c[key] == a[key]);
    }
}

} // verus!
