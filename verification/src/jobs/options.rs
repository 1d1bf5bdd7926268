//! Options written as lines of text, such as `project: bot`.

use crate::error::ServiceResult;
use crate::name_map::NameMap;
use crate::text::{char_vec, matches_at, occurs_at, trim, trimmed, white_space};
use vstd::prelude::*;
use vstd::string::*;
use vstd::utf8::is_ascii_chars;

verus! {

/// What stands between the name and the value of an option.
pub const SEPARATOR: &'static str = ": ";

// ---------------------------------------------------------------------------
// Specifications
// ---------------------------------------------------------------------------

/// A text in lower case, as the standard library has it.
pub uninterp spec fn lowercase(text: Seq<char>) -> Seq<char>;

/// An ASCII character in lower case.
pub open spec fn ascii_lowercase(c: char) -> char {
    if 'A' <= c <= 'Z' {
        ((c as u32) + 32) as char
    } else {
        c
    }
}

/// `str::to_lowercase`. The result depends on the text alone, and for ASCII text
/// each letter is put into lower case by itself.
#[verifier::external_body]
fn to_lowercase(text: &str) -> (lower: String)
    ensures
        lower@ == lowercase(text@),
        is_ascii_chars(text@) ==> lower@ == text@.map_values(|c: char| ascii_lowercase(c)),
{
    text.to_lowercase()
}

/// A text in lower case. In an ASCII text each letter is put into lower case by
/// itself.
pub open spec fn lowered(text: Seq<char>) -> Seq<char> {
    if is_ascii_chars(text) {
        text.map_values(|c: char| ascii_lowercase(c))
    } else {
        lowercase(text)
    }
}

/// The number of characters before the first line feed.
pub open spec fn line_length(text: Seq<char>) -> nat
    decreases text.len(),
{
    if text.len() == 0 || text[0] == '\n' {
        0
    } else {
        1 + line_length(text.skip(1))
    }
}

/// A line without the carriage return at its end.
pub open spec fn without_return(line: Seq<char>) -> Seq<char> {
    if line.len() > 0 && line.last() == '\r' {
        line.drop_last()
    } else {
        line
    }
}

/// The lines of a text. A line ends with a line feed, or with a carriage return
/// and a line feed; the last line may end with the text.
pub open spec fn lines(text: Seq<char>) -> Seq<Seq<char>>
    decreases text.len(),
{
    if text.len() == 0 {
        Seq::empty()
    } else if line_length(text) < text.len() {
        seq![without_return(text.take(line_length(text) as int))] + lines(
            text.skip(line_length(text) as int + 1),
        )
    } else {
        seq![text]
    }
}

/// The separator stands in a line once, at position `at`.
pub open spec fn separated_at(line: Seq<char>, at: int) -> bool {
    &&& occurs_at(line, SEPARATOR@, at)
    &&& forall|other: int| #[trigger] occurs_at(line, SEPARATOR@, other) ==> other == at
}

/// The option in a line: its name in lower case and its value, both without
/// surrounding white space. A line that does not hold the separator exactly
/// once holds no option.
pub open spec fn option_of(line: Seq<char>) -> Option<(Seq<char>, Seq<char>)> {
    if exists|at: int| separated_at(line, at) {
        let at = choose|at: int| separated_at(line, at);
        Some(
            (
                lowered(trimmed(line.take(at))),
                trimmed(line.skip(at + SEPARATOR@.len())),
            ),
        )
    } else {
        None
    }
}

/// The options in some lines. Where a name comes twice, the later line counts.
pub open spec fn options_in(lines: Seq<Seq<char>>) -> Map<Seq<char>, Seq<char>>
    decreases lines.len(),
{
    if lines.len() == 0 {
        Map::empty()
    } else {
        match option_of(lines.last()) {
            Some((name, value)) => options_in(lines.drop_last()).insert(name, value),
            None => options_in(lines.drop_last()),
        }
    }
}

/// Options with their values as character sequences.
pub open spec fn option_texts(options: Map<Seq<char>, String>) -> Map<Seq<char>, Seq<char>> {
    options.map_values(|value: String| value@)
}

// ---------------------------------------------------------------------------
// Reading
// ---------------------------------------------------------------------------

/// Where the separator stands in a line that holds it exactly once.
fn find_separator(line: &str) -> (position: Option<usize>)
    ensures
        match position {
            Some(at) => separated_at(line@, at as int),
            None => forall|at: int| !separated_at(line@, at),
        },
{
    let chars: Vec<char> = char_vec(line);
    let separator: Vec<char> = char_vec(SEPARATOR);
    proof {
        reveal_strlit(": ");
    }
    let mut found: Option<usize> = None;
    let mut at: usize = 0;
    while at < chars.len()
        invariant
            chars@ == line@,
            separator@ == SEPARATOR@,
            SEPARATOR@.len() == 2,
            at <= chars@.len(),
            match found {
                Some(first) => first < at && occurs_at(line@, SEPARATOR@, first as int) && forall|
                    other: int,
                |
                    other < at && #[trigger] occurs_at(line@, SEPARATOR@, other) ==> other == first,
                None => forall|other: int|
                    other < at ==> !#[trigger] occurs_at(line@, SEPARATOR@, other),
            },
        decreases chars@.len() - at,
    {
        if matches_at(&chars, &separator, at) {
            if found.is_some() {
                assert forall|other: int| !separated_at(line@, other) by {
                    assert(occurs_at(line@, SEPARATOR@, found->0 as int));
                    assert(occurs_at(line@, SEPARATOR@, at as int));
                }
                return None;
            }
            found = Some(at);
        }
        at += 1;
    }
    found
}

/// Reads the option in a line.
pub fn read_option(line: &str) -> (option: Option<(String, String)>)
    ensures
        match option {
            Some((name, value)) => option_of(line@) == Some((name@, value@)),
            None => option_of(line@) is None,
        },
{
    match find_separator(line) {
        Some(at) => {
            let end: usize = line.unicode_len();
            proof {
                reveal_strlit(": ");
                let chosen = choose|at: int| separated_at(line@, at);
                assert(chosen == at);
            }
            let name: &str = line.substring_char(0, at);
            let value: &str = line.substring_char(at + 2, end);
            assert(name@ =~= line@.take(at as int));
            assert(value@ =~= line@.skip(at + SEPARATOR@.len()));
            Some((to_lowercase(trim(name)), trim(value).to_owned()))
        },
        None => None,
    }
}

/// The position of the first line feed at or after `from`, or the end.
fn line_end(chars: &Vec<char>, from: usize) -> (end: usize)
    requires
        from <= chars@.len(),
    ensures
        from <= end <= chars@.len(),
        end - from == line_length(chars@.skip(from as int)),
        end < chars@.len() ==> chars@[end as int] == '\n',
{
    let mut end: usize = from;
    while end < chars.len() && chars[end] != '\n'
        invariant
            from <= end <= chars@.len(),
            line_length(chars@.skip(from as int)) == (end - from) + line_length(
                chars@.skip(end as int),
            ),
        decreases chars@.len() - end,
    {
        assert(chars@.skip(end as int).skip(1) =~= chars@.skip(end + 1));
        end += 1;
    }
    end
}

/// Reads the options from the lines of a text. Lines without an option are
/// passed over, so this always succeeds.
pub fn parse_options(raw_options: &str) -> (options: ServiceResult<NameMap<String>>)
    ensures
        options matches Ok(options) && option_texts(options@) == options_in(lines(raw_options@)),
{
    let chars: Vec<char> = char_vec(raw_options);
    let mut options: NameMap<String> = NameMap::new();
    let mut from: usize = 0;
    let ghost mut done: Seq<Seq<char>> = Seq::empty();
    assert(raw_options@.skip(0) =~= raw_options@);
    assert(done + lines(raw_options@) =~= lines(raw_options@));
    assert(option_texts(options@) =~= Map::empty());
    while from < chars.len()
        invariant
            chars@ == raw_options@,
            from <= chars@.len(),
            lines(raw_options@) == done + lines(raw_options@.skip(from as int)),
            option_texts(options@) == options_in(done),
        decreases chars@.len() - from,
    {
        let ghost rest = raw_options@.skip(from as int);
        let end: usize = line_end(&chars, from);
        let ghost length = line_length(rest);
        let stop: usize = if end < chars.len() && from < end && chars[end - 1] == '\r' {
            end - 1
        } else {
            end
        };
        let line: &str = raw_options.substring_char(from, stop);
        proof {
            assert(rest.take(length as int) =~= raw_options@.subrange(from as int, end as int));
            if length < rest.len() {
                assert(line@ =~= without_return(rest.take(length as int)));
                assert(rest.skip(length as int + 1) =~= raw_options@.skip(end + 1));
                assert(lines(rest) == seq![line@] + lines(raw_options@.skip(end + 1)));
            } else {
                assert(line@ =~= rest);
                assert(lines(rest) == seq![line@]);
            }
            assert(done.push(line@).drop_last() =~= done);
        }
        match read_option(line) {
            Some((name, value)) => {
                let ghost before = options@;
                let ghost key = name@;
                options = options.with(name, value);
                assert(option_texts(options@) =~= option_texts(before).insert(key, value@));
            },
            None => {},
        }
        let ghost earlier = done;
        proof {
            done = done.push(line@);
        }
        if end < chars.len() {
            from = end + 1;
            assert(earlier + (seq![line@] + lines(raw_options@.skip(from as int))) =~= done + lines(
                raw_options@.skip(from as int),
            ));
        } else {
            from = end;
            assert(raw_options@.skip(from as int) =~= Seq::<char>::empty());
            assert(earlier + seq![line@] =~= done + lines(raw_options@.skip(from as int)));
        }
    }
    assert(raw_options@.skip(from as int) =~= Seq::<char>::empty());
    assert(done + lines(raw_options@.skip(from as int)) =~= done);
    Ok(options)
}

// ---------------------------------------------------------------------------
// Laws
// ---------------------------------------------------------------------------

/// A line with an option sets that option, whatever the lines before it say,
/// and leaves the others alone.
pub proof fn law_later_line_counts(
    earlier: Seq<Seq<char>>,
    line: Seq<char>,
    name: Seq<char>,
    value: Seq<char>,
)
    requires
        option_of(line) == Some((name, value)),
    ensures
        options_in(earlier.push(line)) == options_in(earlier).insert(name, value),
{
    assert(earlier.push(line).drop_last() =~= earlier);
}

/// A line without an option changes nothing, wherever it stands; an empty line
/// is such a line.
pub proof fn law_other_lines_are_ignored(
    earlier: Seq<Seq<char>>,
    line: Seq<char>,
    later: Seq<Seq<char>>,
)
    requires
        option_of(line) is None || line.len() == 0,
    ensures
        options_in(earlier.push(line) + later) == options_in(earlier + later),
    decreases later.len(),
{
    if line.len() == 0 {
        reveal_strlit(": ");
        assert forall|at: int| !separated_at(line, at) by {
        }
    }
    if later.len() == 0 {
        assert(earlier.push(line) + later =~= earlier.push(line));
        assert(earlier + later =~= earlier);
        assert(earlier.push(line).drop_last() =~= earlier);
    } else {
        law_other_lines_are_ignored(earlier, line, later.drop_last());
        assert((earlier.push(line) + later).drop_last() =~= earlier.push(line) + later.drop_last());
        assert((earlier + later).drop_last() =~= earlier + later.drop_last());
    }
}

/// White space at the end of a text is trimmed away.
proof fn lemma_trimmed_push(text: Seq<char>, c: char)
    requires
        white_space(c),
    ensures
        trimmed(text.push(c)) == trimmed(text),
    decreases text.len(),
{
    let longer = text.push(c);
    if text.len() == 0 {
        assert(longer.skip(1) =~= text);
    } else if white_space(text[0]) {
        assert(longer.skip(1) =~= text.skip(1).push(c));
        lemma_trimmed_push(text.skip(1), c);
    } else {
        assert(longer.drop_last() =~= text);
    }
}

/// The carriage return at the end of a line makes no difference to its option.
proof fn lemma_option_without_return(line: Seq<char>)
    ensures
        option_of(without_return(line)) == option_of(line),
{
    if line.len() > 0 && line.last() == '\r' {
        let shorter = line.drop_last();
        reveal_strlit(": ");
        assert forall|at: int|
            #[trigger] occurs_at(line, SEPARATOR@, at) == occurs_at(shorter, SEPARATOR@, at) by {
            if occurs_at(line, SEPARATOR@, at) {
                assert(line.subrange(at, at + 2)[1] == ' ');
                assert(shorter.subrange(at, at + 2) =~= line.subrange(at, at + 2));
            }
            if occurs_at(shorter, SEPARATOR@, at) {
                assert(shorter.subrange(at, at + 2) =~= line.subrange(at, at + 2));
            }
        }
        assert forall|at: int| #[trigger] separated_at(line, at) == separated_at(shorter, at) by {
            assert forall|other: int| #[trigger]
                occurs_at(shorter, SEPARATOR@, other) == occurs_at(line, SEPARATOR@, other) by {
                assert(occurs_at(line, SEPARATOR@, other) == occurs_at(shorter, SEPARATOR@, other));
            }
        }
        if exists|at: int| separated_at(line, at) {
            let at = choose|at: int| separated_at(line, at);
            let other = choose|at: int| separated_at(shorter, at);
            assert(separated_at(shorter, at));
            assert(separated_at(line, other));
            assert(occurs_at(line, SEPARATOR@, other));
            assert(at == other);
            assert(line.take(at) =~= shorter.take(at));
            assert(line.skip(at + 2) =~= shorter.skip(at + 2).push('\r'));
            lemma_trimmed_push(shorter.skip(at + 2), '\r');
        } else if exists|at: int| separated_at(shorter, at) {
            let at = choose|at: int| separated_at(shorter, at);
            assert(separated_at(line, at));
        }
    }
}

/// The options in some lines and then others are those in the former, overridden
/// by those in the latter.
proof fn lemma_options_in_order(first: Seq<Seq<char>>, second: Seq<Seq<char>>)
    ensures
        options_in(first + second) == options_in(first).union_prefer_right(options_in(second)),
    decreases second.len(),
{
    if second.len() == 0 {
        assert(first + second =~= first);
        assert(options_in(first).union_prefer_right(options_in(second)) =~= options_in(first));
    } else {
        let front = second.drop_last();
        lemma_options_in_order(first, front);
        assert((first + second).drop_last() =~= first + front);
        assert((first + second).last() == second.last());
        assert(options_in(first + second) =~= options_in(first).union_prefer_right(
            options_in(second),
        ));
    }
}

/// The first line of a text that holds a line feed does not depend on what stands
/// behind it.
proof fn lemma_line_length(text: Seq<char>, rest: Seq<char>)
    ensures
        line_length(text) <= text.len(),
        line_length(text + seq!['\n'] + rest) == line_length(text),
    decreases text.len(),
{
    let longer = text + seq!['\n'] + rest;
    if text.len() > 0 {
        lemma_line_length(text.skip(1), rest);
        assert(longer[0] == text[0]);
        assert(longer.skip(1) =~= text.skip(1) + seq!['\n'] + rest);
    } else {
        assert(longer[0] == '\n');
    }
}

/// The options of two texts joined by a line feed are those of the first,
/// overridden by those of the second.
pub proof fn law_options_of_joined_texts(first: Seq<char>, second: Seq<char>)
    ensures
        options_in(lines(first + seq!['\n'] + second)) == options_in(
            lines(first),
        ).union_prefer_right(options_in(lines(second))),
    decreases first.len(),
{
    let text = first + seq!['\n'] + second;
    let length = line_length(first) as int;
    lemma_line_length(first, second);
    let line = without_return(text.take(length));
    assert(text.take(length) =~= first.take(length));
    if length < first.len() {
        let rest = first.skip(length + 1);
        law_options_of_joined_texts(rest, second);
        assert(text.skip(length + 1) =~= rest + seq!['\n'] + second);
        lemma_options_in_order(seq![line], lines(rest + seq!['\n'] + second));
        lemma_options_in_order(seq![line], lines(rest));
        assert(options_in(lines(text)) =~= options_in(lines(first)).union_prefer_right(
            options_in(lines(second)),
        ));
    } else {
        assert(first.take(length) =~= first);
        assert(text.skip(length + 1) =~= second);
        lemma_options_in_order(seq![line], lines(second));
        lemma_option_without_return(first);
        assert(seq![line].drop_last() =~= Seq::<Seq<char>>::empty());
        assert(seq![first].drop_last() =~= Seq::<Seq<char>>::empty());
        if first.len() == 0 {
            law_other_lines_are_ignored(Seq::empty(), line, Seq::empty());
            assert(Seq::<Seq<char>>::empty().push(line) + Seq::empty() =~= seq![line]);
            assert(Seq::<Seq<char>>::empty() + Seq::empty() =~= Seq::<Seq<char>>::empty());
        }
        assert(options_in(seq![line]) == options_in(lines(first)));
    }
}

} // verus!
