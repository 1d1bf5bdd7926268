//! Text operations over the characters of a string.

use vstd::prelude::*;
use vstd::string::*;

verus! {

// ---------------------------------------------------------------------------
// Characters and comparison
// ---------------------------------------------------------------------------

/// Collects the characters of `text`.
pub fn char_vec(text: &str) -> (chars: Vec<char>)
    ensures
        chars@ == text@,
{
    let mut chars: Vec<char> = Vec::new();
    for c in iter: text.chars()
        invariant
            iter.seq() == text@,
            chars@ == text@.take(iter.index()),
    {
        chars.push(c);
        assert(text@.take(iter.index() + 1) == text@.take(iter.index()).push(c));
    }
    assert(text@.take(text@.len() as int) == text@);
    chars
}

/// Tells whether two strings hold the same characters.
pub fn same_text(left: &str, right: &str) -> (same: bool)
    ensures
        same == (left@ == right@),
{
    left.to_owned() == right.to_owned()
}

/// Joins two strings.
pub fn concat2(first: &str, second: &str) -> (joined: String)
    ensures
        joined@ == first@ + second@,
{
    let mut joined: String = first.to_owned();
    joined.append(second);
    joined
}

/// Joins three strings.
pub fn concat3(first: &str, second: &str, third: &str) -> (joined: String)
    ensures
        joined@ == first@ + second@ + third@,
{
    let mut joined: String = concat2(first, second);
    joined.append(third);
    joined
}

// ---------------------------------------------------------------------------
// Occurrences of a pattern
// ---------------------------------------------------------------------------

/// Whether `pattern` stands in `text` at position `at`.
pub open spec fn occurs_at(text: Seq<char>, pattern: Seq<char>, at: int) -> bool {
    &&& 0 <= at
    &&& at + pattern.len() <= text.len()
    &&& text.subrange(at, at + pattern.len()) == pattern
}

/// Whether `pattern` stands anywhere in `text`.
pub open spec fn contains_text(text: Seq<char>, pattern: Seq<char>) -> bool {
    exists|at: int| occurs_at(text, pattern, at)
}

/// Whether `text` begins with `prefix`.
pub open spec fn begins_with(text: Seq<char>, prefix: Seq<char>) -> bool {
    occurs_at(text, prefix, 0)
}

/// Tests for `pattern` at position `at` of `text`.
pub fn matches_at(text: &Vec<char>, pattern: &Vec<char>, at: usize) -> (found: bool)
    ensures
        found == occurs_at(text@, pattern@, at as int),
{
    let total: usize = text.len();
    if at > total || pattern.len() > total - at {
        return false;
    }
    let mut i: usize = 0;
    while i < pattern.len()
        invariant
            i <= pattern@.len(),
            total == text@.len(),
            at + pattern@.len() <= total,
            forall|j: int| 0 <= j < i ==> text@[at + j] == pattern@[j],
        decreases pattern@.len() - i,
    {
        if text[at + i] != pattern[i] {
            assert(text@.subrange(at as int, at + pattern@.len())[i as int] != pattern@[i as int]);
            return false;
        }
        i += 1;
    }
    assert(text@.subrange(at as int, at + pattern@.len()) =~= pattern@);
    true
}

/// Tests whether `pattern` stands anywhere in `text`.
pub fn contains(text: &str, pattern: &str) -> (found: bool)
    ensures
        found == contains_text(text@, pattern@),
{
    let chars: Vec<char> = char_vec(text);
    let wanted: Vec<char> = char_vec(pattern);
    let mut at: usize = 0;
    while at < chars.len()
        invariant
            at <= chars@.len(),
            chars@ == text@,
            wanted@ == pattern@,
            forall|i: int| 0 <= i < at ==> !occurs_at(text@, pattern@, i),
        decreases chars@.len() - at,
    {
        if matches_at(&chars, &wanted, at) {
            return true;
        }
        at += 1;
    }
    matches_at(&chars, &wanted, at)
}

/// Tests whether `text` begins with `prefix`.
pub fn starts_with(text: &str, prefix: &str) -> (found: bool)
    ensures
        found == begins_with(text@, prefix@),
{
    matches_at(&char_vec(text), &char_vec(prefix), 0)
}

/// Removes `prefix` from the front of `text` where it stands there.
pub fn strip_prefix<'a>(text: &'a str, prefix: &str) -> (rest: Option<&'a str>)
    ensures
        match rest {
            Some(rest) => begins_with(text@, prefix@) && rest@ == text@.skip(prefix@.len() as int),
            None => !begins_with(text@, prefix@),
        },
{
    if starts_with(text, prefix) {
        let from: usize = prefix.unicode_len();
        let to: usize = text.unicode_len();
        let rest: &'a str = text.substring_char(from, to);
        assert(rest@ =~= text@.skip(prefix@.len() as int));
        Some(rest)
    } else {
        None
    }
}

/// `text` after every leading copy of `prefix` has been removed.
pub open spec fn without_leading(text: Seq<char>, prefix: Seq<char>) -> Seq<char>
    decreases text.len(),
{
    if prefix.len() > 0 && begins_with(text, prefix) {
        without_leading(text.skip(prefix.len() as int), prefix)
    } else {
        text
    }
}

/// Removes every leading copy of the non-empty `prefix` from `text`.
pub fn trim_start_matches<'a>(text: &'a str, prefix: &str) -> (rest: &'a str)
    requires
        prefix@.len() > 0,
    ensures
        rest@ == without_leading(text@, prefix@),
{
    let mut rest: &'a str = text;
    loop
        invariant
            prefix@.len() > 0,
            without_leading(text@, prefix@) == without_leading(rest@, prefix@),
        decreases rest@.len(),
    {
        match strip_prefix(rest, prefix) {
            Some(shorter) => {
                rest = shorter;
            },
            None => {
                return rest;
            },
        }
    }
}

// ---------------------------------------------------------------------------
// White space
// ---------------------------------------------------------------------------

/// The characters with the Unicode `White_Space` property.
pub open spec fn white_space(c: char) -> bool {
    let code = c as u32;
    ||| 0x09 <= code <= 0x0d
    ||| code == 0x20
    ||| code == 0x85
    ||| code == 0xa0
    ||| code == 0x1680
    ||| 0x2000 <= code <= 0x200a
    ||| code == 0x2028
    ||| code == 0x2029
    ||| code == 0x202f
    ||| code == 0x205f
    ||| code == 0x3000
}

/// Tests for white space.
pub fn is_white_space(c: char) -> (white: bool)
    ensures
        white == white_space(c),
{
    let code: u32 = c as u32;
    (0x09 <= code && code <= 0x0d) || code == 0x20 || code == 0x85 || code == 0xa0 || code == 0x1680
        || (0x2000 <= code && code <= 0x200a) || code == 0x2028 || code == 0x2029 || code == 0x202f
        || code == 0x205f || code == 0x3000
}

/// `text` without its leading white space.
pub open spec fn without_leading_space(text: Seq<char>) -> Seq<char>
    decreases text.len(),
{
    if text.len() > 0 && white_space(text[0]) {
        without_leading_space(text.skip(1))
    } else {
        text
    }
}

/// `text` without its trailing white space.
pub open spec fn without_trailing_space(text: Seq<char>) -> Seq<char>
    decreases text.len(),
{
    if text.len() > 0 && white_space(text.last()) {
        without_trailing_space(text.drop_last())
    } else {
        text
    }
}

/// `text` without the white space at both ends.
pub open spec fn trimmed(text: Seq<char>) -> Seq<char> {
    without_trailing_space(without_leading_space(text))
}

/// Removes the white space at both ends of `text`.
pub fn trim<'a>(text: &'a str) -> (rest: &'a str)
    ensures
        rest@ == trimmed(text@),
{
    let chars: Vec<char> = char_vec(text);
    let mut from: usize = 0;
    assert(text@.subrange(0, text@.len() as int) =~= text@);
    while from < chars.len() && is_white_space(chars[from])
        invariant
            from <= chars@.len(),
            chars@ == text@,
            without_leading_space(text@) == without_leading_space(
                text@.subrange(from as int, text@.len() as int),
            ),
        decreases chars@.len() - from,
    {
        assert(text@.subrange(from as int, text@.len() as int).skip(1) =~= text@.subrange(
            from + 1,
            text@.len() as int,
        ));
        from += 1;
    }
    let ghost front = text@.subrange(from as int, text@.len() as int);
    assert(without_leading_space(text@) == front);
    let mut to: usize = chars.len();
    while from < to && is_white_space(chars[to - 1])
        invariant
            from <= to <= chars@.len(),
            chars@ == text@,
            without_trailing_space(front) == without_trailing_space(
                text@.subrange(from as int, to as int),
            ),
        decreases to,
    {
        assert(text@.subrange(from as int, to as int).drop_last() =~= text@.subrange(
            from as int,
            to - 1,
        ));
        to -= 1;
    }
    text.substring_char(from, to)
}

// ---------------------------------------------------------------------------
// Decimal numbers
// ---------------------------------------------------------------------------

/// The character of a decimal digit.
pub open spec fn digit_char(digit: nat) -> char {
    (('0' as u32) + digit) as char
}

/// The decimal digits of a natural number, without leading zeros.
pub open spec fn decimal_digits(number: nat) -> Seq<char>
    decreases number,
{
    if number < 10 {
        seq![digit_char(number)]
    } else {
        decimal_digits(number / 10).push(digit_char(number % 10))
    }
}

/// The decimal form of an integer, with a minus sign where it is negative.
pub open spec fn decimal(number: int) -> Seq<char> {
    if number < 0 {
        seq!['-'] + decimal_digits((-number) as nat)
    } else {
        decimal_digits(number as nat)
    }
}

/// The text of one decimal digit.
fn digit_text(digit: u64) -> (text: &'static str)
    requires
        digit < 10,
    ensures
        text@ == seq![digit_char(digit as nat)],
{
    proof {
        reveal_strlit("0");
        reveal_strlit("1");
        reveal_strlit("2");
        reveal_strlit("3");
        reveal_strlit("4");
        reveal_strlit("5");
        reveal_strlit("6");
        reveal_strlit("7");
        reveal_strlit("8");
        reveal_strlit("9");
    }
    if digit == 0 {
        "0"
    } else if digit == 1 {
        "1"
    } else if digit == 2 {
        "2"
    } else if digit == 3 {
        "3"
    } else if digit == 4 {
        "4"
    } else if digit == 5 {
        "5"
    } else if digit == 6 {
        "6"
    } else if digit == 7 {
        "7"
    } else if digit == 8 {
        "8"
    } else {
        "9"
    }
}

/// Writes an unsigned number in decimal.
pub fn decimal_u64(number: u64) -> (text: String)
    ensures
        text@ == decimal(number as int),
    decreases number,
{
    if number < 10 {
        digit_text(number).to_owned()
    } else {
        let mut text: String = decimal_u64(number / 10);
        text.append(digit_text(number % 10));
        text
    }
}

/// Writes a signed number in decimal.
pub fn decimal_i32(number: i32) -> (text: String)
    ensures
        text@ == decimal(number as int),
{
    if number < 0 {
        let magnitude: u64 = (-(number as i64)) as u64;
        proof {
            reveal_strlit("-");
        }
        let text: String = concat2("-", decimal_u64(magnitude).as_str());
        assert(text@ =~= seq!['-'] + decimal_digits((-number) as nat));
        text
    } else {
        decimal_u64(number as u64)
    }
}

} // verus!
