//! Message templates.

use crate::name_map::names_distinct;
use std::collections::HashMap;
use strfmt::strfmt;
use vstd::prelude::*;

verus! {

/// The variables that `pairs` describe, among which no name comes twice.
pub open spec fn variables(pairs: Seq<(String, String)>) -> Map<Seq<char>, Seq<char>>
    decreases pairs.len(),
{
    if pairs.len() == 0 {
        Map::empty()
    } else {
        variables(pairs.drop_last()).insert(pairs.last().0@, pairs.last().1@)
    }
}

/// What `strfmt` makes of a template with these variables: the text, or the
/// text of its error.
pub uninterp spec fn formatted(
    template: Seq<char>,
    variables: Map<Seq<char>, Seq<char>>,
) -> Result<Seq<char>, Seq<char>>;

/// A template without braces, which asks for no variable.
pub open spec fn is_plain(template: Seq<char>) -> bool {
    forall|i: int| 0 <= i < template.len() ==> template[i] != '{' && template[i] != '}'
}

/// A template with these variables filled in: the text, or the text of the
/// error. A template without braces is its own text.
pub open spec fn filled(template: Seq<char>, variables: Map<Seq<char>, Seq<char>>) -> Result<
    Seq<char>,
    Seq<char>,
> {
    if is_plain(template) {
        Ok(template)
    } else {
        formatted(template, variables)
    }
}

/// A text or an error as character sequences.
pub open spec fn filled_view(text: Result<String, String>) -> Result<Seq<char>, Seq<char>> {
    match text {
        Ok(text) => Ok(text@),
        Err(error) => Err(error@),
    }
}

/// `strfmt::strfmt`: the outcome depends on the template and on the values of
/// the variables alone, and a template without braces comes back unchanged.
/// What the template language is otherwise, is not stated. The variables are
/// handed over in a map, so no name comes twice.
#[verifier::external_body]
pub(crate) fn format_template(template: &str, pairs: Vec<(String, String)>) -> (text: Result<
    String,
    String,
>)
    requires
        names_distinct(pairs@),
    ensures
        filled_view(text) == formatted(template@, variables(pairs@)),
        filled_view(text) == filled(template@, variables(pairs@)),
{
    let values: HashMap<String, String> = pairs.into_iter().collect();
    strfmt(template, &values).map_err(|error| error.to_string())
}

/// The name of every pair is the name of a variable.
proof fn lemma_pair_names(pairs: Seq<(String, String)>)
    ensures
        forall|i: int|
            0 <= i < pairs.len() ==> variables(pairs).contains_key((#[trigger] pairs[i]).0@),
    decreases pairs.len(),
{
    if pairs.len() > 0 {
        let front = pairs.drop_last();
        lemma_pair_names(front);
        assert forall|i: int| 0 <= i < pairs.len() implies variables(pairs).contains_key(
            (#[trigger] pairs[i]).0@,
        ) by {
            if i < front.len() {
                assert(front[i] == pairs[i]);
            }
        }
    }
}

/// No variables.
pub(crate) fn no_variables() -> (pairs: Vec<(String, String)>)
    ensures
        names_distinct(pairs@),
        variables(pairs@) == Map::<Seq<char>, Seq<char>>::empty(),
{
    Vec::new()
}

/// These variables and one more, with a name of its own.
pub(crate) fn with_variable(pairs: Vec<(String, String)>, name: &str, value: String) -> (more: Vec<
    (String, String),
>)
    requires
        names_distinct(pairs@),
        !variables(pairs@).contains_key(name@),
    ensures
        names_distinct(more@),
        variables(more@) == variables(pairs@).insert(name@, value@),
{
    proof {
        lemma_pair_names(pairs@);
    }
    let mut more: Vec<(String, String)> = pairs;
    more.push((name.to_owned(), value));
    assert(more@.drop_last() =~= pairs@);
    more
}

} // verus!
