//! Finding the outline of a petal in an SVG document.

use vstd::prelude::*;

verus! {

/// The document holds no outline: none of its tags carries path data.
#[derive(Clone, Copy, Debug, PartialEq, Eq, Structural)]
pub struct ParseError;

/// For each event that the SVG parser reports on `document`, in the order in
/// which it reports them: the value of the attribute `name` where the event
/// is a tag that carries it, and nothing for any other event.
pub uninterp spec fn svg_attribute_by_event(document: Seq<char>, name: Seq<char>) -> Seq<
    Option<Seq<char>>,
>;

/// Runs `svg::parser::Parser` over `document` to its end and, for every
/// event it yields, looks the attribute `name` up in the attributes of a tag
/// event. Trusted: the list returned is the one that
/// `svg_attribute_by_event` names, which the parser determines from the two
/// texts alone.
#[verifier::external_body]
fn attribute_by_event(document: &str, name: &str) -> (values: Vec<Option<String>>)
    ensures
        values.deep_view() == svg_attribute_by_event(document@, name@),
{
    svg::parser::Parser::new(document)
        .map(|event| match event {
            svg::parser::Event::Tag(_, _, attributes) => {
                attributes.get(name).map(|value| value.to_string())
            },
            _ => None,
        })
        .collect()
}

/// The first value that is present in a list of optional values.
pub open spec fn first_present(values: Seq<Option<Seq<char>>>) -> Option<Seq<char>>
    decreases values.len(),
{
    if values.len() == 0 {
        None
    } else if values[0] is Some {
        values[0]
    } else {
        first_present(values.skip(1))
    }
}

/// The path data of an SVG document: the value of the attribute `d` of the
/// first tag that has one.
pub open spec fn path_data_of(document: Seq<char>) -> Option<Seq<char>> {
    first_present(svg_attribute_by_event(document, "d"@))
}

/// Nothing is present in a list exactly if each of its entries is empty.
pub proof fn lemma_first_present_none(values: Seq<Option<Seq<char>>>)
    ensures
        first_present(values) is None <==> forall|i: int|
            0 <= i < values.len() ==> values[i] is None,
    decreases values.len(),
{
    if values.len() > 0 {
        let rest = values.skip(1);
        lemma_first_present_none(rest);
        if values[0] is None {
            if first_present(rest) is None {
                assert forall|i: int| 0 <= i < values.len() implies values[i] is None by {
                    if i > 0 {
                        assert(rest[i - 1] == values[i]);
                    }
                }
            } else {
                let j = choose|j: int| 0 <= j < rest.len() && !(rest[j] is None);
                assert(rest[j] == values[j + 1]);
            }
        }
    }
}

/// What is found is the entry at the first position that is not empty.
pub proof fn lemma_first_present_at(values: Seq<Option<Seq<char>>>, at: int)
    requires
        0 <= at < values.len(),
        values[at] is Some,
        forall|i: int| 0 <= i < at ==> values[i] is None,
    ensures
        first_present(values) == values[at],
    decreases at,
{
    if at > 0 {
        lemma_first_present_at(values.skip(1), at - 1);
    }
}

/// Picks the first value that is present.
pub fn first_path_data(values: &Vec<Option<String>>) -> (found: Option<String>)
    ensures
        found.deep_view() == first_present(values.deep_view()),
{
    let mut i: usize = 0;
    while i < values.len()
        invariant
            i <= values.len(),
            forall|j: int| 0 <= j < i ==> values.deep_view()[j] is None,
        decreases values.len() - i,
    {
        match &values[i] {
            Some(data) => {
                proof {
                    lemma_first_present_at(values.deep_view(), i as int);
                }
                return Some(data.clone());
            },
            None => {},
        }
        i += 1;
    }
    proof {
        lemma_first_present_none(values.deep_view());
    }
    None
}

/// Extracts the path data from the text of an SVG document: the attribute
/// `d` of the first tag that carries one.
///
/// Fails exactly if no tag of the document carries that attribute.
pub fn extract_path_str_from_svg_str(svg_str: &str) -> (r: Result<String, ParseError>)
    ensures
        match r {
            Ok(data) => path_data_of(svg_str@) == Some(data@),
            Err(_) => path_data_of(svg_str@) is None,
        },
{
    let values = attribute_by_event(svg_str, "d");
    match first_path_data(&values) {
        Some(data) => Ok(data),
        None => Err(ParseError),
    }
}

} // verus!
