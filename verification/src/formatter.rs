//! How the final answer of a prompt is shown to the user.

use crate::input::texts_of;
use crate::selected_option::SelectedOption;
use std::fmt::Display;
use vstd::prelude::*;
use vstd::string::to_string_from_display_ensures;

verus! {

/// The parts, with the separator between each two neighbours.
pub open spec fn joined(parts: Seq<Seq<char>>, separator: Seq<char>) -> Seq<char>
    decreases parts.len(),
{
    if parts.len() == 0 {
        Seq::empty()
    } else if parts.len() == 1 {
        parts[0]
    } else {
        joined(parts.drop_last(), separator) + separator + parts.last()
    }
}

/// Joins the parts with the separator between each two neighbours.
pub fn join(parts: &Vec<String>, separator: &str) -> (text: String)
    ensures
        text@ == joined(texts_of(parts@), separator@),
{
    let mut text: String = String::new();
    let mut i: usize = 0;
    let ghost all = texts_of(parts@);
    while i < parts.len()
        invariant
            i <= parts.len(),
            all == texts_of(parts@),
            text@ == joined(all.take(i as int), separator@),
        decreases parts.len() - i,
    {
        proof {
            assert(all.take(i + 1).drop_last() == all.take(i as int));
            assert(all.take(i + 1).last() == parts@[i as int]@);
        }
        if i > 0 {
            text.append(separator);
        }
        text.append(parts[i].as_str());
        i = i + 1;
    }
    proof {
        assert(all.take(parts.len() as int) == all);
    }
    text
}

/// Whether `labels` are display texts of the selected values, one for one.
pub open spec fn are_display_texts<T: Display>(
    ans: Seq<SelectedOption<&T>>,
    labels: Seq<String>,
) -> bool {
    &&& labels.len() == ans.len()
    &&& forall|i: int|
        0 <= i < ans.len() ==> to_string_from_display_ensures::<T>(
            ans[i].value,
            #[trigger] labels[i],
        )
}

/// What the default formatter may answer: display texts of the selected
/// values, in order, separated by a comma and a space.
pub open spec fn is_default_format<T: Display>(
    ans: Seq<SelectedOption<&T>>,
    text: Seq<char>,
) -> bool {
    exists|labels: Seq<String>| #[trigger]
        are_display_texts(ans, labels) && text == joined(texts_of(labels), ", "@)
}

/// String formatter used by default in `MultiSelect` prompts. Prints the
/// string value of all selected options, separated by commas.
pub fn default_formatter<T: Display>(ans: &[SelectedOption<&T>]) -> (text: String)
    ensures
        is_default_format(ans@, text@),
{
    let mut labels: Vec<String> = Vec::new();
    let mut i: usize = 0;
    while i < ans.len()
        invariant
            i <= ans.len(),
            labels.len() == i,
            forall|j: int|
                0 <= j < i ==> to_string_from_display_ensures::<T>(
                    ans@[j].value,
                    #[trigger] labels@[j],
                ),
        decreases ans.len() - i,
    {
        labels.push(ans[i].value.to_string());
        i = i + 1;
    }
    assert(are_display_texts(ans@, labels@));
    join(&labels, ", ")
}

} // verus!
