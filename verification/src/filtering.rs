//! The filter that a prompt starts with, and how the filtered view is put
//! together from what a filter said of each entry.

use crate::utils::ListOption;
use vstd::prelude::*;

verus! {

/// Whether `view` can be a filtered view over a registry of `total`
/// entries: stable indices in ascending order, none occurring twice, each
/// of an entry or, in the last place only, the registry's length, which
/// stands for an entry that is yet to be created.
pub open spec fn is_view(view: Seq<usize>, total: int) -> bool {
    &&& forall|j: int| 0 <= j < view.len() ==> #[trigger] view[j] <= total
    &&& forall|j: int, k: int| 0 <= j < k < view.len() ==> view[j] < view[k]
}

/// The positions that `shown` marks, in ascending order.
pub open spec fn visible_indices(shown: Seq<bool>) -> Seq<usize>
    decreases shown.len(),
{
    if shown.len() == 0 {
        Seq::empty()
    } else if shown.last() {
        visible_indices(shown.drop_last()).push((shown.len() - 1) as usize)
    } else {
        visible_indices(shown.drop_last())
    }
}

/// The filtered view: the entries that are shown, in registry order, and
/// after them the place of the entry to be created, if one is offered.
pub open spec fn view_of(shown: Seq<bool>, offer: bool) -> Seq<usize> {
    if offer {
        visible_indices(shown).push(shown.len() as usize)
    } else {
        visible_indices(shown)
    }
}

/// The display texts of the entries.
pub open spec fn labels_of<T>(options: Seq<ListOption<T>>) -> Seq<Seq<char>> {
    Seq::new(options.len(), |i: int| options[i].string_value@)
}

/// Whether the filter text is offered as a new entry: the condition allows
/// it, the text is not empty, and no entry that is shown displays exactly
/// as the text.
pub open spec fn creation_offered(
    allowed: bool,
    filter: Seq<char>,
    labels: Seq<Seq<char>>,
    shown: Seq<bool>,
) -> bool {
    &&& allowed
    &&& filter.len() > 0
    &&& forall|i: int| 0 <= i < shown.len() && shown[i] ==> #[trigger] labels[i] != filter
}

/// The marked positions come out in ascending order, each once, and
/// nothing else does.
pub proof fn lemma_visible_indices(shown: Seq<bool>)
    requires
        shown.len() <= usize::MAX,
    ensures
        visible_indices(shown).len() <= shown.len(),
        forall|j: int|
            0 <= j < visible_indices(shown).len() ==> (#[trigger] visible_indices(shown)[j])
                < shown.len() && shown[visible_indices(shown)[j] as int],
        forall|j: int, k: int|
            0 <= j < k < visible_indices(shown).len() ==> visible_indices(shown)[j]
                < visible_indices(shown)[k],
        forall|i: int|
            0 <= i < shown.len() && shown[i] ==> visible_indices(shown).contains(i as usize),
    decreases shown.len(),
{
    if shown.len() > 0 {
        let front = shown.drop_last();
        lemma_visible_indices(front);
        let v = visible_indices(shown);
        let w = visible_indices(front);
        assert forall|i: int| 0 <= i < shown.len() && shown[i] implies v.contains(i as usize) by {
            if i < shown.len() - 1 {
                assert(front[i]);
                let j = choose|j: int| 0 <= j < w.len() && w[j] == i as usize;
                assert(v[j] == i as usize);
            } else {
                assert(v[v.len() - 1] == i as usize);
            }
        }
    }
}

/// Every mark set: every position comes out.
pub proof fn lemma_all_visible(shown: Seq<bool>)
    requires
        shown.len() <= usize::MAX,
        forall|i: int| 0 <= i < shown.len() ==> shown[i],
    ensures
        visible_indices(shown) == Seq::new(shown.len(), |i: int| i as usize),
    decreases shown.len(),
{
    if shown.len() > 0 {
        lemma_all_visible(shown.drop_last());
    }
}

/// A filtered view is a view, holds exactly the entries that are shown, and
/// holds the place of a new entry exactly where one is offered.
pub proof fn lemma_view_of(shown: Seq<bool>, offer: bool)
    requires
        shown.len() <= usize::MAX,
    ensures
        is_view(view_of(shown, offer), shown.len() as int),
        view_of(shown, offer).len() <= shown.len() + 1,
        forall|i: int|
            0 <= i < shown.len() ==> (shown[i] <==> view_of(shown, offer).contains(i as usize)),
        offer <==> view_of(shown, offer).contains(shown.len() as usize),
{
    lemma_visible_indices(shown);
    let v = visible_indices(shown);
    let view = view_of(shown, offer);
    if offer {
        assert(view[view.len() - 1] == shown.len() as usize);
    }
    assert forall|i: int| 0 <= i < shown.len() && view.contains(i as usize) implies shown[i] by {
        let j = choose|j: int| 0 <= j < view.len() && view[j] == i as usize;
        assert(j < v.len());
        assert(v[j] == i as usize);
    }
    assert forall|i: int| 0 <= i < shown.len() && shown[i] implies view.contains(i as usize) by {
        let j = choose|j: int| 0 <= j < v.len() && v[j] == i as usize;
        assert(view[j] == i as usize);
    }
    if view.contains(shown.len() as usize) && !offer {
        let j = choose|j: int| 0 <= j < view.len() && view[j] == shown.len() as usize;
        assert(v[j] < shown.len());
    }
}

/// Decides whether the filter text is offered as a new entry.
pub fn offers_creation<T>(
    allowed: bool,
    filter: &String,
    options: &Vec<ListOption<T>>,
    shown: &Vec<bool>,
) -> (offer: bool)
    requires
        shown.len() == options.len(),
    ensures
        offer == creation_offered(allowed, filter@, labels_of(options@), shown@),
{
    if !allowed || filter.as_str().is_empty() {
        return false;
    }
    let mut i: usize = 0;
    while i < shown.len()
        invariant
            i <= shown.len(),
            shown.len() == options.len(),
            forall|j: int|
                0 <= j < i && shown@[j] ==> #[trigger] labels_of(options@)[j] != filter@,
        decreases shown.len() - i,
    {
        if shown[i] && options[i].string_value == *filter {
            assert(labels_of(options@)[i as int] == filter@);
            return false;
        }
        i = i + 1;
    }
    true
}

/// Puts the filtered view together.
pub fn compose_view(shown: &Vec<bool>, offer: bool) -> (view: Vec<usize>)
    ensures
        view@ == view_of(shown@, offer),
{
    let mut view: Vec<usize> = Vec::new();
    let mut i: usize = 0;
    while i < shown.len()
        invariant
            i <= shown.len(),
            view@ == visible_indices(shown@.take(i as int)),
        decreases shown.len() - i,
    {
        proof {
            assert(shown@.take(i + 1).drop_last() == shown@.take(i as int));
        }
        if shown[i] {
            view.push(i);
        }
        i = i + 1;
    }
    proof {
        assert(shown@.take(shown.len() as int) == shown@);
    }
    if offer {
        view.push(shown.len());
    }
    view
}

/// The lower-case form of a text: what `str::to_lowercase` returns.
pub uninterp spec fn lowercase(text: Seq<char>) -> Seq<char>;

/// `str::to_lowercase`. Trusted: the result is the lower-case form of the
/// text, the same for the same text.
#[verifier::external_body]
fn to_lowercase(text: &str) -> (lower: String)
    ensures
        lower@ == lowercase(text@),
{
    text.to_lowercase()
}

/// Whether `needle` occurs in `haystack` as a contiguous run of characters.
pub open spec fn is_substring(needle: Seq<char>, haystack: Seq<char>) -> bool {
    exists|start: int|
        0 <= start && start + needle.len() <= haystack.len() && #[trigger] haystack.subrange(
            start,
            start + needle.len(),
        ) == needle
}

/// `str::contains` with a string pattern. Trusted: it says whether the
/// pattern matches a sub-slice of the text.
#[verifier::external_body]
fn contains_text(haystack: &str, needle: &str) -> (found: bool)
    ensures
        found == is_substring(needle@, haystack@),
{
    haystack.contains(needle)
}

/// What the default filter decides: the filter text occurs in the display
/// text, letter case aside.
pub open spec fn default_filter_shows(filter: Seq<char>, string_value: Seq<char>) -> bool {
    is_substring(lowercase(filter), lowercase(string_value))
}

/// Default filter function, which checks if the current filter value is a
/// substring of the option's display text, ignoring letter case. If it is,
/// the option is displayed.
pub fn default_filter<T>(filter: &str, value: &T, string_value: &str, index: usize) -> (shown: bool)
    ensures
        shown == default_filter_shows(filter@, string_value@),
{
    let filter: String = to_lowercase(filter);
    let lowered: String = to_lowercase(string_value);
    contains_text(lowered.as_str(), filter.as_str())
}

} // verus!
