//! Utilities used to wrap user selections in multi-selection prompts.

use std::fmt::Display;
use vstd::prelude::*;

verus! {

/// Represents a selection made by the user when prompted to select one or several
/// options among those presented.
#[derive(Clone, Debug, PartialEq)]
pub struct SelectedOption<T> {
    /// Index of the selected option relative to the full list passed to the prompt.
    pub index: usize,
    /// Value of the selected option.
    pub value: T,
}

/// The stable indices of a sequence of selections, in order.
pub open spec fn selection_indices<T>(selections: Seq<SelectedOption<T>>) -> Seq<int> {
    Seq::new(selections.len(), |i: int| selections[i].index as int)
}

/// The values of a sequence of selections, in order.
pub open spec fn selection_values<T>(selections: Seq<SelectedOption<T>>) -> Seq<T> {
    Seq::new(selections.len(), |i: int| selections[i].value)
}

impl<T> SelectedOption<T> {
    /// Constructor for `SelectedOption`.
    pub fn new(index: usize, value: T) -> (selected: Self)
        ensures
            selected.index == index,
            selected.value == value,
    {
        Self { index, value }
    }

    /// Converts from `&SelectedOption<T>` to `SelectedOption<&T>`.
    pub fn as_ref(&self) -> (selected: SelectedOption<&T>)
        ensures
            selected.index == self.index,
            *selected.value == self.value,
    {
        SelectedOption { index: self.index, value: &self.value }
    }

    /// Wraps every value of `vals` with its position in `vals`.
    pub fn from_list(vals: Vec<T>) -> (selections: Vec<SelectedOption<T>>)
        ensures
            selections.len() == vals.len(),
            forall|i: int|
                0 <= i < vals.len() ==> (#[trigger] selections[i]).index == i && selections[i].value
                    == vals[i],
    {
        let ghost all = vals@;
        let mut selections: Vec<SelectedOption<T>> = Vec::new();
        for value in it: vals
            invariant
                it.seq() == all,
                selections.len() == it.index(),
                forall|i: int|
                    0 <= i < selections.len() ==> (#[trigger] selections[i]).index == i
                        && selections[i].value == all[i],
        {
            let index: usize = selections.len();
            selections.push(SelectedOption { index, value });
        }
        selections
    }

    /// Wraps every value of `vals` with the index it is paired with.
    pub fn from_enumerated_list(vals: Vec<(usize, T)>) -> (selections: Vec<SelectedOption<T>>)
        ensures
            selections.len() == vals.len(),
            forall|i: int|
                0 <= i < vals.len() ==> (#[trigger] selections[i]).index == vals[i].0
                    && selections[i].value == vals[i].1,
    {
        let ghost all = vals@;
        let mut selections: Vec<SelectedOption<T>> = Vec::new();
        for pair in it: vals
            invariant
                it.seq() == all,
                selections.len() == it.index(),
                forall|i: int|
                    0 <= i < selections.len() ==> (#[trigger] selections[i]).index == all[i].0
                        && selections[i].value == all[i].1,
        {
            selections.push(SelectedOption { index: pair.0, value: pair.1 });
        }
        selections
    }
}

impl<T: Display> SelectedOption<T> {
    /// The text that the selected value displays as.
    pub fn to_string(&self) -> (text: String)
        ensures
            vstd::string::to_string_from_display_ensures::<T>(&self.value, text),
    {
        self.value.to_string()
    }
}

} // verus!
