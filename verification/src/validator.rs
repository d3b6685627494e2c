//! What a validator answers when the user submits.

use crate::error::CustomUserError;
use crate::selected_option::SelectedOption;
use vstd::prelude::*;

verus! {

/// The message shown to the user when a submission is rejected.
#[derive(Clone, Debug, PartialEq, Eq)]
pub enum ErrorMessage {
    /// The prompt's stock message.
    Default,
    /// A message chosen by the validator.
    Custom(String),
}

/// The verdict of a validator on the current selection.
#[derive(Clone, Debug, PartialEq, Eq)]
pub enum Validation {
    /// The selection may be submitted.
    Valid,
    /// The selection is rejected; the message is shown on the next frame.
    Invalid(ErrorMessage),
}

/// The validator used by default: every selection may be submitted.
pub fn default_validator<T>(ans: &[SelectedOption<&T>]) -> (verdict: Result<
    Validation,
    CustomUserError,
>)
    ensures
        verdict == Ok::<Validation, CustomUserError>(Validation::Valid),
{
    Ok(Validation::Valid)
}

} // verus!
