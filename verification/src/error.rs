//! The errors that a prompt can end with.

use vstd::prelude::*;

verus! {

/// The failure that a caller-supplied validator, condition or creator reports.
pub type CustomUserError = String;

/// The ways in which a prompt can fail.
#[derive(Clone, Debug, PartialEq, Eq)]
pub enum InquireError {
    /// The input device is not a terminal.
    NotTTY,
    /// The prompt was set up with arguments it cannot work with: an empty
    /// list of options, or a default or starting index outside the list.
    InvalidConfiguration(String),
    /// Reading a key or drawing a frame failed.
    IO(String),
    /// The user pressed the key that skips the prompt.
    OperationCanceled,
    /// The user pressed the key that interrupts the program.
    OperationInterrupted,
    /// A caller-supplied validator, condition or creator signalled a failure.
    Custom(CustomUserError),
}

/// Result of a prompt operation.
pub type InquireResult<T> = Result<T, InquireError>;

/// What the failure says where a recorded sequence of keys ends before the
/// prompt does.
pub const END_OF_KEYS: &'static str = "the keys ended before the prompt did";

} // verus!
