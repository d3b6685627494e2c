//! The shape of the optional capabilities that a caller can plug into a
//! prompt.

use vstd::prelude::*;

verus! {

/// Whether the user may add entries to the list while the prompt runs.
///
/// `C` is the condition: given the filter text and the entries known so
/// far, may the text be offered as a new entry? `K` is the creator: the
/// value of the new entry, made from the filter text once the user selects
/// the offer.
pub enum DynamicOption<C, K> {
    /// Entries cannot be added.
    Disabled,
    /// Entries can be added where the condition allows it.
    Enabled(C, K),
}

} // verus!
