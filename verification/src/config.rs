//! Defaults shared by every prompt.

use vstd::prelude::*;

verus! {

/// Number of options that a prompt shows at once unless told otherwise.
pub const DEFAULT_PAGE_SIZE: usize = 7;

/// Whether the `j` and `k` navigation aliases are on unless told otherwise.
pub const DEFAULT_VIM_MODE: bool = false;

} // verus!
