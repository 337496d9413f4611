//! Flow-template operations.

use vstd::prelude::*;

verus! {

/// A handle for flow-template operations.  The interactive probe that lists
/// flow templates over the live API performs network I/O and terminal
/// output, so it lives with the embedding application.
pub struct Template {}

} // verus!
