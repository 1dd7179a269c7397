//! The seal of the step kinds.

use vstd::prelude::*;

verus! {

/// Implemented by the kinds of step that the library knows, and by nothing
/// else.
pub trait Sealed {
}

} // verus!
