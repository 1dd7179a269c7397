//! Filling the gaps of one value from another.

use vstd::prelude::*;

verus! {

/// `merge::Merge::merge` on an `Option`: a value that is present stays, an
/// absent one is replaced by `other`.
#[verifier::external_body]
pub(crate) fn merge_option<T>(this: &mut Option<T>, other: Option<T>)
    ensures
        *final(this) == (if (*old(this)) is Some {
            *old(this)
        } else {
            other
        }),
{
    merge::Merge::merge(this, other)
}

/// What merging `other` into `this` gives.
pub open spec fn merged<T>(this: Option<T>, other: Option<T>) -> Option<T> {
    if this is Some {
        this
    } else {
        other
    }
}

} // verus!
