//! Shared pointers.

use std::rc::Rc;
use vstd::prelude::*;

verus! {

/// `Rc::clone` makes another pointer to the same value.
#[verifier::external_body]
pub(crate) fn share<T>(shared: &Rc<T>) -> (other: Rc<T>)
    ensures
        other == *shared,
{
    shared.clone()
}

} // verus!
