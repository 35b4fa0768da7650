//! One bounded, source-observable comparison between the legacy and the replacement backend.
//!
//! The compared profile is one module with one free function, not named `main`, that is called with scalar
//! arguments. Both routes observe the same source independently: the replacement route executes the function's Body
//! IR directly, the legacy route runs a generated program that prints the result between two marker lines.
//!
//! Two routes agree exactly when they observed the same result or the same kind of failure. A comparison that could
//! not run proves nothing, and is recorded as unavailable with its reason; whatever a route did execute keeps its
//! receipt.

pub mod comparison;
pub mod frame;
pub mod identities;
pub mod legacy_oven;
pub mod observation;
pub mod outcomes;
pub mod profile;
pub mod reading;
pub mod support;

use vstd::prelude::*;

verus! {

broadcast use vstd::string::group_string_axioms;

/// Identity of the comparison profile.
pub const SHADOW_COMPARISON_PROFILE_ID: &'static str = "incan.shadow_comparison.direct_scalar_free_function.v0";

/// Why a program entrypoint is outside the profile.
pub const PROGRAM_ENTRYPOINT_UNAVAILABLE_REASON: &'static str =
    "the bounded source-observable comparison profile observes a named free function's returned scalar, and a program entrypoint's return value is not observable from the produced legacy process; generated Rust is not semantic proof";

/// A comparison that could not run, with the boundary that stopped it.
#[derive(Debug, Clone, PartialEq, Eq)]
pub struct ShadowUnavailable {
    /// Why no comparison ran.
    pub reason: String,
}

impl ShadowUnavailable {
    /// Records why a comparison could not run.
    #[must_use]
    pub fn new(reason: String) -> (unavailable: Self)
        ensures
            unavailable.reason@ == reason@,
    {
        ShadowUnavailable { reason }
    }
}

/// The text or the reason that a step gave.
pub open spec fn text_outcome(outcome: Result<String, ShadowUnavailable>) -> Result<Seq<char>, Seq<char>> {
    match outcome {
        Ok(text) => Ok(text@),
        Err(unavailable) => Err(unavailable.reason@),
    }
}

} // verus!
