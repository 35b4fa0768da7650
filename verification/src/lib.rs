//! Verified core of the Incan compiler's backend and command line.

use vstd::prelude::*;

pub mod ast;
pub mod body_ir;
pub mod changed_fields;
pub mod cli;
pub mod digest;
pub mod emitted_types;
pub mod emitter_laws;
pub mod feature_laws;
pub mod format;
pub mod fragments;
pub mod ir;
pub mod likeness;
pub mod lowering;
pub mod names;
pub mod order;
pub mod parts;
pub mod project;
pub mod project_laws;
pub mod replacement;
pub mod rust_emitter;
pub mod scan_laws;
pub mod scanners;
pub mod selection;
pub mod shadow;
mod sharing;
pub mod spelling;
pub mod spelling_laws;
pub mod tampering;
pub mod text;
pub mod text_laws;

verus! {

/// Compiler version recorded in execution receipts.
pub const INCAN_VERSION: &'static str = "0.6.0";

} // verus!
