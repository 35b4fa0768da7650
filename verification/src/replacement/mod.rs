//! Direct execution of a deliberately narrow Body IR profile.
//!
//! The replacement backend consumes Body IR itself: it never reads generated Rust and refuses every operation
//! outside its profile with the original source span. The profile holds scalar locals, lists of scalar pairs,
//! arithmetic, string concatenation, branches, loops, returns, assertions, captured closures, partial presets,
//! source-evaluable defaults, calls by name and by value, and lazy generators with `map` and `filter`.

pub mod admissible;
pub mod admission;
pub mod admitted;
pub mod call_sites;
pub mod compatibility;
pub mod equality;
pub mod error;
pub mod evidence;
pub mod execute;
pub mod free_function;
pub mod hashed;
pub mod iteration;
pub mod laws;
pub mod meaning;
pub mod profile;
pub mod provider_preflight;
pub mod semantics;
pub mod structure;
pub mod suspension;
pub mod typing;
pub mod value;
