//! The interfaces between the parts of a test runner.

use vstd::prelude::*;

verus! {

/// Finds the tests of a workspace.
pub trait TestDiscovery {
    /// The tests under a directory.
    fn discover(&self, workspace_root: &str) -> Vec<String>;
}

/// Writes the program that runs tests.
pub trait HarnessGenerator {
    /// The source of the program, or what went wrong.
    fn generate(&self, tests: &[String]) -> Result<String, String>;
}

/// Runs the program that runs tests.
pub trait TestExecutor {
    /// Whether the tests passed, or what went wrong.
    fn execute(&self, harness_src: &str) -> Result<(), String>;
}

} // verus!
