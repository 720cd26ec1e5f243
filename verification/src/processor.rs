//! Named steps of the generation pipeline.

use vstd::prelude::*;
use vstd::string::StringExecFns;

verus! {

/// A named processing step and the names of the steps it depends on. The
/// surrounding pipeline looks the runner up by name and orders steps so
/// that dependencies run first.
pub struct ProcessingStep {
    pub name: String,
    pub dependencies: Vec<String>,
}

impl ProcessingStep {
    /// Builds a step description.
    pub fn new(name: &str, dependencies: Vec<String>) -> (r: ProcessingStep)
        ensures
            r.name@ == name@,
            r.dependencies == dependencies,
    {
        ProcessingStep { name: String::from_str(name), dependencies }
    }
}

} // verus!
