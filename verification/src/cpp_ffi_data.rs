//! Entries of the low-level native-call wrapper table.

use vstd::prelude::*;
use crate::cpp_data::CppPath;
use crate::string_utils::joined;

verus! {

/// A generated native-call wrapper function; the binding model keeps the
/// C++ path of the function it wraps for identity and documentation.
#[derive(Debug, PartialEq, Eq)]
pub struct CppFfiFunction {
    pub path: CppPath,
}

impl CppFfiFunction {
    /// A short human-readable description of the wrapped function.
    pub fn short_text(&self) -> (r: String)
        ensures
            r@ == joined(self.path.parts.deep_view(), "::"@),
    {
        self.path.to_cpp_pseudo_code()
    }
}

} // verus!
