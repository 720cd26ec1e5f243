//! Items of the per-library declaration database consumed by the resolver.

use vstd::prelude::*;
use crate::cpp_data::CppItemData;

verus! {

/// Where a declaration database entry came from.
#[derive(Debug, Clone, Copy, PartialEq, Eq, Structural)]
pub enum DatabaseItemSource {
    CppParser,
    ImplicitDestructor,
}

/// One entry of the declaration database: the discovered C++ data, its
/// source, and the index of the Rust binding item generated for it in an
/// earlier run, if any.
#[derive(Debug, PartialEq, Eq)]
pub struct DatabaseItem {
    pub cpp_data: CppItemData,
    pub source: DatabaseItemSource,
    pub rust_item: Option<usize>,
}

} // verus!
