//! C++ type expressions as discovered by the declaration extractor.

use vstd::prelude::*;
use vstd::string::StringExecFns;

verus! {

/// Name of a C++ type, enum or function.
#[derive(Debug, Clone, PartialEq, Eq)]
pub struct CppName {
    pub name: String,
}

impl CppName {
    /// Builds a name from a single identifier.
    pub fn from_one_part(name: &str) -> (r: CppName)
        ensures
            r.name@ == name@,
    {
        CppName { name: String::from_str(name) }
    }
}

/// Kind of pointer-like indirection.
#[derive(Debug, Clone, Copy, PartialEq, Eq, Structural)]
pub enum CppPointerLikeTypeKind {
    Pointer,
    Reference,
    RValueReference,
}

/// A class type, with template arguments when the class is a template
/// instantiation.
#[derive(Debug, PartialEq, Eq)]
pub struct CppClassType {
    pub name: CppName,
    pub template_arguments: Option<Vec<CppType>>,
}

/// A function-pointer type: a return type and argument types.
#[derive(Debug, PartialEq, Eq)]
pub struct CppFunctionPointerType {
    pub return_type: Box<CppType>,
    pub arguments: Vec<CppType>,
}

/// A C++ type expression.
///
/// The native type grammar cannot produce a self-referential value type
/// without an intervening pointer indirection, so the tree is acyclic by
/// construction and plain recursion over owned sub-expressions suffices.
#[derive(Debug, PartialEq, Eq)]
pub enum CppType {
    Void,
    BuiltInNumeric { name: String },
    Class(CppClassType),
    Enum { name: CppName },
    PointerLike { kind: CppPointerLikeTypeKind, is_const: bool, target: Box<CppType> },
    FunctionPointer(CppFunctionPointerType),
}

} // verus!
