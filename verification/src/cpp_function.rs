//! Discovered C++ function declarations.

use vstd::prelude::*;
use crate::cpp_type::CppName;
use crate::cpp_type::CppType;

verus! {

/// External documentation attached to a C++ function.
#[derive(Debug, PartialEq, Eq)]
pub struct CppFunctionExternalDoc {
    pub html: String,
}

/// One argument of a C++ function declaration.
#[derive(Debug, PartialEq, Eq)]
pub struct CppFunctionArgument {
    pub name: String,
    pub argument_type: CppType,
    pub has_default_value: bool,
}

/// A discovered C++ function declaration.
#[derive(Debug, PartialEq, Eq)]
pub struct CppFunction {
    pub name: CppName,
    pub return_type: CppType,
    pub arguments: Vec<CppFunctionArgument>,
    pub allows_variadic_arguments: bool,
    pub template_arguments: Option<Vec<CppType>>,
    pub doc: Option<CppFunctionExternalDoc>,
}

} // verus!
