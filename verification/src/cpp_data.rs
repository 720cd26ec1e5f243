//! Registry entries for discovered C++ declarations.

use vstd::prelude::*;
use vstd::string::StringExecFns;
use crate::cpp_function::CppFunction;
use crate::cpp_type::CppClassType;
use crate::cpp_type::CppName;
use crate::cpp_type::CppType;
use crate::string_utils::join_segments;
use crate::string_utils::joined;

verus! {

/// A scoped C++ path, e.g. the segments of `ns::Class::method`.
#[derive(Debug, PartialEq, Eq)]
pub struct CppPath {
    pub parts: Vec<String>,
}

impl CppPath {
    /// Renders the path as it would appear in C++ source.
    pub fn to_cpp_pseudo_code(&self) -> (r: String)
        ensures
            r@ == joined(self.parts.deep_view(), "::"@),
    {
        join_segments(&self.parts, "::")
    }
}

/// C++ documentation attached to a type declaration.
#[derive(Debug, PartialEq, Eq)]
pub struct CppTypeDoc {
    pub html: String,
}

/// Kind of a registered C++ type declaration.
#[derive(Debug, PartialEq, Eq)]
pub enum CppTypeDataKind {
    Class { type_base: CppClassType },
    Enum,
}

impl CppTypeDataKind {
    /// The declaration declares a class.
    pub fn is_class(&self) -> (r: bool)
        ensures
            r == (self is Class),
    {
        match self {
            CppTypeDataKind::Class { .. } => true,
            _ => false,
        }
    }

    /// The declaration declares an enum.
    pub fn is_enum(&self) -> (r: bool)
        ensures
            r == (self is Enum),
    {
        match self {
            CppTypeDataKind::Enum => true,
            _ => false,
        }
    }
}

/// A registered C++ type declaration.
#[derive(Debug, PartialEq, Eq)]
pub struct CppTypeData {
    pub name: CppName,
    pub kind: CppTypeDataKind,
    pub doc: Option<CppTypeDoc>,
    pub is_movable: bool,
}

/// Data of one discovered C++ declaration: a type or a function.
#[derive(Debug, PartialEq, Eq)]
pub enum CppItemData {
    Type(CppTypeData),
    Function(CppFunction),
}

/// The type expression a `Type` registry entry declares.
pub open spec fn declared_type(t: CppTypeData) -> CppType {
    match t.kind {
        CppTypeDataKind::Class { type_base } => CppType::Class(type_base),
        CppTypeDataKind::Enum => CppType::Enum { name: t.name },
    }
}

/// Every type expression the item transitively mentions, in declaration
/// order: the declared type itself for a type entry, the return type then
/// each argument type for a function.
pub open spec fn all_involved_types(item: CppItemData) -> Seq<CppType> {
    match item {
        CppItemData::Type(t) => seq![declared_type(t)],
        CppItemData::Function(f) => seq![f.return_type] + f.arguments@.map_values(
            |a: crate::cpp_function::CppFunctionArgument| a.argument_type,
        ),
    }
}

/// The short description used in diagnostics for this item.
pub open spec fn item_short_text(item: CppItemData) -> Seq<char> {
    match item {
        CppItemData::Type(t) => "type "@ + t.name.name@,
        CppItemData::Function(f) => "function "@ + f.name.name@,
    }
}

impl CppItemData {
    /// The type declaration, when this item is one.
    pub fn as_type_ref(&self) -> (r: Option<&CppTypeData>)
        ensures
            match r {
                Option::Some(t) => *self matches CppItemData::Type(tt) && *t == tt,
                Option::None => !(*self is Type),
            },
    {
        match self {
            CppItemData::Type(t) => Some(t),
            _ => None,
        }
    }

    /// A short human-readable description of the item.
    pub fn short_text(&self) -> (r: String)
        ensures
            r@ == item_short_text(*self),
    {
        match self {
            CppItemData::Type(t) => {
                let mut s = String::from_str("type ");
                s.append(t.name.name.as_str());
                s
            },
            CppItemData::Function(f) => {
                let mut s = String::from_str("function ");
                s.append(f.name.name.as_str());
                s
            },
        }
    }
}

} // verus!
