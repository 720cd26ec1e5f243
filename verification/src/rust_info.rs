//! The model of generated Rust API entities and the database that stores
//! them.
//!
//! Each binding item carries provenance: stable indices into the externally
//! owned declaration and native-call wrapper tables, used only for identity
//! across regeneration runs, never for traversal.

use vstd::prelude::*;
use vstd::string::StringExecFns;
use crate::cpp_data::CppPath;
use crate::cpp_data::CppTypeDoc;
use crate::cpp_ffi_data::CppFfiFunction;
use crate::cpp_function::CppFunctionExternalDoc;
use crate::cpp_type::CppType;
use crate::rust_code_generator::rust_type_code;
use crate::rust_code_generator::rust_type_to_code;
use crate::rust_type::RustFinalType;
use crate::rust_type::RustPath;
use crate::rust_type::RustPointerLikeTypeKind;
use crate::rust_type::RustType;
use crate::string_utils::joined;

verus! {

/// One variant of a Rust enum.
#[derive(Debug, PartialEq, Eq)]
pub struct RustEnumValue {
    pub path: RustPath,
    /// Corresponding numeric value.
    pub value: i64,
    /// Documentation of the corresponding C++ variant.
    pub doc: RustEnumValueDoc,
    pub cpp_item_index: usize,
}

/// C++ documentation data for an enum variant.
#[derive(Debug, PartialEq, Eq)]
pub struct RustEnumValueDoc {
    pub extra_doc: Option<String>,
    /// C++ path of the variant.
    pub cpp_path: CppPath,
    /// HTML content.
    pub cpp_doc: Option<String>,
}

/// Information about a Qt slot wrapper on the Rust side.
#[derive(Debug, PartialEq, Eq)]
pub struct RustQtSlotWrapper {
    /// Argument types of the slot.
    pub arguments: Vec<RustFinalType>,
    pub signal_arguments: Vec<CppType>,
    pub raw_slot_wrapper: RustPath,
    pub cpp_item_index: usize,
}

/// How a wrapper struct represents its C++ type.
#[derive(Debug, PartialEq, Eq)]
pub enum RustWrapperTypeKind {
    EnumWrapper,
    ImmovableClassWrapper,
    MovableClassWrapper { sized_type_path: RustPath },
}

/// Documentation data of the raw wrapper behind a public Qt slot wrapper.
#[derive(Debug, PartialEq, Eq)]
pub struct RustRawQtSlotWrapperDocData {
    pub public_wrapper_path: RustPath,
    pub rust_arguments: Vec<RustFinalType>,
    pub cpp_arguments: Vec<CppType>,
}

/// Documentation data of a wrapper type.
#[derive(Debug, PartialEq, Eq)]
pub struct RustWrapperTypeDocData {
    /// Corresponding C++ type (for generating docs).
    pub cpp_path: CppPath,
    /// C++ documentation for this type.
    pub cpp_doc: Option<CppTypeDoc>,
    pub raw_qt_slot_wrapper: Option<RustRawQtSlotWrapperDocData>,
}

/// An opaque wrapper type for a C++ class or enum.
#[derive(Debug, PartialEq, Eq)]
pub struct RustWrapperType {
    pub doc_data: RustWrapperTypeDocData,
    pub kind: RustWrapperTypeKind,
    pub cpp_item_index: usize,
}

/// Documentation link between an FFI class type and its public wrapper.
#[derive(Debug, PartialEq, Eq)]
pub struct RustFfiClassTypeDoc {
    pub cpp_path: CppPath,
    pub public_rust_path: RustPath,
}

/// A sized-storage type mirroring a movable C++ class.
#[derive(Debug, PartialEq, Eq)]
pub struct RustSizedType {
    pub cpp_path: CppPath,
    pub cpp_item_index: usize,
}

/// Kind of a generated Rust struct.
#[derive(Debug, PartialEq, Eq)]
pub enum RustStructKind {
    WrapperType(RustWrapperType),
    QtSlotWrapper(RustQtSlotWrapper),
    SizedType(RustSizedType),
}

/// Two struct kinds derive from the same declaration: same variant, same
/// provenance index.
pub open spec fn struct_kind_same_source(a: RustStructKind, b: RustStructKind) -> bool {
    match a {
        RustStructKind::WrapperType(x) => b matches RustStructKind::WrapperType(y)
            && x.cpp_item_index == y.cpp_item_index,
        RustStructKind::QtSlotWrapper(x) => b matches RustStructKind::QtSlotWrapper(y)
            && x.cpp_item_index == y.cpp_item_index,
        RustStructKind::SizedType(x) => b matches RustStructKind::SizedType(y)
            && x.cpp_item_index == y.cpp_item_index,
    }
}

impl RustStructKind {
    /// The struct is an opaque wrapper type.
    pub fn is_wrapper_type(&self) -> (r: bool)
        ensures
            r == (self is WrapperType),
    {
        if let RustStructKind::WrapperType(_) = self {
            true
        } else {
            false
        }
    }

    /// The struct is a sized-storage type.
    pub fn is_sized_type(&self) -> (r: bool)
        ensures
            r == (self is SizedType),
    {
        match *self {
            RustStructKind::SizedType(_) => true,
            _ => false,
        }
    }

    /// Whether both kinds derive from the same C++ declaration.
    pub fn has_same_source(&self, other: &Self) -> (r: bool)
        ensures
            r == struct_kind_same_source(*self, *other),
    {
        match self {
            RustStructKind::WrapperType(data) => {
                if let RustStructKind::WrapperType(o) = other {
                    data.cpp_item_index == o.cpp_item_index
                } else {
                    false
                }
            },
            RustStructKind::QtSlotWrapper(data) => {
                if let RustStructKind::QtSlotWrapper(o) = other {
                    data.cpp_item_index == o.cpp_item_index
                } else {
                    false
                }
            },
            RustStructKind::SizedType(data) => {
                if let RustStructKind::SizedType(o) = other {
                    data.cpp_item_index == o.cpp_item_index
                } else {
                    false
                }
            },
        }
    }
}

/// Exported information about a generated Rust struct.
#[derive(Debug, PartialEq, Eq)]
pub struct RustStruct {
    /// Additional documentation content that will appear before any
    /// automatically generated content.
    pub extra_doc: Option<String>,
    pub path: RustPath,
    /// Kind of the type and additional information.
    pub kind: RustStructKind,
    /// Indicates whether this type is public.
    pub is_public: bool,
}

/// Location of a generated Rust function.
#[derive(Debug, PartialEq, Eq)]
pub enum RustFunctionScope {
    /// Inside `impl T {}`, where `T` is `target_type`.
    Impl { target_type: RustType },
    /// Inside a trait implementation.
    TraitImpl,
    /// A free function.
    Free,
}

/// Information about an argument of a generated Rust function.
#[derive(Debug, PartialEq, Eq)]
pub struct RustFunctionArgument {
    /// The type of this argument at the API level.
    pub argument_type: RustFinalType,
    /// Rust argument name.
    pub name: String,
    /// Index of the corresponding argument of the FFI function.
    pub ffi_index: usize,
}

/// Type of a receiver in the Qt connection system.
#[derive(Debug, Clone, Copy, PartialEq, Eq, Structural)]
pub enum RustQtReceiverType {
    Signal,
    Slot,
}

/// Data of a function that wraps an entry of the native-call table.
#[derive(Debug, PartialEq, Eq)]
pub struct RustFfiWrapperData {
    /// The wrapped native-call function.
    pub cpp_ffi_function: CppFfiFunction,
    pub ffi_function_path: RustPath,
    /// Index of the FFI function argument used for acquiring the return
    /// value, if any; `None` if the return value is passed normally.
    pub return_type_ffi_index: Option<usize>,
    pub ffi_item_index: usize,
}

/// Data of an accessor for a Qt signal or slot.
#[derive(Debug, PartialEq, Eq)]
pub struct RustSignalOrSlotGetter {
    /// C++ path of the signal or slot.
    pub cpp_path: CppPath,
    /// Type of the receiver.
    pub receiver_type: RustQtReceiverType,
    /// Identifier of the signal or slot for the connection system.
    pub receiver_id: String,
    pub cpp_doc: Option<CppFunctionExternalDoc>,
    pub cpp_item_index: usize,
}

/// Kind of a generated Rust function.
#[derive(Debug, PartialEq, Eq)]
pub enum RustFunctionKind {
    FfiWrapper(RustFfiWrapperData),
    SignalOrSlotGetter(RustSignalOrSlotGetter),
}

/// The short description of a function kind.
pub open spec fn function_kind_short_text(k: RustFunctionKind) -> Seq<char> {
    match k {
        RustFunctionKind::FfiWrapper(d) => joined(d.cpp_ffi_function.path.parts.deep_view(), "::"@),
        RustFunctionKind::SignalOrSlotGetter(g) => "SignalOrSlotGetter("@ + joined(
            g.cpp_path.parts.deep_view(),
            "::"@,
        ),
    }
}

impl RustFunctionKind {
    /// A short human-readable description of the function's origin.
    pub fn short_text(&self) -> (r: String)
        ensures
            r@ == function_kind_short_text(*self),
    {
        match self {
            RustFunctionKind::FfiWrapper(data) => data.cpp_ffi_function.short_text(),
            RustFunctionKind::SignalOrSlotGetter(getter) => {
                let mut s = String::from_str("SignalOrSlotGetter(");
                let code = getter.cpp_path.to_cpp_pseudo_code();
                s.append(code.as_str());
                s
            },
        }
    }
}

/// A generated Rust function that has not been assigned its full path yet.
#[derive(Debug, PartialEq, Eq)]
pub struct UnnamedRustFunction {
    pub is_public: bool,
    pub is_unsafe: bool,
    pub kind: RustFunctionKind,
    pub arguments: Vec<RustFunctionArgument>,
    pub return_type: RustFinalType,
    pub extra_doc: Option<String>,
}

/// Information about a public API function.
#[derive(Debug, PartialEq, Eq)]
pub struct RustFunction {
    pub is_public: bool,
    /// True if the function is `unsafe`.
    pub is_unsafe: bool,
    /// Full name of the function.
    pub path: RustPath,
    pub kind: RustFunctionKind,
    /// List of arguments involved in overloading.
    pub arguments: Vec<RustFunctionArgument>,
    /// The return type at the API level.
    pub return_type: RustFinalType,
    /// Documentation data.
    pub extra_doc: Option<String>,
}

/// Information about the type of the `self` argument of a function.
#[derive(Debug, Clone, Copy, PartialEq, Eq, Hash, Structural)]
pub enum RustFunctionSelfArgKind {
    /// No `self` argument (static function or a free function).
    NoSelf,
    /// `&self` argument.
    ConstRef,
    /// `&mut self` argument.
    MutRef,
    /// `self` argument.
    Value,
}

/// The self-argument classification of an unnamed function, or the
/// diagnostic for an unsupported self argument.
pub open spec fn self_arg_kind_spec(f: UnnamedRustFunction) -> Result<
    RustFunctionSelfArgKind,
    Seq<char>,
> {
    if f.arguments@.len() > 0 && f.arguments@[0].name@ == "self"@ {
        match f.arguments@[0].argument_type.api_type {
            RustType::PointerLike { kind, is_const, .. } => match kind {
                RustPointerLikeTypeKind::Pointer => Err("pointer self arg is not supported"@),
                RustPointerLikeTypeKind::Reference => if is_const {
                    Ok(RustFunctionSelfArgKind::ConstRef)
                } else {
                    Ok(RustFunctionSelfArgKind::MutRef)
                },
            },
            RustType::Common { .. } => Ok(RustFunctionSelfArgKind::Value),
            _ => Err("invalid self argument type"@),
        }
    } else {
        Ok(RustFunctionSelfArgKind::NoSelf)
    }
}

impl UnnamedRustFunction {
    /// Attaches a full path, yielding a complete function item.
    pub fn with_path(self, path: RustPath) -> (r: RustFunction)
        ensures
            r.path == path,
            r.is_public == self.is_public,
            r.is_unsafe == self.is_unsafe,
            r.kind == self.kind,
            r.arguments == self.arguments,
            r.return_type == self.return_type,
            r.extra_doc == self.extra_doc,
    {
        RustFunction {
            path,
            is_public: self.is_public,
            is_unsafe: self.is_unsafe,
            kind: self.kind,
            arguments: self.arguments,
            return_type: self.return_type,
            extra_doc: self.extra_doc,
        }
    }

    /// Returns information about the `self` argument of this method.
    pub fn self_arg_kind(&self) -> (r: Result<RustFunctionSelfArgKind, String>)
        ensures
            match self_arg_kind_spec(*self) {
                Result::Ok(k) => r matches Ok(rk) && rk == k,
                Result::Err(m) => r matches Err(rm) && rm@ == m,
            },
    {
        if self.arguments.len() > 0 {
            let arg = &self.arguments[0];
            if arg.name == String::from_str("self") {
                match arg.argument_type.api_type() {
                    RustType::PointerLike { kind, is_const, .. } => match kind {
                        RustPointerLikeTypeKind::Pointer => {
                            return Err(String::from_str("pointer self arg is not supported"));
                        },
                        RustPointerLikeTypeKind::Reference => {
                            if *is_const {
                                return Ok(RustFunctionSelfArgKind::ConstRef);
                            } else {
                                return Ok(RustFunctionSelfArgKind::MutRef);
                            }
                        },
                    },
                    RustType::Common { .. } => {
                        return Ok(RustFunctionSelfArgKind::Value);
                    },
                    _ => {
                        return Err(String::from_str("invalid self argument type"));
                    },
                }
            }
        }
        Ok(RustFunctionSelfArgKind::NoSelf)
    }
}

/// Value of an associated type within a trait implementation.
#[derive(Debug, PartialEq, Eq)]
pub struct RustTraitAssociatedType {
    /// Name of the associated type.
    pub name: String,
    /// Value of the associated type.
    pub value: RustType,
}

/// How a trait implementation was derived from the native-call table.
#[derive(Debug, Clone, Copy, PartialEq, Eq, Structural)]
pub enum RustTraitImplSourceKind {
    Normal,
    Deref,
    DerefMut,
}

/// Provenance of a trait implementation.
#[derive(Debug, Clone, Copy, PartialEq, Eq, Structural)]
pub struct RustTraitImplSource {
    pub ffi_item_index: usize,
    pub kind: RustTraitImplSourceKind,
}

/// Information about a trait implementation.
#[derive(Debug, PartialEq, Eq)]
pub struct RustTraitImpl {
    /// Path of the module the implementation is placed in; the item itself
    /// has no path of its own.
    pub parent_path: RustPath,
    /// Type the trait is implemented for.
    pub target_type: RustType,
    /// Type of the trait.
    pub trait_type: RustType,
    /// Values of associated types of the trait.
    pub associated_types: Vec<RustTraitAssociatedType>,
    /// Functions that implement the trait.
    pub functions: Vec<RustFunction>,
    pub source: RustTraitImplSource,
}

/// Documentation of a generated module.
#[derive(Debug, PartialEq, Eq)]
pub struct RustModuleDoc {
    pub extra_doc: Option<String>,
    pub cpp_path: Option<CppPath>,
}

/// The special modules every generated crate contains.
#[derive(Debug, Clone, Copy, PartialEq, Eq, Structural)]
pub enum RustSpecialModuleKind {
    CrateRoot,
    Ffi,
    Ops,
    SizedTypes,
}

/// Kind of a generated module.
#[derive(Debug, Clone, Copy, PartialEq, Eq, Structural)]
pub enum RustModuleKind {
    Special(RustSpecialModuleKind),
    CppNamespace { cpp_item_index: usize },
    CppNestedTypes { cpp_item_index: usize },
}

impl RustModuleKind {
    /// Whether the module is rendered into a file of its own.
    pub fn is_in_separate_file(self) -> (r: bool)
        ensures
            r == match self {
                RustModuleKind::Special(kind) => kind is CrateRoot || kind is Ops,
                RustModuleKind::CppNamespace { .. } => true,
                RustModuleKind::CppNestedTypes { .. } => false,
            },
    {
        match self {
            RustModuleKind::Special(kind) => match kind {
                RustSpecialModuleKind::CrateRoot => true,
                RustSpecialModuleKind::Ffi => false,
                RustSpecialModuleKind::Ops => true,
                RustSpecialModuleKind::SizedTypes => false,
            },
            RustModuleKind::CppNamespace { .. } => true,
            RustModuleKind::CppNestedTypes { .. } => false,
        }
    }

    /// The module mirrors the types nested in a C++ class.
    pub fn is_cpp_nested_types(self) -> (r: bool)
        ensures
            r == (self is CppNestedTypes),
    {
        if let RustModuleKind::CppNestedTypes { .. } = self {
            true
        } else {
            false
        }
    }
}

/// Information about a generated module.
#[derive(Debug, PartialEq, Eq)]
pub struct RustModule {
    pub is_public: bool,
    /// Path to the module.
    pub path: RustPath,
    /// Markdown content of the documentation for this module.
    pub doc: RustModuleDoc,
    pub kind: RustModuleKind,
}

/// How argument types contribute to a generated name suffix.
#[derive(Debug, Clone, Copy, PartialEq, Eq, Structural)]
pub enum RustTypeCaptionStrategy {
    LastName,
    Full,
}

/// Which features of a function contribute to a generated name suffix.
#[derive(Debug, Clone, PartialEq, Eq)]
pub struct RustFunctionCaptionStrategy {
    pub mut_: bool,
    pub args_count: bool,
    pub arg_names: bool,
    pub arg_types: Option<RustTypeCaptionStrategy>,
    pub static_: bool,
}

/// The strategy that uses no feature at all.
pub open spec fn caption_strategy_default() -> RustFunctionCaptionStrategy {
    RustFunctionCaptionStrategy {
        mut_: false,
        args_count: false,
        arg_names: false,
        arg_types: Option::None,
        static_: false,
    }
}

/// All available caption strategies, sorted by priority: most preferred
/// first, and each non-`mut_` variant directly followed by its `mut_`
/// counterpart.
pub open spec fn all_caption_strategies() -> Seq<RustFunctionCaptionStrategy> {
    seq![
        (RustFunctionCaptionStrategy { mut_: true, ..caption_strategy_default() }),
        (RustFunctionCaptionStrategy { args_count: true, ..caption_strategy_default() }),
        (RustFunctionCaptionStrategy { args_count: true, mut_: true, ..caption_strategy_default() }),
        (RustFunctionCaptionStrategy { static_: true, ..caption_strategy_default() }),
        (RustFunctionCaptionStrategy { static_: true, mut_: true, ..caption_strategy_default() }),
        (RustFunctionCaptionStrategy {
            arg_types: Option::Some(RustTypeCaptionStrategy::LastName),
            ..caption_strategy_default()
        }),
        (RustFunctionCaptionStrategy {
            arg_types: Option::Some(RustTypeCaptionStrategy::LastName),
            mut_: true,
            ..caption_strategy_default()
        }),
        (RustFunctionCaptionStrategy {
            arg_types: Option::Some(RustTypeCaptionStrategy::LastName),
            static_: true,
            ..caption_strategy_default()
        }),
        (RustFunctionCaptionStrategy {
            arg_types: Option::Some(RustTypeCaptionStrategy::LastName),
            static_: true,
            mut_: true,
            ..caption_strategy_default()
        }),
        (RustFunctionCaptionStrategy {
            arg_types: Option::Some(RustTypeCaptionStrategy::Full),
            ..caption_strategy_default()
        }),
        (RustFunctionCaptionStrategy {
            arg_types: Option::Some(RustTypeCaptionStrategy::Full),
            mut_: true,
            ..caption_strategy_default()
        }),
        (RustFunctionCaptionStrategy {
            arg_types: Option::Some(RustTypeCaptionStrategy::Full),
            static_: true,
            ..caption_strategy_default()
        }),
        (RustFunctionCaptionStrategy {
            arg_types: Option::Some(RustTypeCaptionStrategy::Full),
            static_: true,
            mut_: true,
            ..caption_strategy_default()
        }),
    ]
}

impl Default for RustFunctionCaptionStrategy {
    /// The strategy that uses no feature at all.
    fn default() -> (r: Self)
        ensures
            r == caption_strategy_default(),
    {
        RustFunctionCaptionStrategy {
            mut_: false,
            args_count: false,
            arg_names: false,
            arg_types: None,
            static_: false,
        }
    }
}

impl RustFunctionCaptionStrategy {
    /// Returns the list of all available strategies sorted by priority
    /// (more preferred strategies go first).
    pub fn all() -> (r: Vec<Self>)
        ensures
            r@ == all_caption_strategies(),
    {
        let base = || -> (b: RustFunctionCaptionStrategy)
            ensures
                b == caption_strategy_default(),
            {
                RustFunctionCaptionStrategy {
                    mut_: false,
                    args_count: false,
                    arg_names: false,
                    arg_types: None,
                    static_: false,
                }
            };
        let mut all: Vec<RustFunctionCaptionStrategy> = Vec::new();
        all.push(RustFunctionCaptionStrategy { mut_: true, ..base() });
        all.push(RustFunctionCaptionStrategy { args_count: true, ..base() });
        all.push(RustFunctionCaptionStrategy { args_count: true, mut_: true, ..base() });
        all.push(RustFunctionCaptionStrategy { static_: true, ..base() });
        all.push(RustFunctionCaptionStrategy { static_: true, mut_: true, ..base() });
        all.push(RustFunctionCaptionStrategy {
            arg_types: Some(RustTypeCaptionStrategy::LastName),
            ..base()
        });
        all.push(RustFunctionCaptionStrategy {
            arg_types: Some(RustTypeCaptionStrategy::LastName),
            mut_: true,
            ..base()
        });
        all.push(RustFunctionCaptionStrategy {
            arg_types: Some(RustTypeCaptionStrategy::LastName),
            static_: true,
            ..base()
        });
        all.push(RustFunctionCaptionStrategy {
            arg_types: Some(RustTypeCaptionStrategy::LastName),
            static_: true,
            mut_: true,
            ..base()
        });
        all.push(RustFunctionCaptionStrategy {
            arg_types: Some(RustTypeCaptionStrategy::Full),
            ..base()
        });
        all.push(RustFunctionCaptionStrategy {
            arg_types: Some(RustTypeCaptionStrategy::Full),
            mut_: true,
            ..base()
        });
        all.push(RustFunctionCaptionStrategy {
            arg_types: Some(RustTypeCaptionStrategy::Full),
            static_: true,
            ..base()
        });
        all.push(RustFunctionCaptionStrategy {
            arg_types: Some(RustTypeCaptionStrategy::Full),
            static_: true,
            mut_: true,
            ..base()
        });
        proof {
            assert(all@ =~= all_caption_strategies());
        }
        all
    }
}

/// Information about an argument of a generated FFI function.
#[derive(Debug, PartialEq, Eq)]
pub struct RustFFIArgument {
    /// Name of the argument.
    pub name: String,
    /// Type of the argument.
    pub argument_type: RustType,
}

/// Information about a generated FFI function. Name and signature must
/// match the corresponding function on the native side.
#[derive(Debug, PartialEq, Eq)]
pub struct RustFFIFunction {
    /// Return type of the function.
    pub return_type: RustType,
    /// Name of the function.
    pub path: RustPath,
    /// Arguments of the function.
    pub arguments: Vec<RustFFIArgument>,
    pub ffi_item_index: usize,
}

/// Registration of a raw slot receiver.
#[derive(Debug, PartialEq, Eq)]
pub struct RustRawSlotReceiver {
    pub target_path: RustPath,
    pub arguments: RustType,
    pub receiver_id: String,
    pub cpp_item_index: usize,
}

/// Operator implementations generated for a flag enum.
#[derive(Debug, PartialEq, Eq)]
pub struct RustFlagEnumImpl {
    pub enum_path: RustPath,
    pub cpp_item_index: usize,
}

/// Kind of an additional generated implementation block.
#[derive(Debug, PartialEq, Eq)]
pub enum RustExtraImplKind {
    FlagEnum(RustFlagEnumImpl),
    RawSlotReceiver(RustRawSlotReceiver),
}

/// Two extra-impl kinds derive from the same declaration.
pub open spec fn extra_impl_kind_same_source(a: RustExtraImplKind, b: RustExtraImplKind) -> bool {
    match a {
        RustExtraImplKind::FlagEnum(x) => b matches RustExtraImplKind::FlagEnum(y)
            && x.cpp_item_index == y.cpp_item_index,
        RustExtraImplKind::RawSlotReceiver(x) => b matches RustExtraImplKind::RawSlotReceiver(y)
            && x.cpp_item_index == y.cpp_item_index,
    }
}

/// The short description of an extra-impl kind.
pub open spec fn extra_impl_kind_short_text(k: RustExtraImplKind) -> Seq<char> {
    match k {
        RustExtraImplKind::FlagEnum(d) => "FlagEnum("@ + joined(d.enum_path@, "::"@) + ")"@,
        RustExtraImplKind::RawSlotReceiver(d) => "RawSlotReceiver("@ + joined(d.target_path@, "::"@)
            + ")"@,
    }
}

impl RustExtraImplKind {
    /// Whether both kinds derive from the same C++ declaration.
    pub fn has_same_source(&self, other: &Self) -> (r: bool)
        ensures
            r == extra_impl_kind_same_source(*self, *other),
    {
        match self {
            RustExtraImplKind::FlagEnum(data) => {
                if let RustExtraImplKind::FlagEnum(o) = other {
                    data.cpp_item_index == o.cpp_item_index
                } else {
                    false
                }
            },
            RustExtraImplKind::RawSlotReceiver(data) => {
                if let RustExtraImplKind::RawSlotReceiver(o) = other {
                    data.cpp_item_index == o.cpp_item_index
                } else {
                    false
                }
            },
        }
    }

    fn short_text(&self) -> (r: String)
        ensures
            r@ == extra_impl_kind_short_text(*self),
    {
        match self {
            RustExtraImplKind::FlagEnum(d) => {
                let mut s = String::from_str("FlagEnum(");
                let name = d.enum_path.full_name();
                s.append(name.as_str());
                s.append(")");
                s
            },
            RustExtraImplKind::RawSlotReceiver(d) => {
                let mut s = String::from_str("RawSlotReceiver(");
                let name = d.target_path.full_name();
                s.append(name.as_str());
                s.append(")");
                s
            },
        }
    }
}

/// An additional generated implementation block, located by parent path.
#[derive(Debug, PartialEq, Eq)]
pub struct RustExtraImpl {
    pub parent_path: RustPath,
    pub kind: RustExtraImplKind,
}

/// Where a re-exported name comes from.
#[derive(Debug, PartialEq, Eq)]
pub enum RustReexportSource {
    DependencyCrate { crate_name: String },
}

/// Two re-export sources denote the same origin.
pub open spec fn reexport_source_same(a: RustReexportSource, b: RustReexportSource) -> bool {
    match (a, b) {
        (
            RustReexportSource::DependencyCrate { crate_name: c1 },
            RustReexportSource::DependencyCrate { crate_name: c2 },
        ) => c1@ == c2@,
    }
}

/// A re-export of an item of a dependency crate.
#[derive(Debug, PartialEq, Eq)]
pub struct RustReexport {
    pub path: RustPath,
    pub target: RustPath,
    pub source: RustReexportSource,
}

/// A generated entity of the Rust API surface.
#[derive(Debug, PartialEq, Eq)]
pub enum RustItem {
    Module(RustModule),
    Struct(RustStruct),
    EnumValue(RustEnumValue),
    TraitImpl(RustTraitImpl),
    ExtraImpl(RustExtraImpl),
    FfiFunction(RustFFIFunction),
    Function(RustFunction),
    Reexport(RustReexport),
}

/// Two items denote the same logical origin across regeneration runs.
///
/// Within one variant, equal provenance suffices. The one cross-variant
/// match: a trait implementation with `Normal` provenance and a function
/// wrapping the same native-call table entry are the same source, so the
/// same native function may move between the two shapes without losing
/// diff continuity.
pub open spec fn same_source(a: RustItem, b: RustItem) -> bool {
    match a {
        RustItem::Module(x) => b matches RustItem::Module(y) && x.kind == y.kind,
        RustItem::Struct(x) => b matches RustItem::Struct(y) && struct_kind_same_source(
            x.kind,
            y.kind,
        ),
        RustItem::EnumValue(x) => b matches RustItem::EnumValue(y) && x.cpp_item_index
            == y.cpp_item_index,
        RustItem::TraitImpl(x) => match b {
            RustItem::TraitImpl(y) => x.source == y.source,
            RustItem::Function(y) => y.kind matches RustFunctionKind::FfiWrapper(w)
                && x.source.ffi_item_index == w.ffi_item_index && x.source.kind
                == RustTraitImplSourceKind::Normal,
            _ => false,
        },
        RustItem::ExtraImpl(x) => b matches RustItem::ExtraImpl(y) && extra_impl_kind_same_source(
            x.kind,
            y.kind,
        ),
        RustItem::FfiFunction(x) => b matches RustItem::FfiFunction(y) && x.ffi_item_index
            == y.ffi_item_index,
        RustItem::Function(x) => match x.kind {
            RustFunctionKind::FfiWrapper(w) => match b {
                RustItem::TraitImpl(y) => w.ffi_item_index == y.source.ffi_item_index
                    && y.source.kind == RustTraitImplSourceKind::Normal,
                RustItem::Function(y) => y.kind matches RustFunctionKind::FfiWrapper(v)
                    && w.ffi_item_index == v.ffi_item_index,
                _ => false,
            },
            RustFunctionKind::SignalOrSlotGetter(g) => b matches RustItem::Function(y)
                && y.kind matches RustFunctionKind::SignalOrSlotGetter(h) && g.cpp_item_index
                == h.cpp_item_index,
        },
        RustItem::Reexport(x) => b matches RustItem::Reexport(y) && reexport_source_same(
            x.source,
            y.source,
        ),
    }
}

/// The path of an item, for the variants that carry one of their own.
pub open spec fn item_path(item: RustItem) -> Option<Seq<Seq<char>>> {
    match item {
        RustItem::Module(d) => Some(d.path@),
        RustItem::Struct(d) => Some(d.path@),
        RustItem::EnumValue(d) => Some(d.path@),
        RustItem::Function(d) => Some(d.path@),
        RustItem::FfiFunction(d) => Some(d.path@),
        RustItem::Reexport(d) => Some(d.path@),
        RustItem::TraitImpl(_) => None,
        RustItem::ExtraImpl(_) => None,
    }
}

/// The parent path of an item: the stored parent for the path-less
/// implementation items, and the path shorn of its last segment otherwise.
pub open spec fn item_parent_path(item: RustItem) -> Option<Seq<Seq<char>>> {
    match item {
        RustItem::TraitImpl(d) => Some(d.parent_path@),
        RustItem::ExtraImpl(d) => Some(d.parent_path@),
        _ => match item_path(item) {
            Option::Some(p) => if p.len() > 1 {
                Some(p.drop_last())
            } else {
                None
            },
            Option::None => None,
        },
    }
}

/// The item is the crate-root module marker.
pub open spec fn item_is_crate_root(item: RustItem) -> bool {
    item matches RustItem::Module(m) && m.kind == RustModuleKind::Special(
        RustSpecialModuleKind::CrateRoot,
    )
}

/// The description of an item has a defined rendering; the one constraint
/// is that a re-export names a target.
pub open spec fn short_text_defined(item: RustItem) -> bool {
    match item {
        RustItem::Reexport(d) => d.target@.len() >= 1,
        _ => true,
    }
}

/// The short description of an item.
pub open spec fn rust_item_short_text(item: RustItem) -> Seq<char> {
    match item {
        RustItem::Module(d) => "mod "@ + joined(d.path@, "::"@),
        RustItem::Struct(d) => "struct "@ + joined(d.path@, "::"@),
        RustItem::EnumValue(d) => "enum value "@ + joined(d.path@, "::"@),
        RustItem::TraitImpl(d) => "impl "@ + rust_type_code(d.trait_type) + " for "@
            + rust_type_code(d.target_type),
        RustItem::ExtraImpl(d) => "extra impl "@ + extra_impl_kind_short_text(d.kind),
        RustItem::FfiFunction(d) => "ffi fn "@ + joined(d.path@, "::"@),
        RustItem::Function(d) => "fn "@ + joined(d.path@, "::"@),
        RustItem::Reexport(d) => "use "@ + joined(d.path@, "::"@) + " as "@ + d.target@.last(),
    }
}

impl RustItem {
    /// Whether both items denote the same logical origin.
    pub fn has_same_source(&self, other: &Self) -> (r: bool)
        ensures
            r == same_source(*self, *other),
    {
        match self {
            RustItem::Module(data) => {
                if let RustItem::Module(o) = other {
                    data.kind == o.kind
                } else {
                    false
                }
            },
            RustItem::Struct(data) => {
                if let RustItem::Struct(o) = other {
                    data.kind.has_same_source(&o.kind)
                } else {
                    false
                }
            },
            RustItem::EnumValue(data) => {
                if let RustItem::EnumValue(o) = other {
                    data.cpp_item_index == o.cpp_item_index
                } else {
                    false
                }
            },
            RustItem::TraitImpl(data) => match other {
                RustItem::TraitImpl(o) => data.source == o.source,
                RustItem::Function(o) => {
                    if let RustFunctionKind::FfiWrapper(w) = &o.kind {
                        data.source.ffi_item_index == w.ffi_item_index && data.source.kind
                            == RustTraitImplSourceKind::Normal
                    } else {
                        false
                    }
                },
                _ => false,
            },
            RustItem::ExtraImpl(data) => {
                if let RustItem::ExtraImpl(o) = other {
                    data.kind.has_same_source(&o.kind)
                } else {
                    false
                }
            },
            RustItem::FfiFunction(data) => {
                if let RustItem::FfiFunction(o) = other {
                    data.ffi_item_index == o.ffi_item_index
                } else {
                    false
                }
            },
            RustItem::Function(data) => match &data.kind {
                RustFunctionKind::FfiWrapper(w) => match other {
                    RustItem::TraitImpl(o) => w.ffi_item_index == o.source.ffi_item_index
                        && o.source.kind == RustTraitImplSourceKind::Normal,
                    RustItem::Function(o) => {
                        if let RustFunctionKind::FfiWrapper(v) = &o.kind {
                            w.ffi_item_index == v.ffi_item_index
                        } else {
                            false
                        }
                    },
                    _ => false,
                },
                RustFunctionKind::SignalOrSlotGetter(g) => {
                    if let RustItem::Function(o) = other {
                        if let RustFunctionKind::SignalOrSlotGetter(h) = &o.kind {
                            g.cpp_item_index == h.cpp_item_index
                        } else {
                            false
                        }
                    } else {
                        false
                    }
                },
            },
            RustItem::Reexport(data) => {
                if let RustItem::Reexport(o) = other {
                    let RustReexportSource::DependencyCrate { crate_name: c1 } = &data.source;
                    let RustReexportSource::DependencyCrate { crate_name: c2 } = &o.source;
                    *c1 == *c2
                } else {
                    false
                }
            },
        }
    }

    /// The item is a generated FFI function.
    pub fn is_ffi_function(&self) -> (r: bool)
        ensures
            r == (self is FfiFunction),
    {
        if let RustItem::FfiFunction(_) = self {
            true
        } else {
            false
        }
    }

    /// The item is an opaque wrapper struct.
    pub fn is_wrapper_type(&self) -> (r: bool)
        ensures
            r == (self matches RustItem::Struct(d) && d.kind is WrapperType),
    {
        if let RustItem::Struct(data) = self {
            data.kind.is_wrapper_type()
        } else {
            false
        }
    }

    /// The item is a module.
    pub fn is_module(&self) -> (r: bool)
        ensures
            r == (self is Module),
    {
        if let RustItem::Module(_) = self {
            true
        } else {
            false
        }
    }

    /// The item is a module mirroring the types nested in a C++ class.
    pub fn is_module_for_nested(&self) -> (r: bool)
        ensures
            r == (self matches RustItem::Module(m) && m.kind is CppNestedTypes),
    {
        if let RustItem::Module(module) = self {
            module.kind.is_cpp_nested_types()
        } else {
            false
        }
    }

    /// The item is the crate-root module marker.
    pub fn is_crate_root(&self) -> (r: bool)
        ensures
            r == item_is_crate_root(*self),
    {
        if let RustItem::Module(module) = self {
            module.kind == RustModuleKind::Special(RustSpecialModuleKind::CrateRoot)
        } else {
            false
        }
    }

    /// A short human-readable description of the item.
    pub fn short_text(&self) -> (r: String)
        requires
            short_text_defined(*self),
        ensures
            r@ == rust_item_short_text(*self),
    {
        match self {
            RustItem::Module(data) => {
                let mut s = String::from_str("mod ");
                let name = data.path.full_name();
                s.append(name.as_str());
                s
            },
            RustItem::Struct(data) => {
                let mut s = String::from_str("struct ");
                let name = data.path.full_name();
                s.append(name.as_str());
                s
            },
            RustItem::EnumValue(data) => {
                let mut s = String::from_str("enum value ");
                let name = data.path.full_name();
                s.append(name.as_str());
                s
            },
            RustItem::TraitImpl(data) => {
                let mut s = String::from_str("impl ");
                let trait_code = rust_type_to_code(&data.trait_type);
                s.append(trait_code.as_str());
                s.append(" for ");
                let target_code = rust_type_to_code(&data.target_type);
                s.append(target_code.as_str());
                s
            },
            RustItem::ExtraImpl(data) => {
                let mut s = String::from_str("extra impl ");
                let kind_text = data.kind.short_text();
                s.append(kind_text.as_str());
                s
            },
            RustItem::FfiFunction(data) => {
                let mut s = String::from_str("ffi fn ");
                let name = data.path.full_name();
                s.append(name.as_str());
                s
            },
            RustItem::Function(data) => {
                let mut s = String::from_str("fn ");
                let name = data.path.full_name();
                s.append(name.as_str());
                s
            },
            RustItem::Reexport(data) => {
                let mut s = String::from_str("use ");
                let name = data.path.full_name();
                s.append(name.as_str());
                s.append(" as ");
                let last = data.target.last();
                s.append(last.as_str());
                s
            },
        }
    }

    /// The re-export data, when the item is a re-export.
    pub fn as_reexport_ref(&self) -> (r: Option<&RustReexport>)
        ensures
            match r {
                Option::Some(v) => *self matches RustItem::Reexport(d) && *v == d,
                Option::None => !(*self is Reexport),
            },
    {
        if let RustItem::Reexport(value) = self {
            Some(value)
        } else {
            None
        }
    }

    /// The module data, when the item is a module.
    pub fn as_module_ref(&self) -> (r: Option<&RustModule>)
        ensures
            match r {
                Option::Some(v) => *self matches RustItem::Module(d) && *v == d,
                Option::None => !(*self is Module),
            },
    {
        if let RustItem::Module(value) = self {
            Some(value)
        } else {
            None
        }
    }
}

/// Identity of an item's origin is reflexive: every item has the same
/// source as itself.
pub proof fn lemma_same_source_reflexive(a: RustItem)
    ensures
        same_source(a, a),
{
}

/// Identity of an item's origin is symmetric, including across the
/// trait-impl/function match.
pub proof fn lemma_same_source_symmetric(a: RustItem, b: RustItem)
    ensures
        same_source(a, b) == same_source(b, a),
{
}

/// The cross-variant match: a trait implementation and an FFI-wrapper
/// function are the same source exactly when the implementation has
/// `Normal` provenance and both reference the same native-call table
/// entry.
pub proof fn lemma_trait_impl_function_same_source(t: RustTraitImpl, f: RustFunction)
    ensures
        same_source(RustItem::TraitImpl(t), RustItem::Function(f)) <==> (f.kind matches
            RustFunctionKind::FfiWrapper(w) && t.source.ffi_item_index == w.ffi_item_index
            && t.source.kind == RustTraitImplSourceKind::Normal),
{
}


/// One entry of the binding database.
#[derive(Debug, PartialEq, Eq)]
pub struct RustDatabaseItem {
    pub item: RustItem,
    pub cpp_item_index: Option<usize>,
    pub ffi_item_index: Option<usize>,
}

impl RustDatabaseItem {
    /// The item's own path, for the variants that carry one.
    pub fn path(&self) -> (r: Option<&RustPath>)
        ensures
            match r {
                Option::Some(p) => item_path(self.item) == Some(p@),
                Option::None => item_path(self.item) is None,
            },
    {
        match &self.item {
            RustItem::Module(data) => Some(&data.path),
            RustItem::Struct(data) => Some(&data.path),
            RustItem::EnumValue(data) => Some(&data.path),
            RustItem::Function(data) => Some(&data.path),
            RustItem::FfiFunction(data) => Some(&data.path),
            RustItem::Reexport(data) => Some(&data.path),
            RustItem::TraitImpl(_) => None,
            RustItem::ExtraImpl(_) => None,
        }
    }

    /// The path of the item's parent: the stored parent path for the
    /// path-less implementation items, and the item's own path without its
    /// last segment otherwise.
    pub fn parent_path(&self) -> (r: Option<RustPath>)
        ensures
            match r {
                Option::Some(p) => item_parent_path(self.item) == Some(p@),
                Option::None => item_parent_path(self.item) is None,
            },
    {
        match &self.item {
            RustItem::TraitImpl(trait_impl) => Some(trait_impl.parent_path.clone()),
            RustItem::ExtraImpl(data) => Some(data.parent_path.clone()),
            _ => match self.path() {
                Option::Some(p) => p.parent(),
                Option::None => None,
            },
        }
    }

    /// Whether this item's parent path is exactly `parent`.
    pub fn is_child_of(&self, parent: &RustPath) -> (r: bool)
        ensures
            r == (item_parent_path(self.item) == Some(parent@)),
    {
        match self.parent_path() {
            Option::Some(p) => p.same_as(parent),
            Option::None => false,
        }
    }

    /// The module data, when the item is a module.
    pub fn as_module_ref(&self) -> (r: Option<&RustModule>)
        ensures
            match r {
                Option::Some(v) => self.item matches RustItem::Module(d) && *v == d,
                Option::None => !(self.item is Module),
            },
    {
        if let RustItem::Module(data) = &self.item {
            Some(data)
        } else {
            None
        }
    }
}

/// Some stored item's own path is exactly `path`.
pub open spec fn db_occupied(items: Seq<RustDatabaseItem>, path: Seq<Seq<char>>) -> bool {
    exists|i: int| 0 <= i < items.len() && item_path(#[trigger] items[i].item) == Some(path)
}

/// Every nonempty prefix of `pp`, including `pp` itself and the crate-root
/// prefix, denotes a stored item.
pub open spec fn ancestors_present(items: Seq<RustDatabaseItem>, pp: Seq<Seq<char>>) -> bool {
    forall|k: int| 1 <= k <= pp.len() ==> db_occupied(items, #[trigger] pp.take(k))
}

/// The paths an item needs for insertion are well formed: a stored parent
/// path or a crate-root path has at least the crate-name segment.
pub open spec fn item_pathing_wf(item: RustItem) -> bool {
    match item {
        RustItem::TraitImpl(t) => t.parent_path@.len() >= 1,
        RustItem::ExtraImpl(e) => e.parent_path@.len() >= 1,
        RustItem::Module(m) => item_is_crate_root(RustItem::Module(m)) ==> m.path@.len() >= 1,
        _ => true,
    }
}

/// `add_item` accepts `item` against a database with crate name `cn` and
/// contents `items`: the crate-root marker needs only the right crate-name
/// segment, and every other item needs a derivable parent path with the
/// right crate name whose every prefix already denotes a stored item.
pub open spec fn add_accepted(
    cn: Seq<char>,
    items: Seq<RustDatabaseItem>,
    item: RustDatabaseItem,
) -> bool {
    if item_is_crate_root(item.item) {
        match item_path(item.item) {
            Option::Some(p) => p.len() >= 1 && p[0] == cn,
            Option::None => false,
        }
    } else {
        match item_parent_path(item.item) {
            Option::Some(pp) => pp.len() >= 1 && pp[0] == cn && ancestors_present(items, pp),
            Option::None => false,
        }
    }
}

/// Failures of `RustDatabase::add_item`. Each indicates an inconsistency
/// in the upstream synthesis step (an item built before its parent, or for
/// the wrong crate), so callers treat them as fatal to the generation run.
#[derive(Debug, PartialEq, Eq)]
pub enum RustDatabaseError {
    /// The item's crate-name segment differs from the database's.
    CrateNameMismatch,
    /// The item's variant has no derivable parent path.
    NoParentPath,
    /// The given ancestor path does not denote a stored item.
    UnreachablePath(RustPath),
}

/// The full contract of `add_item`: how the store after the call and the
/// result relate to the store before it, for each outcome.
pub open spec fn add_item_result(
    cn: Seq<char>,
    before: Seq<RustDatabaseItem>,
    item: RustDatabaseItem,
    after: Seq<RustDatabaseItem>,
    r: Result<(), RustDatabaseError>,
) -> bool {
    match r {
        Result::Ok(_) => {
            &&& add_accepted(cn, before, item)
            &&& after == before.push(item)
        },
        Result::Err(e) => {
            &&& after == before
            &&& match e {
                RustDatabaseError::CrateNameMismatch => {
                    ||| (item_is_crate_root(item.item) && match item_path(item.item) {
                        Option::Some(p) => p[0] != cn,
                        Option::None => false,
                    })
                    ||| (!item_is_crate_root(item.item) && match item_parent_path(item.item) {
                        Option::Some(pp) => pp[0] != cn,
                        Option::None => false,
                    })
                },
                RustDatabaseError::NoParentPath => !item_is_crate_root(item.item)
                    && item_parent_path(item.item) is None,
                RustDatabaseError::UnreachablePath(q) => {
                    &&& !item_is_crate_root(item.item)
                    &&& match item_parent_path(item.item) {
                        Option::Some(pp) => {
                            &&& pp[0] == cn
                            &&& exists|k: int|
                                {
                                    &&& 1 <= k <= pp.len()
                                    &&& q@ == pp.take(k)
                                    &&& !db_occupied(before, #[trigger] pp.take(k))
                                    &&& forall|j: int|
                                        k < j <= pp.len() ==> db_occupied(
                                            before,
                                            #[trigger] pp.take(j),
                                        )
                                }
                        },
                        Option::None => false,
                    }
                },
            }
        },
    }
}

/// The stored entries scoped to one generated crate.
#[derive(Debug)]
pub struct RustDatabase {
    crate_name: String,
    items: Vec<RustDatabaseItem>,
}

impl RustDatabase {
    /// The crate name this database is scoped to.
    pub closed spec fn spec_crate_name(&self) -> Seq<char> {
        self.crate_name@
    }

    /// The stored items, in insertion order.
    pub closed spec fn spec_items(&self) -> Seq<RustDatabaseItem> {
        self.items@
    }

    /// An empty database scoped to `crate_name`.
    pub fn new(crate_name: String) -> (r: Self)
        ensures
            r.spec_crate_name() == crate_name@,
            r.spec_items() == Seq::<RustDatabaseItem>::empty(),
    {
        let r = Self { crate_name, items: Vec::new() };
        proof {
            assert(r.spec_items() =~= Seq::<RustDatabaseItem>::empty());
        }
        r
    }

    /// Exact path lookup: the first stored item whose own path is `path`.
    pub fn find(&self, path: &RustPath) -> (r: Option<&RustDatabaseItem>)
        ensures
            match r {
                Option::Some(it) => exists|i: int|
                    {
                        &&& 0 <= i < self.spec_items().len()
                        &&& *it == self.spec_items()[i]
                        &&& item_path(#[trigger] self.spec_items()[i].item) == Some(path@)
                        &&& forall|j: int|
                            0 <= j < i ==> item_path(#[trigger] self.spec_items()[j].item) != Some(
                                path@,
                            )
                    },
                Option::None => !db_occupied(self.spec_items(), path@),
            },
    {
        let mut i: usize = 0;
        while i < self.items.len()
            invariant
                0 <= i <= self.items.len(),
                forall|j: int|
                    0 <= j < i ==> item_path(#[trigger] self.items@[j].item) != Some(path@),
            decreases self.items.len() - i,
        {
            let candidate = &self.items[i];
            let matches_path = match candidate.path() {
                Option::Some(p) => p.same_as(path),
                Option::None => false,
            };
            if matches_path {
                proof {
                    assert(0 <= i < self.spec_items().len());
                    assert(*candidate == self.spec_items()[i as int]);
                    assert(item_path(self.spec_items()[i as int].item) == Some(path@));
                }
                return Some(candidate);
            }
            i = i + 1;
        }
        None
    }

    /// The stored items whose derived parent path equals `path`, among the
    /// first `n` entries, in order.
    pub open spec fn children_of(
        items: Seq<RustDatabaseItem>,
        path: Seq<Seq<char>>,
        n: int,
    ) -> Seq<RustDatabaseItem>
        decreases n,
    {
        if n <= 0 {
            Seq::empty()
        } else {
            let prefix = Self::children_of(items, path, n - 1);
            if item_parent_path(items[n - 1].item) == Some(path) {
                prefix.push(items[n - 1])
            } else {
                prefix
            }
        }
    }

    /// All stored items whose derived parent path equals `path`, in order.
    pub fn children(&self, path: &RustPath) -> (r: Vec<&RustDatabaseItem>)
        ensures
            r@.map_values(|it: &RustDatabaseItem| *it) == Self::children_of(
                self.spec_items(),
                path@,
                self.spec_items().len() as int,
            ),
    {
        let mut r: Vec<&RustDatabaseItem> = Vec::new();
        let mut i: usize = 0;
        while i < self.items.len()
            invariant
                0 <= i <= self.items.len(),
                r@.map_values(|it: &RustDatabaseItem| *it) == Self::children_of(
                    self.spec_items(),
                    path@,
                    i as int,
                ),
            decreases self.items.len() - i,
        {
            let candidate = &self.items[i];
            if candidate.is_child_of(path) {
                r.push(candidate);
            }
            proof {
                assert(r@.map_values(|it: &RustDatabaseItem| *it) =~= Self::children_of(
                    self.spec_items(),
                    path@,
                    i + 1,
                ));
            }
            i = i + 1;
        }
        r
    }

    /// All stored items, in insertion order.
    pub fn items(&self) -> (r: &Vec<RustDatabaseItem>)
        ensures
            r@ == self.spec_items(),
    {
        &self.items
    }

    /// Validates and stores one item, all-or-nothing.
    ///
    /// The crate-root marker is checked only for the crate-name segment of
    /// its path. Every other item must have a derivable parent path with
    /// the database's crate name, and that path and each of its prefixes
    /// down to the crate root must already denote a stored item; the error
    /// names the longest missing ancestor. On any failure the database is
    /// left exactly as it was.
    #[verifier::loop_isolation(false)]
    pub fn add_item(&mut self, item: RustDatabaseItem) -> (r: Result<(), RustDatabaseError>)
        requires
            item_pathing_wf(item.item),
        ensures
            final(self).spec_crate_name() == old(self).spec_crate_name(),
            add_item_result(
                old(self).spec_crate_name(),
                old(self).spec_items(),
                item,
                final(self).spec_items(),
                r,
            ),
    {
        if item.item.is_crate_root() {
            match item.path() {
                Option::Some(p) => {
                    if !(*p.crate_name() == self.crate_name) {
                        return Err(RustDatabaseError::CrateNameMismatch);
                    }
                },
                Option::None => {
                    proof {
                        assert(false);
                    }
                    return Err(RustDatabaseError::NoParentPath);
                },
            }
            self.items.push(item);
            return Ok(());
        }
        let parent = match item.parent_path() {
            Option::Some(p) => p,
            Option::None => {
                return Err(RustDatabaseError::NoParentPath);
            },
        };
        if !(*parent.crate_name() == self.crate_name) {
            return Err(RustDatabaseError::CrateNameMismatch);
        }
        let ghost pp = parent@;
        let mut p = parent;
        let mut lvl: usize = p.parts.len();
        while lvl >= 1
            invariant
                0 <= lvl <= pp.len(),
                p@ == pp.take(lvl as int),
                p.parts@.len() == lvl,
                forall|j: int|
                    lvl < j <= pp.len() ==> db_occupied(self.spec_items(), #[trigger] pp.take(j)),
            decreases lvl,
        {
            if self.find(&p).is_none() {
                let err = RustDatabaseError::UnreachablePath(p);
                proof {
                    let k = lvl as int;
                    assert(err matches RustDatabaseError::UnreachablePath(q) && 1 <= k <= pp.len()
                        && q@ == pp.take(k) && !db_occupied(self.spec_items(), pp.take(k))
                        && forall|j: int|
                        k < j <= pp.len() ==> db_occupied(
                            self.spec_items(),
                            #[trigger] pp.take(j),
                        ));
                    assert(self.spec_items() == old(self).spec_items());
                    assert(!item_is_crate_root(item.item));
                    assert(item_parent_path(item.item) == Some(pp));
                    assert(pp[0] == old(self).spec_crate_name());
                    assert(exists|kk: int|
                        {
                            &&& 1 <= kk <= pp.len()
                            &&& (err matches RustDatabaseError::UnreachablePath(q) && q@
                                == pp.take(kk))
                            &&& !db_occupied(old(self).spec_items(), #[trigger] pp.take(kk))
                            &&& forall|j: int|
                                kk < j <= pp.len() ==> db_occupied(
                                    old(self).spec_items(),
                                    #[trigger] pp.take(j),
                                )
                        });
                    assert(add_item_result(
                        old(self).spec_crate_name(),
                        old(self).spec_items(),
                        item,
                        self.spec_items(),
                        Result::<(), RustDatabaseError>::Err(err),
                    ));
                }
                return Err(err);
            }
            proof {
                assert(db_occupied(self.spec_items(), pp.take(lvl as int)));
            }
            lvl = lvl - 1;
            let _segment = p.parts.pop();
            proof {
                assert(p@ =~= pp.take(lvl as int));
            }
        }
        self.items.push(item);
        Ok(())
    }

    /// Empties the store, for full regeneration.
    pub fn clear(&mut self)
        ensures
            final(self).spec_crate_name() == old(self).spec_crate_name(),
            final(self).spec_items() == Seq::<RustDatabaseItem>::empty(),
    {
        self.items.clear();
        proof {
            assert(self.spec_items() =~= Seq::<RustDatabaseItem>::empty());
        }
    }

    /// Synthesizes the first untaken variant of `path` without changing
    /// the database: the candidate itself when no stored item has that
    /// path, and otherwise the candidate with a numeric suffix appended to
    /// its last segment, starting at 1 and taking the first free number; a
    /// separating underscore is inserted exactly when the unmodified last
    /// segment already ends in a digit.
    #[verifier::loop_isolation(false)]
    pub fn make_unique_path(&self, path: &RustPath) -> (r: RustPath)
        requires
            path@.len() >= 1,
            self.spec_items().len() < usize::MAX,
        ensures
            unique_path_outcome(self.spec_items(), path@, r@),
    {
        if self.find(path).is_none() {
            return path.clone();
        }
        proof {
            lemma_free_numbered_path_exists(self.spec_items(), path@);
        }
        let ends_digit = crate::string_utils::ends_with_digit(path.last().as_str());
        let mut n: u64 = 1;
        loop
            invariant
                1 <= n,
                n as int <= self.spec_items().len() + 1,
                db_occupied(self.spec_items(), path@),
                exists|m: int|
                    n as int <= m <= self.spec_items().len() + 1 && !db_occupied(
                        self.spec_items(),
                        #[trigger] numbered_path(path@, m as nat),
                    ),
                forall|m: int|
                    1 <= m < n as int ==> db_occupied(
                        self.spec_items(),
                        #[trigger] numbered_path(path@, m as nat),
                    ),
            decreases self.spec_items().len() + 1 - n as int,
        {
            let mut last = path.last().clone();
            if ends_digit {
                last.append("_");
            }
            let digits = crate::string_utils::u64_to_dec_string(n);
            last.append(digits.as_str());
            proof {
                assert(last@ =~= numbered_segment(path@.last(), n as nat));
            }
            let mut cand = path.clone();
            let _segment = cand.parts.pop();
            cand.parts.push(last);
            proof {
                assert(cand@ =~= numbered_path(path@, n as nat));
            }
            if self.find(&cand).is_none() {
                proof {
                    let nn = n as int;
                    assert(1 <= nn && cand@ == numbered_path(path@, nn as nat) && !db_occupied(
                        self.spec_items(),
                        cand@,
                    ) && forall|m: int|
                        1 <= m < nn ==> db_occupied(
                            self.spec_items(),
                            #[trigger] numbered_path(path@, m as nat),
                        ));
                }
                return cand;
            }
            proof {
                assert(db_occupied(self.spec_items(), numbered_path(path@, n as nat)));
                let m = choose|m: int|
                    n as int <= m <= self.spec_items().len() + 1 && !db_occupied(
                        self.spec_items(),
                        #[trigger] numbered_path(path@, m as nat),
                    );
                assert(m != n as int);
            }
            n = n + 1;
        }
    }
}


/// `base` extended with number `n`, separated by an underscore exactly
/// when `base` already ends in a digit, to avoid ambiguous digit runs.
pub open spec fn numbered_segment(base: Seq<char>, n: nat) -> Seq<char> {
    base + (if crate::string_utils::ends_with_digit_spec(base) {
        "_"@
    } else {
        Seq::<char>::empty()
    }) + crate::string_utils::dec_digits(n)
}

/// `p` with its last segment extended by number `n`.
pub open spec fn numbered_path(p: Seq<Seq<char>>, n: nat) -> Seq<Seq<char>>
    recommends
        p.len() >= 1,
{
    p.update(p.len() - 1, numbered_segment(p.last(), n))
}

proof fn lemma_numbered_segment_injective(base: Seq<char>, n1: nat, n2: nat)
    requires
        numbered_segment(base, n1) == numbered_segment(base, n2),
    ensures
        n1 == n2,
{
    let sep = if crate::string_utils::ends_with_digit_spec(base) {
        "_"@
    } else {
        Seq::<char>::empty()
    };
    let pre = base + sep;
    let d1 = crate::string_utils::dec_digits(n1);
    let d2 = crate::string_utils::dec_digits(n2);
    assert((pre + d1).len() == (pre + d2).len());
    assert(d1.len() == d2.len());
    assert(d1 =~= d2) by {
        assert forall|i: int| 0 <= i < d1.len() implies d1[i] == d2[i] by {
            assert((pre + d1)[pre.len() + i] == d1[i]);
            assert((pre + d2)[pre.len() + i] == d2[i]);
        }
    }
    crate::string_utils::lemma_dec_digits_injective(n1, n2);
}

proof fn lemma_numbered_path_injective(p: Seq<Seq<char>>, n1: nat, n2: nat)
    requires
        p.len() >= 1,
        numbered_path(p, n1) == numbered_path(p, n2),
    ensures
        n1 == n2,
{
    assert(numbered_path(p, n1)[p.len() - 1] == numbered_segment(p.last(), n1));
    assert(numbered_path(p, n2)[p.len() - 1] == numbered_segment(p.last(), n2));
    lemma_numbered_segment_injective(p.last(), n1, n2);
}

proof fn lemma_injective_into_card(s: Set<int>, t: Set<int>, f: spec_fn(int) -> int)
    requires
        s.finite(),
        t.finite(),
        forall|x: int, y: int|
            s.contains(x) && s.contains(y) && #[trigger] f(x) == #[trigger] f(y) ==> x == y,
        forall|x: int| s.contains(x) ==> t.contains(#[trigger] f(x)),
    ensures
        s.len() <= t.len(),
    decreases s.len(),
{
    broadcast use vstd::set::group_set_axioms;

    if s.len() == 0 {
    } else {
        assert(exists|x: int| s.contains(x)) by {
            if forall|x: int| !#[trigger] s.contains(x) {
                assert(s =~= Set::<int>::empty());
            }
        }
        let x = choose|x: int| s.contains(x);
        let s2 = s.remove(x);
        let t2 = t.remove(f(x));
        assert(t.contains(f(x)));
        assert forall|y: int| s2.contains(y) implies t2.contains(#[trigger] f(y)) by {
            assert(s.contains(y) && y != x);
            assert(f(y) != f(x));
        }
        lemma_injective_into_card(s2, t2, f);
    }
}

/// Among the numbers 1 through one more than the number of stored items,
/// some numbered variant of `p` is not the path of any stored item.
proof fn lemma_free_numbered_path_exists(items: Seq<RustDatabaseItem>, p: Seq<Seq<char>>)
    requires
        p.len() >= 1,
    ensures
        exists|n: int|
            1 <= n <= items.len() + 1 && !db_occupied(items, #[trigger] numbered_path(p, n as nat)),
{
    broadcast use vstd::set::group_set_axioms;

    let len = items.len() as int;
    if !(exists|n: int|
        1 <= n <= items.len() + 1 && !db_occupied(items, #[trigger] numbered_path(p, n as nat))) {
        assert(forall|n: int|
            1 <= n <= len + 1 ==> db_occupied(items, #[trigger] numbered_path(p, n as nat)));
        let s = vstd::set_lib::set_int_range(1, len + 2);
        let t = vstd::set_lib::set_int_range(0, len);
        vstd::set_lib::lemma_int_range(1, len + 2);
        vstd::set_lib::lemma_int_range(0, len);
        let f = |n: int|
            choose|i: int|
                0 <= i < items.len() && item_path(#[trigger] items[i].item) == Some(
                    numbered_path(p, n as nat),
                );
        assert forall|n: int| s.contains(n) implies t.contains(#[trigger] f(n)) by {
            assert(db_occupied(items, numbered_path(p, n as nat)));
            assert(exists|i: int|
                0 <= i < items.len() && item_path(#[trigger] items[i].item) == Some(
                    numbered_path(p, n as nat),
                ));
            let i = f(n);
            assert(0 <= i < items.len());
        }
        assert forall|n1: int, n2: int|
            s.contains(n1) && s.contains(n2) && #[trigger] f(n1) == #[trigger] f(n2) implies n1
            == n2 by {
            assert(exists|i: int|
                0 <= i < items.len() && item_path(#[trigger] items[i].item) == Some(
                    numbered_path(p, n1 as nat),
                ));
            assert(exists|i: int|
                0 <= i < items.len() && item_path(#[trigger] items[i].item) == Some(
                    numbered_path(p, n2 as nat),
                ));
            let i1 = f(n1);
            let i2 = f(n2);
            assert(item_path(items[i1].item) == Some(numbered_path(p, n1 as nat)));
            assert(item_path(items[i2].item) == Some(numbered_path(p, n2 as nat)));
            assert(numbered_path(p, n1 as nat) == numbered_path(p, n2 as nat));
            lemma_numbered_path_injective(p, n1 as nat, n2 as nat);
        }
        lemma_injective_into_card(s, t, f);
        assert(s.len() == len + 1);
        assert(t.len() == len);
        assert(false);
    }
}

/// What `make_unique_path` returns for candidate `p` against contents
/// `items`: `p` itself when its path is free, and otherwise the variant
/// with the smallest number, counting from 1, whose path is free.
pub open spec fn unique_path_outcome(
    items: Seq<RustDatabaseItem>,
    p: Seq<Seq<char>>,
    r: Seq<Seq<char>>,
) -> bool {
    if !db_occupied(items, p) {
        r == p
    } else {
        exists|n: int|
            {
                &&& 1 <= n
                &&& r == #[trigger] numbered_path(p, n as nat)
                &&& !db_occupied(items, r)
                &&& forall|m: int|
                    1 <= m < n ==> db_occupied(items, #[trigger] numbered_path(p, m as nat))
            }
    }
}

/// The outcome of `make_unique_path` is a function of the contents and
/// the candidate alone: any two paths satisfying it are equal. The
/// function does not change the database, so repeated calls without an
/// intervening insertion return the same path.
pub proof fn lemma_unique_path_outcome_deterministic(
    items: Seq<RustDatabaseItem>,
    p: Seq<Seq<char>>,
    r1: Seq<Seq<char>>,
    r2: Seq<Seq<char>>,
)
    requires
        unique_path_outcome(items, p, r1),
        unique_path_outcome(items, p, r2),
    ensures
        r1 == r2,
{
    if db_occupied(items, p) {
        let n1 = choose|n: int|
            {
                &&& 1 <= n
                &&& r1 == #[trigger] numbered_path(p, n as nat)
                &&& !db_occupied(items, r1)
                &&& forall|m: int|
                    1 <= m < n ==> db_occupied(items, #[trigger] numbered_path(p, m as nat))
            };
        let n2 = choose|n: int|
            {
                &&& 1 <= n
                &&& r2 == #[trigger] numbered_path(p, n as nat)
                &&& !db_occupied(items, r2)
                &&& forall|m: int|
                    1 <= m < n ==> db_occupied(items, #[trigger] numbered_path(p, m as nat))
            };
        if n1 < n2 {
            assert(db_occupied(items, numbered_path(p, n1 as nat)));
        } else if n2 < n1 {
            assert(db_occupied(items, numbered_path(p, n2 as nat)));
        }
    }
}


/// One stored item satisfies the reachability discipline against crate
/// name `cn` and contents `items`: a crate-root marker carries `cn` as its
/// crate-name segment, and every other item has a parent path with crate
/// name `cn` whose every prefix denotes a stored item.
pub open spec fn item_linked(
    cn: Seq<char>,
    items: Seq<RustDatabaseItem>,
    it: RustDatabaseItem,
) -> bool {
    if item_is_crate_root(it.item) {
        match item_path(it.item) {
            Option::Some(p) => p.len() >= 1 && p[0] == cn,
            Option::None => false,
        }
    } else {
        match item_parent_path(it.item) {
            Option::Some(pp) => pp.len() >= 1 && pp[0] == cn && ancestors_present(items, pp),
            Option::None => false,
        }
    }
}

/// The database invariant `add_item` maintains: every stored item is
/// linked, so a rendering pass can materialize every item's full module
/// nesting by looking its ancestors up.
pub open spec fn db_reachable(cn: Seq<char>, items: Seq<RustDatabaseItem>) -> bool {
    forall|i: int| 0 <= i < items.len() ==> item_linked(cn, items, #[trigger] items[i])
}

/// A path occupied in a store stays occupied when an item is appended.
pub proof fn lemma_occupied_monotone(
    items: Seq<RustDatabaseItem>,
    it: RustDatabaseItem,
    p: Seq<Seq<char>>,
)
    requires
        db_occupied(items, p),
    ensures
        db_occupied(items.push(it), p),
{
    let i = choose|i: int| 0 <= i < items.len() && item_path(#[trigger] items[i].item) == Some(p);
    assert(items.push(it)[i] == items[i]);
    assert(item_path(items.push(it)[i].item) == Some(p));
}

/// An accepted insertion preserves the reachability invariant.
pub proof fn lemma_add_preserves_reachability(
    cn: Seq<char>,
    items: Seq<RustDatabaseItem>,
    it: RustDatabaseItem,
)
    requires
        db_reachable(cn, items),
        add_accepted(cn, items, it),
    ensures
        db_reachable(cn, items.push(it)),
{
    let items2 = items.push(it);
    assert forall|i: int| 0 <= i < items2.len() implies item_linked(
        cn,
        items2,
        #[trigger] items2[i],
    ) by {
        if i < items.len() {
            assert(items2[i] == items[i]);
            assert(item_linked(cn, items, items[i]));
            if !item_is_crate_root(items[i].item) {
                let pp = item_parent_path(items[i].item)->Some_0;
                assert forall|k: int| 1 <= k <= pp.len() implies db_occupied(
                    items2,
                    #[trigger] pp.take(k),
                ) by {
                    lemma_occupied_monotone(items, it, pp.take(k));
                }
            }
        } else {
            assert(items2[i] == it);
            if !item_is_crate_root(it.item) {
                let pp = item_parent_path(it.item)->Some_0;
                assert forall|k: int| 1 <= k <= pp.len() implies db_occupied(
                    items2,
                    #[trigger] pp.take(k),
                ) by {
                    lemma_occupied_monotone(items, it, pp.take(k));
                }
            }
        }
    }
}

/// Replaying `batch` on top of `items` accepts every item in turn.
pub open spec fn replay_accepts(
    cn: Seq<char>,
    items: Seq<RustDatabaseItem>,
    batch: Seq<RustDatabaseItem>,
) -> bool
    decreases batch.len(),
{
    batch.len() == 0 || (add_accepted(cn, items, batch[0]) && replay_accepts(
        cn,
        items.push(batch[0]),
        batch.drop_first(),
    ))
}

/// `batch` is in dependency order over `items`: each item is acceptable
/// against the store extended with the batch items before it, so a root
/// comes before its descendants.
pub open spec fn dependency_ordered(
    cn: Seq<char>,
    items: Seq<RustDatabaseItem>,
    batch: Seq<RustDatabaseItem>,
) -> bool {
    forall|i: int|
        0 <= i < batch.len() ==> add_accepted(cn, items + batch.take(i), #[trigger] batch[i])
}

/// Replaying a batch of items in dependency order never fails: every
/// insertion in turn is accepted.
pub proof fn lemma_dependency_ordered_replay(
    cn: Seq<char>,
    items: Seq<RustDatabaseItem>,
    batch: Seq<RustDatabaseItem>,
)
    requires
        dependency_ordered(cn, items, batch),
    ensures
        replay_accepts(cn, items, batch),
    decreases batch.len(),
{
    if batch.len() > 0 {
        assert(items + batch.take(0) =~= items);
        assert(add_accepted(cn, items, batch[0]));
        let items2 = items.push(batch[0]);
        let rest = batch.drop_first();
        assert forall|i: int| 0 <= i < rest.len() implies add_accepted(
            cn,
            items2 + rest.take(i),
            #[trigger] rest[i],
        ) by {
            assert(batch[i + 1] == rest[i]);
            assert(add_accepted(cn, items + batch.take(i + 1), batch[i + 1]));
            assert(items2 + rest.take(i) =~= items + batch.take(i + 1));
        }
        lemma_dependency_ordered_replay(cn, items2, rest);
    }
}

/// A target module and an optional name prefix for the items generated
/// into it.
#[derive(Debug, PartialEq, Eq)]
pub struct RustPathScope {
    pub path: RustPath,
    pub prefix: Option<String>,
}

impl RustPathScope {
    /// The full path of an item named `name` in this scope: the scope's
    /// path extended by the name, with the prefix prepended when there is
    /// one.
    pub fn apply(&self, name: &str) -> (r: RustPath)
        ensures
            r@ == self.path@.push(
                match self.prefix {
                    Option::Some(prefix) => prefix@ + name@,
                    Option::None => name@,
                },
            ),
    {
        let full_name = match &self.prefix {
            Option::Some(prefix) => {
                let mut s = prefix.clone();
                s.append(name);
                s
            },
            Option::None => {
                let s = String::from_str(name);
                proof {
                    assert(s@ =~= name@);
                }
                s
            },
        };
        self.path.join(full_name)
    }
}

/// What kind of entity a name is being synthesized for.
#[derive(Debug, Clone, Copy, PartialEq, Eq)]
pub enum NameType<'a> {
    Type,
    EnumValue,
    Module,
    FfiFunction,
    ApiFunction(&'a CppFfiFunction),
    ReceiverFunction { receiver_type: RustQtReceiverType },
    SizedItem,
    QtSlotWrapper { signal_arguments: &'a [CppType], is_public: bool },
}

impl NameType<'_> {
    /// The name is for a public API function.
    pub fn is_api_function(&self) -> (r: bool)
        ensures
            r == (self is ApiFunction),
    {
        match self {
            NameType::ApiFunction(_) => true,
            _ => false,
        }
    }
}

} // verus!

