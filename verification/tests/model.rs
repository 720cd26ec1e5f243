use ritual_core::cpp_data::CppPath;
use ritual_core::cpp_ffi_data::CppFfiFunction;
use ritual_core::rust_code_generator::rust_type_to_code;
use ritual_core::rust_info::NameType;
use ritual_core::rust_info::RustEnumValue;
use ritual_core::rust_info::RustEnumValueDoc;
use ritual_core::rust_info::RustExtraImpl;
use ritual_core::rust_info::RustExtraImplKind;
use ritual_core::rust_info::RustFFIFunction;
use ritual_core::rust_info::RustFfiWrapperData;
use ritual_core::rust_info::RustFlagEnumImpl;
use ritual_core::rust_info::RustFunction;
use ritual_core::rust_info::RustFunctionArgument;
use ritual_core::rust_info::RustFunctionCaptionStrategy;
use ritual_core::rust_info::RustFunctionKind;
use ritual_core::rust_info::RustFunctionSelfArgKind;
use ritual_core::rust_info::RustItem;
use ritual_core::rust_info::RustModule;
use ritual_core::rust_info::RustModuleDoc;
use ritual_core::rust_info::RustModuleKind;
use ritual_core::rust_info::RustPathScope;
use ritual_core::rust_info::RustQtReceiverType;
use ritual_core::rust_info::RustReexport;
use ritual_core::rust_info::RustReexportSource;
use ritual_core::rust_info::RustSignalOrSlotGetter;
use ritual_core::rust_info::RustSizedType;
use ritual_core::rust_info::RustSpecialModuleKind;
use ritual_core::rust_info::RustStruct;
use ritual_core::rust_info::RustStructKind;
use ritual_core::rust_info::RustTraitImpl;
use ritual_core::rust_info::RustTraitImplSource;
use ritual_core::rust_info::RustTraitImplSourceKind;
use ritual_core::rust_info::RustTypeCaptionStrategy;
use ritual_core::rust_info::RustWrapperType;
use ritual_core::rust_info::RustWrapperTypeDocData;
use ritual_core::rust_info::RustWrapperTypeKind;
use ritual_core::rust_info::UnnamedRustFunction;
use ritual_core::rust_type::RustFinalType;
use ritual_core::rust_type::RustPath;
use ritual_core::rust_type::RustPointerLikeTypeKind;
use ritual_core::rust_type::RustType;
use ritual_core::string_utils::ends_with_digit;
use ritual_core::string_utils::join_segments;
use ritual_core::string_utils::u64_to_dec_string;

fn path(parts: &[&str]) -> RustPath {
    RustPath::from_parts(parts.iter().map(|p| p.to_string()).collect())
}

fn cpp_path(parts: &[&str]) -> CppPath {
    CppPath { parts: parts.iter().map(|p| p.to_string()).collect() }
}

fn wrapper_struct(parts: &[&str], index: usize) -> RustItem {
    RustItem::Struct(RustStruct {
        extra_doc: None,
        path: path(parts),
        kind: RustStructKind::WrapperType(RustWrapperType {
            doc_data: RustWrapperTypeDocData {
                cpp_path: cpp_path(&["QObject"]),
                cpp_doc: None,
                raw_qt_slot_wrapper: None,
            },
            kind: RustWrapperTypeKind::ImmovableClassWrapper,
            cpp_item_index: index,
        }),
        is_public: true,
    })
}

fn trait_impl(index: usize, kind: RustTraitImplSourceKind) -> RustItem {
    RustItem::TraitImpl(RustTraitImpl {
        parent_path: path(&["pkg"]),
        target_type: RustType::Common { path: path(&["pkg", "T"]) },
        trait_type: RustType::Common { path: path(&["ops", "Deref"]) },
        associated_types: vec![],
        functions: vec![],
        source: RustTraitImplSource { ffi_item_index: index, kind },
    })
}

fn ffi_wrapper_function(parts: &[&str], index: usize) -> RustItem {
    RustItem::Function(RustFunction {
        is_public: true,
        is_unsafe: false,
        path: path(parts),
        kind: RustFunctionKind::FfiWrapper(RustFfiWrapperData {
            cpp_ffi_function: CppFfiFunction { path: cpp_path(&["QObject", "metaObject"]) },
            ffi_function_path: path(&["pkg", "ffi", "f1"]),
            return_type_ffi_index: None,
            ffi_item_index: index,
        }),
        arguments: vec![],
        return_type: RustFinalType { api_type: RustType::Unit },
        extra_doc: None,
    })
}

#[test]
fn same_source_is_reflexive_and_index_sensitive() {
    let a = wrapper_struct(&["pkg", "A"], 3);
    let also_3 = wrapper_struct(&["pkg", "Renamed"], 3);
    let other = wrapper_struct(&["pkg", "A"], 4);
    assert!(a.has_same_source(&a));
    assert!(a.has_same_source(&also_3));
    assert!(!a.has_same_source(&other));
    assert!(!a.has_same_source(&trait_impl(3, RustTraitImplSourceKind::Normal)));
}

#[test]
fn trait_impl_matches_ffi_wrapper_with_normal_kind() {
    let imp = trait_impl(7, RustTraitImplSourceKind::Normal);
    let func = ffi_wrapper_function(&["pkg", "f"], 7);
    assert!(imp.has_same_source(&func));
    assert!(func.has_same_source(&imp));
    let deref_impl = trait_impl(7, RustTraitImplSourceKind::Deref);
    assert!(!deref_impl.has_same_source(&func));
    assert!(!func.has_same_source(&deref_impl));
    let other_index = ffi_wrapper_function(&["pkg", "f"], 8);
    assert!(!imp.has_same_source(&other_index));
}

#[test]
fn struct_kind_predicates() {
    let wrapper = wrapper_struct(&["pkg", "A"], 1);
    assert!(wrapper.is_wrapper_type());
    assert!(!wrapper.is_module());
    if let RustItem::Struct(data) = &wrapper {
        assert!(data.kind.is_wrapper_type());
        assert!(!data.kind.is_sized_type());
    } else {
        panic!("expected a struct item");
    }
    let sized = RustStructKind::SizedType(RustSizedType {
        cpp_path: cpp_path(&["QRect"]),
        cpp_item_index: 2,
    });
    assert!(sized.is_sized_type());
    assert!(!sized.is_wrapper_type());
}

fn module(parts: &[&str], kind: RustModuleKind) -> RustItem {
    RustItem::Module(RustModule {
        is_public: true,
        path: path(parts),
        doc: RustModuleDoc { extra_doc: None, cpp_path: None },
        kind,
    })
}

#[test]
fn module_classification() {
    let root = module(&["pkg"], RustModuleKind::Special(RustSpecialModuleKind::CrateRoot));
    assert!(root.is_module());
    assert!(root.is_crate_root());
    assert!(!root.is_module_for_nested());
    assert!(root.as_module_ref().is_some());
    assert!(root.as_reexport_ref().is_none());

    let nested = module(&["pkg", "q_object"], RustModuleKind::CppNestedTypes {
        cpp_item_index: 5,
    });
    assert!(nested.is_module_for_nested());
    assert!(!nested.is_crate_root());

    assert!(RustModuleKind::Special(RustSpecialModuleKind::CrateRoot).is_in_separate_file());
    assert!(!RustModuleKind::Special(RustSpecialModuleKind::Ffi).is_in_separate_file());
    assert!(RustModuleKind::Special(RustSpecialModuleKind::Ops).is_in_separate_file());
    assert!(!RustModuleKind::Special(RustSpecialModuleKind::SizedTypes).is_in_separate_file());
    assert!(RustModuleKind::CppNamespace { cpp_item_index: 1 }.is_in_separate_file());
    assert!(!RustModuleKind::CppNestedTypes { cpp_item_index: 1 }.is_in_separate_file());
    assert!(RustModuleKind::CppNestedTypes { cpp_item_index: 1 }.is_cpp_nested_types());
    assert!(!RustModuleKind::CppNamespace { cpp_item_index: 1 }.is_cpp_nested_types());
}

#[test]
fn short_texts_render_paths() {
    assert_eq!(
        module(&["pkg", "core"], RustModuleKind::CppNamespace { cpp_item_index: 0 })
            .short_text(),
        "mod pkg::core"
    );
    assert_eq!(wrapper_struct(&["pkg", "QObject"], 0).short_text(), "struct pkg::QObject");
    assert_eq!(ffi_wrapper_function(&["pkg", "meta"], 0).short_text(), "fn pkg::meta");
    assert_eq!(
        trait_impl(0, RustTraitImplSourceKind::Normal).short_text(),
        "impl ops::Deref for pkg::T"
    );

    let enum_value = RustItem::EnumValue(RustEnumValue {
        path: path(&["pkg", "Color", "Red"]),
        value: 4,
        doc: RustEnumValueDoc {
            extra_doc: None,
            cpp_path: cpp_path(&["Color", "Red"]),
            cpp_doc: None,
        },
        cpp_item_index: 9,
    });
    assert_eq!(enum_value.short_text(), "enum value pkg::Color::Red");

    let ffi = RustItem::FfiFunction(RustFFIFunction {
        return_type: RustType::Unit,
        path: path(&["pkg", "ffi", "f1"]),
        arguments: vec![],
        ffi_item_index: 0,
    });
    assert_eq!(ffi.short_text(), "ffi fn pkg::ffi::f1");

    let reexport = RustItem::Reexport(RustReexport {
        path: path(&["pkg", "QFlags"]),
        target: path(&["qt_core", "QFlags"]),
        source: RustReexportSource::DependencyCrate { crate_name: "qt_core".to_string() },
    });
    assert_eq!(reexport.short_text(), "use pkg::QFlags as QFlags");

    let extra = RustItem::ExtraImpl(RustExtraImpl {
        parent_path: path(&["pkg"]),
        kind: RustExtraImplKind::FlagEnum(RustFlagEnumImpl {
            enum_path: path(&["pkg", "Flags"]),
            cpp_item_index: 2,
        }),
    });
    assert_eq!(extra.short_text(), "extra impl FlagEnum(pkg::Flags)");
}

#[test]
fn reexport_identity_follows_source() {
    let a = RustItem::Reexport(RustReexport {
        path: path(&["pkg", "A"]),
        target: path(&["dep", "A"]),
        source: RustReexportSource::DependencyCrate { crate_name: "dep".to_string() },
    });
    let b = RustItem::Reexport(RustReexport {
        path: path(&["pkg", "B"]),
        target: path(&["dep", "B"]),
        source: RustReexportSource::DependencyCrate { crate_name: "dep".to_string() },
    });
    let c = RustItem::Reexport(RustReexport {
        path: path(&["pkg", "A"]),
        target: path(&["dep", "A"]),
        source: RustReexportSource::DependencyCrate { crate_name: "other".to_string() },
    });
    assert!(a.has_same_source(&b));
    assert!(!a.has_same_source(&c));
}

#[test]
fn function_kind_short_text_names_the_wrapped_function() {
    let wrapper = RustFunctionKind::FfiWrapper(RustFfiWrapperData {
        cpp_ffi_function: CppFfiFunction { path: cpp_path(&["QObject", "metaObject"]) },
        ffi_function_path: path(&["pkg", "ffi", "f1"]),
        return_type_ffi_index: None,
        ffi_item_index: 0,
    });
    assert_eq!(wrapper.short_text(), "QObject::metaObject");

    let getter = RustFunctionKind::SignalOrSlotGetter(RustSignalOrSlotGetter {
        cpp_path: cpp_path(&["QObject", "destroyed"]),
        receiver_type: RustQtReceiverType::Signal,
        receiver_id: "2destroyed()".to_string(),
        cpp_doc: None,
        cpp_item_index: 1,
    });
    assert_eq!(getter.short_text(), "SignalOrSlotGetter(QObject::destroyed");
}

fn unnamed(api_type: Option<RustType>, arg_name: &str) -> UnnamedRustFunction {
    UnnamedRustFunction {
        is_public: true,
        is_unsafe: false,
        kind: RustFunctionKind::SignalOrSlotGetter(RustSignalOrSlotGetter {
            cpp_path: cpp_path(&["QObject", "destroyed"]),
            receiver_type: RustQtReceiverType::Signal,
            receiver_id: "2destroyed()".to_string(),
            cpp_doc: None,
            cpp_item_index: 1,
        }),
        arguments: match api_type {
            Some(t) => vec![RustFunctionArgument {
                argument_type: RustFinalType { api_type: t },
                name: arg_name.to_string(),
                ffi_index: 0,
            }],
            None => vec![],
        },
        return_type: RustFinalType { api_type: RustType::Unit },
        extra_doc: None,
    }
}

#[test]
fn self_arg_kind_classifies_receivers() {
    let const_ref = RustType::PointerLike {
        kind: RustPointerLikeTypeKind::Reference,
        is_const: true,
        target: Box::new(RustType::Common { path: path(&["pkg", "T"]) }),
    };
    assert_eq!(
        unnamed(Some(const_ref), "self").self_arg_kind(),
        Ok(RustFunctionSelfArgKind::ConstRef)
    );

    let mut_ref = RustType::PointerLike {
        kind: RustPointerLikeTypeKind::Reference,
        is_const: false,
        target: Box::new(RustType::Common { path: path(&["pkg", "T"]) }),
    };
    assert_eq!(
        unnamed(Some(mut_ref), "self").self_arg_kind(),
        Ok(RustFunctionSelfArgKind::MutRef)
    );

    let by_value = RustType::Common { path: path(&["pkg", "T"]) };
    assert_eq!(
        unnamed(Some(by_value), "self").self_arg_kind(),
        Ok(RustFunctionSelfArgKind::Value)
    );

    let pointer = RustType::PointerLike {
        kind: RustPointerLikeTypeKind::Pointer,
        is_const: false,
        target: Box::new(RustType::Common { path: path(&["pkg", "T"]) }),
    };
    assert_eq!(
        unnamed(Some(pointer), "self").self_arg_kind(),
        Err("pointer self arg is not supported".to_string())
    );

    assert_eq!(
        unnamed(Some(RustType::Unit), "self").self_arg_kind(),
        Err("invalid self argument type".to_string())
    );

    assert_eq!(unnamed(None, "self").self_arg_kind(), Ok(RustFunctionSelfArgKind::NoSelf));
    let not_self = RustType::Common { path: path(&["pkg", "T"]) };
    assert_eq!(
        unnamed(Some(not_self), "value").self_arg_kind(),
        Ok(RustFunctionSelfArgKind::NoSelf)
    );
}

#[test]
fn with_path_keeps_every_field() {
    let f = unnamed(None, "");
    let named = f.with_path(path(&["pkg", "destroyed"]));
    assert_eq!(named.path, path(&["pkg", "destroyed"]));
    assert!(named.is_public);
    assert!(!named.is_unsafe);
    assert!(named.arguments.is_empty());
    assert_eq!(named.return_type, RustFinalType { api_type: RustType::Unit });
    assert_eq!(named.extra_doc, None);
}

#[test]
fn caption_strategies_are_ordered_by_priority() {
    let all = RustFunctionCaptionStrategy::all();
    assert_eq!(all.len(), 13);
    let base = RustFunctionCaptionStrategy::default();
    assert_eq!(base, RustFunctionCaptionStrategy {
        mut_: false,
        args_count: false,
        arg_names: false,
        arg_types: None,
        static_: false,
    });
    assert_eq!(all[0], RustFunctionCaptionStrategy { mut_: true, ..base.clone() });
    assert_eq!(all[1], RustFunctionCaptionStrategy { args_count: true, ..base.clone() });
    assert_eq!(
        all[2],
        RustFunctionCaptionStrategy { args_count: true, mut_: true, ..base.clone() }
    );
    assert_eq!(
        all[5],
        RustFunctionCaptionStrategy {
            arg_types: Some(RustTypeCaptionStrategy::LastName),
            ..base.clone()
        }
    );
    assert_eq!(
        all[12],
        RustFunctionCaptionStrategy {
            arg_types: Some(RustTypeCaptionStrategy::Full),
            static_: true,
            mut_: true,
            ..base.clone()
        }
    );
    // Each even slot after the first is the mut_ variant of the one before.
    for i in [1, 3, 5, 7, 9, 11] {
        let mut with_mut = all[i].clone();
        with_mut.mut_ = true;
        assert_eq!(all[i + 1], with_mut);
    }
}

#[test]
fn path_scope_applies_prefix() {
    let scope = RustPathScope {
        path: path(&["pkg", "ops"]),
        prefix: Some("q_".to_string()),
    };
    assert_eq!(scope.apply("add"), path(&["pkg", "ops", "q_add"]));
    let bare = RustPathScope { path: path(&["pkg"]), prefix: None };
    assert_eq!(bare.apply("add"), path(&["pkg", "add"]));
}

#[test]
fn name_type_classifies_api_functions() {
    let ffi = CppFfiFunction { path: cpp_path(&["QObject", "metaObject"]) };
    assert!(NameType::ApiFunction(&ffi).is_api_function());
    assert!(!NameType::Type.is_api_function());
    assert!(!NameType::Module.is_api_function());
    assert!(
        !NameType::ReceiverFunction { receiver_type: RustQtReceiverType::Slot }
            .is_api_function()
    );
}

#[test]
fn rust_types_render_as_code() {
    assert_eq!(rust_type_to_code(&RustType::Unit), "()");
    let t = RustType::Common { path: path(&["pkg", "T"]) };
    assert_eq!(rust_type_to_code(&t), "pkg::T");
    let const_ptr = RustType::PointerLike {
        kind: RustPointerLikeTypeKind::Pointer,
        is_const: true,
        target: Box::new(RustType::Common { path: path(&["pkg", "T"]) }),
    };
    assert_eq!(rust_type_to_code(&const_ptr), "*const pkg::T");
    let mut_ref = RustType::PointerLike {
        kind: RustPointerLikeTypeKind::Reference,
        is_const: false,
        target: Box::new(RustType::Common { path: path(&["pkg", "T"]) }),
    };
    assert_eq!(rust_type_to_code(&mut_ref), "&mut pkg::T");
    let fn_ptr = RustType::FunctionPointer {
        return_type: Box::new(RustType::Unit),
        arguments: vec![
            RustType::Common { path: path(&["pkg", "A"]) },
            RustType::Common { path: path(&["pkg", "B"]) },
        ],
    };
    assert_eq!(rust_type_to_code(&fn_ptr), "fn(pkg::A, pkg::B) -> ()");
}

#[test]
fn paths_expose_their_segments() {
    let p = path(&["pkg", "core", "QObject"]);
    assert_eq!(p.crate_name(), "pkg");
    assert_eq!(p.last(), "QObject");
    assert_eq!(p.full_name(), "pkg::core::QObject");
    assert_eq!(p.parent(), Some(path(&["pkg", "core"])));
    assert_eq!(path(&["pkg"]).parent(), None);
    assert_eq!(p.join("x".to_string()), path(&["pkg", "core", "QObject", "x"]));
    assert!(p.same_as(&path(&["pkg", "core", "QObject"])));
    assert!(!p.same_as(&path(&["pkg", "core"])));
}

#[test]
fn string_helpers_behave() {
    assert!(!ends_with_digit("foo"));
    assert!(ends_with_digit("foo1"));
    assert!(!ends_with_digit(""));
    assert_eq!(u64_to_dec_string(0), "0");
    assert_eq!(u64_to_dec_string(10), "10");
    assert_eq!(u64_to_dec_string(907), "907");
    assert_eq!(join_segments(&vec![], "::"), "");
    assert_eq!(join_segments(&vec!["a".to_string()], "::"), "a");
    assert_eq!(
        join_segments(&vec!["a".to_string(), "b".to_string(), "c".to_string()], "::"),
        "a::b::c"
    );
}
