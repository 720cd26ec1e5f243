use ritual_core::cpp_data::CppItemData;
use ritual_core::cpp_data::CppTypeData;
use ritual_core::cpp_data::CppTypeDataKind;
use ritual_core::cpp_function::CppFunction;
use ritual_core::cpp_function::CppFunctionArgument;
use ritual_core::cpp_type::CppClassType;
use ritual_core::cpp_type::CppName;
use ritual_core::cpp_type::CppType;
use ritual_core::database::DatabaseItem;
use ritual_core::database::DatabaseItemSource;
use ritual_core::rust_info::RustDatabase;
use ritual_core::rust_info::RustDatabaseError;
use ritual_core::rust_info::RustDatabaseItem;
use ritual_core::rust_info::RustItem;
use ritual_core::rust_info::RustModule;
use ritual_core::rust_info::RustModuleDoc;
use ritual_core::rust_info::RustModuleKind;
use ritual_core::rust_info::RustSpecialModuleKind;
use ritual_core::rust_name_resolver::is_cpp_item_resolvable;
use ritual_core::rust_type::RustPath;

fn foo_with_class_arg() -> DatabaseItem {
    DatabaseItem {
        cpp_data: CppItemData::Function(CppFunction {
            name: CppName::from_one_part("foo"),
            return_type: CppType::Void,
            arguments: vec![CppFunctionArgument {
                name: "a".to_string(),
                argument_type: CppType::Class(CppClassType {
                    name: CppName::from_one_part("C1"),
                    template_arguments: None,
                }),
                has_default_value: false,
            }],
            allows_variadic_arguments: false,
            template_arguments: None,
            doc: None,
        }),
        source: DatabaseItemSource::CppParser,
        rust_item: None,
    }
}

fn class_c1() -> DatabaseItem {
    DatabaseItem {
        cpp_data: CppItemData::Type(CppTypeData {
            name: CppName::from_one_part("C1"),
            kind: CppTypeDataKind::Class {
                type_base: CppClassType {
                    name: CppName::from_one_part("C1"),
                    template_arguments: None,
                },
            },
            doc: None,
            is_movable: false,
        }),
        source: DatabaseItemSource::CppParser,
        rust_item: None,
    }
}

fn path(parts: &[&str]) -> RustPath {
    RustPath::from_parts(parts.iter().map(|p| p.to_string()).collect())
}

fn module_item(parts: &[&str], kind: RustModuleKind) -> RustDatabaseItem {
    RustDatabaseItem {
        item: RustItem::Module(RustModule {
            is_public: true,
            path: path(parts),
            doc: RustModuleDoc { extra_doc: None, cpp_path: None },
            kind,
        }),
        cpp_item_index: None,
        ffi_item_index: None,
    }
}

#[test]
fn registry_check_then_database_growth() {
    // A function taking a class argument is unresolvable while the class
    // is unknown, and names it.
    let registry = vec![foo_with_class_arg()];
    let pending = foo_with_class_arg();
    assert_eq!(
        is_cpp_item_resolvable(&registry, &pending.cpp_data),
        Err("class not found: C1".to_string())
    );

    // Once a class-kind type entry named C1 is in the registry, the same
    // check succeeds.
    let registry = vec![foo_with_class_arg(), class_c1()];
    assert!(is_cpp_item_resolvable(&registry, &pending.cpp_data).is_ok());

    // The binding database accepts items only once their whole ancestor
    // chain exists.
    let mut db = RustDatabase::new("pkg".to_string());
    assert!(db
        .add_item(module_item(
            &["pkg"],
            RustModuleKind::Special(RustSpecialModuleKind::CrateRoot),
        ))
        .is_ok());
    assert!(db
        .add_item(module_item(&["pkg", "sub"], RustModuleKind::CppNamespace {
            cpp_item_index: 0,
        }))
        .is_ok());
    let too_early = db.add_item(module_item(
        &["pkg", "other", "child"],
        RustModuleKind::CppNamespace { cpp_item_index: 1 },
    ));
    assert_eq!(
        too_early,
        Err(RustDatabaseError::UnreachablePath(path(&["pkg", "other"])))
    );
    assert!(db
        .add_item(module_item(&["pkg", "other"], RustModuleKind::CppNamespace {
            cpp_item_index: 2,
        }))
        .is_ok());
    assert!(db
        .add_item(module_item(
            &["pkg", "other", "child"],
            RustModuleKind::CppNamespace { cpp_item_index: 1 },
        ))
        .is_ok());
    assert_eq!(db.items().len(), 4);
}
