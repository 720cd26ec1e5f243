use ritual_core::rust_info::RustDatabase;
use ritual_core::rust_info::RustDatabaseError;
use ritual_core::rust_info::RustDatabaseItem;
use ritual_core::rust_info::RustItem;
use ritual_core::rust_info::RustModule;
use ritual_core::rust_info::RustModuleDoc;
use ritual_core::rust_info::RustModuleKind;
use ritual_core::rust_info::RustSpecialModuleKind;
use ritual_core::rust_info::RustTraitImpl;
use ritual_core::rust_info::RustTraitImplSource;
use ritual_core::rust_info::RustTraitImplSourceKind;
use ritual_core::rust_type::RustPath;
use ritual_core::rust_type::RustType;

fn path(parts: &[&str]) -> RustPath {
    RustPath::from_parts(parts.iter().map(|p| p.to_string()).collect())
}

fn module_item(parts: &[&str], kind: RustModuleKind) -> RustDatabaseItem {
    RustDatabaseItem {
        item: RustItem::Module(RustModule {
            is_public: true,
            path: path(parts),
            doc: RustModuleDoc { extra_doc: None, cpp_path: None },
            kind,
        }),
        cpp_item_index: None,
        ffi_item_index: None,
    }
}

fn root_item(name: &str) -> RustDatabaseItem {
    module_item(&[name], RustModuleKind::Special(RustSpecialModuleKind::CrateRoot))
}

fn namespace_item(parts: &[&str]) -> RustDatabaseItem {
    module_item(parts, RustModuleKind::CppNamespace { cpp_item_index: 0 })
}

fn trait_impl_item(parent: &[&str]) -> RustDatabaseItem {
    RustDatabaseItem {
        item: RustItem::TraitImpl(RustTraitImpl {
            parent_path: path(parent),
            target_type: RustType::Common { path: path(&["pkg", "T"]) },
            trait_type: RustType::Common { path: path(&["std", "ops", "Add"]) },
            associated_types: vec![],
            functions: vec![],
            source: RustTraitImplSource {
                ffi_item_index: 4,
                kind: RustTraitImplSourceKind::Normal,
            },
        }),
        cpp_item_index: None,
        ffi_item_index: None,
    }
}

#[test]
fn add_item_rejects_absent_parent_then_accepts() {
    let mut db = RustDatabase::new("pkg".to_string());
    assert!(db.add_item(root_item("pkg")).is_ok());
    // The grandchild cannot go in before its parent exists.
    assert_eq!(
        db.add_item(namespace_item(&["pkg", "sub", "child"])),
        Err(RustDatabaseError::UnreachablePath(path(&["pkg", "sub"])))
    );
    assert!(db.add_item(namespace_item(&["pkg", "sub"])).is_ok());
    assert!(db.add_item(namespace_item(&["pkg", "sub", "child"])).is_ok());
    assert_eq!(db.items().len(), 3);
}

#[test]
fn add_item_requires_the_crate_root_first() {
    let mut db = RustDatabase::new("pkg".to_string());
    assert_eq!(
        db.add_item(namespace_item(&["pkg", "sub"])),
        Err(RustDatabaseError::UnreachablePath(path(&["pkg"])))
    );
    assert!(db.items().is_empty());
}

#[test]
fn add_item_rejects_wrong_crate_name() {
    let mut db = RustDatabase::new("pkg".to_string());
    assert_eq!(
        db.add_item(root_item("other")),
        Err(RustDatabaseError::CrateNameMismatch)
    );
    assert!(db.add_item(root_item("pkg")).is_ok());
    assert_eq!(
        db.add_item(namespace_item(&["other", "sub"])),
        Err(RustDatabaseError::CrateNameMismatch)
    );
}

#[test]
fn trait_impls_are_located_by_parent_path() {
    let mut db = RustDatabase::new("pkg".to_string());
    assert!(db.add_item(root_item("pkg")).is_ok());
    assert!(db.add_item(trait_impl_item(&["pkg"])).is_ok());
    let impl_item = &db.items()[1];
    assert!(impl_item.path().is_none());
    assert!(impl_item.is_child_of(&path(&["pkg"])));
    let children = db.children(&path(&["pkg"]));
    assert_eq!(children.len(), 1);
}

#[test]
fn find_children_and_clear() {
    let mut db = RustDatabase::new("pkg".to_string());
    assert!(db.add_item(root_item("pkg")).is_ok());
    assert!(db.add_item(namespace_item(&["pkg", "a"])).is_ok());
    assert!(db.add_item(namespace_item(&["pkg", "b"])).is_ok());
    assert!(db.add_item(namespace_item(&["pkg", "a", "inner"])).is_ok());

    assert!(db.find(&path(&["pkg", "a"])).is_some());
    assert!(db.find(&path(&["pkg", "missing"])).is_none());

    let children = db.children(&path(&["pkg"]));
    assert_eq!(children.len(), 2);
    assert!(children[0].is_child_of(&path(&["pkg"])));

    db.clear();
    assert!(db.items().is_empty());
    assert!(db.find(&path(&["pkg"])).is_none());
}

#[test]
fn make_unique_path_counts_from_one() {
    let mut db = RustDatabase::new("pkg".to_string());
    assert!(db.add_item(root_item("pkg")).is_ok());
    let foo = path(&["pkg", "foo"]);
    // A free candidate comes back unchanged.
    assert_eq!(db.make_unique_path(&foo), foo);
    assert!(db.add_item(namespace_item(&["pkg", "foo"])).is_ok());
    assert_eq!(db.make_unique_path(&foo), path(&["pkg", "foo1"]));
    assert!(db.add_item(namespace_item(&["pkg", "foo1"])).is_ok());
    assert_eq!(db.make_unique_path(&foo), path(&["pkg", "foo2"]));
}

#[test]
fn make_unique_path_separates_digit_runs() {
    let mut db = RustDatabase::new("pkg".to_string());
    assert!(db.add_item(root_item("pkg")).is_ok());
    assert!(db.add_item(namespace_item(&["pkg", "foo1"])).is_ok());
    // The taken segment already ends in a digit, so the suffix is set off
    // by an underscore.
    assert_eq!(db.make_unique_path(&path(&["pkg", "foo1"])), path(&["pkg", "foo1_1"]));
}

#[test]
fn make_unique_path_is_idempotent_without_insertions() {
    let mut db = RustDatabase::new("pkg".to_string());
    assert!(db.add_item(root_item("pkg")).is_ok());
    assert!(db.add_item(namespace_item(&["pkg", "foo"])).is_ok());
    let first = db.make_unique_path(&path(&["pkg", "foo"]));
    let second = db.make_unique_path(&path(&["pkg", "foo"]));
    assert_eq!(first, second);
    assert_eq!(db.items().len(), 2);
}

#[test]
fn replay_in_dependency_order_never_fails() {
    let batch = || {
        vec![
            root_item("pkg"),
            namespace_item(&["pkg", "a"]),
            namespace_item(&["pkg", "a", "b"]),
            namespace_item(&["pkg", "a", "b", "c"]),
            trait_impl_item(&["pkg", "a"]),
        ]
    };
    let mut db = RustDatabase::new("pkg".to_string());
    for entry in batch() {
        assert!(db.add_item(entry).is_ok());
    }
    assert_eq!(db.items().len(), 5);
    // Rebuilding from scratch replays the same batch without a failure.
    db.clear();
    for entry in batch() {
        assert!(db.add_item(entry).is_ok());
    }
    assert_eq!(db.items().len(), 5);
}
