use cpython_gen::ast::{Attribute, Field, Item, ItemKind, MemberKind, MetaItem, VariantData};
use cpython_gen::extractor::Extractor;
use cpython_gen::options::Options;
use cpython_gen::workspace::{Package, Target, TargetKind, Workspace};

fn derive_attr(words: &[&str]) -> Attribute {
    Attribute {
        name: "derive".to_string(),
        args: Some(words.iter().map(|w| MetaItem::Word(w.to_string())).collect()),
    }
}

fn field(name: &str, public: bool, ty: &str) -> Field {
    Field { name: Some(name.to_string()), public, ty: ty.to_string() }
}

fn marked_struct(id: u64, ident: &str, fields: Vec<Field>) -> Item {
    Item {
        id,
        ident: ident.to_string(),
        attrs: vec![derive_attr(&["PyClass"])],
        kind: ItemKind::Struct(VariantData::Struct(fields)),
    }
}

fn extractor(options: &Options) -> Extractor {
    Extractor::new(options).expect("configuration must be valid")
}

#[test]
fn marker_derive_qualifies() {
    let options = Options::new();
    let ex = extractor(&options);
    let items = vec![marked_struct(1, "Point", vec![])];
    let classes = ex.find_classes(&items);
    assert_eq!(classes.len(), 1);
    assert_eq!(classes[0].ident, "Point");
}

#[test]
fn other_derive_does_not_qualify() {
    let options = Options::new();
    let ex = extractor(&options);
    let items = vec![Item {
        id: 1,
        ident: "Point".to_string(),
        attrs: vec![derive_attr(&["Clone", "Debug"])],
        kind: ItemKind::Struct(VariantData::Struct(vec![])),
    }];
    assert_eq!(ex.find_classes(&items).len(), 0);
}

#[test]
fn bare_marker_attribute_does_not_qualify() {
    let options = Options::new();
    let ex = extractor(&options);
    let items = vec![Item {
        id: 1,
        ident: "Point".to_string(),
        attrs: vec![Attribute { name: "PyClass".to_string(), args: None }],
        kind: ItemKind::Struct(VariantData::Struct(vec![])),
    }];
    assert_eq!(ex.find_classes(&items).len(), 0);
}

#[test]
fn bare_derive_attribute_does_not_qualify() {
    let options = Options::new();
    let ex = extractor(&options);
    let items = vec![Item {
        id: 1,
        ident: "Point".to_string(),
        attrs: vec![Attribute { name: "derive".to_string(), args: None }],
        kind: ItemKind::Struct(VariantData::Struct(vec![])),
    }];
    assert_eq!(ex.find_classes(&items).len(), 0);
}

#[test]
fn non_struct_item_never_qualifies() {
    let options = Options::new();
    let ex = extractor(&options);
    let items = vec![Item {
        id: 1,
        ident: "Point".to_string(),
        attrs: vec![derive_attr(&["PyClass"])],
        kind: ItemKind::Other,
    }];
    assert_eq!(ex.find_classes(&items).len(), 0);
}

#[test]
fn whitelist_types_selects_matching_structs() {
    // A whitelist narrows the selection only against a blacklist: the
    // catch-all blacklist excludes everything the whitelist does not
    // reclaim.
    let mut options = Options::new();
    options.whitelist_types.push("^Py.*".to_string());
    options.blacklist_types.push(".*".to_string());
    let ex = extractor(&options);
    let items = vec![
        marked_struct(1, "Other", vec![]),
        marked_struct(2, "PyFoo", vec![]),
    ];
    let classes = ex.find_classes(&items);
    assert_eq!(classes.len(), 1);
    assert_eq!(classes[0].ident, "PyFoo");
}

#[test]
fn private_field_never_becomes_a_property() {
    // Even a whitelist that matches the private field's name cannot
    // override the visibility gate.
    let mut options = Options::new();
    options.whitelist_fields.push("^secret$".to_string());
    let ex = extractor(&options);
    let item = marked_struct(
        1,
        "Point",
        vec![field("secret", false, "i64"), field("shown", true, "i64")],
    );
    let props = ex.find_properties(&item).expect("a field struct has a property list");
    assert_eq!(props.len(), 1);
    assert_eq!(props[0].name, "shown");
}

#[test]
fn blacklist_fields_excludes_matching_names() {
    let mut options = Options::new();
    options.blacklist_fields.push("^_.*".to_string());
    let ex = extractor(&options);
    let item = marked_struct(
        1,
        "Holder",
        vec![field("value", true, "i32"), field("_internal", true, "i32")],
    );
    let props = ex.find_properties(&item).expect("a field struct has a property list");
    assert_eq!(props.len(), 1);
    assert_eq!(props[0].name, "value");
    assert_eq!(props[0].ty, "i32");
}

#[test]
fn unit_struct_has_no_property_list() {
    let options = Options::new();
    let ex = extractor(&options);
    let item = Item {
        id: 1,
        ident: "Unit".to_string(),
        attrs: vec![derive_attr(&["PyClass"])],
        kind: ItemKind::Struct(VariantData::Unit),
    };
    assert!(ex.find_properties(&item).is_none());
}

#[test]
fn tuple_fields_without_names_are_not_properties() {
    let options = Options::new();
    let ex = extractor(&options);
    let item = Item {
        id: 1,
        ident: "Pair".to_string(),
        attrs: vec![derive_attr(&["PyClass"])],
        kind: ItemKind::Struct(VariantData::Tuple(vec![
            Field { name: None, public: true, ty: "i64".to_string() },
            Field { name: None, public: true, ty: "i64".to_string() },
        ])),
    };
    let props = ex.find_properties(&item).expect("a tuple struct has a property list");
    assert_eq!(props.len(), 0);
}

#[test]
fn members_come_from_matching_inherent_impls() {
    let options = Options::new();
    let ex = extractor(&options);
    let clazz = marked_struct(7, "Point", vec![]);
    let items = vec![
        marked_struct(7, "Point", vec![]),
        Item {
            id: 8,
            ident: "Point".to_string(),
            attrs: vec![],
            kind: ItemKind::Impl {
                of_trait: false,
                self_id: 7,
                members: vec![
                    ImplMemberFixture::method("norm", true),
                    ImplMemberFixture::method("hidden", false),
                    ImplMemberFixture::constant("ORIGIN", true),
                ],
            },
        },
        Item {
            id: 9,
            ident: "Point".to_string(),
            attrs: vec![],
            kind: ItemKind::Impl {
                of_trait: true,
                self_id: 7,
                members: vec![ImplMemberFixture::method("fmt", true)],
            },
        },
        Item {
            id: 10,
            ident: "Elsewhere".to_string(),
            attrs: vec![],
            kind: ItemKind::Impl {
                of_trait: false,
                self_id: 99,
                members: vec![ImplMemberFixture::method("stray", true)],
            },
        },
    ];
    let methods = ex.find_members(&items, &clazz);
    assert_eq!(methods.len(), 1);
    assert_eq!(methods[0].name, "norm");
}

#[test]
fn blacklist_methods_excludes_matching_names() {
    let mut options = Options::new();
    options.blacklist_methods.push("^set_.*".to_string());
    let ex = extractor(&options);
    let clazz = marked_struct(7, "Point", vec![]);
    let items = vec![Item {
        id: 8,
        ident: "Point".to_string(),
        attrs: vec![],
        kind: ItemKind::Impl {
            of_trait: false,
            self_id: 7,
            members: vec![
                ImplMemberFixture::method("get_x", true),
                ImplMemberFixture::method("set_x", true),
            ],
        },
    }];
    let methods = ex.find_members(&items, &clazz);
    assert_eq!(methods.len(), 1);
    assert_eq!(methods[0].name, "get_x");
}

#[test]
fn targets_are_selected_by_library_kind() {
    let options = Options::new();
    let ex = extractor(&options);
    let manifest = Package {
        name: "demo".to_string(),
        targets: vec![
            Target {
                crate_name: "demo_bin".to_string(),
                kind: TargetKind::Other,
                src_path: "src/main.rs".to_string(),
            },
            Target {
                crate_name: "demo".to_string(),
                kind: TargetKind::Lib(vec!["lib".to_string(), "cdylib".to_string()]),
                src_path: "src/lib.rs".to_string(),
            },
            Target {
                crate_name: "demo_rlib".to_string(),
                kind: TargetKind::Lib(vec!["rlib".to_string()]),
                src_path: "src/other.rs".to_string(),
            },
        ],
    };
    let targets = ex.find_targets(&manifest);
    assert_eq!(targets.len(), 1);
    assert_eq!(targets[0].crate_name, "demo");
}

#[test]
fn non_matching_kind_selects_zero_targets() {
    let options = Options::new();
    let ex = extractor(&options);
    let manifest = Package {
        name: "demo".to_string(),
        targets: vec![Target {
            crate_name: "demo".to_string(),
            kind: TargetKind::Lib(vec!["rlib".to_string()]),
            src_path: "src/lib.rs".to_string(),
        }],
    };
    assert_eq!(ex.find_targets(&manifest).len(), 0);
}

#[test]
fn empty_selection_means_current_package() {
    let options = Options::new();
    let ex = extractor(&options);
    let ws = Workspace {
        members: vec![
            Package { name: "a".to_string(), targets: vec![] },
            Package { name: "b".to_string(), targets: vec![] },
        ],
        current: 1,
    };
    let packages = ex.find_packages(&ws);
    assert_eq!(packages.len(), 1);
    assert_eq!(packages[0].name, "b");
}

#[test]
fn named_selection_filters_members() {
    let mut options = Options::new();
    options.packages.push("a".to_string());
    options.packages.push("c".to_string());
    let ex = extractor(&options);
    let ws = Workspace {
        members: vec![
            Package { name: "a".to_string(), targets: vec![] },
            Package { name: "b".to_string(), targets: vec![] },
            Package { name: "c".to_string(), targets: vec![] },
        ],
        current: 0,
    };
    let packages = ex.find_packages(&ws);
    assert_eq!(packages.len(), 2);
    assert_eq!(packages[0].name, "a");
    assert_eq!(packages[1].name, "c");
}

struct ImplMemberFixture;

impl ImplMemberFixture {
    fn method(name: &str, public: bool) -> cpython_gen::ast::ImplMember {
        cpython_gen::ast::ImplMember {
            name: name.to_string(),
            public,
            kind: MemberKind::Method,
        }
    }

    fn constant(name: &str, public: bool) -> cpython_gen::ast::ImplMember {
        cpython_gen::ast::ImplMember {
            name: name.to_string(),
            public,
            kind: MemberKind::Other,
        }
    }
}
