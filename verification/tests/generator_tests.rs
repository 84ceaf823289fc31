use cpython_gen::ast::{Attribute, Field, Item, ItemKind, MetaItem, VariantData};
use cpython_gen::builder::py_class;
use cpython_gen::generator::{Generated, Generator, ParseOutcome};

const HEADER: &str = "/* automatically generated by cpython-gen */\n\n";

fn derive_attr(words: &[&str]) -> Attribute {
    Attribute {
        name: "derive".to_string(),
        args: Some(words.iter().map(|w| MetaItem::Word(w.to_string())).collect()),
    }
}

fn field(name: &str, ty: &str) -> Field {
    Field { name: Some(name.to_string()), public: true, ty: ty.to_string() }
}

fn point_items() -> Vec<Item> {
    vec![Item {
        id: 1,
        ident: "Point".to_string(),
        attrs: vec![derive_attr(&["PyClass"])],
        kind: ItemKind::Struct(VariantData::Struct(vec![
            field("x", "i64"),
            field("y", "i64"),
        ])),
    }]
}

#[test]
fn point_yields_one_class_with_both_properties() {
    let generator = Generator::new();
    let parses = vec![ParseOutcome::Parsed(point_items())];
    let generated = generator.generate(&parses).expect("valid configuration");
    assert_eq!(generated.classes.len(), 1);
    let class = &generated.classes[0];
    assert_eq!(class.ident, "Point");
    assert_eq!(class.fields.len(), 2);
    assert_eq!(class.fields[0].name, "x");
    assert_eq!(class.fields[0].ty, "i64");
    assert_eq!(class.fields[1].name, "y");
    assert_eq!(class.fields[1].ty, "i64");
}

#[test]
fn point_binding_holds_all_fragments_and_accessors() {
    let generator = Generator::new();
    let parses = vec![ParseOutcome::Parsed(point_items())];
    let generated = generator.generate(&parses).expect("valid configuration");
    let text = generated.classes[0].build();
    assert!(text.contains("impl ::cpython::ToPyObject for Point {"));
    assert!(text.contains("impl<'source> ::cpython::FromPyObject<'source> for Point {"));
    assert!(text.contains("impl ::cpython::PythonObject for Point {"));
    assert!(text.contains("impl ::cpython::PythonObjectWithCheckedDowncast for Point {"));
    assert!(text.contains("impl ::cpython::py_class::BaseObject for Point {"));
    assert!(text.contains("type InitType = (i64, i64);"));
    assert!(text.contains("fn get_x(&self) -> i64 {"));
    assert!(text.contains("fn set_x(&self, value: i64) {"));
    assert!(text.contains("fn get_y(&self) -> i64 {"));
    assert!(text.contains("fn set_y(&self, value: i64) {"));
    assert!(text.contains("fn create_instance(py: ::cpython::Python, x: i64, y: i64)"));
    assert!(text.contains("static mut INIT_ACTIVE: bool = false;"));
    assert!(text.contains("Reentrancy detected: already initializing class "));
    assert!(text.contains("dict.set_item(py, stringify!(x), unsafe {"));
    assert!(text.contains("dict.set_item(py, stringify!(y), unsafe {"));
}

#[test]
fn whitelist_limits_generation_to_matching_classes() {
    // The catch-all blacklist excludes everything the whitelist does not
    // reclaim; a whitelist match overrides the blacklist.
    let mut generator = Generator::new();
    generator.whitelist_type("^Py.*");
    generator.blacklist_type(".*");
    let items = vec![
        Item {
            id: 1,
            ident: "Other".to_string(),
            attrs: vec![derive_attr(&["PyClass"])],
            kind: ItemKind::Struct(VariantData::Struct(vec![])),
        },
        Item {
            id: 2,
            ident: "PyFoo".to_string(),
            attrs: vec![derive_attr(&["PyClass"])],
            kind: ItemKind::Struct(VariantData::Struct(vec![])),
        },
    ];
    let parses = vec![ParseOutcome::Parsed(items)];
    let generated = generator.generate(&parses).expect("valid configuration");
    assert_eq!(generated.classes.len(), 1);
    assert_eq!(generated.classes[0].ident, "PyFoo");
}

#[test]
fn generation_is_idempotent() {
    let mut generator = Generator::new();
    generator.blacklist_field("^_.*");
    let parses = vec![ParseOutcome::Parsed(point_items())];
    let first = generator.generate(&parses).expect("valid configuration").render();
    let second = generator.generate(&parses).expect("valid configuration").render();
    assert_eq!(first, second);
}

#[test]
fn a_failed_parse_skips_only_that_target() {
    let generator = Generator::new();
    let parses = vec![ParseOutcome::Failed, ParseOutcome::Parsed(point_items())];
    let generated = generator.generate(&parses).expect("valid configuration");
    assert_eq!(generated.classes.len(), 1);
    assert_eq!(generated.classes[0].ident, "Point");
}

#[test]
fn zero_targets_render_only_the_header() {
    let generator = Generator::new();
    let parses: Vec<ParseOutcome> = vec![];
    let generated = generator.generate(&parses).expect("valid configuration");
    assert_eq!(generated.render(), HEADER);
}

#[test]
fn invalid_configuration_fails_before_any_target() {
    let mut generator = Generator::new();
    generator.whitelist_type("(");
    let parses = vec![ParseOutcome::Parsed(point_items())];
    assert!(generator.generate(&parses).is_err());
}

#[test]
fn rendered_output_starts_with_the_header() {
    let generator = Generator::new();
    let parses = vec![ParseOutcome::Parsed(point_items())];
    let text = generator.generate(&parses).expect("valid configuration").render();
    assert!(text.starts_with(HEADER));
    assert!(text.contains("impl ::cpython::ToPyObject for Point {"));
}

#[test]
fn classes_keep_source_and_target_order() {
    let generator = Generator::new();
    let first_target = vec![
        Item {
            id: 1,
            ident: "Alpha".to_string(),
            attrs: vec![derive_attr(&["PyClass"])],
            kind: ItemKind::Struct(VariantData::Struct(vec![])),
        },
        Item {
            id: 2,
            ident: "Beta".to_string(),
            attrs: vec![derive_attr(&["PyClass"])],
            kind: ItemKind::Struct(VariantData::Struct(vec![])),
        },
    ];
    let second_target = vec![Item {
        id: 3,
        ident: "Gamma".to_string(),
        attrs: vec![derive_attr(&["PyClass"])],
        kind: ItemKind::Struct(VariantData::Struct(vec![])),
    }];
    let parses = vec![
        ParseOutcome::Parsed(first_target),
        ParseOutcome::Parsed(second_target),
    ];
    let generated = generator.generate(&parses).expect("valid configuration");
    let names: Vec<&str> = generated.classes.iter().map(|c| c.ident.as_str()).collect();
    assert_eq!(names, vec!["Alpha", "Beta", "Gamma"]);
}

#[test]
fn generated_generate_matches_generator_generate() {
    let generator = Generator::new();
    let parses = vec![ParseOutcome::Parsed(point_items())];
    let through_generator = generator.generate(&parses).expect("valid configuration").render();
    let direct = Generated::generate(&generator.options, &parses)
        .expect("valid configuration")
        .render();
    assert_eq!(through_generator, direct);
}

#[test]
fn class_name_returns_the_identifier() {
    let generator = Generator::new();
    let parses = vec![ParseOutcome::Parsed(point_items())];
    let generated = generator.generate(&parses).expect("valid configuration");
    assert_eq!(generated.classes[0].class_name(), "Point");
}

#[test]
fn py_class_emits_a_lowercased_test_item() {
    let text = py_class("MyType");
    assert!(text.starts_with("#[test]\nfn test_mytype() {"));
    assert!(text.contains("py.get_type::<MyType>()"));
    assert!(text.contains("Python::acquire_gil()"));
}

#[test]
fn builder_methods_fill_the_options() {
    let mut generator = Generator::new();
    generator.manifest_path("workspace/Cargo.toml");
    generator.package("alpha");
    generator.package("beta");
    generator.whitelist_type("^Py.*");
    generator.whitelist_field("^pub_.*");
    generator.whitelist_method("^get_.*");
    generator.blacklist_type("^Hidden.*");
    generator.blacklist_field("^_.*");
    generator.blacklist_method("^unsafe_.*");
    let o = &generator.options;
    assert_eq!(o.manifest_path.as_deref(), Some("workspace/Cargo.toml"));
    assert_eq!(o.packages, vec!["alpha".to_string(), "beta".to_string()]);
    assert_eq!(o.whitelist_types, vec!["^Py.*".to_string()]);
    assert_eq!(o.whitelist_fields, vec!["^pub_.*".to_string()]);
    assert_eq!(o.whitelist_methods, vec!["^get_.*".to_string()]);
    assert_eq!(o.blacklist_types, vec!["^Hidden.*".to_string()]);
    assert_eq!(o.blacklist_fields, vec!["^_.*".to_string()]);
    assert_eq!(o.blacklist_methods, vec!["^unsafe_.*".to_string()]);
}

#[test]
fn default_options_are_empty() {
    let o = cpython_gen::options::Options::default();
    assert!(o.manifest_path.is_none());
    assert!(o.packages.is_empty());
    assert!(o.whitelist_types.is_empty());
    assert!(o.whitelist_fields.is_empty());
    assert!(o.whitelist_methods.is_empty());
    assert!(o.blacklist_types.is_empty());
    assert!(o.blacklist_fields.is_empty());
    assert!(o.blacklist_methods.is_empty());
}

#[test]
fn py_class_text_is_exact() {
    let expected = "#[test]\nfn test_point() {\n    use cpython::Python;\n\n    let gil = Python::acquire_gil();\n    let py = gil.python();\n\n    assert!(!py.get_type::<Point>().as_type_ptr().is_null());\n}\n";
    assert_eq!(py_class("Point"), expected);
}
