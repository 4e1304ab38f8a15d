use furnace::parse::parse_source;
use furnace::syntax::{
    FieldList, FunctionItem, ImplItem, Member, Parameter, Pattern, SourceItem, Statement,
    StructItem,
};
use furnace::visitor::{snapshot_of, SnapshotVisitor};

#[test]
fn test_function_extraction() {
    let code = r#"
            fn my_func() {
                let x = 10;
            }
        "#;
    let file = parse_source(code).unwrap();
    let mut visitor = SnapshotVisitor::default();
    visitor.visit_file(&file);

    assert_eq!(visitor.functions.len(), 1);
    assert_eq!(visitor.functions[0].name, "my_func");
    assert_eq!(visitor.functions[0].variables.len(), 1);
    assert_eq!(visitor.functions[0].variables[0].0, "x");
}

#[test]
fn test_struct_extraction() {
    let code = r#"
            struct MyStruct {
                field1: i32,
                field2: String,
            }
        "#;
    let file = parse_source(code).unwrap();
    let mut visitor = SnapshotVisitor::default();
    visitor.visit_file(&file);

    assert_eq!(visitor.structs.len(), 1);
    assert_eq!(visitor.structs[0].name, "MyStruct");
    assert_eq!(visitor.structs[0].fields.len(), 2);
    assert_eq!(visitor.structs[0].fields[0], "field1");
    assert_eq!(visitor.structs[0].fields[1], "field2");
}

fn snapshot(code: &str) -> furnace::types::RustFileSnapshot {
    snapshot_of("file.rs", &parse_source(code).expect("the code parses"))
}

#[test]
fn parse_rejects_malformed_text() {
    assert!(parse_source("fn {").is_none());
    assert!(parse_source("struct").is_none());
}

#[test]
fn parse_accepts_empty_text() {
    assert_eq!(parse_source(""), Some(vec![]));
}

#[test]
fn parse_reads_items_in_file_order() {
    let items = parse_source("use a::b; mod m; mod n { fn inner() {} } const C: u8 = 1;").unwrap();
    assert_eq!(items.len(), 4);
    assert_eq!(items[0], SourceItem::Other);
    match &items[1] {
        SourceItem::Module(m) => {
            assert_eq!(m.name, "m");
            assert!(!m.inline);
        }
        other => panic!("not a module: {:?}", other),
    }
    match &items[2] {
        SourceItem::Module(m) => {
            assert_eq!(m.name, "n");
            assert!(m.inline);
        }
        other => panic!("not a module: {:?}", other),
    }
    assert_eq!(items[3], SourceItem::Other);
}

#[test]
fn parse_reads_patterns() {
    let items = parse_source("fn f(&self, a: u8, (b, c): (u8, u8)) { let x = 1; let y: Vec<u8> = v; let (p, q) = t; let (r, s): (u8, u8) = t; g(); }").unwrap();
    let expected = FunctionItem {
        name: "f".to_string(),
        params: vec![
            Parameter::Receiver,
            Parameter::Typed(Pattern::Ident("a".to_string())),
            Parameter::Typed(Pattern::Other),
        ],
        body: vec![
            Statement::Local(Pattern::Ident("x".to_string())),
            Statement::Local(Pattern::Typed {
                ident: Some("y".to_string()),
                ty: "Vec < u8 >".to_string(),
            }),
            Statement::Local(Pattern::Other),
            Statement::Local(Pattern::Typed { ident: None, ty: "(u8 , u8)".to_string() }),
            Statement::Other,
        ],
    };
    assert_eq!(items, vec![SourceItem::Function(expected)]);
}

#[test]
fn parse_reads_impl_blocks() {
    let items = parse_source(
        "impl Foo { fn a(&self) {} const K: u8 = 0; fn b() {} }\nimpl fmt::Display for Foo { fn fmt(&self) {} }\nimpl<T> Bar<T> { fn c() {} }\nimpl a::Qualified { fn d() {} }\nimpl Tr for &Foo {}",
    )
    .unwrap();
    assert_eq!(
        items[0],
        SourceItem::Impl(ImplItem {
            target: Some("Foo".to_string()),
            interface: None,
            members: vec![
                Member::Method("a".to_string()),
                Member::Other,
                Member::Method("b".to_string())
            ],
        })
    );
    assert_eq!(
        items[1],
        SourceItem::Impl(ImplItem {
            target: Some("Foo".to_string()),
            interface: Some(vec!["fmt".to_string(), "Display".to_string()]),
            members: vec![Member::Method("fmt".to_string())],
        })
    );
    match (&items[2], &items[3], &items[4]) {
        (SourceItem::Impl(generic), SourceItem::Impl(qualified), SourceItem::Impl(reference)) => {
            assert_eq!(generic.target, None);
            assert_eq!(qualified.target, None);
            assert_eq!(reference.target, None);
        }
        other => panic!("not three blocks: {:?}", other),
    }
}

#[test]
fn parse_reads_struct_shapes() {
    let items = parse_source("struct A { x: u8 } struct B(u8, u8); struct C;").unwrap();
    assert_eq!(
        items,
        vec![
            SourceItem::Struct(StructItem {
                name: "A".to_string(),
                fields: FieldList::Named(vec![Some("x".to_string())]),
            }),
            SourceItem::Struct(StructItem { name: "B".to_string(), fields: FieldList::Unnamed }),
            SourceItem::Struct(StructItem { name: "C".to_string(), fields: FieldList::Unnamed }),
        ]
    );
}

#[test]
fn function_parameters_and_locals() {
    let s = snapshot(
        "fn calc(self_like: u8, (a, b): (u8, u8), mut c: u8) { let total: i32 = 0; let temp = 1; let (x, y) = pair; let mut m = 2; }",
    );
    assert_eq!(s.path, "file.rs");
    assert_eq!(s.functions.len(), 1);
    let f = &s.functions[0];
    assert_eq!(f.name, "calc");
    assert_eq!(f.args, vec!["self_like".to_string(), "c".to_string()]);
    assert_eq!(
        f.variables,
        vec![
            ("total".to_string(), Some("i32".to_string())),
            ("temp".to_string(), None),
            ("m".to_string(), None),
        ]
    );
}

#[test]
fn method_receiver_is_no_parameter() {
    let items = vec![SourceItem::Function(FunctionItem {
        name: "m".to_string(),
        params: vec![Parameter::Receiver, Parameter::Typed(Pattern::Ident("x".to_string()))],
        body: vec![],
    })];
    let s = snapshot_of("a.rs", &items);
    assert_eq!(s.functions[0].args, vec!["x".to_string()]);
}

#[test]
fn typed_destructuring_contributes_nothing() {
    let items = vec![SourceItem::Function(FunctionItem {
        name: "m".to_string(),
        params: vec![Parameter::Typed(Pattern::Typed {
            ident: Some("odd".to_string()),
            ty: "T".to_string(),
        })],
        body: vec![
            Statement::Local(Pattern::Typed { ident: None, ty: "(u8, u8)".to_string() }),
            Statement::Other,
        ],
    })];
    let s = snapshot_of("a.rs", &items);
    assert!(s.functions[0].args.is_empty());
    assert!(s.functions[0].variables.is_empty());
}

#[test]
fn nested_functions_are_not_top_level() {
    let s = snapshot("fn outer() { fn inner() {} }\nmod m { fn hidden() {} struct Hidden; }");
    let names: Vec<&str> = s.functions.iter().map(|f| f.name.as_str()).collect();
    assert_eq!(names, vec!["outer"]);
    assert!(s.structs.is_empty());
}

#[test]
fn tuple_and_unit_structs_have_no_fields() {
    let s = snapshot("struct Pair(u8, u8); struct Unit; struct Named { a: u8 }");
    assert_eq!(s.structs.len(), 3);
    assert!(s.structs[0].fields.is_empty());
    assert!(s.structs[1].fields.is_empty());
    assert_eq!(s.structs[2].fields, vec!["a".to_string()]);
}

#[test]
fn traits_list_their_methods() {
    let s = snapshot("trait Shape { const SIDES: u8; type Unit; fn area(&self) -> f64; fn name(&self) -> String { String::new() } }");
    assert_eq!(s.traits.len(), 1);
    assert_eq!(s.traits[0].name, "Shape");
    assert_eq!(s.traits[0].methods, vec!["area".to_string(), "name".to_string()]);
}

#[test]
fn enums_list_their_variants() {
    let s = snapshot("enum Status { Active, Inactive(u8), Gone { why: String } }");
    assert_eq!(s.enums.len(), 1);
    assert_eq!(s.enums[0].name, "Status");
    assert_eq!(
        s.enums[0].variants,
        vec!["Active".to_string(), "Inactive".to_string(), "Gone".to_string()]
    );
    assert!(s.enums[0].methods.is_empty());
}

#[test]
fn impl_blocks_keep_bare_targets_only() {
    let s = snapshot(
        "impl Foo { fn a() {} }\nimpl<T> Gen<T> { fn b() {} }\nimpl path::To { fn c() {} }\nimpl std::fmt::Debug for Foo { fn fmt(&self) {} }\nimpl Tr for [u8] { fn d() {} }",
    );
    assert_eq!(s.impls.len(), 2);
    assert_eq!(s.impls[0].for_type, "Foo");
    assert_eq!(s.impls[0].trait_name, None);
    assert_eq!(s.impls[0].methods, vec!["a".to_string()]);
    assert_eq!(s.impls[1].for_type, "Foo");
    assert_eq!(s.impls[1].trait_name.as_deref(), Some("Debug"));
    assert_eq!(s.impls[1].methods, vec!["fmt".to_string()]);
}

#[test]
fn methods_attach_to_types_of_the_same_file_in_order() {
    let s = snapshot(
        "impl T { fn early() {} }\nstruct T { a: u8 }\nenum E { V }\nimpl T { fn one() {} fn two() {} }\nimpl E { fn on_enum() {} }\nimpl Show for T { fn show(&self) {} }\nimpl Elsewhere { fn lost() {} }",
    );
    assert_eq!(s.structs.len(), 1);
    assert_eq!(
        s.structs[0].methods,
        vec!["early".to_string(), "one".to_string(), "two".to_string(), "show".to_string()]
    );
    assert_eq!(s.enums[0].methods, vec!["on_enum".to_string()]);
    assert_eq!(s.impls.len(), 5);
    assert_eq!(s.impls[4].for_type, "Elsewhere");
    assert_eq!(s.impls[4].methods, vec!["lost".to_string()]);
}

#[test]
fn block_for_a_type_of_another_file_contributes_nothing() {
    let with = snapshot("struct Here;\nenum There { A }\nimpl Absent { fn m() {} }");
    let without = snapshot("struct Here;\nenum There { A }");
    assert_eq!(with.structs, without.structs);
    assert_eq!(with.enums, without.enums);
    assert!(with.structs[0].methods.is_empty());
    assert!(with.enums[0].methods.is_empty());
}

#[test]
fn every_type_of_a_name_receives_the_methods() {
    let s = snapshot(
        "struct Twin { a: u8 }\nstruct Twin { b: u8 }\nenum Twin { V }\nenum Solo { V }\nenum Solo { W }\nimpl Twin { fn t() {} }\nimpl Solo { fn s() {} }",
    );
    assert_eq!(s.structs[0].methods, vec!["t".to_string()]);
    assert_eq!(s.structs[1].methods, vec!["t".to_string()]);
    assert_eq!(s.enums[0].methods, vec!["t".to_string()]);
    assert_eq!(s.enums[1].methods, vec!["s".to_string()]);
    assert_eq!(s.enums[2].methods, vec!["s".to_string()]);
}

#[test]
fn two_declarations_of_one_name_share_every_block() {
    let s = snapshot(
        "impl Os { fn early() {} }\nstruct Os { unix: u8 }\nimpl Os { fn one() {} fn two() {} }\nstruct Os { windows: u8 }\nimpl Other { fn lost() {} }\nimpl Show for Os { fn show(&self) {} }",
    );
    let expected = vec![
        "early".to_string(),
        "one".to_string(),
        "two".to_string(),
        "show".to_string(),
    ];
    assert_eq!(s.structs.len(), 2);
    assert_eq!(s.structs[0].fields, vec!["unix".to_string()]);
    assert_eq!(s.structs[1].fields, vec!["windows".to_string()]);
    assert_eq!(s.structs[0].methods, expected);
    assert_eq!(s.structs[1].methods, expected);
    for declared in &s.structs {
        let concatenation: Vec<String> = s
            .impls
            .iter()
            .filter(|block| block.for_type == declared.name)
            .flat_map(|block| block.methods.iter().cloned())
            .collect();
        assert_eq!(declared.methods, concatenation);
    }
}

#[test]
fn visitor_records_item_by_item() {
    let items = parse_source("fn a() {} struct S; trait T {} enum E {} impl S {} mod m;").unwrap();
    let mut visitor = SnapshotVisitor::default();
    for item in &items {
        visitor.visit_item(item);
    }
    assert_eq!(visitor.functions.len(), 1);
    assert_eq!(visitor.structs.len(), 1);
    assert_eq!(visitor.traits.len(), 1);
    assert_eq!(visitor.enums.len(), 1);
    assert_eq!(visitor.impls.len(), 1);
    let snapshot = visitor.finish("x.rs");
    assert_eq!(snapshot.path, "x.rs");
    assert_eq!(snapshot, snapshot_of("x.rs", &items));
}

#[test]
fn snapshot_clone_is_equal() {
    let s = snapshot("fn a(x: u8) { let y: u8 = x; } struct S { f: u8 } impl S { fn m() {} } enum E { V } trait T { fn t(); }");
    assert_eq!(s.clone(), s);
}
