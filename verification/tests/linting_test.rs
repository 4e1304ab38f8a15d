use furnace::config::{ComplexityLints, FurnaceConfig, LintConfig, NamingLints, StyleLints};
use furnace::linting::{is_pascal_case, is_snake_case, lint_snapshots};
use furnace::text::{decimal_text, file_name, join_texts, pad_right};
use furnace::types::{EnumSnapshot, FunctionSnapshot, RustFileSnapshot, StructSnapshot};

fn sample() -> RustFileSnapshot {
    RustFileSnapshot {
        path: "./src/example.rs".to_string(),
        functions: vec![
            FunctionSnapshot {
                name: "calculate".to_string(),
                args: vec!["x".to_string(), "y".to_string(), "z".to_string()],
                variables: vec![
                    ("result".to_string(), Some("i32".to_string())),
                    ("temp".to_string(), None),
                    ("badName".to_string(), None),
                ],
            },
            FunctionSnapshot {
                name: "ProcessData".to_string(),
                args: vec!["data".to_string()],
                variables: vec![("temp".to_string(), None)],
            },
        ],
        structs: vec![
            StructSnapshot {
                name: "Config".to_string(),
                fields: vec!["host".to_string(), "port".to_string()],
                methods: vec![],
            },
            StructSnapshot { name: "lower".to_string(), fields: vec![], methods: vec![] },
        ],
        traits: vec![],
        enums: vec![
            EnumSnapshot { name: "status".to_string(), variants: vec![], methods: vec![] },
            EnumSnapshot { name: "Status".to_string(), variants: vec![], methods: vec![] },
        ],
        impls: vec![],
    }
}

fn config() -> LintConfig {
    LintConfig::default()
}

#[test]
fn test_default_config() {
    let config = FurnaceConfig::default();
    assert_eq!(config.lints.enabled, Some(true));
    assert!(config.ignore.is_empty());
    assert_eq!(config.lints.complexity.max_args, None);
    assert_eq!(config.lints.naming.enforce_snake_case_functions, None);
}

#[test]
fn default_parts_set_nothing() {
    assert_eq!(
        ComplexityLints::default(),
        ComplexityLints {
            max_args: None,
            max_fields: None,
            max_function_lines: None,
            max_struct_size: None
        }
    );
    assert_eq!(
        NamingLints::default(),
        NamingLints {
            enforce_snake_case_functions: None,
            enforce_snake_case_variables: None,
            enforce_pascal_case_types: None,
            enforce_screaming_snake_case_constants: None,
            discouraged_names: None
        }
    );
    assert_eq!(
        StyleLints::default(),
        StyleLints { require_doc_comments: None, warn_todo_comments: None }
    );
}

#[test]
fn default_rules_find_nothing() {
    assert!(lint_snapshots(&[sample()], &config()).is_empty());
}

#[test]
fn disabled_linter_finds_nothing() {
    let mut c = config();
    c.complexity.max_args = Some(0);
    c.naming.enforce_snake_case_functions = Some(true);
    c.enabled = Some(false);
    assert!(lint_snapshots(&[sample()], &c).is_empty());
    c.enabled = None;
    assert!(!lint_snapshots(&[sample()], &c).is_empty());
}

#[test]
fn argument_limit() {
    let mut c = config();
    c.complexity.max_args = Some(2);
    assert_eq!(
        lint_snapshots(&[sample()], &c),
        vec!["Warning: Function 'calculate' in './src/example.rs' has 3 arguments (max 2 recommended)"
            .to_string()]
    );
    c.complexity.max_args = Some(3);
    assert!(lint_snapshots(&[sample()], &c).is_empty());
}

#[test]
fn field_limit() {
    let mut c = config();
    c.complexity.max_fields = Some(1);
    assert_eq!(
        lint_snapshots(&[sample()], &c),
        vec!["Warning: Struct 'Config' in './src/example.rs' has 2 fields (max 1 recommended)"
            .to_string()]
    );
}

#[test]
fn counts_are_written_in_decimal() {
    let mut s = sample();
    s.functions[0].args = (0..120).map(|i| format!("a{}", i)).collect();
    let mut c = config();
    c.complexity.max_args = Some(100);
    assert_eq!(
        lint_snapshots(&[s], &c),
        vec!["Warning: Function 'calculate' in './src/example.rs' has 120 arguments (max 100 recommended)"
            .to_string()]
    );
}

#[test]
fn snake_case_functions() {
    let mut c = config();
    c.naming.enforce_snake_case_functions = Some(true);
    assert_eq!(
        lint_snapshots(&[sample()], &c),
        vec!["Warning: Function 'ProcessData' in './src/example.rs' should use snake_case"
            .to_string()]
    );
    c.naming.enforce_snake_case_functions = Some(false);
    assert!(lint_snapshots(&[sample()], &c).is_empty());
}

#[test]
fn snake_case_variables() {
    let mut c = config();
    c.naming.enforce_snake_case_variables = Some(true);
    assert_eq!(
        lint_snapshots(&[sample()], &c),
        vec!["Warning: Variable 'badName' in function 'calculate' ('./src/example.rs') should use snake_case"
            .to_string()]
    );
}

#[test]
fn pascal_case_types() {
    let mut c = config();
    c.naming.enforce_pascal_case_types = Some(true);
    assert_eq!(
        lint_snapshots(&[sample()], &c),
        vec![
            "Warning: Struct 'lower' in './src/example.rs' should use PascalCase".to_string(),
            "Warning: Enum 'status' in './src/example.rs' should use PascalCase".to_string(),
        ]
    );
}

#[test]
fn discouraged_names() {
    let mut c = config();
    c.naming.discouraged_names = Some(vec!["temp".to_string(), "foo".to_string()]);
    assert_eq!(
        lint_snapshots(&[sample()], &c),
        vec![
            "Warning: Discouraged variable name 'temp' in function 'calculate' ('./src/example.rs')"
                .to_string(),
            "Warning: Discouraged variable name 'temp' in function 'ProcessData' ('./src/example.rs')"
                .to_string(),
        ]
    );
    c.naming.discouraged_names = Some(vec![]);
    assert!(lint_snapshots(&[sample()], &c).is_empty());
}

#[test]
fn warnings_come_file_by_file_and_rule_by_rule() {
    let mut c = config();
    c.complexity.max_args = Some(0);
    c.complexity.max_fields = Some(1);
    c.naming.enforce_snake_case_functions = Some(true);
    c.naming.enforce_snake_case_variables = Some(true);
    c.naming.enforce_pascal_case_types = Some(true);
    c.naming.discouraged_names = Some(vec!["result".to_string()]);
    let mut second = sample();
    second.path = "b.rs".to_string();
    let warnings = lint_snapshots(&[sample(), second], &c);
    let expected_first = vec![
        "Warning: Function 'calculate' in './src/example.rs' has 3 arguments (max 0 recommended)",
        "Warning: Function 'ProcessData' in './src/example.rs' has 1 arguments (max 0 recommended)",
        "Warning: Struct 'Config' in './src/example.rs' has 2 fields (max 1 recommended)",
        "Warning: Function 'ProcessData' in './src/example.rs' should use snake_case",
        "Warning: Variable 'badName' in function 'calculate' ('./src/example.rs') should use snake_case",
        "Warning: Struct 'lower' in './src/example.rs' should use PascalCase",
        "Warning: Enum 'status' in './src/example.rs' should use PascalCase",
        "Warning: Discouraged variable name 'result' in function 'calculate' ('./src/example.rs')",
    ];
    assert_eq!(warnings.len(), 16);
    assert_eq!(&warnings[..8], &expected_first[..]);
    for (first, second) in warnings[..8].iter().zip(&warnings[8..]) {
        assert_eq!(&first.replace("./src/example.rs", "b.rs"), second);
    }
}

#[test]
fn snake_case_names() {
    assert!(is_snake_case("my_func"));
    assert!(is_snake_case("_private"));
    assert!(is_snake_case("__x2"));
    assert!(is_snake_case("with_1_digit"));
    assert!(is_snake_case(""));
    assert!(is_snake_case("_"));
    assert!(is_snake_case("größe"));
    assert!(!is_snake_case("myFunc"));
    assert!(!is_snake_case("_Private"));
    assert!(!is_snake_case("kebab-case"));
    assert!(!is_snake_case("with space"));
}

#[test]
fn pascal_case_names() {
    assert!(is_pascal_case("MyStruct"));
    assert!(is_pascal_case("X"));
    assert!(is_pascal_case("Élan"));
    assert!(is_pascal_case("SCREAMING"));
    assert!(!is_pascal_case(""));
    assert!(!is_pascal_case("myStruct"));
    assert!(!is_pascal_case("_Hidden"));
    assert!(!is_pascal_case("1Up"));
}

#[test]
fn decimal_notation() {
    assert_eq!(decimal_text(0), "0");
    assert_eq!(decimal_text(7), "7");
    assert_eq!(decimal_text(10), "10");
    assert_eq!(decimal_text(409), "409");
    assert_eq!(decimal_text(1234567890), "1234567890");
    assert_eq!(decimal_text(u128::MAX), u128::MAX.to_string());
}

#[test]
fn lists_with_separators() {
    assert_eq!(join_texts(&vec![], ", "), "");
    assert_eq!(join_texts(&vec!["a".to_string()], ", "), "a");
    assert_eq!(join_texts(&vec!["a".to_string(), "b".to_string(), "".to_string()], ", "), "a, b, ");
}

#[test]
fn padding_counts_characters() {
    assert_eq!(pad_right("ab", 5), "ab   ");
    assert_eq!(pad_right("abcde", 5), "abcde");
    assert_eq!(pad_right("abcdef", 5), "abcdef");
    assert_eq!(pad_right("é", 3), "é  ");
    assert_eq!(pad_right("", 0), "");
}

#[test]
fn last_components() {
    assert_eq!(file_name("./src/example.rs"), "example.rs");
    assert_eq!(file_name("plain"), "plain");
    assert_eq!(file_name("dir/"), "");
    assert_eq!(file_name("/"), "");
    assert_eq!(file_name(""), "");
    assert_eq!(file_name("a/b/ç.rs"), "ç.rs");
}
