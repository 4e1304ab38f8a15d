use furnace::paths::join_path;
use furnace::text::split_before;

#[test]
fn join_adds_one_separator() {
    assert_eq!(join_path("proj", "Cargo.toml"), "proj/Cargo.toml");
    assert_eq!(join_path("proj/src", "lib.rs"), "proj/src/lib.rs");
    assert_eq!(join_path(".", "src"), "./src");
}

#[test]
fn join_keeps_a_trailing_separator() {
    assert_eq!(join_path("proj/", "src"), "proj/src");
    assert_eq!(join_path("/", "etc"), "/etc");
}

#[test]
fn join_with_empty_directory_is_the_name() {
    assert_eq!(join_path("", "Cargo.toml"), "Cargo.toml");
}

#[test]
fn join_with_empty_name_ends_in_separator() {
    assert_eq!(join_path("proj", ""), "proj/");
    assert_eq!(join_path("proj/", ""), "proj/");
}

#[test]
fn join_with_rooted_name_is_the_name() {
    assert_eq!(join_path("proj", "/abs/crate"), "/abs/crate");
}

#[test]
fn join_agrees_with_std_paths() {
    let cases = [
        ("a", "b"),
        ("a/", "b"),
        ("", "b"),
        ("a", ""),
        ("a", "/b"),
        ("a/b", "c/d"),
        (".", "x.rs"),
        ("ünï", "cødé.rs"),
    ];
    for (dir, name) in cases {
        let expected = std::path::Path::new(dir).join(name);
        if std::path::MAIN_SEPARATOR == '/' {
            assert_eq!(join_path(dir, name), expected.to_string_lossy());
        }
    }
}

#[test]
fn split_before_first_marker() {
    assert_eq!(split_before("crates/*", '*'), ("crates/".to_string(), true));
    assert_eq!(split_before("a*b*c", '*'), ("a".to_string(), true));
    assert_eq!(split_before("*", '*'), ("".to_string(), true));
}

#[test]
fn split_before_without_marker() {
    assert_eq!(split_before("crates/core", '*'), ("crates/core".to_string(), false));
    assert_eq!(split_before("", '*'), ("".to_string(), false));
}

#[test]
fn split_before_counts_characters() {
    assert_eq!(split_before("größe/*", '*'), ("größe/".to_string(), true));
}
