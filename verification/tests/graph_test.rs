use furnace::graph::{collect_snapshots, path_is_ignored, CrateNode, FileNode, ModuleNode, ProjectGraph};
use furnace::types::{FunctionSnapshot, RustFileSnapshot};

fn snapshot(path: &str) -> RustFileSnapshot {
    RustFileSnapshot {
        path: path.to_string(),
        functions: vec![FunctionSnapshot {
            name: "f".to_string(),
            args: vec!["x".to_string()],
            variables: vec![("y".to_string(), Some("u8".to_string())), ("z".to_string(), None)],
        }],
        structs: vec![],
        traits: vec![],
        enums: vec![],
        impls: vec![],
    }
}

fn module(name: &str, path: &str, parsed: bool, submodules: Vec<ModuleNode>) -> ModuleNode {
    ModuleNode {
        name: name.to_string(),
        path: Some("src".to_string()),
        file: Some(FileNode {
            path: path.to_string(),
            hash: "00".to_string(),
            snapshot: if parsed { Some(snapshot(path)) } else { None },
        }),
        submodules,
    }
}

fn tree() -> ModuleNode {
    module(
        "crate",
        "src/lib.rs",
        true,
        vec![
            module("a", "src/a.rs", true, vec![module("deep", "src/a/deep.rs", true, vec![])]),
            module("broken", "src/broken.rs", false, vec![]),
            ModuleNode { name: "bare".to_string(), path: None, file: None, submodules: vec![] },
            module("gen", "target/gen.rs", true, vec![module("x", "src/x.rs", true, vec![])]),
        ],
    )
}

fn paths(snapshots: &[RustFileSnapshot]) -> Vec<&str> {
    snapshots.iter().map(|s| s.path.as_str()).collect()
}

#[test]
fn flattening_is_depth_first_in_order() {
    let mut snapshots = vec![];
    collect_snapshots(&tree(), &mut snapshots, &[]);
    assert_eq!(
        paths(&snapshots),
        vec!["src/lib.rs", "src/a.rs", "src/a/deep.rs", "target/gen.rs", "src/x.rs"]
    );
}

#[test]
fn flattening_appends_to_what_is_there() {
    let mut snapshots = vec![snapshot("earlier.rs")];
    collect_snapshots(&tree(), &mut snapshots, &[]);
    assert_eq!(snapshots.len(), 6);
    assert_eq!(snapshots[0].path, "earlier.rs");
    assert_eq!(snapshots[1].path, "src/lib.rs");
}

#[test]
fn filtering_removes_exactly_the_matching_paths() {
    let mut snapshots = vec![];
    collect_snapshots(&tree(), &mut snapshots, &["target".to_string()]);
    assert_eq!(paths(&snapshots), vec!["src/lib.rs", "src/a.rs", "src/a/deep.rs", "src/x.rs"]);
}

#[test]
fn filtering_a_parent_keeps_its_children() {
    let mut snapshots = vec![];
    collect_snapshots(&tree(), &mut snapshots, &["lib.rs".to_string()]);
    assert_eq!(paths(&snapshots), vec!["src/a.rs", "src/a/deep.rs", "target/gen.rs", "src/x.rs"]);
}

#[test]
fn filtering_with_several_patterns() {
    let mut snapshots = vec![];
    collect_snapshots(&tree(), &mut snapshots, &["deep".to_string(), "/x".to_string()]);
    assert_eq!(paths(&snapshots), vec!["src/lib.rs", "src/a.rs", "target/gen.rs"]);
}

#[test]
fn filtering_with_the_empty_pattern_removes_everything() {
    let mut snapshots = vec![];
    collect_snapshots(&tree(), &mut snapshots, &["".to_string()]);
    assert!(snapshots.is_empty());
}

#[test]
fn flattened_snapshots_are_copies() {
    let root = tree();
    let mut snapshots = vec![];
    collect_snapshots(&root, &mut snapshots, &[]);
    assert_eq!(&snapshots[0], root.file.as_ref().unwrap().snapshot.as_ref().unwrap());
    assert_eq!(snapshots[0].functions[0].variables[0].1.as_deref(), Some("u8"));
}

#[test]
fn path_matching_is_by_substring() {
    let ignore = vec!["target".to_string(), "dist".to_string()];
    assert!(path_is_ignored("proj/target/debug/x.rs", &ignore));
    assert!(path_is_ignored("distance.rs", &ignore));
    assert!(!path_is_ignored("src/lib.rs", &ignore));
    assert!(!path_is_ignored("tar/get.rs", &ignore));
    assert!(!path_is_ignored("anything", &[]));
}

#[test]
fn clones_are_equal() {
    let graph = ProjectGraph {
        root_path: "proj".to_string(),
        crates: vec![CrateNode {
            name: "c".to_string(),
            version: "0.1.0".to_string(),
            path: "proj".to_string(),
            root_module: tree(),
        }],
    };
    assert_eq!(graph.clone(), graph);
    assert_eq!(graph.crates[0].root_module.clone(), tree());
}
