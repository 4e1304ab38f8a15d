use furnace::engine::TraversalEngine;
use furnace::graph::{collect_snapshots, ModuleNode, ProjectGraph};
use furnace::observed::{DirEntry, ManifestSummary, Observations, PackageSummary, Query};
use furnace::syntax::{ModuleItem, SourceItem};
use furnace::types::RustFileSnapshot;

/// A project laid out in memory: files with their text, directories, and
/// what each manifest declares.
struct Disk {
    files: Vec<(String, Vec<u8>)>,
    dirs: Vec<String>,
    manifests: Vec<(String, Manifest)>,
}

#[derive(Clone)]
enum Manifest {
    Malformed,
    Package(String, Option<String>),
    Workspace(Vec<String>),
    Empty,
}

impl Disk {
    fn new() -> Disk {
        Disk { files: vec![], dirs: vec![], manifests: vec![] }
    }

    fn file(self, path: &str, text: &str) -> Disk {
        self.binary(path, text.as_bytes())
    }

    fn binary(mut self, path: &str, bytes: &[u8]) -> Disk {
        self.files.push((path.to_string(), bytes.to_vec()));
        self
    }

    fn dir(mut self, path: &str) -> Disk {
        self.dirs.push(path.to_string());
        self
    }

    fn manifest(mut self, path: &str, manifest: Manifest) -> Disk {
        self.manifests.push((path.to_string(), manifest));
        self
    }

    fn has(&self, path: &str) -> bool {
        let path = if path.len() > 1 { path.trim_end_matches('/') } else { path };
        self.files.iter().any(|(p, _)| p == path)
            || self.dirs.iter().any(|p| p == path)
            || self.manifests.iter().any(|(p, _)| p == path)
    }

    fn bytes(&self, path: &str) -> Option<&[u8]> {
        self.files.iter().find(|(p, _)| p == path).map(|(_, bytes)| bytes.as_slice())
    }

    fn summary(&self, path: &str) -> Option<ManifestSummary> {
        match self.manifests.iter().find(|(p, _)| p == path).map(|(_, m)| m.clone()) {
            None | Some(Manifest::Malformed) => None,
            Some(Manifest::Package(name, version)) => Some(ManifestSummary {
                package: Some(PackageSummary { name, version }),
                workspace: None,
            }),
            Some(Manifest::Workspace(members)) => {
                Some(ManifestSummary { package: None, workspace: Some(members) })
            }
            Some(Manifest::Empty) => Some(ManifestSummary { package: None, workspace: None }),
        }
    }

    fn entries(&self, dir: &str) -> Vec<DirEntry> {
        let prefix = if dir.ends_with('/') { dir.to_string() } else { format!("{}/", dir) };
        let mut found = vec![];
        for d in &self.dirs {
            if let Some(rest) = d.strip_prefix(&prefix) {
                if !rest.is_empty() && !rest.contains('/') {
                    found.push(DirEntry { name: rest.to_string(), is_dir: true });
                }
            }
        }
        for (f, _) in &self.files {
            if let Some(rest) = f.strip_prefix(&prefix) {
                if !rest.is_empty() && !rest.contains('/') {
                    found.push(DirEntry { name: rest.to_string(), is_dir: false });
                }
            }
        }
        found
    }
}

/// Answers the questions of the scan from the disk until the graph is known.
/// Returns the graph and the questions, in the order in which they were asked.
fn scan_disk(root: &str, disk: &Disk) -> (ProjectGraph, Vec<Query>) {
    let engine = TraversalEngine::new(root.to_string());
    let mut observed = Observations::new();
    let mut asked = vec![];
    loop {
        assert!(asked.len() < 10_000, "the scan keeps asking");
        match engine.scan(&observed) {
            Ok(graph) => return (graph, asked),
            Err(query) => {
                match &query {
                    Query::Exists(p) => observed.record_presence(p.clone(), disk.has(p)),
                    Query::Manifest(p) => observed.record_manifest(p.clone(), disk.summary(p)),
                    Query::Entries(p) => observed.record_entries(p.clone(), disk.entries(p)),
                    Query::Source(p) => {
                        TraversalEngine::observe_file(&mut observed, p.clone(), disk.bytes(p))
                    }
                }
                asked.push(query);
            }
        }
    }
}

fn single_package(name: &str) -> Disk {
    Disk::new()
        .dir("proj")
        .dir("proj/src")
        .manifest("proj/Cargo.toml", Manifest::Package(name.to_string(), Some("1.2.3".to_string())))
}

fn child<'a>(module: &'a ModuleNode, name: &str) -> Option<&'a ModuleNode> {
    module.submodules.iter().find(|m| m.name == name)
}

#[test]
fn end_to_end_two_files() {
    let disk = single_package("demo")
        .file("proj/src/lib.rs", "mod b;\nfn f(x: T) {}\n")
        .file("proj/src/b.rs", "struct S { one: u32, two: String }\n");
    let (graph, _) = scan_disk("proj", &disk);

    assert_eq!(graph.root_path, "proj");
    assert_eq!(graph.crates.len(), 1);
    let krate = &graph.crates[0];
    assert_eq!(krate.name, "demo");
    assert_eq!(krate.version, "1.2.3");
    assert_eq!(krate.path, "proj");

    let root = &krate.root_module;
    assert_eq!(root.name, "crate");
    assert_eq!(root.path.as_deref(), Some("proj/src"));
    let root_file = root.file.as_ref().unwrap();
    assert_eq!(root_file.path, "proj/src/lib.rs");
    let snapshot = root_file.snapshot.as_ref().unwrap();
    assert_eq!(snapshot.path, "proj/src/lib.rs");
    assert_eq!(snapshot.functions.len(), 1);
    assert_eq!(snapshot.functions[0].name, "f");
    assert_eq!(snapshot.functions[0].args, vec!["x".to_string()]);

    assert_eq!(root.submodules.len(), 1);
    let b = &root.submodules[0];
    assert_eq!(b.name, "b");
    assert_eq!(b.path.as_deref(), Some("proj/src"));
    let b_snapshot = b.file.as_ref().unwrap().snapshot.as_ref().unwrap();
    assert_eq!(b_snapshot.structs.len(), 1);
    assert_eq!(b_snapshot.structs[0].name, "S");
    assert_eq!(b_snapshot.structs[0].fields, vec!["one".to_string(), "two".to_string()]);
    assert_eq!(b_snapshot.structs[0].methods.len(), 0);
    assert!(b.submodules.is_empty());
}

#[test]
fn single_package_with_library_entry() {
    let disk = single_package("solo")
        .file("proj/src/lib.rs", "")
        .file("proj/src/main.rs", "fn main() {}");
    let (graph, _) = scan_disk("proj", &disk);
    assert_eq!(graph.crates.len(), 1);
    let file = graph.crates[0].root_module.file.as_ref().unwrap();
    assert_eq!(file.path, "proj/src/lib.rs");
}

#[test]
fn binary_entry_when_no_library() {
    let disk = single_package("tool").file("proj/src/main.rs", "fn main() {}");
    let (graph, _) = scan_disk("proj", &disk);
    assert_eq!(graph.crates.len(), 1);
    let file = graph.crates[0].root_module.file.as_ref().unwrap();
    assert_eq!(file.path, "proj/src/main.rs");
}

#[test]
fn crate_without_entry_file_is_dropped() {
    let disk = single_package("hollow").file("proj/src/other.rs", "fn a() {}");
    let (graph, _) = scan_disk("proj", &disk);
    assert_eq!(graph.root_path, "proj");
    assert!(graph.crates.is_empty());
}

#[test]
fn missing_manifest_gives_empty_graph() {
    let disk = Disk::new().dir("proj").file("proj/src/lib.rs", "fn a() {}");
    let (graph, asked) = scan_disk("proj", &disk);
    assert_eq!(graph.root_path, "proj");
    assert!(graph.crates.is_empty());
    assert_eq!(asked, vec![Query::Exists("proj/Cargo.toml".to_string())]);
}

#[test]
fn malformed_manifest_gives_empty_graph() {
    let disk = Disk::new()
        .dir("proj")
        .manifest("proj/Cargo.toml", Manifest::Malformed)
        .file("proj/src/lib.rs", "fn a() {}");
    let (graph, _) = scan_disk("proj", &disk);
    assert!(graph.crates.is_empty());
}

#[test]
fn manifest_without_package_or_workspace_gives_empty_graph() {
    let disk = Disk::new()
        .dir("proj")
        .manifest("proj/Cargo.toml", Manifest::Empty)
        .file("proj/src/lib.rs", "fn a() {}");
    let (graph, _) = scan_disk("proj", &disk);
    assert!(graph.crates.is_empty());
}

#[test]
fn version_defaults_when_manifest_states_none() {
    let disk = Disk::new()
        .dir("proj")
        .manifest("proj/Cargo.toml", Manifest::Package("inherits".to_string(), None))
        .file("proj/src/lib.rs", "");
    let (graph, _) = scan_disk("proj", &disk);
    assert_eq!(graph.crates[0].version, "0.0.0");
}

#[test]
fn sibling_file_becomes_submodule() {
    let disk = single_package("p")
        .file("proj/src/lib.rs", "mod foo;")
        .file("proj/src/foo.rs", "fn inside() {}");
    let (graph, _) = scan_disk("proj", &disk);
    let root = &graph.crates[0].root_module;
    let foo = child(root, "foo").expect("submodule foo");
    assert_eq!(foo.file.as_ref().unwrap().path, "proj/src/foo.rs");
    assert_eq!(foo.path.as_deref(), Some("proj/src"));
}

#[test]
fn directory_module_becomes_submodule() {
    let disk = single_package("p")
        .file("proj/src/lib.rs", "mod foo;")
        .dir("proj/src/foo")
        .file("proj/src/foo/mod.rs", "mod inner;")
        .file("proj/src/foo/inner.rs", "fn deep() {}");
    let (graph, _) = scan_disk("proj", &disk);
    let root = &graph.crates[0].root_module;
    let foo = child(root, "foo").expect("submodule foo");
    assert_eq!(foo.file.as_ref().unwrap().path, "proj/src/foo/mod.rs");
    assert_eq!(foo.path.as_deref(), Some("proj/src/foo"));
    let inner = child(foo, "inner").expect("submodule inner");
    assert_eq!(inner.file.as_ref().unwrap().path, "proj/src/foo/inner.rs");
}

#[test]
fn file_wins_over_directory() {
    let disk = single_package("p")
        .file("proj/src/lib.rs", "mod foo;")
        .file("proj/src/foo.rs", "")
        .dir("proj/src/foo")
        .file("proj/src/foo/mod.rs", "");
    let (graph, asked) = scan_disk("proj", &disk);
    let foo = child(&graph.crates[0].root_module, "foo").unwrap();
    assert_eq!(foo.file.as_ref().unwrap().path, "proj/src/foo.rs");
    assert!(!asked.contains(&Query::Exists("proj/src/foo/mod.rs".to_string())));
}

#[test]
fn missing_module_file_is_dropped() {
    let disk = single_package("p")
        .file("proj/src/lib.rs", "mod foo;\nmod bar;")
        .file("proj/src/bar.rs", "");
    let (graph, _) = scan_disk("proj", &disk);
    let root = &graph.crates[0].root_module;
    assert!(child(root, "foo").is_none());
    assert!(child(root, "bar").is_some());
    assert_eq!(root.submodules.len(), 1);
}

#[test]
fn inline_module_is_not_resolved() {
    let disk = single_package("p")
        .file("proj/src/lib.rs", "mod foo { fn hidden() {} }")
        .file("proj/src/foo.rs", "fn other() {}");
    let (graph, asked) = scan_disk("proj", &disk);
    let root = &graph.crates[0].root_module;
    assert!(root.submodules.is_empty());
    assert!(!asked.contains(&Query::Exists("proj/src/foo.rs".to_string())));
}

#[test]
fn submodules_keep_declaration_order() {
    let disk = single_package("p")
        .file("proj/src/lib.rs", "mod zebra;\nmod apple;\nmod mango;")
        .file("proj/src/apple.rs", "")
        .file("proj/src/mango.rs", "")
        .file("proj/src/zebra.rs", "");
    let (graph, _) = scan_disk("proj", &disk);
    let names: Vec<&str> =
        graph.crates[0].root_module.submodules.iter().map(|m| m.name.as_str()).collect();
    assert_eq!(names, vec!["zebra", "apple", "mango"]);
}

#[test]
fn file_convention_keeps_search_directory() {
    let disk = single_package("p")
        .file("proj/src/lib.rs", "mod a;\nmod b;")
        .file("proj/src/a.rs", "mod b;")
        .file("proj/src/b.rs", "fn leaf() {}");
    let (graph, _) = scan_disk("proj", &disk);
    let root = &graph.crates[0].root_module;
    let a = child(root, "a").unwrap();
    let nested = child(a, "b").expect("b below a");
    assert_eq!(nested.file.as_ref().unwrap().path, "proj/src/b.rs");
    let direct = child(root, "b").expect("b below the root");
    assert_eq!(direct.file.as_ref().unwrap().path, "proj/src/b.rs");
}

#[test]
fn module_that_declares_itself_is_not_entered_again() {
    let disk = single_package("p").file("proj/src/lib.rs", "mod lib;\nfn f() {}");
    let (graph, _) = scan_disk("proj", &disk);
    let root = &graph.crates[0].root_module;
    assert_eq!(root.file.as_ref().unwrap().path, "proj/src/lib.rs");
    assert!(root.submodules.is_empty());
}

#[test]
fn cycle_between_two_files_ends() {
    let disk = single_package("p")
        .file("proj/src/lib.rs", "mod a;")
        .file("proj/src/a.rs", "mod b;")
        .file("proj/src/b.rs", "mod a;");
    let (graph, _) = scan_disk("proj", &disk);
    let root = &graph.crates[0].root_module;
    let a = child(root, "a").unwrap();
    let b = child(a, "b").unwrap();
    assert!(b.submodules.is_empty());
}

#[test]
fn unparsable_file_keeps_digest_without_snapshot() {
    let disk = single_package("p")
        .file("proj/src/lib.rs", "mod broken;\nmod fine;")
        .file("proj/src/broken.rs", "fn {{{ mod inner;")
        .file("proj/src/fine.rs", "fn ok() {}");
    let (graph, _) = scan_disk("proj", &disk);
    let root = &graph.crates[0].root_module;
    let broken = child(root, "broken").unwrap();
    let file = broken.file.as_ref().unwrap();
    assert!(file.snapshot.is_none());
    assert_eq!(file.hash.len(), 64);
    assert!(broken.submodules.is_empty());
    assert!(child(root, "fine").unwrap().file.as_ref().unwrap().snapshot.is_some());
}

#[test]
fn unreadable_file_counts_as_empty() {
    let disk = single_package("p").file("proj/src/lib.rs", "mod ghost;").dir("proj/src/ghost.rs");
    let (graph, _) = scan_disk("proj", &disk);
    let ghost = child(&graph.crates[0].root_module, "ghost").unwrap();
    let file = ghost.file.as_ref().unwrap();
    assert_eq!(file.hash, EMPTY_DIGEST);
    let snapshot = file.snapshot.as_ref().unwrap();
    assert!(snapshot.functions.is_empty());
}

#[test]
fn workspace_with_literal_members() {
    let disk = Disk::new()
        .dir("ws")
        .manifest(
            "ws/Cargo.toml",
            Manifest::Workspace(vec!["one".to_string(), "nested/two".to_string(), "gone".to_string()]),
        )
        .dir("ws/one")
        .manifest("ws/one/Cargo.toml", Manifest::Package("one".to_string(), Some("0.1.0".to_string())))
        .file("ws/one/src/lib.rs", "fn a() {}")
        .dir("ws/nested/two")
        .manifest("ws/nested/two/Cargo.toml", Manifest::Package("two".to_string(), Some("0.2.0".to_string())))
        .file("ws/nested/two/src/main.rs", "fn main() {}");
    let (graph, _) = scan_disk("ws", &disk);
    let names: Vec<&str> = graph.crates.iter().map(|c| c.name.as_str()).collect();
    assert_eq!(names, vec!["one", "two"]);
    assert_eq!(graph.crates[0].path, "ws/one");
    assert_eq!(graph.crates[1].path, "ws/nested/two");
    assert_eq!(graph.crates[1].root_module.file.as_ref().unwrap().path, "ws/nested/two/src/main.rs");
}

#[test]
fn workspace_with_wildcard_member() {
    let disk = Disk::new()
        .dir("ws")
        .manifest("ws/Cargo.toml", Manifest::Workspace(vec!["crates/*".to_string()]))
        .dir("ws/crates")
        .dir("ws/crates/alpha")
        .manifest("ws/crates/alpha/Cargo.toml", Manifest::Package("alpha".to_string(), Some("1.0.0".to_string())))
        .file("ws/crates/alpha/src/lib.rs", "")
        .dir("ws/crates/docs")
        .file("ws/crates/docs/readme.rs", "")
        .dir("ws/crates/beta")
        .manifest("ws/crates/beta/Cargo.toml", Manifest::Package("beta".to_string(), Some("1.0.0".to_string())))
        .file("ws/crates/beta/src/lib.rs", "")
        .file("ws/crates/stray.rs", "");
    let (graph, asked) = scan_disk("ws", &disk);
    let names: Vec<&str> = graph.crates.iter().map(|c| c.name.as_str()).collect();
    assert_eq!(names, vec!["alpha", "beta"]);
    assert_eq!(graph.crates[0].path, "ws/crates/alpha");
    assert!(asked.contains(&Query::Entries("ws/crates/".to_string())));
}

#[test]
fn workspace_wildcard_without_directory_is_skipped() {
    let disk = Disk::new()
        .dir("ws")
        .manifest("ws/Cargo.toml", Manifest::Workspace(vec!["absent/*".to_string()]));
    let (graph, _) = scan_disk("ws", &disk);
    assert!(graph.crates.is_empty());
}

#[test]
fn workspace_takes_precedence_over_package() {
    let disk = Disk::new()
        .dir("ws")
        .manifest("ws/Cargo.toml", Manifest::Workspace(vec![]))
        .file("ws/src/lib.rs", "fn a() {}");
    let (graph, _) = scan_disk("ws", &disk);
    assert!(graph.crates.is_empty());
}

#[test]
fn scan_asks_for_the_manifest_first() {
    let engine = TraversalEngine::new("proj".to_string());
    let observed = Observations::new();
    assert_eq!(engine.scan(&observed), Err(Query::Exists("proj/Cargo.toml".to_string())));
}

#[test]
fn scan_is_repeatable() {
    let disk = single_package("p")
        .file("proj/src/lib.rs", "mod a;")
        .file("proj/src/a.rs", "fn f() {}");
    let (first, _) = scan_disk("proj", &disk);
    let (second, _) = scan_disk("proj", &disk);
    assert_eq!(first, second);
}

fn furnace_itself() -> Disk {
    Disk::new()
        .dir(".")
        .dir("./src")
        .dir("./target")
        .dir("./target/debug")
        .file("./target/debug/build.rs", "fn generated() {}")
        .manifest("./Cargo.toml", Manifest::Package("furnace".to_string(), Some("0.1.0".to_string())))
        .file(
            "./src/lib.rs",
            "pub mod ai_linting;\npub mod config;\npub mod engine;\npub mod graph;\npub mod linting;\npub mod output;\npub mod types;\npub mod visitor;\n",
        )
        .file("./src/main.rs", "fn main() {}")
        .file("./src/ai_linting.rs", "pub enum AIProvider { OpenAI { model: String }, Google { model: String } }")
        .file("./src/config.rs", "pub struct StyleLints { pub warn_todo_comments: Option<bool> }")
        .file("./src/engine.rs", "pub struct TraversalEngine { root: String }\nimpl TraversalEngine { pub fn new(root: String) -> Self { Self { root } } }")
        .file("./src/graph.rs", "pub struct ProjectGraph { pub crates: Vec<u8> }")
        .file("./src/linting.rs", "fn is_snake_case(s: &str) -> bool { let t = s; true }")
        .file("./src/output.rs", "pub enum Layout { Plain, Tree, Grid, Compact }")
        .file("./src/types.rs", "pub struct TraitSnapshot { pub name: String, pub methods: Vec<String> }")
        .file("./src/visitor.rs", "pub struct SnapshotVisitor { pub functions: Vec<u8> }")
}

#[test]
fn test_engine_scans_furnace_project() {
    let (graph, _) = scan_disk(".", &furnace_itself());

    assert!(!graph.crates.is_empty(), "Should find at least one crate");
    assert_eq!(graph.crates[0].name, "furnace");
    assert_eq!(graph.crates[0].root_module.name, "crate");
}

#[test]
fn test_engine_discovers_modules() {
    let (graph, _) = scan_disk(".", &furnace_itself());

    let root_module = &graph.crates[0].root_module;
    assert!(!root_module.submodules.is_empty(), "Should find submodules");

    let module_names: Vec<String> = root_module.submodules.iter().map(|m| m.name.clone()).collect();

    assert!(module_names.contains(&"types".to_string()), "Should find types module");
    assert!(module_names.contains(&"config".to_string()), "Should find config module");
    assert!(module_names.contains(&"engine".to_string()), "Should find engine module");
}

#[test]
fn test_engine_ignores_target() {
    let (graph, _) = scan_disk(".", &furnace_itself());

    fn collect_paths(module: &ModuleNode, paths: &mut Vec<String>) {
        if let Some(file) = &module.file {
            paths.push(file.path.clone());
        }
        for submodule in &module.submodules {
            collect_paths(submodule, paths);
        }
    }

    let mut all_paths = Vec::new();
    for crate_node in &graph.crates {
        collect_paths(&crate_node.root_module, &mut all_paths);
    }
    assert!(!all_paths.is_empty());

    for path in &all_paths {
        assert!(!path.contains("/target/"), "Should not scan target directory, but found: {}", path);
    }
}

#[test]
fn test_file_hashing() {
    let (graph, _) = scan_disk(".", &furnace_itself());

    if let Some(file) = &graph.crates[0].root_module.file {
        assert!(!file.hash.is_empty(), "File should have a hash");
        assert_eq!(file.hash.len(), 64, "SHA256 hash should be 64 hex characters");
    }
}

#[test]
fn test_snapshots_contain_data() {
    let (graph, _) = scan_disk(".", &furnace_itself());

    let mut found_snapshot = false;

    fn check_snapshots(module: &ModuleNode) -> bool {
        if let Some(file) = &module.file {
            if file.snapshot.is_some() {
                return true;
            }
        }
        module.submodules.iter().any(check_snapshots)
    }

    for crate_node in &graph.crates {
        if check_snapshots(&crate_node.root_module) {
            found_snapshot = true;
            break;
        }
    }

    assert!(found_snapshot, "Should find at least one snapshot with parsed content");
}

#[test]
fn flattening_follows_the_module_tree() {
    let disk = single_package("p")
        .file("proj/src/lib.rs", "mod a;\nmod c;")
        .file("proj/src/a.rs", "mod b;")
        .file("proj/src/b.rs", "")
        .file("proj/src/c.rs", "fn {");
    let (graph, _) = scan_disk("proj", &disk);
    let mut snapshots: Vec<RustFileSnapshot> = vec![];
    for crate_node in &graph.crates {
        collect_snapshots(&crate_node.root_module, &mut snapshots, &[]);
    }
    let paths: Vec<&str> = snapshots.iter().map(|s| s.path.as_str()).collect();
    assert_eq!(paths, vec!["proj/src/lib.rs", "proj/src/a.rs", "proj/src/b.rs"]);
}

#[test]
fn questions_come_in_the_order_of_the_walk() {
    let disk = Disk::new()
        .dir("ws")
        .manifest("ws/Cargo.toml", Manifest::Workspace(vec!["libs/*".to_string()]))
        .dir("ws/libs")
        .dir("ws/libs/a")
        .manifest("ws/libs/a/Cargo.toml", Manifest::Package("a".to_string(), None))
        .file("ws/libs/a/src/main.rs", "mod m;")
        .dir("ws/libs/a/src/m")
        .file("ws/libs/a/src/m/mod.rs", "");
    let (graph, asked) = scan_disk("ws", &disk);
    assert_eq!(graph.crates.len(), 1);
    let exists = |p: &str| Query::Exists(p.to_string());
    assert_eq!(
        asked,
        vec![
            exists("ws/Cargo.toml"),
            Query::Manifest("ws/Cargo.toml".to_string()),
            exists("ws/libs/*"),
            exists("ws/libs/"),
            Query::Entries("ws/libs/".to_string()),
            exists("ws/libs/a/Cargo.toml"),
            Query::Manifest("ws/libs/a/Cargo.toml".to_string()),
            exists("ws/libs/a/src/lib.rs"),
            exists("ws/libs/a/src/main.rs"),
            Query::Source("ws/libs/a/src/main.rs".to_string()),
            exists("ws/libs/a/src/m.rs"),
            exists("ws/libs/a/src/m/mod.rs"),
            Query::Source("ws/libs/a/src/m/mod.rs".to_string()),
        ]
    );
}

#[test]
fn records_can_be_made_by_hand() {
    let engine = TraversalEngine::new("p".to_string());
    let mut observed = Observations::new();
    observed.record_presence("p/Cargo.toml".to_string(), true);
    observed.record_manifest(
        "p/Cargo.toml".to_string(),
        Some(ManifestSummary {
            package: Some(PackageSummary { name: "p".to_string(), version: None }),
            workspace: None,
        }),
    );
    observed.record_presence("p/src/lib.rs".to_string(), true);
    let items = vec![
        SourceItem::Module(ModuleItem { name: "kept".to_string(), inline: false }),
        SourceItem::Module(ModuleItem { name: "inline".to_string(), inline: true }),
    ];
    let record = TraversalEngine::ingest("p/src/lib.rs", "mod kept;", Some(&items));
    assert_eq!(record.modules, vec!["kept".to_string()]);
    assert_eq!(record.file, TraversalEngine::create_file_node("p/src/lib.rs", "mod kept;", Some(&items)));
    observed.record_source("p/src/lib.rs".to_string(), record);
    assert_eq!(engine.scan(&observed), Err(Query::Exists("p/src/kept.rs".to_string())));
    observed.record_presence("p/src/kept.rs".to_string(), false);
    assert_eq!(engine.scan(&observed), Err(Query::Exists("p/src/kept/mod.rs".to_string())));
    observed.record_presence("p/src/kept/mod.rs".to_string(), false);
    let graph = engine.scan(&observed).expect("every answer is there");
    assert_eq!(graph.crates[0].version, "0.0.0");
    assert!(graph.crates[0].root_module.submodules.is_empty());
    observed.record_presence("p/src/kept.rs".to_string(), true);
    assert_eq!(engine.scan(&observed), Err(Query::Source("p/src/kept.rs".to_string())));
    let unparsed = TraversalEngine::ingest("p/src/kept.rs", "???", None);
    assert!(unparsed.file.snapshot.is_none() && unparsed.modules.is_empty());
    observed.record_source("p/src/kept.rs".to_string(), unparsed);
    let graph = engine.scan(&observed).expect("every answer is there");
    assert_eq!(graph.crates[0].root_module.submodules.len(), 1);
}

const EMPTY_DIGEST: &str = "e3b0c44298fc1c149afbf4c8996fb92427ae41e4649b934ca495991b7852b855";

#[test]
fn file_that_is_no_text_counts_as_empty() {
    let disk = single_package("p")
        .file("proj/src/lib.rs", "mod blob;\nmod text;")
        .binary("proj/src/blob.rs", &[b'f', b'n', 0xff, 0xfe, b' ', 0xc3])
        .file("proj/src/text.rs", "fn é() {}");
    let (graph, _) = scan_disk("proj", &disk);
    let root = &graph.crates[0].root_module;
    let blob = child(root, "blob").unwrap().file.as_ref().unwrap();
    assert_eq!(blob.hash, EMPTY_DIGEST);
    assert_eq!(blob.snapshot.as_ref().map(|s| s.functions.len()), Some(0));
    let text = child(root, "text").unwrap().file.as_ref().unwrap();
    assert_eq!(text.hash, furnace::digest::hash_bytes("fn é() {}".as_bytes()));
    assert_eq!(text.snapshot.as_ref().unwrap().functions[0].name, "é");
}

#[test]
fn raw_bytes_become_text() {
    assert_eq!(TraversalEngine::decode_file(None), "");
    assert_eq!(TraversalEngine::decode_file(Some(b"")), "");
    assert_eq!(TraversalEngine::decode_file(Some("mod a; // ünï".as_bytes())), "mod a; // ünï");
    assert_eq!(TraversalEngine::decode_file(Some(&[0x66, 0x80])), "");
    assert_eq!(TraversalEngine::decode_file(Some(&[0xed, 0xa0, 0x80])), "");
    assert_eq!(TraversalEngine::decode_file(Some(&[0xc0, 0xaf])), "");
}

#[test]
fn sources_can_be_observed_as_text() {
    let mut observed = Observations::new();
    TraversalEngine::observe_source(&mut observed, "a.rs".to_string(), "mod b; fn f() {}");
    let record = observed.source(&"a.rs".to_string()).expect("the record is there");
    assert_eq!(record.modules, vec!["b".to_string()]);
    assert_eq!(record.file.path, "a.rs");
    assert_eq!(record, &TraversalEngine::read_source("a.rs", "mod b; fn f() {}"));
    assert!(observed.source(&"b.rs".to_string()).is_none());
    assert_eq!(observed.presence(&"a.rs".to_string()), None);
    observed.record_presence("a.rs".to_string(), false);
    observed.record_presence("a.rs".to_string(), true);
    assert_eq!(observed.presence(&"a.rs".to_string()), Some(true));
    observed.record_entries("d".to_string(), vec![DirEntry { name: "x".to_string(), is_dir: true }]);
    assert_eq!(observed.entries(&"d".to_string()).map(|e| e.len()), Some(1));
    observed.record_manifest("m".to_string(), None);
    assert_eq!(observed.manifest(&"m".to_string()), Some(&None));
    assert_eq!(observed.manifest(&"n".to_string()), None);
}

#[test]
fn unreadable_manifest_owes_a_diagnostic() {
    let disk = Disk::new()
        .dir("proj")
        .manifest("proj/Cargo.toml", Manifest::Malformed)
        .file("proj/src/lib.rs", "fn a() {}");
    let engine = TraversalEngine::new("proj".to_string());
    let mut observed = Observations::new();
    assert_eq!(engine.diagnostic(&observed), None);
    observed.record_presence("proj/Cargo.toml".to_string(), disk.has("proj/Cargo.toml"));
    assert_eq!(engine.diagnostic(&observed), None);
    observed.record_manifest("proj/Cargo.toml".to_string(), disk.summary("proj/Cargo.toml"));
    assert_eq!(
        engine.diagnostic(&observed),
        Some("Warning: Failed to parse proj/Cargo.toml: scanning as an empty project".to_string())
    );
    assert_eq!(engine.notice(&observed), None);
    let graph = engine.scan(&observed).expect("every answer is there");
    assert_eq!(graph.root_path, "proj");
    assert!(graph.crates.is_empty());
}

#[test]
fn readable_manifest_owes_no_diagnostic() {
    let engine = TraversalEngine::new("proj".to_string());
    let mut observed = Observations::new();
    observed.record_presence("proj/Cargo.toml".to_string(), true);
    observed.record_manifest(
        "proj/Cargo.toml".to_string(),
        Some(ManifestSummary { package: None, workspace: None }),
    );
    observed.record_manifest("proj/member/Cargo.toml".to_string(), None);
    assert_eq!(engine.diagnostic(&observed), None);
    assert_eq!(engine.notice(&observed), None);
}

#[test]
fn missing_manifest_owes_a_notice() {
    let engine = TraversalEngine::new("proj".to_string());
    let mut observed = Observations::new();
    assert_eq!(engine.notice(&observed), None);
    observed.record_presence("proj/Cargo.toml".to_string(), false);
    assert_eq!(
        engine.notice(&observed),
        Some(
            "Warning: No Cargo.toml found. Falling back to simple directory scan (not fully implemented in graph mode yet)."
                .to_string()
        )
    );
    assert_eq!(engine.diagnostic(&observed), None);
    assert!(engine.scan(&observed).expect("the graph is known").crates.is_empty());
}

#[test]
fn test_linting_integration() {
    let config = furnace::config::FurnaceConfig::default();
    let (graph, _) = scan_disk(".", &furnace_itself());

    let mut snapshots = Vec::new();
    for crate_node in &graph.crates {
        collect_snapshots(&crate_node.root_module, &mut snapshots, &config.ignore);
    }
    assert!(!snapshots.is_empty());

    let _warnings = furnace::linting::lint_snapshots(&snapshots, &config.lints);

    let mut strict = furnace::config::LintConfig::default();
    strict.naming.enforce_snake_case_functions = Some(true);
    strict.naming.enforce_pascal_case_types = Some(true);
    strict.complexity.max_fields = Some(1);
    let warnings = furnace::linting::lint_snapshots(&snapshots, &strict);
    assert_eq!(
        warnings,
        vec![
            "Warning: Struct 'TraitSnapshot' in './src/types.rs' has 2 fields (max 1 recommended)"
                .to_string()
        ]
    );
}
