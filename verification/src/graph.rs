//! The project graph: crates, their module trees, and the files behind the
//! modules.
//!
//! Paths are texts with `/` between their components.

use vstd::prelude::*;
use crate::text::{contains_text, lemma_filter_map_distributes, text_contains};
use crate::types::{clone_optional, RustFileSnapshot, SnapshotModel};

verus! {

/// A source file: its path, the fingerprint of its content, and its snapshot.
/// The snapshot is absent when the file does not parse.
#[derive(Debug, PartialEq, Eq)]
pub struct FileNode {
    pub path: String,
    pub hash: String,
    pub snapshot: Option<RustFileSnapshot>,
}

/// A module: its name, the directory in which its children are looked for, the
/// file that defines it, and its child modules in declaration order.
#[derive(Debug, PartialEq, Eq)]
pub struct ModuleNode {
    pub name: String,
    pub path: Option<String>,
    pub file: Option<FileNode>,
    pub submodules: Vec<ModuleNode>,
}

/// A crate: its name, its version, its root directory and its root module.
#[derive(Debug, PartialEq, Eq)]
pub struct CrateNode {
    pub name: String,
    pub version: String,
    pub path: String,
    pub root_module: ModuleNode,
}

/// The whole project: its root directory and its crates, in discovery order.
#[derive(Debug, PartialEq, Eq)]
pub struct ProjectGraph {
    pub root_path: String,
    pub crates: Vec<CrateNode>,
}

/// Model of a [`FileNode`].
pub struct FileModel {
    pub path: Seq<char>,
    pub hash: Seq<char>,
    pub snapshot: Option<SnapshotModel>,
}

/// Model of a [`ModuleNode`].
pub struct ModuleModel {
    pub name: Seq<char>,
    pub path: Option<Seq<char>>,
    pub file: Option<FileModel>,
    pub submodules: Seq<ModuleModel>,
}

/// Model of a [`CrateNode`].
pub struct CrateModel {
    pub name: Seq<char>,
    pub version: Seq<char>,
    pub path: Seq<char>,
    pub root_module: ModuleModel,
}

/// Model of a [`ProjectGraph`].
pub struct GraphModel {
    pub root_path: Seq<char>,
    pub crates: Seq<CrateModel>,
}

impl View for FileNode {
    type V = FileModel;

    open spec fn view(&self) -> FileModel {
        FileModel { path: self.path@, hash: self.hash@, snapshot: self.snapshot.deep_view() }
    }
}

impl DeepView for FileNode {
    type V = FileModel;

    open spec fn deep_view(&self) -> FileModel {
        self@
    }
}

/// The model of a module: its own data and the models of its children.
pub open spec fn module_model(m: ModuleNode) -> ModuleModel
    decreases m,
{
    ModuleModel {
        name: m.name@,
        path: m.path.deep_view(),
        file: m.file.deep_view(),
        submodules: Seq::new(
            m.submodules@.len(),
            |i: int|
                if 0 <= i < m.submodules@.len() {
                    module_model(m.submodules@[i])
                } else {
                    arbitrary()
                },
        ),
    }
}

impl View for ModuleNode {
    type V = ModuleModel;

    open spec fn view(&self) -> ModuleModel {
        module_model(*self)
    }
}

impl DeepView for ModuleNode {
    type V = ModuleModel;

    open spec fn deep_view(&self) -> ModuleModel {
        self@
    }
}

impl View for CrateNode {
    type V = CrateModel;

    open spec fn view(&self) -> CrateModel {
        CrateModel {
            name: self.name@,
            version: self.version@,
            path: self.path@,
            root_module: self.root_module@,
        }
    }
}

impl DeepView for CrateNode {
    type V = CrateModel;

    open spec fn deep_view(&self) -> CrateModel {
        self@
    }
}

impl View for ProjectGraph {
    type V = GraphModel;

    open spec fn view(&self) -> GraphModel {
        GraphModel { root_path: self.root_path@, crates: self.crates.deep_view() }
    }
}

impl DeepView for ProjectGraph {
    type V = GraphModel;

    open spec fn deep_view(&self) -> GraphModel {
        self@
    }
}

/// The model of a module lists the models of its children.
pub proof fn lemma_module_children(m: ModuleNode)
    ensures
        m@.submodules == m.submodules.deep_view(),
{
}

impl Clone for FileNode {
    fn clone(&self) -> (r: Self)
        ensures
            r@ == self@,
    {
        let snapshot = match &self.snapshot {
            Some(s) => Some(s.clone()),
            None => None,
        };
        FileNode { path: self.path.clone(), hash: self.hash.clone(), snapshot }
    }
}

impl Clone for ModuleNode {
    fn clone(&self) -> (r: Self)
        ensures
            r@ == self@,
        decreases self,
    {
        let mut submodules: Vec<ModuleNode> = Vec::new();
        let mut i: usize = 0;
        while i < self.submodules.len()
            invariant
                i <= self.submodules.len(),
                submodules.len() == i,
                forall|k: int| 0 <= k < i ==> submodules[k]@ == self.submodules[k]@,
            decreases self.submodules.len() - i,
        {
            submodules.push(self.submodules[i].clone());
            i += 1;
        }
        let file = match &self.file {
            Some(f) => Some(f.clone()),
            None => None,
        };
        let r = ModuleNode {
            name: self.name.clone(),
            path: clone_optional(&self.path),
            file,
            submodules,
        };
        assert(r@.submodules =~= self@.submodules);
        r
    }
}

impl Clone for CrateNode {
    fn clone(&self) -> (r: Self)
        ensures
            r@ == self@,
    {
        CrateNode {
            name: self.name.clone(),
            version: self.version.clone(),
            path: self.path.clone(),
            root_module: self.root_module.clone(),
        }
    }
}

impl Clone for ProjectGraph {
    fn clone(&self) -> (r: Self)
        ensures
            r@ == self@,
    {
        let r = ProjectGraph { root_path: self.root_path.clone(), crates: self.crates.clone() };
        r
    }
}

/// Whether a path holds one of the exclusion patterns.
pub open spec fn is_ignored(path: Seq<char>, ignore: Seq<Seq<char>>) -> bool {
    exists|k: int| 0 <= k < ignore.len() && contains_text(path, #[trigger] ignore[k])
}

/// The files of a module tree, depth first, each module before its children.
pub open spec fn module_files(m: ModuleModel) -> Seq<FileModel>
    decreases m, 1int,
{
    let own = match m.file {
        Some(f) => seq![f],
        None => Seq::empty(),
    };
    own + forest_files(m.submodules)
}

/// The files of a run of module trees, tree after tree.
pub open spec fn forest_files(modules: Seq<ModuleModel>) -> Seq<FileModel>
    decreases modules, 0int,
{
    if modules.len() == 0 {
        Seq::empty()
    } else {
        forest_files(modules.drop_last()) + module_files(modules.last())
    }
}

/// The snapshot that a file contributes to the flattened list: its own, unless
/// its path is excluded or it has none.
pub open spec fn selected(f: FileModel, ignore: Seq<Seq<char>>) -> Option<SnapshotModel> {
    if is_ignored(f.path, ignore) {
        None
    } else {
        f.snapshot
    }
}

/// The snapshots of a run of files, without those of excluded paths.
pub open spec fn selected_snapshots(files: Seq<FileModel>, ignore: Seq<Seq<char>>) -> Seq<
    SnapshotModel,
> {
    files.filter_map(|f: FileModel| selected(f, ignore))
}

/// The flattened list of a module tree: the snapshots of its files, depth
/// first, without the files whose path holds an exclusion pattern.
pub open spec fn flattened(m: ModuleModel, ignore: Seq<Seq<char>>) -> Seq<SnapshotModel> {
    selected_snapshots(module_files(m), ignore)
}

/// Tells whether a path holds one of the exclusion patterns.
pub fn path_is_ignored(path: &str, ignore: &[String]) -> (ignored: bool)
    ensures
        ignored == is_ignored(path@, ignore.deep_view()),
{
    let mut k: usize = 0;
    while k < ignore.len()
        invariant
            k <= ignore.len(),
            forall|m: int| 0 <= m < k ==> !contains_text(path@, #[trigger] ignore.deep_view()[m]),
        decreases ignore.len() - k,
    {
        if text_contains(path, ignore[k].as_str()) {
            assert(contains_text(path@, ignore.deep_view()[k as int]));
            return true;
        }
        k += 1;
    }
    false
}

/// Appends to `snapshots` the flattened list of a module tree: copies of the
/// snapshots of its files, depth first, each module before its children,
/// leaving out every file whose path holds one of the patterns of `ignore`.
pub fn collect_snapshots(
    module: &ModuleNode,
    snapshots: &mut Vec<RustFileSnapshot>,
    ignore: &[String],
)
    ensures
        final(snapshots).deep_view() == old(snapshots).deep_view() + flattened(
            module@,
            ignore.deep_view(),
        ),
    decreases module,
{
    let ghost patterns = ignore.deep_view();
    let ghost own: Seq<FileModel> = match module@.file {
        Some(f) => seq![f],
        None => Seq::empty(),
    };
    if let Some(file_node) = &module.file {
        if !path_is_ignored(file_node.path.as_str(), ignore) {
            if let Some(snap) = &file_node.snapshot {
                snapshots.push(snap.clone());
            }
        }
        proof {
            Seq::lemma_filter_map_singleton(file_node@, |f: FileModel| selected(f, patterns));
        }
    }
    let ghost base = snapshots.deep_view();
    let mut i: usize = 0;
    while i < module.submodules.len()
        invariant
            i <= module.submodules.len(),
            patterns == ignore.deep_view(),
            module@.submodules == module.submodules.deep_view(),
            snapshots.deep_view() == base + selected_snapshots(
                forest_files(module@.submodules.take(i as int)),
                patterns,
            ),
        decreases module.submodules.len() - i,
    {
        collect_snapshots(&module.submodules[i], snapshots, ignore);
        proof {
            let children = module@.submodules;
            let next = children.take(i + 1);
            assert(next.drop_last() =~= children.take(i as int));
            lemma_selected_distributes(
                forest_files(children.take(i as int)),
                module_files(next.last()),
                patterns,
            );
        }
        i += 1;
    }
    proof {
        assert(module@.submodules.take(module.submodules.len() as int) =~= module@.submodules);
        lemma_selected_distributes(own, forest_files(module@.submodules), patterns);
    }
}

/// The selection of two runs of files, one after the other, is the selection
/// of the first followed by that of the second.
pub proof fn lemma_selected_distributes(
    a: Seq<FileModel>,
    b: Seq<FileModel>,
    ignore: Seq<Seq<char>>,
)
    ensures
        selected_snapshots(a + b, ignore) == selected_snapshots(a, ignore) + selected_snapshots(
            b,
            ignore,
        ),
{
    lemma_filter_map_distributes(a, b, |f: FileModel| selected(f, ignore));
}

/// Exclusion removes exactly the files whose path holds a pattern, and no
/// others: the selection from a run of files is what the files whose path
/// holds no pattern contribute, in the same order.
pub proof fn lemma_selection_keeps_exactly_unmatched(files: Seq<FileModel>, ignore: Seq<Seq<char>>)
    ensures
        selected_snapshots(files, ignore) == files.filter(
            |f: FileModel| !is_ignored(f.path, ignore),
        ).filter_map(|f: FileModel| f.snapshot),
    decreases files.len(),
{
    let kept = |f: FileModel| !is_ignored(f.path, ignore);
    reveal(Seq::filter);
    if files.len() > 0 {
        let rest = files.drop_last();
        let last = files.last();
        lemma_selection_keeps_exactly_unmatched(rest, ignore);
        if kept(last) {
            let chosen = rest.filter(kept).push(last);
            assert(chosen.drop_last() =~= rest.filter(kept));
        }
    }
}

/// The flattened list of a module tree holds the snapshots of exactly those of
/// its files whose path holds none of the exclusion patterns, depth first.
pub proof fn lemma_flattened_keeps_exactly_unmatched(m: ModuleModel, ignore: Seq<Seq<char>>)
    ensures
        flattened(m, ignore) == module_files(m).filter(
            |f: FileModel| !is_ignored(f.path, ignore),
        ).filter_map(|f: FileModel| f.snapshot),
{
    lemma_selection_keeps_exactly_unmatched(module_files(m), ignore);
}

/// Without exclusion patterns the flattened list holds the snapshot of every
/// file that has one.
pub proof fn lemma_flattened_without_patterns(m: ModuleModel)
    ensures
        flattened(m, Seq::empty()) == module_files(m).filter_map(|f: FileModel| f.snapshot),
{
    let none: Seq<Seq<char>> = Seq::empty();
    assert forall|f: FileModel| selected(f, none) == f.snapshot by {}
    assert((|f: FileModel| selected(f, none)) =~= (|f: FileModel| f.snapshot));
}

} // verus!
