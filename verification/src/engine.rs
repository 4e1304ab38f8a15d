//! The scan: from what has been observed of a project to its graph.
//!
//! The scan reads the file system through [`Observations`] alone. Where an
//! answer is missing it stops and names the question; once every answer it
//! needs is there, it yields the graph.

use vstd::prelude::*;
use vstd::string::StringExecFns;
use crate::digest::{content_digest, hash_text};
use crate::graph::{
    CrateModel, CrateNode, FileModel, FileNode, GraphModel, ModuleModel, ModuleNode, ProjectGraph,
};
use crate::observed::{
    DirEntry, EntryModel, ManifestModel, ObservedModel, Observations, PackageModel, Query,
    QueryModel, SourceModel, SourceRecord,
};
use crate::parse::{parse_source, parses, read_text};
use crate::paths::{join_path, joined};
use crate::syntax::{SourceItem, SourceItemModel};
use crate::text::{split_before, text_before};
use crate::types::SnapshotModel;
use crate::visitor::{file_snapshot, snapshot_of};

verus! {

/// How many known source files are not on the path from the root module.
pub open spec fn unvisited(obs: ObservedModel, on_path: Set<Seq<char>>) -> nat {
    obs.sources.dom().difference(on_path).len()
}

/// Entering a known file that is not on the path leaves fewer files to enter.
pub proof fn lemma_unvisited_decreases(
    obs: ObservedModel,
    on_path: Set<Seq<char>>,
    file: Seq<char>,
)
    requires
        obs.sources.dom().finite(),
        obs.sources.contains_key(file),
        !on_path.contains(file),
    ensures
        unvisited(obs, on_path.insert(file)) < unvisited(obs, on_path),
{
    let left = obs.sources.dom().difference(on_path);
    assert(obs.sources.dom().difference(on_path.insert(file)) =~= left.remove(file));
}

/// The file that defines the module `name` by the file-name convention.
pub open spec fn file_candidate(dir: Seq<char>, name: Seq<char>) -> Seq<char> {
    joined(dir, name + ".rs"@)
}

/// The file that defines the module `name` by the directory convention.
pub open spec fn directory_candidate(dir: Seq<char>, name: Seq<char>) -> Seq<char> {
    joined(joined(dir, name), "mod.rs"@)
}

/// A recorded file as the graph shows it: the node and its snapshot carry
/// the path under which the file was found.
pub open spec fn located(file: FileModel, path: Seq<char>) -> FileModel {
    FileModel {
        path,
        hash: file.hash,
        snapshot: match file.snapshot {
            Some(snapshot) => Some(SnapshotModel { path, ..snapshot }),
            None => None,
        },
    }
}

/// The module `name` defined by the known file `file`, whose children are
/// looked for in `dir`. The path from the root module, `on_path`, holds `file`.
pub open spec fn scanned_module(
    obs: ObservedModel,
    name: Seq<char>,
    file: Seq<char>,
    dir: Seq<char>,
    on_path: Set<Seq<char>>,
) -> Result<ModuleModel, QueryModel>
    decreases
        unvisited(obs, on_path),
        (if obs.sources.contains_key(file) { obs.sources[file].modules.len() } else { 0 }),
        3int,
    when obs.sources.dom().finite()
{
    if !obs.sources.contains_key(file) {
        Err(QueryModel::Source(file))
    } else {
        let record = obs.sources[file];
        match resolved_children(obs, record.modules, dir, on_path) {
            Err(q) => Err(q),
            Ok(children) => Ok(
                ModuleModel {
                    name,
                    path: Some(dir),
                    file: Some(located(record.file, file)),
                    submodules: children,
                },
            ),
        }
    }
}

/// What comes of `done` and of the steps still to take.
pub open spec fn continued<T>(done: Seq<T>, rest: Result<Seq<T>, QueryModel>) -> Result<
    Seq<T>,
    QueryModel,
> {
    match rest {
        Err(q) => Err(q),
        Ok(more) => Ok(done + more),
    }
}

/// The outcome of a run of steps: the first question that a step is stopped
/// by, or else what the steps yield, one after the other.
pub open spec fn gathered<T>(steps: Seq<Result<Seq<T>, QueryModel>>) -> Result<
    Seq<T>,
    QueryModel,
>
    decreases steps.len(),
{
    if steps.len() == 0 {
        Ok(Seq::empty())
    } else {
        match steps[0] {
            Err(q) => Err(q),
            Ok(first) => continued(first, gathered(steps.drop_first())),
        }
    }
}

/// A result that may hold one value, as a run of values.
pub open spec fn zero_or_one<T>(r: Result<Option<T>, QueryModel>) -> Result<Seq<T>, QueryModel> {
    match r {
        Err(q) => Err(q),
        Ok(Some(value)) => Ok(seq![value]),
        Ok(None) => Ok(Seq::empty()),
    }
}

/// The modules that the declarations `names` resolve to, in declaration
/// order. A declaration that resolves to nothing leaves no trace.
pub open spec fn resolved_children(
    obs: ObservedModel,
    names: Seq<Seq<char>>,
    dir: Seq<char>,
    on_path: Set<Seq<char>>,
) -> Result<Seq<ModuleModel>, QueryModel>
    decreases unvisited(obs, on_path), names.len(), 2int,
    when obs.sources.dom().finite()
{
    if names.len() == 0 {
        Ok(Seq::empty())
    } else {
        match zero_or_one(resolved_child(obs, names[0], dir, on_path)) {
            Err(q) => Err(q),
            Ok(first) => continued(first, resolved_children(obs, names.drop_first(), dir, on_path)),
        }
    }
}

/// The module that one declaration resolves to: the file `name.rs` in `dir`
/// if there is one, else the file `mod.rs` in the directory `name` of `dir` if
/// there is one, else nothing.
pub open spec fn resolved_child(
    obs: ObservedModel,
    name: Seq<char>,
    dir: Seq<char>,
    on_path: Set<Seq<char>>,
) -> Result<Option<ModuleModel>, QueryModel>
    decreases unvisited(obs, on_path), 0int, 1int,
    when obs.sources.dom().finite()
{
    let by_file = file_candidate(dir, name);
    let by_directory = directory_candidate(dir, name);
    if !obs.present.contains_key(by_file) {
        Err(QueryModel::Exists(by_file))
    } else if obs.present[by_file] {
        entered(obs, name, by_file, dir, on_path)
    } else if !obs.present.contains_key(by_directory) {
        Err(QueryModel::Exists(by_directory))
    } else if obs.present[by_directory] {
        entered(obs, name, by_directory, joined(dir, name), on_path)
    } else {
        Ok(None)
    }
}

/// The module `name` behind the existing file `file`. A file that is already
/// on the path from the root module is not entered again: the declaration
/// resolves to nothing.
pub open spec fn entered(
    obs: ObservedModel,
    name: Seq<char>,
    file: Seq<char>,
    dir: Seq<char>,
    on_path: Set<Seq<char>>,
) -> Result<Option<ModuleModel>, QueryModel>
    decreases unvisited(obs, on_path), 0int, 0int,
    when obs.sources.dom().finite()
{
    if on_path.contains(file) {
        Ok(None)
    } else if !obs.sources.contains_key(file) {
        Err(QueryModel::Source(file))
    } else {
        proof {
            lemma_unvisited_decreases(obs, on_path, file);
        }
        match scanned_module(obs, name, file, dir, on_path.insert(file)) {
            Err(q) => Err(q),
            Ok(m) => Ok(Some(m)),
        }
    }
}

/// The text of a file, from its raw bytes: the text that the bytes encode.
/// A file that cannot be read, or whose bytes are not well-formed UTF-8, counts
/// as empty.
pub open spec fn file_text(bytes: Option<Seq<u8>>) -> Seq<char> {
    match bytes {
        Some(bytes) => if vstd::utf8::valid_utf8(bytes) {
            vstd::utf8::decode_utf8(bytes)
        } else {
            Seq::empty()
        },
        None => Seq::empty(),
    }
}

/// The raw bytes of a file that was read, if it was.
pub open spec fn raw_bytes(bytes: Option<&[u8]>) -> Option<Seq<u8>> {
    match bytes {
        Some(bytes) => Some(bytes@),
        None => None,
    }
}

/// `std::str::from_utf8`: the text that the bytes encode, where they are
/// well-formed UTF-8; `None` where they are not.
#[verifier::external_body]
fn utf8_text(bytes: &[u8]) -> (text: Option<&str>)
    ensures
        text is Some <==> vstd::utf8::valid_utf8(bytes@),
        text matches Some(t) ==> t@ == vstd::utf8::decode_utf8(bytes@),
{
    std::str::from_utf8(bytes).ok()
}

/// The name of a module that an item declares without a body.
pub open spec fn bodyless_module(item: SourceItemModel) -> Option<Seq<char>> {
    match item {
        SourceItemModel::Module(m) => if m.inline {
            None
        } else {
            Some(m.name)
        },
        _ => None,
    }
}

/// The child modules that a file announces: the modules declared without a
/// body at its top level, in declaration order.
pub open spec fn declared_modules(items: Seq<SourceItemModel>) -> Seq<Seq<char>> {
    items.filter_map(|item: SourceItemModel| bodyless_module(item))
}

/// The declarations of a parsed file, if the file parsed.
pub open spec fn parsed_items(
    items: Option<&Vec<SourceItem>>,
) -> Option<Seq<SourceItemModel>> {
    match items {
        Some(items) => Some(items.deep_view()),
        None => None,
    }
}

/// The node of the file at `path` with the text `content`, whose parse
/// yielded `items`: the fingerprint of the bytes of the text and, where the
/// file parsed, the snapshot of its declarations.
pub open spec fn file_model(
    path: Seq<char>,
    content: Seq<char>,
    items: Option<Seq<SourceItemModel>>,
) -> FileModel {
    FileModel {
        path,
        hash: content_digest(vstd::utf8::encode_utf8(content)),
        snapshot: match items {
            Some(items) => Some(file_snapshot(path, items)),
            None => None,
        },
    }
}

/// What ingesting a file records: its node and the child modules that it
/// announces. A file that did not parse announces none.
pub open spec fn source_model(
    path: Seq<char>,
    content: Seq<char>,
    items: Option<Seq<SourceItemModel>>,
) -> SourceModel {
    SourceModel {
        file: file_model(path, content, items),
        modules: match items {
            Some(items) => declared_modules(items),
            None => Seq::empty(),
        },
    }
}

/// What reading the file at `path` with the text `content` records: its node,
/// with the snapshot of what the text parses to, and the child modules that
/// it announces.
pub open spec fn read_model(path: Seq<char>, content: Seq<char>) -> SourceModel {
    source_model(path, content, read_text(content))
}

/// The version of a package; `0.0.0` where its manifest states none.
pub open spec fn package_version(package: PackageModel) -> Seq<char> {
    match package.version {
        Some(version) => version,
        None => "0.0.0"@,
    }
}

/// The crate whose root module is defined by the file `entry`.
pub open spec fn crate_with_entry(
    obs: ObservedModel,
    package: PackageModel,
    crate_root: Seq<char>,
    entry: Seq<char>,
    src: Seq<char>,
) -> Result<Option<CrateModel>, QueryModel> {
    match scanned_module(obs, "crate"@, entry, src, set![entry]) {
        Err(q) => Err(q),
        Ok(root_module) => Ok(
            Some(
                CrateModel {
                    name: package.name,
                    version: package_version(package),
                    path: crate_root,
                    root_module,
                },
            ),
        ),
    }
}

/// The crate rooted at `crate_root`: the package that its manifest declares,
/// with the module tree below its entry file. The entry file is `lib.rs` in
/// the directory `src` if there is one, else `main.rs` there. A root without a
/// readable manifest, without a package or without an entry file is no crate.
pub open spec fn scanned_crate(obs: ObservedModel, crate_root: Seq<char>) -> Result<
    Option<CrateModel>,
    QueryModel,
> {
    let manifest = joined(crate_root, "Cargo.toml"@);
    let src = joined(crate_root, "src"@);
    let lib = joined(src, "lib.rs"@);
    let main = joined(src, "main.rs"@);
    if !obs.manifests.contains_key(manifest) {
        Err(QueryModel::Manifest(manifest))
    } else {
        match obs.manifests[manifest] {
            Some(ManifestModel { package: Some(package), workspace: _ }) => {
                if !obs.present.contains_key(lib) {
                    Err(QueryModel::Exists(lib))
                } else if obs.present[lib] {
                    crate_with_entry(obs, package, crate_root, lib, src)
                } else if !obs.present.contains_key(main) {
                    Err(QueryModel::Exists(main))
                } else if obs.present[main] {
                    crate_with_entry(obs, package, crate_root, main, src)
                } else {
                    Ok(None)
                }
            },
            _ => Ok(None),
        }
    }
}

/// The crate that one entry of a globbed directory contributes: the one
/// rooted at the entry, where the entry is a directory that holds a manifest.
pub open spec fn entry_crates(obs: ObservedModel, dir: Seq<char>, entry: EntryModel) -> Result<
    Seq<CrateModel>,
    QueryModel,
> {
    let path = joined(dir, entry.name);
    let manifest = joined(path, "Cargo.toml"@);
    if !entry.is_dir {
        Ok(Seq::empty())
    } else if !obs.present.contains_key(manifest) {
        Err(QueryModel::Exists(manifest))
    } else if obs.present[manifest] {
        zero_or_one(scanned_crate(obs, path))
    } else {
        Ok(Seq::empty())
    }
}

/// What each entry of a globbed directory contributes.
pub open spec fn entry_steps(obs: ObservedModel, dir: Seq<char>, entries: Seq<EntryModel>) -> Seq<
    Result<Seq<CrateModel>, QueryModel>,
> {
    Seq::new(entries.len(), |i: int| entry_crates(obs, dir, entries[i]))
}

/// The crates that one member entry of a workspace contributes. An entry
/// that names an existing path contributes the crate rooted there. Any other
/// entry with a `*` in it stands for the entries of the directory named before
/// its first `*`. An entry that matches nothing contributes nothing.
pub open spec fn member_crates(obs: ObservedModel, root: Seq<char>, member: Seq<char>) -> Result<
    Seq<CrateModel>,
    QueryModel,
> {
    let path = joined(root, member);
    let dir = joined(root, text_before(member, '*'));
    if !obs.present.contains_key(path) {
        Err(QueryModel::Exists(path))
    } else if obs.present[path] {
        zero_or_one(scanned_crate(obs, path))
    } else if !member.contains('*') {
        Ok(Seq::empty())
    } else if !obs.present.contains_key(dir) {
        Err(QueryModel::Exists(dir))
    } else if !obs.present[dir] {
        Ok(Seq::empty())
    } else if !obs.entries.contains_key(dir) {
        Err(QueryModel::Entries(dir))
    } else {
        gathered(entry_steps(obs, dir, obs.entries[dir]))
    }
}

/// What each member entry of a workspace contributes.
pub open spec fn member_steps(obs: ObservedModel, root: Seq<char>, members: Seq<Seq<char>>) -> Seq<
    Result<Seq<CrateModel>, QueryModel>,
> {
    Seq::new(members.len(), |i: int| member_crates(obs, root, members[i]))
}

/// The crates of the project rooted at `root`, as its manifest lays them out:
/// those of the member entries of a workspace, in order; or, without a
/// workspace, the single package rooted at `root`. A manifest that cannot be
/// read declares nothing.
pub open spec fn project_crates(obs: ObservedModel, root: Seq<char>) -> Result<
    Seq<CrateModel>,
    QueryModel,
> {
    let manifest = joined(root, "Cargo.toml"@);
    if !obs.manifests.contains_key(manifest) {
        Err(QueryModel::Manifest(manifest))
    } else {
        match obs.manifests[manifest] {
            Some(ManifestModel { package: _, workspace: Some(members) }) => gathered(
                member_steps(obs, root, members),
            ),
            Some(ManifestModel { package: Some(_), workspace: None }) => zero_or_one(
                scanned_crate(obs, root),
            ),
            _ => Ok(Seq::empty()),
        }
    }
}

/// The graph of the project rooted at `root`, or the first question that
/// needs an answer before the graph can be known. A project without a
/// manifest has an empty graph.
pub open spec fn scanned_project(obs: ObservedModel, root: Seq<char>) -> Result<
    GraphModel,
    QueryModel,
> {
    let manifest = joined(root, "Cargo.toml"@);
    if !obs.present.contains_key(manifest) {
        Err(QueryModel::Exists(manifest))
    } else if !obs.present[manifest] {
        Ok(GraphModel { root_path: root, crates: Seq::empty() })
    } else {
        match project_crates(obs, root) {
            Err(q) => Err(q),
            Ok(crates) => Ok(GraphModel { root_path: root, crates }),
        }
    }
}

/// The warning about a manifest that cannot be read.
pub open spec fn unreadable_manifest_warning(manifest: Seq<char>) -> Seq<char> {
    "Warning: Failed to parse "@ + manifest + ": scanning as an empty project"@
}

/// The diagnostic that goes with the scan of the project rooted at `root`: a
/// warning, if and only if the manifest of the project is on record as one
/// that cannot be read.
pub open spec fn manifest_diagnostic(obs: ObservedModel, root: Seq<char>) -> Option<Seq<char>> {
    let manifest = joined(root, "Cargo.toml"@);
    if obs.manifests.contains_key(manifest) && obs.manifests[manifest] is None {
        Some(unreadable_manifest_warning(manifest))
    } else {
        None
    }
}

/// The notice about a project without a manifest.
pub open spec fn missing_manifest_notice() -> Seq<char> {
    "Warning: No Cargo.toml found. "@ + "Falling back to simple directory scan "@
        + "(not fully implemented in graph mode yet)."@
}

/// The notice that goes with the scan of the project rooted at `root`: one
/// about the missing manifest, if and only if the manifest of the project is
/// on record as absent.
pub open spec fn manifest_notice(obs: ObservedModel, root: Seq<char>) -> Option<Seq<char>> {
    let manifest = joined(root, "Cargo.toml"@);
    if obs.present.contains_key(manifest) && !obs.present[manifest] {
        Some(missing_manifest_notice())
    } else {
        None
    }
}

/// What each declaration of `names` contributes to the list of children.
pub open spec fn child_steps(
    obs: ObservedModel,
    names: Seq<Seq<char>>,
    dir: Seq<char>,
    on_path: Set<Seq<char>>,
) -> Seq<Result<Seq<ModuleModel>, QueryModel>> {
    Seq::new(names.len(), |i: int| zero_or_one(resolved_child(obs, names[i], dir, on_path)))
}

/// The children of a module are what its declarations contribute, one after
/// the other.
pub proof fn lemma_children_by_steps(
    obs: ObservedModel,
    names: Seq<Seq<char>>,
    dir: Seq<char>,
    on_path: Set<Seq<char>>,
)
    requires
        obs.sources.dom().finite(),
    ensures
        resolved_children(obs, names, dir, on_path) == gathered(
            child_steps(obs, names, dir, on_path),
        ),
    decreases names.len(),
{
    if names.len() > 0 {
        lemma_children_by_steps(obs, names.drop_first(), dir, on_path);
        assert(child_steps(obs, names, dir, on_path).drop_first() =~= child_steps(
            obs,
            names.drop_first(),
            dir,
            on_path,
        ));
    }
}

/// The outcome of the steps from `i` on is that of step `i` followed by the
/// steps after it.
proof fn lemma_gathered_step<T>(steps: Seq<Result<Seq<T>, QueryModel>>, i: int)
    requires
        0 <= i < steps.len(),
    ensures
        gathered(steps.skip(i)) == (match steps[i] {
            Err(q) => Err(q),
            Ok(first) => continued(first, gathered(steps.skip(i + 1))),
        }),
{
    assert(steps.skip(i).drop_first() =~= steps.skip(i + 1));
}

/// With nothing done, what comes of the steps is their outcome; with all
/// steps taken, it is what has been done.
proof fn lemma_gathered_ends<T>(steps: Seq<Result<Seq<T>, QueryModel>>, done: Seq<T>)
    ensures
        continued(Seq::<T>::empty(), gathered(steps.skip(0))) == gathered(steps),
        continued(done, gathered(steps.skip(steps.len() as int))) == Ok::<Seq<T>, QueryModel>(
            done,
        ),
{
    assert(steps.skip(0) =~= steps);
}

/// One more step taken: what has been done grows by what the step yields.
proof fn lemma_continued_further<T>(done: Seq<T>, first: Seq<T>, rest: Result<Seq<T>, QueryModel>)
    ensures
        continued(done, continued(first, rest)) == continued(done + first, rest),
{
    match rest {
        Ok(more) => {
            assert(done + (first + more) =~= (done + first) + more);
        },
        Err(_) => {},
    }
}

/// The model of what an exec result holds.
pub open spec fn outcome<T: DeepView>(r: Result<T, Query>) -> Result<T::V, QueryModel> {
    match r {
        Ok(value) => Ok(value.deep_view()),
        Err(q) => Err(q@),
    }
}

/// The paths of a list, as a set.
pub open spec fn path_set(paths: &Vec<String>) -> Set<Seq<char>> {
    paths.deep_view().to_set()
}

/// Tells whether `path` is one of `paths`.
fn contains_path(paths: &Vec<String>, path: &String) -> (found: bool)
    ensures
        found == path_set(paths).contains(path@),
{
    let mut i: usize = 0;
    while i < paths.len()
        invariant
            i <= paths.len(),
            forall|k: int| 0 <= k < i ==> paths.deep_view()[k] != path@,
        decreases paths.len() - i,
    {
        if paths[i] == *path {
            assert(paths.deep_view()[i as int] == path@);
            return true;
        }
        i += 1;
    }
    false
}

/// Scans a project: finds its crates and resolves their module trees.
pub struct TraversalEngine {
    root: String,
}

impl View for TraversalEngine {
    type V = Seq<char>;

    /// The root directory of the project.
    closed spec fn view(&self) -> Seq<char> {
        self.root@
    }
}

impl TraversalEngine {
    /// An engine for the project whose root directory is `root`.
    pub fn new(root: String) -> (engine: Self)
        ensures
            engine@ == root@,
    {
        TraversalEngine { root }
    }

    /// Makes the node of the file at `path` from its text and from the
    /// declarations that its parse yielded, if it parsed.
    pub fn create_file_node(path: &str, content: &str, items: Option<&Vec<SourceItem>>) -> (node:
        FileNode)
        ensures
            node@ == file_model(path@, content@, parsed_items(items)),
    {
        let snapshot = match items {
            Some(items) => Some(snapshot_of(path, items)),
            None => None,
        };
        FileNode { path: path.to_owned(), hash: hash_text(content), snapshot }
    }

    /// Ingests the file at `path`: makes its node and lists the child modules
    /// that it announces.
    pub fn ingest(path: &str, content: &str, items: Option<&Vec<SourceItem>>) -> (record:
        SourceRecord)
        ensures
            record@ == source_model(path@, content@, parsed_items(items)),
    {
        let file = Self::create_file_node(path, content, items);
        let mut modules: Vec<String> = Vec::new();
        assert(modules.deep_view() =~= Seq::empty());
        if let Some(items) = items {
            let mut i: usize = 0;
            while i < items.len()
                invariant
                    i <= items.len(),
                    modules.deep_view() == declared_modules(
                        items.deep_view().take(i as int),
                    ),
                decreases items.len() - i,
            {
                if let SourceItem::Module(m) = &items[i] {
                    if !m.inline {
                        modules.push(m.name.clone());
                    }
                }
                proof {
                    assert(items.deep_view()[i as int] == items[i as int]@);
                    items.deep_view().lemma_filter_map_take_succ(
                        |item: SourceItemModel| bodyless_module(item),
                        i as int,
                    );
                }
                i += 1;
            }
            assert(items.deep_view().take(items.len() as int) =~= items.deep_view());
        }
        SourceRecord { file, modules }
    }

    /// Reads the source file at `path` with the text `content`: parses the
    /// text, then ingests the file with what its syntax tree reads as. The
    /// record holds a snapshot exactly where the text parses.
    pub fn read_source(path: &str, content: &str) -> (record: SourceRecord)
        ensures
            record@ == read_model(path@, content@),
            record@.file.snapshot is Some <==> parses(content@),
            !parses(content@) ==> record@ == source_model(path@, content@, None),
    {
        let declarations = parse_source(content);
        match &declarations {
            Some(items) => {
                Self::ingest(path, content, Some(items))
            },
            None => {
                Self::ingest(path, content, None)
            },
        }
    }

    /// Turns the raw bytes of a file into its text. `None` stands for a file
    /// that could not be read.
    pub fn decode_file(bytes: Option<&[u8]>) -> (content: String)
        ensures
            content@ == file_text(raw_bytes(bytes)),
    {
        match bytes {
            Some(bytes) => match utf8_text(bytes) {
                Some(text) => text.to_owned(),
                None => String::new(),
            },
            None => String::new(),
        }
    }

    /// Reads the source file at `path` from its raw bytes and records it under
    /// that path. `None` stands for a file that could not be read.
    pub fn observe_file(observed: &mut Observations, path: String, bytes: Option<&[u8]>)
        ensures
            final(observed)@ == (ObservedModel {
                sources: old(observed)@.sources.insert(
                    path@,
                    read_model(path@, file_text(raw_bytes(bytes))),
                ),
                ..old(observed)@
            }),
    {
        let content = Self::decode_file(bytes);
        Self::observe_source(observed, path, content.as_str());
    }

    /// Reads the source file at `path` with the text `content` and records
    /// it under that path.
    pub fn observe_source(observed: &mut Observations, path: String, content: &str)
        ensures
            final(observed)@ == (ObservedModel {
                sources: old(observed)@.sources.insert(path@, read_model(path@, content@)),
                ..old(observed)@
            }),
    {
        let record = Self::read_source(path.as_str(), content);
        observed.record_source(path, record);
    }

    /// Scans the crate rooted at `crate_root`.
    pub fn scan_crate(&self, observed: &Observations, crate_root: &String) -> (r: Result<
        Option<CrateNode>,
        Query,
    >)
        ensures
            outcome(r) == scanned_crate(observed@, crate_root@),
    {
        let manifest_path = join_path(crate_root.as_str(), "Cargo.toml");
        let package = match observed.manifest(&manifest_path) {
            None => {
                return Err(Query::Manifest(manifest_path));
            },
            Some(None) => {
                return Ok(None);
            },
            Some(Some(manifest)) => match &manifest.package {
                None => {
                    return Ok(None);
                },
                Some(package) => package,
            },
        };
        let src_path = join_path(crate_root.as_str(), "src");
        let lib_rs = join_path(src_path.as_str(), "lib.rs");
        let main_rs = join_path(src_path.as_str(), "main.rs");
        let root_file = match observed.presence(&lib_rs) {
            None => {
                return Err(Query::Exists(lib_rs));
            },
            Some(true) => lib_rs,
            Some(false) => match observed.presence(&main_rs) {
                None => {
                    return Err(Query::Exists(main_rs));
                },
                Some(true) => main_rs,
                Some(false) => {
                    return Ok(None);
                },
            },
        };
        let mut on_path: Vec<String> = Vec::new();
        on_path.push(root_file.clone());
        proof {
            let none = Seq::<Seq<char>>::empty();
            assert(on_path.deep_view() =~= none.push(root_file@));
            none.lemma_push_to_set_commute(root_file@);
            assert(none.to_set() =~= Set::empty());
        }
        match self.scan_module(observed, "crate", &root_file, &src_path, &on_path) {
            Err(q) => Err(q),
            Ok(root_module) => {
                let version = match &package.version {
                    Some(version) => version.clone(),
                    None => "0.0.0".to_owned(),
                };
                Ok(
                    Some(
                        CrateNode {
                            name: package.name.clone(),
                            version,
                            path: crate_root.clone(),
                            root_module,
                        },
                    ),
                )
            },
        }
    }

    /// Finds the crates among the entries of the directory `dir`.
    fn scan_entries(&self, observed: &Observations, dir: &String, entries: &Vec<DirEntry>) -> (r:
        Result<Vec<CrateNode>, Query>)
        ensures
            outcome(r) == gathered(entry_steps(observed@, dir@, entries.deep_view())),
    {
        let ghost steps = entry_steps(observed@, dir@, entries.deep_view());
        let mut crates: Vec<CrateNode> = Vec::new();
        let mut i: usize = 0;
        proof {
            lemma_gathered_ends(steps, crates.deep_view());
        }
        while i < entries.len()
            invariant
                i <= entries.len(),
                steps == entry_steps(observed@, dir@, entries.deep_view()),
                gathered(steps) == continued(crates.deep_view(), gathered(steps.skip(i as int))),
            decreases entries.len() - i,
        {
            proof {
                lemma_gathered_step(steps, i as int);
            }
            let ghost before = crates.deep_view();
            let ghost rest = gathered(steps.skip(i as int + 1));
            if entries[i].is_dir {
                let path = join_path(dir.as_str(), entries[i].name.as_str());
                let manifest = join_path(path.as_str(), "Cargo.toml");
                match observed.presence(&manifest) {
                    None => {
                        return Err(Query::Exists(manifest));
                    },
                    Some(true) => match self.scan_crate(observed, &path) {
                        Err(q) => {
                            return Err(q);
                        },
                        Ok(Some(node)) => {
                            crates.push(node);
                            proof {
                                assert(crates.deep_view() =~= before + seq![node@]);
                                lemma_continued_further(before, seq![node@], rest);
                            }
                        },
                        Ok(None) => {},
                    },
                    Some(false) => {},
                }
            }
            i += 1;
        }
        Ok(crates)
    }

    /// Finds the crates that one member entry of the workspace stands for.
    pub fn scan_member(&self, observed: &Observations, member: &String) -> (r: Result<
        Vec<CrateNode>,
        Query,
    >)
        ensures
            outcome(r) == member_crates(observed@, self@, member@),
    {
        let member_path = join_path(self.root.as_str(), member.as_str());
        match observed.presence(&member_path) {
            None => Err(Query::Exists(member_path)),
            Some(true) => match self.scan_crate(observed, &member_path) {
                Err(q) => Err(q),
                Ok(Some(node)) => {
                    let mut crates: Vec<CrateNode> = Vec::new();
                    crates.push(node);
                    assert(crates.deep_view() =~= seq![node@]);
                    Ok(crates)
                },
                Ok(None) => {
                    let crates: Vec<CrateNode> = Vec::new();
                    assert(crates.deep_view() =~= Seq::empty());
                    Ok(crates)
                },
            },
            Some(false) => {
                let (prefix, starred) = split_before(member.as_str(), '*');
                let nothing: Vec<CrateNode> = Vec::new();
                assert(nothing.deep_view() =~= Seq::empty());
                if !starred {
                    return Ok(nothing);
                }
                let parent = join_path(self.root.as_str(), prefix.as_str());
                match observed.presence(&parent) {
                    None => Err(Query::Exists(parent)),
                    Some(false) => Ok(nothing),
                    Some(true) => match observed.entries(&parent) {
                        None => Err(Query::Entries(parent)),
                        Some(entries) => self.scan_entries(observed, &parent, entries),
                    },
                }
            },
        }
    }

    /// Finds the crates that the manifest of the project lays out.
    pub fn scan_cargo_project(&self, observed: &Observations) -> (r: Result<Vec<CrateNode>, Query>)
        ensures
            outcome(r) == project_crates(observed@, self@),
    {
        let cargo_path = join_path(self.root.as_str(), "Cargo.toml");
        let mut crates: Vec<CrateNode> = Vec::new();
        assert(crates.deep_view() =~= Seq::empty());
        let manifest = match observed.manifest(&cargo_path) {
            None => {
                return Err(Query::Manifest(cargo_path));
            },
            Some(None) => {
                return Ok(crates);
            },
            Some(Some(manifest)) => manifest,
        };
        match &manifest.workspace {
            Some(members) => {
                let ghost steps = member_steps(observed@, self@, members.deep_view());
                let mut i: usize = 0;
                proof {
                    lemma_gathered_ends(steps, crates.deep_view());
                }
                while i < members.len()
                    invariant
                        i <= members.len(),
                        steps == member_steps(observed@, self@, members.deep_view()),
                        project_crates(observed@, self@) == gathered(steps),
                        gathered(steps) == continued(
                            crates.deep_view(),
                            gathered(steps.skip(i as int)),
                        ),
                    decreases members.len() - i,
                {
                    proof {
                        lemma_gathered_step(steps, i as int);
                    }
                    let ghost before = crates.deep_view();
                    match self.scan_member(observed, &members[i]) {
                        Err(q) => {
                            return Err(q);
                        },
                        Ok(mut more) => {
                            let ghost added = more.deep_view();
                            crates.append(&mut more);
                            proof {
                                assert(crates.deep_view() =~= before + added);
                                lemma_continued_further(
                                    before,
                                    added,
                                    gathered(steps.skip(i as int + 1)),
                                );
                            }
                        },
                    }
                    i += 1;
                }
                Ok(crates)
            },
            None => {
                if manifest.package.is_none() {
                    return Ok(crates);
                }
                match self.scan_crate(observed, &self.root) {
                    Err(q) => Err(q),
                    Ok(Some(node)) => {
                        crates.push(node);
                        assert(crates.deep_view() =~= seq![node@]);
                        Ok(crates)
                    },
                    Ok(None) => Ok(crates),
                }
            },
        }
    }

    /// Tells what there is to warn of: that the manifest of the project cannot
    /// be read, where it is on record as such, and nothing otherwise. A project
    /// with such a manifest is scanned as one that declares nothing.
    pub fn diagnostic(&self, observed: &Observations) -> (text: Option<String>)
        ensures
            text.deep_view() == manifest_diagnostic(observed@, self@),
    {
        let cargo_path = join_path(self.root.as_str(), "Cargo.toml");
        match observed.manifest(&cargo_path) {
            Some(None) => {
                let mut text = "Warning: Failed to parse ".to_owned();
                text.append(cargo_path.as_str());
                text.append(": scanning as an empty project");
                Some(text)
            },
            _ => None,
        }
    }

    /// Tells what there is to take note of: that the project has no manifest,
    /// where the manifest is on record as absent, and nothing otherwise. Such
    /// a project has an empty graph.
    pub fn notice(&self, observed: &Observations) -> (text: Option<String>)
        ensures
            text.deep_view() == manifest_notice(observed@, self@),
    {
        let cargo_path = join_path(self.root.as_str(), "Cargo.toml");
        match observed.presence(&cargo_path) {
            Some(false) => {
                let mut text = "Warning: No Cargo.toml found. ".to_owned();
                text.append("Falling back to simple directory scan ");
                text.append("(not fully implemented in graph mode yet).");
                Some(text)
            },
            _ => None,
        }
    }

    /// Scans the project: yields its graph, or the first question that needs
    /// an answer before the graph can be known.
    pub fn scan(&self, observed: &Observations) -> (r: Result<ProjectGraph, Query>)
        ensures
            outcome(r) == scanned_project(observed@, self@),
    {
        let cargo_path = join_path(self.root.as_str(), "Cargo.toml");
        match observed.presence(&cargo_path) {
            None => Err(Query::Exists(cargo_path)),
            Some(false) => {
                let crates: Vec<CrateNode> = Vec::new();
                assert(crates.deep_view() =~= Seq::empty());
                Ok(ProjectGraph { root_path: self.root.clone(), crates })
            },
            Some(true) => match self.scan_cargo_project(observed) {
                Err(q) => Err(q),
                Ok(crates) => Ok(ProjectGraph { root_path: self.root.clone(), crates }),
            },
        }
    }

    /// Resolves the module `name` that the file at `file_path` defines, and
    /// below it the modules that the file declares without a body, looked for
    /// in `search_dir`. `on_path` lists the files from the root module down to
    /// this one.
    pub fn scan_module(
        &self,
        observed: &Observations,
        name: &str,
        file_path: &String,
        search_dir: &String,
        on_path: &Vec<String>,
    ) -> (r: Result<ModuleNode, Query>)
        ensures
            outcome(r) == scanned_module(
                observed@,
                name@,
                file_path@,
                search_dir@,
                path_set(on_path),
            ),
        decreases unvisited(observed@, path_set(on_path)), 2int,
    {
        proof {
            observed.lemma_finite();
        }
        let record = match observed.source(file_path) {
            Some(record) => record,
            None => {
                return Err(Query::Source(file_path.clone()));
            },
        };
        let ghost obs = observed@;
        let ghost names = record@.modules;
        let ghost steps = child_steps(obs, names, search_dir@, path_set(on_path));
        let mut submodules: Vec<ModuleNode> = Vec::new();
        let mut i: usize = 0;
        proof {
            lemma_gathered_ends(steps, submodules.deep_view());
            lemma_children_by_steps(obs, names, search_dir@, path_set(on_path));
        }
        while i < record.modules.len()
            invariant
                i <= record.modules.len(),
                obs == observed@,
                obs.sources.dom().finite(),
                obs.sources.contains_key(file_path@),
                obs.sources[file_path@] == record@,
                names == record@.modules,
                steps == child_steps(obs, names, search_dir@, path_set(on_path)),
                gathered(steps) == continued(
                    submodules.deep_view(),
                    gathered(steps.skip(i as int)),
                ),
                resolved_children(obs, names, search_dir@, path_set(on_path)) == gathered(steps),
            decreases record.modules.len() - i,
        {
            proof {
                lemma_gathered_step(steps, i as int);
            }
            let ghost before = submodules.deep_view();
            match self.resolve_child(observed, record.modules[i].as_str(), search_dir, on_path) {
                Err(q) => {
                    return Err(q);
                },
                Ok(Some(m)) => {
                    submodules.push(m);
                    proof {
                        assert(submodules.deep_view() =~= before + seq![m@]);
                        lemma_continued_further(
                            before,
                            seq![m@],
                            gathered(steps.skip(i as int + 1)),
                        );
                    }
                },
                Ok(None) => {},
            }
            i += 1;
        }
        let snapshot = match &record.file.snapshot {
            Some(recorded) => {
                let mut snapshot = recorded.clone();
                snapshot.path = file_path.clone();
                Some(snapshot)
            },
            None => None,
        };
        let module = ModuleNode {
            name: name.to_owned(),
            path: Some(search_dir.clone()),
            file: Some(
                FileNode { path: file_path.clone(), hash: record.file.hash.clone(), snapshot },
            ),
            submodules,
        };
        proof {
            crate::graph::lemma_module_children(module);
        }
        Ok(module)
    }

    /// Resolves one module declaration: by the file `name.rs` in `search_dir`
    /// if there is one, else by the file `mod.rs` in the directory `name` of
    /// `search_dir` if there is one; else the declaration resolves to nothing.
    pub fn resolve_child(
        &self,
        observed: &Observations,
        name: &str,
        search_dir: &String,
        on_path: &Vec<String>,
    ) -> (r: Result<Option<ModuleNode>, Query>)
        ensures
            outcome(r) == resolved_child(observed@, name@, search_dir@, path_set(on_path)),
        decreases unvisited(observed@, path_set(on_path)), 1int,
    {
        proof {
            observed.lemma_finite();
        }
        let mut file_name = name.to_owned();
        file_name.append(".rs");
        let by_file = join_path(search_dir.as_str(), file_name.as_str());
        match observed.presence(&by_file) {
            None => Err(Query::Exists(by_file)),
            Some(true) => self.enter(observed, name, by_file, search_dir.clone(), on_path),
            Some(false) => {
                let directory = join_path(search_dir.as_str(), name);
                let by_directory = join_path(directory.as_str(), "mod.rs");
                match observed.presence(&by_directory) {
                    None => Err(Query::Exists(by_directory)),
                    Some(true) => self.enter(observed, name, by_directory, directory, on_path),
                    Some(false) => Ok(None),
                }
            },
        }
    }

    /// Enters the file behind a module declaration, unless the file is
    /// already on the path from the root module.
    fn enter(
        &self,
        observed: &Observations,
        name: &str,
        file: String,
        dir: String,
        on_path: &Vec<String>,
    ) -> (r: Result<Option<ModuleNode>, Query>)
        ensures
            outcome(r) == entered(observed@, name@, file@, dir@, path_set(on_path)),
        decreases unvisited(observed@, path_set(on_path)), 0int,
    {
        proof {
            observed.lemma_finite();
        }
        if contains_path(on_path, &file) {
            return Ok(None);
        }
        if observed.source(&file).is_none() {
            return Err(Query::Source(file));
        }
        let mut longer = on_path.clone();
        longer.push(file.clone());
        proof {
            assert(longer.deep_view() =~= on_path.deep_view().push(file@));
            on_path.deep_view().lemma_push_to_set_commute(file@);
            lemma_unvisited_decreases(observed@, path_set(on_path), file@);
        }
        match self.scan_module(observed, name, &file, &dir, &longer) {
            Ok(m) => Ok(Some(m)),
            Err(q) => Err(q),
        }
    }
}

/// Where a run of steps yields a list, every step yields a part of it.
proof fn lemma_gathered_parts<T>(steps: Seq<Result<Seq<T>, QueryModel>>, k: int)
    requires
        0 <= k < steps.len(),
        gathered(steps) is Ok,
    ensures
        steps[k] is Ok,
    decreases steps.len(),
{
    if k > 0 {
        lemma_gathered_parts(steps.drop_first(), k - 1);
    }
}

/// Where a run of steps yields a list, the list holds what each step yields.
proof fn lemma_gathered_holds<T>(steps: Seq<Result<Seq<T>, QueryModel>>, k: int, x: T)
    requires
        0 <= k < steps.len(),
        gathered(steps) is Ok,
        steps[k] is Ok,
        steps[k]->Ok_0.contains(x),
    ensures
        gathered(steps)->Ok_0.contains(x),
    decreases steps.len(),
{
    let first = steps[0]->Ok_0;
    let rest = gathered(steps.drop_first())->Ok_0;
    if k == 0 {
        let i = choose|i: int| 0 <= i < first.len() && first[i] == x;
        assert((first + rest)[i] == x);
    } else {
        lemma_gathered_holds(steps.drop_first(), k - 1, x);
        let i = choose|i: int| 0 <= i < rest.len() && rest[i] == x;
        assert((first + rest)[first.len() + i] == x);
    }
}

/// Where a run of steps yields a list, every item of the list is yielded by
/// one of the steps.
proof fn lemma_gathered_origin<T>(steps: Seq<Result<Seq<T>, QueryModel>>, x: T) -> (k: int)
    requires
        gathered(steps) is Ok,
        gathered(steps)->Ok_0.contains(x),
    ensures
        0 <= k < steps.len(),
        steps[k] is Ok,
        steps[k]->Ok_0.contains(x),
    decreases steps.len(),
{
    let all = gathered(steps)->Ok_0;
    if steps.len() == 0 {
        0
    } else {
        let first = steps[0]->Ok_0;
        let i = choose|i: int| 0 <= i < all.len() && all[i] == x;
        if i < first.len() {
            0
        } else {
            let k = lemma_gathered_origin(steps.drop_first(), x);
            k + 1
        }
    }
}

/// A declaration that resolves to a module gives the module its name.
pub proof fn lemma_child_takes_name(
    obs: ObservedModel,
    name: Seq<char>,
    dir: Seq<char>,
    on_path: Set<Seq<char>>,
)
    requires
        obs.sources.dom().finite(),
    ensures
        resolved_child(obs, name, dir, on_path) matches Ok(Some(m)) ==> m.name == name,
{
}

/// A module declaration with a sibling file `name.rs` yields a child module
/// of that name whose file is that sibling, with the fingerprint and the
/// snapshot recorded for it, under the path of the sibling. This holds
/// wherever the sibling is not already on the path from the root module.
pub proof fn lemma_sibling_file_resolves(
    obs: ObservedModel,
    name: Seq<char>,
    file: Seq<char>,
    dir: Seq<char>,
    on_path: Set<Seq<char>>,
    k: int,
) -> (j: int)
    requires
        obs.sources.dom().finite(),
        obs.sources.contains_key(file),
        0 <= k < obs.sources[file].modules.len(),
        obs.present.contains_key(file_candidate(dir, obs.sources[file].modules[k])),
        obs.present[file_candidate(dir, obs.sources[file].modules[k])],
        !on_path.contains(file_candidate(dir, obs.sources[file].modules[k])),
        scanned_module(obs, name, file, dir, on_path) is Ok,
    ensures
        0 <= j < scanned_module(obs, name, file, dir, on_path)->Ok_0.submodules.len(),
        obs.sources.contains_key(file_candidate(dir, obs.sources[file].modules[k])),
        ({
            let child = scanned_module(obs, name, file, dir, on_path)->Ok_0.submodules[j];
            let sibling = file_candidate(dir, obs.sources[file].modules[k]);
            &&& child.name == obs.sources[file].modules[k]
            &&& child.file == Some(located(obs.sources[sibling].file, sibling))
        }),
{
    let names = obs.sources[file].modules;
    let steps = child_steps(obs, names, dir, on_path);
    lemma_children_by_steps(obs, names, dir, on_path);
    lemma_gathered_parts(steps, k);
    let child = resolved_child(obs, names[k], dir, on_path)->Ok_0->Some_0;
    assert(steps[k]->Ok_0[0] == child);
    lemma_gathered_holds(steps, k, child);
    let children = gathered(steps)->Ok_0;
    choose|j: int| 0 <= j < children.len() && children[j] == child
}

/// A module declaration with neither a sibling file `name.rs` nor a file
/// `mod.rs` in a sibling directory `name` resolves to nothing, and the module
/// that holds the declaration has no child of that name.
pub proof fn lemma_missing_module_is_dropped(
    obs: ObservedModel,
    name: Seq<char>,
    file: Seq<char>,
    dir: Seq<char>,
    on_path: Set<Seq<char>>,
    missing: Seq<char>,
)
    requires
        obs.sources.dom().finite(),
        obs.present.contains_key(file_candidate(dir, missing)),
        !obs.present[file_candidate(dir, missing)],
        obs.present.contains_key(directory_candidate(dir, missing)),
        !obs.present[directory_candidate(dir, missing)],
    ensures
        resolved_child(obs, missing, dir, on_path) == Ok::<Option<ModuleModel>, QueryModel>(None),
        scanned_module(obs, name, file, dir, on_path) matches Ok(m) ==> forall|j: int|
            0 <= j < m.submodules.len() ==> (#[trigger] m.submodules[j]).name != missing,
{
    if scanned_module(obs, name, file, dir, on_path) is Ok {
        let m = scanned_module(obs, name, file, dir, on_path)->Ok_0;
        let names = obs.sources[file].modules;
        let steps = child_steps(obs, names, dir, on_path);
        lemma_children_by_steps(obs, names, dir, on_path);
        assert forall|j: int| 0 <= j < m.submodules.len() implies (#[trigger] m.submodules[j]).name
            != missing by {
            let child = m.submodules[j];
            lemma_gathered_origin(steps, child);
        }
    }
}

/// A project whose manifest declares a package and no workspace, and whose
/// directory `src` holds a file `lib.rs`, has exactly one crate. The crate is
/// rooted at the project's root, and the file of its root module is that
/// `lib.rs`.
pub proof fn lemma_single_package_with_library(obs: ObservedModel, root: Seq<char>)
    requires
        obs.sources.dom().finite(),
        obs.present.contains_key(joined(root, "Cargo.toml"@)),
        obs.present[joined(root, "Cargo.toml"@)],
        obs.manifests.contains_key(joined(root, "Cargo.toml"@)),
        obs.manifests[joined(root, "Cargo.toml"@)] matches Some(manifest) && manifest.package
            is Some && manifest.workspace is None,
        obs.present.contains_key(joined(joined(root, "src"@), "lib.rs"@)),
        obs.present[joined(joined(root, "src"@), "lib.rs"@)],
    ensures
        scanned_project(obs, root) matches Ok(graph) ==> {
            &&& graph.root_path == root
            &&& graph.crates.len() == 1
            &&& graph.crates[0].path == root
            &&& graph.crates[0].root_module.name == "crate"@
            &&& graph.crates[0].root_module.file matches Some(f) && f.path == joined(
                joined(root, "src"@),
                "lib.rs"@,
            ) && (f.snapshot matches Some(s) ==> s.path == f.path)
        },
{
}

/// Whether a question has an answer on record.
pub open spec fn answered(obs: ObservedModel, q: QueryModel) -> bool {
    match q {
        QueryModel::Exists(path) => obs.present.contains_key(path),
        QueryModel::Manifest(path) => obs.manifests.contains_key(path),
        QueryModel::Entries(path) => obs.entries.contains_key(path),
        QueryModel::Source(path) => obs.sources.contains_key(path),
    }
}

/// Where a run of steps is stopped by a question, one of the steps is.
proof fn lemma_gathered_question<T>(steps: Seq<Result<Seq<T>, QueryModel>>) -> (k: int)
    requires
        gathered(steps) is Err,
    ensures
        0 <= k < steps.len(),
        steps[k] == Err::<Seq<T>, QueryModel>(gathered(steps)->Err_0),
    decreases steps.len(),
{
    if steps[0] is Err {
        0
    } else {
        let k = lemma_gathered_question(steps.drop_first());
        k + 1
    }
}

/// A module is stopped only by a question that has no answer yet.
proof fn lemma_module_asks_anew(
    obs: ObservedModel,
    name: Seq<char>,
    file: Seq<char>,
    dir: Seq<char>,
    on_path: Set<Seq<char>>,
)
    requires
        obs.sources.dom().finite(),
    ensures
        scanned_module(obs, name, file, dir, on_path) matches Err(q) ==> !answered(obs, q),
    decreases
        unvisited(obs, on_path),
        (if obs.sources.contains_key(file) {
            obs.sources[file].modules.len()
        } else {
            0
        }),
        3int,
{
    if obs.sources.contains_key(file) {
        lemma_children_ask_anew(obs, obs.sources[file].modules, dir, on_path);
    }
}

/// The children of a module are stopped only by a question that has no
/// answer yet.
proof fn lemma_children_ask_anew(
    obs: ObservedModel,
    names: Seq<Seq<char>>,
    dir: Seq<char>,
    on_path: Set<Seq<char>>,
)
    requires
        obs.sources.dom().finite(),
    ensures
        resolved_children(obs, names, dir, on_path) matches Err(q) ==> !answered(obs, q),
    decreases unvisited(obs, on_path), names.len(), 2int,
{
    if names.len() > 0 {
        lemma_child_asks_anew(obs, names[0], dir, on_path);
        lemma_children_ask_anew(obs, names.drop_first(), dir, on_path);
    }
}

/// A module declaration is stopped only by a question that has no answer
/// yet.
proof fn lemma_child_asks_anew(
    obs: ObservedModel,
    name: Seq<char>,
    dir: Seq<char>,
    on_path: Set<Seq<char>>,
)
    requires
        obs.sources.dom().finite(),
    ensures
        resolved_child(obs, name, dir, on_path) matches Err(q) ==> !answered(obs, q),
    decreases unvisited(obs, on_path), 0int, 1int,
{
    lemma_entry_asks_anew(obs, name, file_candidate(dir, name), dir, on_path);
    lemma_entry_asks_anew(obs, name, directory_candidate(dir, name), joined(dir, name), on_path);
}

/// Entering a file is stopped only by a question that has no answer yet.
proof fn lemma_entry_asks_anew(
    obs: ObservedModel,
    name: Seq<char>,
    file: Seq<char>,
    dir: Seq<char>,
    on_path: Set<Seq<char>>,
)
    requires
        obs.sources.dom().finite(),
    ensures
        entered(obs, name, file, dir, on_path) matches Err(q) ==> !answered(obs, q),
    decreases unvisited(obs, on_path), 0int, 0int,
{
    if !on_path.contains(file) && obs.sources.contains_key(file) {
        lemma_unvisited_decreases(obs, on_path, file);
        lemma_module_asks_anew(obs, name, file, dir, on_path.insert(file));
    }
}

/// A crate is stopped only by a question that has no answer yet.
proof fn lemma_crate_asks_anew(obs: ObservedModel, crate_root: Seq<char>)
    requires
        obs.sources.dom().finite(),
    ensures
        scanned_crate(obs, crate_root) matches Err(q) ==> !answered(obs, q),
{
    let src = joined(crate_root, "src"@);
    let lib = joined(src, "lib.rs"@);
    let main = joined(src, "main.rs"@);
    lemma_module_asks_anew(obs, "crate"@, lib, src, set![lib]);
    lemma_module_asks_anew(obs, "crate"@, main, src, set![main]);
}

/// A member entry of a workspace is stopped only by a question that has no
/// answer yet.
proof fn lemma_member_asks_anew(obs: ObservedModel, root: Seq<char>, member: Seq<char>)
    requires
        obs.sources.dom().finite(),
    ensures
        member_crates(obs, root, member) matches Err(q) ==> !answered(obs, q),
{
    let dir = joined(root, text_before(member, '*'));
    lemma_crate_asks_anew(obs, joined(root, member));
    if member_crates(obs, root, member) is Err && obs.entries.contains_key(dir) {
        let steps = entry_steps(obs, dir, obs.entries[dir]);
        if gathered(steps) is Err {
            let k = lemma_gathered_question(steps);
            lemma_crate_asks_anew(obs, joined(dir, obs.entries[dir][k].name));
        }
    }
}

/// The scan asks only what it has not been told: the question that stops it
/// has no answer on record. Once the answer is recorded, the scan gets past
/// that question.
pub proof fn lemma_scan_asks_anew(obs: ObservedModel, root: Seq<char>)
    requires
        obs.sources.dom().finite(),
    ensures
        scanned_project(obs, root) matches Err(q) ==> !answered(obs, q),
{
    let manifest = joined(root, "Cargo.toml"@);
    lemma_crate_asks_anew(obs, root);
    if project_crates(obs, root) is Err && obs.manifests.contains_key(manifest) {
        match obs.manifests[manifest] {
            Some(ManifestModel { package: _, workspace: Some(members) }) => {
                let steps = member_steps(obs, root, members);
                let k = lemma_gathered_question(steps);
                lemma_member_asks_anew(obs, root, members[k]);
            },
            _ => {},
        }
    }
}

/// The fingerprint of a file that holds text is that of its raw bytes; the
/// fingerprint of any other file is that of no bytes at all.
pub proof fn lemma_fingerprint_of_raw_bytes(
    path: Seq<char>,
    bytes: Option<Seq<u8>>,
    items: Option<Seq<SourceItemModel>>,
)
    ensures
        file_model(path, file_text(bytes), items).hash == (match bytes {
            Some(bytes) => if vstd::utf8::valid_utf8(bytes) {
                content_digest(bytes)
            } else {
                content_digest(Seq::empty())
            },
            None => content_digest(Seq::empty()),
        }),
{
    match bytes {
        Some(bytes) => {
            if vstd::utf8::valid_utf8(bytes) {
                vstd::utf8::decode_utf8_encode_utf8(bytes);
            }
        },
        None => {},
    }
}

/// Whether `more` holds every answer of `obs`, unchanged.
pub open spec fn extends(more: ObservedModel, obs: ObservedModel) -> bool {
    &&& forall|p: Seq<char>| #[trigger]
        obs.present.contains_key(p) ==> more.present.contains_key(p) && more.present[p]
            == obs.present[p]
    &&& forall|p: Seq<char>| #[trigger]
        obs.manifests.contains_key(p) ==> more.manifests.contains_key(p) && more.manifests[p]
            == obs.manifests[p]
    &&& forall|p: Seq<char>| #[trigger]
        obs.entries.contains_key(p) ==> more.entries.contains_key(p) && more.entries[p]
            == obs.entries[p]
    &&& forall|p: Seq<char>| #[trigger]
        obs.sources.contains_key(p) ==> more.sources.contains_key(p) && more.sources[p]
            == obs.sources[p]
}

/// A module that is known stays as it is when more answers come in.
proof fn lemma_module_stays(
    obs: ObservedModel,
    more: ObservedModel,
    name: Seq<char>,
    file: Seq<char>,
    dir: Seq<char>,
    on_path: Set<Seq<char>>,
)
    requires
        obs.sources.dom().finite(),
        more.sources.dom().finite(),
        extends(more, obs),
        scanned_module(obs, name, file, dir, on_path) is Ok,
    ensures
        scanned_module(more, name, file, dir, on_path) == scanned_module(
            obs,
            name,
            file,
            dir,
            on_path,
        ),
    decreases
        unvisited(obs, on_path),
        (if obs.sources.contains_key(file) {
            obs.sources[file].modules.len()
        } else {
            0
        }),
        3int,
{
    lemma_children_stay(obs, more, obs.sources[file].modules, dir, on_path);
}

/// The children of a module that are known stay as they are when more
/// answers come in.
proof fn lemma_children_stay(
    obs: ObservedModel,
    more: ObservedModel,
    names: Seq<Seq<char>>,
    dir: Seq<char>,
    on_path: Set<Seq<char>>,
)
    requires
        obs.sources.dom().finite(),
        more.sources.dom().finite(),
        extends(more, obs),
        resolved_children(obs, names, dir, on_path) is Ok,
    ensures
        resolved_children(more, names, dir, on_path) == resolved_children(
            obs,
            names,
            dir,
            on_path,
        ),
    decreases unvisited(obs, on_path), names.len(), 2int,
{
    if names.len() > 0 {
        lemma_child_stays(obs, more, names[0], dir, on_path);
        lemma_children_stay(obs, more, names.drop_first(), dir, on_path);
    }
}

/// What a module declaration resolves to, once known, stays as it is when
/// more answers come in.
proof fn lemma_child_stays(
    obs: ObservedModel,
    more: ObservedModel,
    name: Seq<char>,
    dir: Seq<char>,
    on_path: Set<Seq<char>>,
)
    requires
        obs.sources.dom().finite(),
        more.sources.dom().finite(),
        extends(more, obs),
        resolved_child(obs, name, dir, on_path) is Ok,
    ensures
        resolved_child(more, name, dir, on_path) == resolved_child(obs, name, dir, on_path),
    decreases unvisited(obs, on_path), 0int, 1int,
{
    let by_file = file_candidate(dir, name);
    let by_directory = directory_candidate(dir, name);
    if obs.present[by_file] {
        lemma_entry_stays(obs, more, name, by_file, dir, on_path);
    } else if obs.present[by_directory] {
        lemma_entry_stays(obs, more, name, by_directory, joined(dir, name), on_path);
    }
}

/// What entering a file yields, once known, stays as it is when more answers
/// come in.
proof fn lemma_entry_stays(
    obs: ObservedModel,
    more: ObservedModel,
    name: Seq<char>,
    file: Seq<char>,
    dir: Seq<char>,
    on_path: Set<Seq<char>>,
)
    requires
        obs.sources.dom().finite(),
        more.sources.dom().finite(),
        extends(more, obs),
        entered(obs, name, file, dir, on_path) is Ok,
    ensures
        entered(more, name, file, dir, on_path) == entered(obs, name, file, dir, on_path),
    decreases unvisited(obs, on_path), 0int, 0int,
{
    if !on_path.contains(file) {
        lemma_unvisited_decreases(obs, on_path, file);
        lemma_module_stays(obs, more, name, file, dir, on_path.insert(file));
    }
}

/// A crate that is known stays as it is when more answers come in.
proof fn lemma_crate_stays(obs: ObservedModel, more: ObservedModel, crate_root: Seq<char>)
    requires
        obs.sources.dom().finite(),
        more.sources.dom().finite(),
        extends(more, obs),
        scanned_crate(obs, crate_root) is Ok,
    ensures
        scanned_crate(more, crate_root) == scanned_crate(obs, crate_root),
{
    let manifest = joined(crate_root, "Cargo.toml"@);
    let src = joined(crate_root, "src"@);
    let lib = joined(src, "lib.rs"@);
    let main = joined(src, "main.rs"@);
    match obs.manifests[manifest] {
        Some(ManifestModel { package: Some(package), workspace: _ }) => {
            if obs.present[lib] {
                lemma_module_stays(obs, more, "crate"@, lib, src, set![lib]);
            } else if obs.present[main] {
                lemma_module_stays(obs, more, "crate"@, main, src, set![main]);
            }
        },
        _ => {},
    }
}

/// Where a run of steps yields a list, and each step yields the same in a
/// second run, the second run yields the same list.
proof fn lemma_gathered_alike<T>(
    steps: Seq<Result<Seq<T>, QueryModel>>,
    others: Seq<Result<Seq<T>, QueryModel>>,
)
    requires
        gathered(steps) is Ok,
        others.len() == steps.len(),
        forall|k: int| 0 <= k < steps.len() && steps[k] is Ok ==> others[k] == steps[k],
    ensures
        others == steps,
{
    assert forall|k: int| 0 <= k < steps.len() implies others[k] == steps[k] by {
        lemma_gathered_parts(steps, k);
    }
}

/// The crates of a member entry that are known stay as they are when more
/// answers come in.
proof fn lemma_member_stays(
    obs: ObservedModel,
    more: ObservedModel,
    root: Seq<char>,
    member: Seq<char>,
)
    requires
        obs.sources.dom().finite(),
        more.sources.dom().finite(),
        extends(more, obs),
        member_crates(obs, root, member) is Ok,
    ensures
        member_crates(more, root, member) == member_crates(obs, root, member),
{
    let path = joined(root, member);
    let dir = joined(root, text_before(member, '*'));
    if obs.present[path] {
        lemma_crate_stays(obs, more, path);
    } else if member.contains('*') {
        if obs.present[dir] {
            let entries = obs.entries[dir];
            let steps = entry_steps(obs, dir, entries);
            let others = entry_steps(more, dir, entries);
            assert forall|k: int| 0 <= k < steps.len() && steps[k] is Ok implies others[k]
                == steps[k] by {
                let entry = entries[k];
                let entry_root = joined(dir, entry.name);
                let entry_manifest = joined(entry_root, "Cargo.toml"@);
                if entry.is_dir {
                    if obs.present[entry_manifest] {
                        lemma_crate_stays(obs, more, entry_root);
                    }
                }
            }
            lemma_gathered_alike(steps, others);
        }
    }
}

/// A graph that is known stays as it is when more answers come in: the scan
/// depends on nothing but the answers that it asked for.
pub proof fn lemma_graph_stays(obs: ObservedModel, more: ObservedModel, root: Seq<char>)
    requires
        obs.sources.dom().finite(),
        more.sources.dom().finite(),
        extends(more, obs),
        scanned_project(obs, root) is Ok,
    ensures
        scanned_project(more, root) == scanned_project(obs, root),
{
    let manifest = joined(root, "Cargo.toml"@);
    if obs.present[manifest] {
        match obs.manifests[manifest] {
            Some(ManifestModel { package: _, workspace: Some(members) }) => {
                let steps = member_steps(obs, root, members);
                let others = member_steps(more, root, members);
                assert forall|k: int| 0 <= k < steps.len() && steps[k] is Ok implies others[k]
                    == steps[k] by {
                    lemma_member_stays(obs, more, root, members[k]);
                }
                lemma_gathered_alike(steps, others);
            },
            Some(ManifestModel { package: Some(_), workspace: None }) => {
                lemma_crate_stays(obs, more, root);
            },
            _ => {},
        }
    }
}

/// A project whose manifest is there but cannot be read is scanned as one
/// that declares nothing: its graph has no crates, and the scan owes the
/// warning about the manifest.
pub proof fn lemma_unreadable_manifest(obs: ObservedModel, root: Seq<char>)
    requires
        obs.present.contains_key(joined(root, "Cargo.toml"@)),
        obs.present[joined(root, "Cargo.toml"@)],
        obs.manifests.contains_key(joined(root, "Cargo.toml"@)),
        obs.manifests[joined(root, "Cargo.toml"@)] is None,
    ensures
        scanned_project(obs, root) == Ok::<GraphModel, QueryModel>(
            GraphModel { root_path: root, crates: Seq::empty() },
        ),
        manifest_diagnostic(obs, root) == Some(
            unreadable_manifest_warning(joined(root, "Cargo.toml"@)),
        ),
{
}

/// A project whose manifest is on record as readable owes no diagnostic.
pub proof fn lemma_readable_manifest(obs: ObservedModel, root: Seq<char>)
    requires
        obs.manifests.contains_key(joined(root, "Cargo.toml"@)),
        obs.manifests[joined(root, "Cargo.toml"@)] is Some,
    ensures
        manifest_diagnostic(obs, root) is None,
{
}

} // verus!
