//! What has been observed of the file system so far.
//!
//! The library never touches the file system. It asks a [`Query`], the caller
//! looks, and the answer is recorded in an [`Observations`] value. Every
//! decision of the scan is a function of the answers recorded.

use vstd::prelude::*;
use crate::graph::{FileModel, FileNode};

verus! {

/// A question about the file system.
#[derive(Debug, PartialEq, Eq)]
pub enum Query {
    /// Is there a file or a directory at this path?
    Exists(String),
    /// What does the manifest at this path declare?
    Manifest(String),
    /// What does the directory at this path hold?
    Entries(String),
    /// What is the content of the source file at this path?
    Source(String),
}

/// Model of a [`Query`].
pub enum QueryModel {
    Exists(Seq<char>),
    Manifest(Seq<char>),
    Entries(Seq<char>),
    Source(Seq<char>),
}

impl View for Query {
    type V = QueryModel;

    open spec fn view(&self) -> QueryModel {
        match self {
            Query::Exists(p) => QueryModel::Exists(p@),
            Query::Manifest(p) => QueryModel::Manifest(p@),
            Query::Entries(p) => QueryModel::Entries(p@),
            Query::Source(p) => QueryModel::Source(p@),
        }
    }
}

impl DeepView for Query {
    type V = QueryModel;

    open spec fn deep_view(&self) -> QueryModel {
        self@
    }
}

/// The package that a manifest declares: its name and, unless the manifest
/// leaves it to be inherited, its version.
#[derive(Debug, PartialEq, Eq)]
pub struct PackageSummary {
    pub name: String,
    pub version: Option<String>,
}

/// What a manifest declares, as far as the scan reads it: the package, and the
/// member entries of the workspace.
#[derive(Debug, PartialEq, Eq)]
pub struct ManifestSummary {
    pub package: Option<PackageSummary>,
    pub workspace: Option<Vec<String>>,
}

/// One entry of a directory: its name and whether it is a directory itself.
#[derive(Debug, PartialEq, Eq)]
pub struct DirEntry {
    pub name: String,
    pub is_dir: bool,
}

/// An ingested source file: its node, and the names of the child modules that
/// it declares without a body, in declaration order.
#[derive(Debug, PartialEq, Eq)]
pub struct SourceRecord {
    pub file: FileNode,
    pub modules: Vec<String>,
}

/// Model of a [`PackageSummary`].
pub struct PackageModel {
    pub name: Seq<char>,
    pub version: Option<Seq<char>>,
}

/// Model of a [`ManifestSummary`].
pub struct ManifestModel {
    pub package: Option<PackageModel>,
    pub workspace: Option<Seq<Seq<char>>>,
}

/// Model of a [`DirEntry`].
pub struct EntryModel {
    pub name: Seq<char>,
    pub is_dir: bool,
}

/// Model of a [`SourceRecord`].
pub struct SourceModel {
    pub file: FileModel,
    pub modules: Seq<Seq<char>>,
}

impl View for PackageSummary {
    type V = PackageModel;

    open spec fn view(&self) -> PackageModel {
        PackageModel { name: self.name@, version: self.version.deep_view() }
    }
}

impl DeepView for PackageSummary {
    type V = PackageModel;

    open spec fn deep_view(&self) -> PackageModel {
        self@
    }
}

impl View for ManifestSummary {
    type V = ManifestModel;

    open spec fn view(&self) -> ManifestModel {
        ManifestModel { package: self.package.deep_view(), workspace: self.workspace.deep_view() }
    }
}

impl DeepView for ManifestSummary {
    type V = ManifestModel;

    open spec fn deep_view(&self) -> ManifestModel {
        self@
    }
}

impl View for DirEntry {
    type V = EntryModel;

    open spec fn view(&self) -> EntryModel {
        EntryModel { name: self.name@, is_dir: self.is_dir }
    }
}

impl DeepView for DirEntry {
    type V = EntryModel;

    open spec fn deep_view(&self) -> EntryModel {
        self@
    }
}

impl View for SourceRecord {
    type V = SourceModel;

    open spec fn view(&self) -> SourceModel {
        SourceModel { file: self.file@, modules: self.modules.deep_view() }
    }
}

impl DeepView for SourceRecord {
    type V = SourceModel;

    open spec fn deep_view(&self) -> SourceModel {
        self@
    }
}

/// The answers recorded so far, by kind of question and by path.
pub struct ObservedModel {
    pub present: Map<Seq<char>, bool>,
    pub manifests: Map<Seq<char>, Option<ManifestModel>>,
    pub entries: Map<Seq<char>, Seq<EntryModel>>,
    pub sources: Map<Seq<char>, SourceModel>,
}

/// The map that a list of recorded answers stands for: a later answer to the
/// same path replaces an earlier one.
pub open spec fn table_map<W>(entries: Seq<(Seq<char>, W)>) -> Map<Seq<char>, W>
    decreases entries.len(),
{
    if entries.len() == 0 {
        Map::empty()
    } else {
        table_map(entries.drop_last()).insert(entries.last().0, entries.last().1)
    }
}

/// The answer to a path is that of its last entry.
proof fn lemma_table_last<W>(entries: Seq<(Seq<char>, W)>, key: Seq<char>, i: int)
    requires
        0 <= i < entries.len(),
        entries[i].0 == key,
        forall|j: int| i < j < entries.len() ==> (#[trigger] entries[j]).0 != key,
    ensures
        table_map(entries).contains_key(key),
        table_map(entries)[key] == entries[i].1,
    decreases entries.len(),
{
    if i < entries.len() - 1 {
        lemma_table_last(entries.drop_last(), key, i);
    }
}

/// A path without an entry has no answer.
proof fn lemma_table_none<W>(entries: Seq<(Seq<char>, W)>, key: Seq<char>)
    requires
        forall|j: int| 0 <= j < entries.len() ==> (#[trigger] entries[j]).0 != key,
    ensures
        !table_map(entries).contains_key(key),
    decreases entries.len(),
{
    if entries.len() > 0 {
        lemma_table_none(entries.drop_last(), key);
    }
}

/// Only finitely many paths have an answer.
proof fn lemma_table_finite<W>(entries: Seq<(Seq<char>, W)>)
    ensures
        table_map(entries).dom().finite(),
    decreases entries.len(),
{
    if entries.len() > 0 {
        lemma_table_finite(entries.drop_last());
    }
}

/// Finds the last entry for a path.
fn find_last<V>(table: &Vec<(String, V)>, key: &String) -> (found: Option<usize>)
    ensures
        match found {
            Some(i) => {
                &&& i < table.len()
                &&& table[i as int].0@ == key@
                &&& forall|j: int| i < j < table.len() ==> (#[trigger] table[j]).0@ != key@
            },
            None => forall|j: int| 0 <= j < table.len() ==> (#[trigger] table[j]).0@ != key@,
        },
{
    let mut i: usize = table.len();
    while i > 0
        invariant
            i <= table.len(),
            forall|j: int| i <= j < table.len() ==> (#[trigger] table[j]).0@ != key@,
        decreases i,
    {
        i -= 1;
        if table[i].0 == *key {
            return Some(i);
        }
    }
    None
}

/// The answers of the caller to the questions of the scan.
#[derive(Debug)]
pub struct Observations {
    present: Vec<(String, bool)>,
    manifests: Vec<(String, Option<ManifestSummary>)>,
    entries: Vec<(String, Vec<DirEntry>)>,
    sources: Vec<(String, SourceRecord)>,
}

impl View for Observations {
    type V = ObservedModel;

    closed spec fn view(&self) -> ObservedModel {
        ObservedModel {
            present: table_map(self.present.deep_view()),
            manifests: table_map(self.manifests.deep_view()),
            entries: table_map(self.entries.deep_view()),
            sources: table_map(self.sources.deep_view()),
        }
    }
}

impl Observations {
    /// Nothing observed yet.
    pub fn new() -> (observed: Self)
        ensures
            observed@.present == Map::<Seq<char>, bool>::empty(),
            observed@.manifests == Map::<Seq<char>, Option<ManifestModel>>::empty(),
            observed@.entries == Map::<Seq<char>, Seq<EntryModel>>::empty(),
            observed@.sources == Map::<Seq<char>, SourceModel>::empty(),
    {
        Observations {
            present: Vec::new(),
            manifests: Vec::new(),
            entries: Vec::new(),
            sources: Vec::new(),
        }
    }

    /// Records whether there is something at `path`.
    pub fn record_presence(&mut self, path: String, present: bool)
        ensures
            final(self)@ == (ObservedModel {
                present: old(self)@.present.insert(path@, present),
                ..old(self)@
            }),
    {
        let ghost before = self.present.deep_view();
        self.present.push((path, present));
        assert(self.present.deep_view().drop_last() =~= before);
    }

    /// Records what the manifest at `path` declares; `None` for a manifest
    /// that cannot be read.
    pub fn record_manifest(&mut self, path: String, manifest: Option<ManifestSummary>)
        ensures
            final(self)@ == (ObservedModel {
                manifests: old(self)@.manifests.insert(path@, manifest.deep_view()),
                ..old(self)@
            }),
    {
        let ghost before = self.manifests.deep_view();
        self.manifests.push((path, manifest));
        assert(self.manifests.deep_view().drop_last() =~= before);
    }

    /// Records the entries of the directory at `path`, in the order in which
    /// the directory lists them.
    pub fn record_entries(&mut self, path: String, entries: Vec<DirEntry>)
        ensures
            final(self)@ == (ObservedModel {
                entries: old(self)@.entries.insert(path@, entries.deep_view()),
                ..old(self)@
            }),
    {
        let ghost before = self.entries.deep_view();
        self.entries.push((path, entries));
        assert(self.entries.deep_view().drop_last() =~= before);
    }

    /// Records the ingested source file at `path`.
    pub fn record_source(&mut self, path: String, record: SourceRecord)
        ensures
            final(self)@ == (ObservedModel {
                sources: old(self)@.sources.insert(path@, record@),
                ..old(self)@
            }),
    {
        let ghost before = self.sources.deep_view();
        self.sources.push((path, record));
        assert(self.sources.deep_view().drop_last() =~= before);
    }

    /// What is known of whether there is something at `path`.
    pub fn presence(&self, path: &String) -> (known: Option<bool>)
        ensures
            known == (if self@.present.contains_key(path@) {
                Some(self@.present[path@])
            } else {
                None
            }),
    {
        match find_last(&self.present, path) {
            Some(i) => {
                proof {
                    lemma_table_last(self.present.deep_view(), path@, i as int);
                }
                Some(self.present[i].1)
            },
            None => {
                proof {
                    lemma_table_none(self.present.deep_view(), path@);
                }
                None
            },
        }
    }

    /// What is known of the manifest at `path`.
    pub fn manifest(&self, path: &String) -> (known: Option<&Option<ManifestSummary>>)
        ensures
            known.deep_view() == (if self@.manifests.contains_key(path@) {
                Some(self@.manifests[path@])
            } else {
                None
            }),
    {
        match find_last(&self.manifests, path) {
            Some(i) => {
                proof {
                    lemma_table_last(self.manifests.deep_view(), path@, i as int);
                }
                Some(&self.manifests[i].1)
            },
            None => {
                proof {
                    lemma_table_none(self.manifests.deep_view(), path@);
                }
                None
            },
        }
    }

    /// What is known of the entries of the directory at `path`.
    pub fn entries(&self, path: &String) -> (known: Option<&Vec<DirEntry>>)
        ensures
            known.deep_view() == (if self@.entries.contains_key(path@) {
                Some(self@.entries[path@])
            } else {
                None
            }),
    {
        match find_last(&self.entries, path) {
            Some(i) => {
                proof {
                    lemma_table_last(self.entries.deep_view(), path@, i as int);
                }
                Some(&self.entries[i].1)
            },
            None => {
                proof {
                    lemma_table_none(self.entries.deep_view(), path@);
                }
                None
            },
        }
    }

    /// What is known of the source file at `path`.
    pub fn source(&self, path: &String) -> (known: Option<&SourceRecord>)
        ensures
            known.deep_view() == (if self@.sources.contains_key(path@) {
                Some(self@.sources[path@])
            } else {
                None
            }),
    {
        match find_last(&self.sources, path) {
            Some(i) => {
                proof {
                    lemma_table_last(self.sources.deep_view(), path@, i as int);
                }
                Some(&self.sources[i].1)
            },
            None => {
                proof {
                    lemma_table_none(self.sources.deep_view(), path@);
                }
                None
            },
        }
    }

    /// Only finitely many source files are known.
    pub proof fn lemma_finite(&self)
        ensures
            self@.sources.dom().finite(),
    {
        lemma_table_finite(self.sources.deep_view());
    }
}

} // verus!
