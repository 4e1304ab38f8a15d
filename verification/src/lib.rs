//! Structural map of a multi-crate Rust source tree.
//!
//! The library discovers a project's crates from its manifest, resolves the
//! module-to-file mapping, summarises every file's top-level declarations and
//! assembles the result into one project graph.
//!
//! It never touches the file system. [`engine::TraversalEngine::scan`] works
//! from the answers recorded in an [`observed::Observations`] value; where an
//! answer is missing it returns the question. The caller looks the answer up,
//! records it and scans again, until the scan yields the graph.
//!
//! Beside the scan stands what works on its result: the flattened list of
//! snapshots ([`graph::collect_snapshots`]), the linter ([`linting`]), the
//! pages ([`output`]) and the requests to a summarising service
//! ([`ai_linting`]).

pub mod ai_linting;
pub mod config;
pub mod digest;
pub mod engine;
pub mod graph;
pub mod linting;
pub mod observed;
pub mod output;
pub mod parse;
pub mod paths;
pub mod syntax;
pub mod text;
pub mod types;
pub mod visitor;
