use vstd::prelude::*;

pub mod chunk;
pub mod docs;
pub mod engine;
pub mod index;

verus! {

/// The error kinds that the engine reports to its callers.
#[derive(Debug)]
pub enum EngineError {
    /// The free-text query string could not be parsed into a structured
    /// query (for example, an unterminated quoted phrase). The engine's
    /// state is unaffected and later calls may succeed.
    QueryParse(String),
    /// The underlying index storage failed while opening, staging,
    /// committing or reading. Already-committed state is unaffected:
    /// a commit is the atomicity boundary.
    Storage(String),
    /// A prior mutation failed midway and could not be rolled back, leaving
    /// the exclusive write path unusable. Later mutation calls keep failing
    /// with this error until the engine is rebuilt; reads are unaffected.
    Lock,
}

} // verus!
