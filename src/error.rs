//! Errors reported by the store.
use vstd::prelude::*;

verus! {

/// Why a store operation failed.
#[derive(Debug, Clone, PartialEq, Eq)]
pub enum StoreError {
    /// No item has the given id.
    NotFound(i64),
    /// An input was malformed, such as an unknown kind tag.
    Validation(String),
    /// The backing engine failed; the text names the operation and the cause.
    Storage(String),
    /// A schema migration failed while opening the store.
    Migration(String),
}

} // verus!
