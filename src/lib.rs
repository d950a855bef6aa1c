//! Storage and retrieval engine for clipboard history items: an embedded SQL
//! store with a full-text index, versioned schema migrations, deduplication of
//! repeated copies and a hybrid substring / full-text search.
use vstd::prelude::*;
use std::sync::Arc;

pub mod backend;
pub mod boundary;
pub mod db;
pub mod error;
pub mod json;
pub mod models;
pub mod policy;
pub mod text;

pub use db::Database;
pub use error::StoreError;
pub use models::{Item, ItemKind, NewItem};
pub use policy::{DedupDecision, SearchPlan};

use models::is_text_kind;
use policy::uses_full_text;

verus! {

/// Main handle to the clipboard store. Cloning it is cheap and shares the one
/// connection, whose lock serialises every operation.
#[derive(Clone)]
pub struct Core {
    db: Arc<Database>,
    blobs_dir: String,
}

impl Core {
    /// Opens or creates the store at `db_path`, applying pending migrations.
    /// `blobs_dir` is where large payloads belong; creating that directory on
    /// disk is the caller's filesystem work.
    pub fn open(db_path: &str, blobs_dir: &str) -> (r: Result<Core, StoreError>)
        ensures
            r matches Ok(core) ==> core.spec_blobs_dir() == blobs_dir@,
            r matches Err(e) ==> e is Storage || e is Migration,
    {
        let db = Database::open(db_path)?;
        Ok(Core { db: Arc::new(db), blobs_dir: blobs_dir.to_owned() })
    }

    /// The directory for large payloads.
    pub closed spec fn spec_blobs_dir(&self) -> Seq<char> {
        self.blobs_dir@
    }

    /// The directory for large payloads.
    pub fn blobs_dir(&self) -> (r: &str)
        ensures
            r@ == self.spec_blobs_dir(),
    {
        self.blobs_dir.as_str()
    }

    /// Adds a new item and returns its id.
    pub fn add_item(&self, item: NewItem) -> (r: Result<i64, StoreError>)
        ensures
            r matches Err(e) ==> e is Storage,
    {
        self.db.insert_item(&item)
    }

    /// The item with id `id`.
    pub fn get(&self, id: i64) -> (r: Result<Item, StoreError>)
        ensures
            r matches Ok(it) ==> it.id == id,
            r matches Err(e) ==> e is Storage || e is Validation || e == StoreError::NotFound(id),
    {
        self.db.get_item(id)
    }

    /// Deletes the item `id`; deleting an absent id is `NotFound`.
    pub fn delete(&self, id: i64) -> (r: Result<(), StoreError>)
        ensures
            r matches Err(e) ==> e is Storage || e == StoreError::NotFound(id),
    {
        self.db.delete_item(id)
    }

    /// Sets the pinned flag of the item `id`.
    pub fn pin(&self, id: i64, pinned: bool) -> (r: Result<(), StoreError>)
        ensures
            r matches Err(e) ==> e is Storage || e == StoreError::NotFound(id),
    {
        self.db.set_pinned(id, pinned)
    }

    /// Items matching `query`, at most `limit`; see `Database::search`.
    pub fn search(&self, query: &str, limit: u32) -> (r: Result<Vec<Item>, StoreError>)
        ensures
            r matches Ok(items) ==> items.len() <= limit && (uses_full_text(query@) ==> forall|i: int|
                0 <= i < items.len() ==> is_text_kind(#[trigger] items[i].kind)),
            r matches Err(e) ==> e is Storage || e is Validation,
    {
        self.db.search(query, limit)
    }

    /// Inserts `item` unless a stored item has its kind and dedup key; that
    /// item then takes `item`'s creation time, keeps everything else, and its
    /// id is returned. Either way the result names the item that stands for
    /// `item`, so it is never `None`.
    pub fn dedupe_insert(&self, item: NewItem) -> (r: Result<Option<i64>, StoreError>)
        ensures
            r matches Ok(found) ==> found is Some,
            r matches Err(e) ==> e is Storage || e is NotFound,
    {
        let id = self.db.insert_or_bump(&item)?;
        Ok(Some(id))
    }
}

} // verus!
