//! The item repository: every operation runs on the connection while its lock
//! is held, and each multi-statement write is one transaction.
use vstd::prelude::*;
use rusqlite::Connection;

use crate::backend::{
    error_text, execute, last_insert_rowid, new_lock, open_connection, query_int, query_rows,
    read_pragma, run_batch, with_lock, write_pragma, StoredRow,
};
use crate::error::StoreError;
use crate::json::encode_tags;
use crate::models::{is_text_kind, Item, NewItem};
use crate::policy::{
    backfill_args, bump_args, bump_outcome, bump_reply, changed_one, index_entry_args, KEY_COLUMN_VERSION, decode_row, decode_rows, dedup_args, id_args, insert_args,
    pending_migrations, pin_args, DedupDecision, SearchPlan, LATEST_VERSION,
    is_pending, known_kind, lemma_selected_bounds, row_holds, select_results, uses_full_text,
};

verus! {

/// Connection settings applied on every open: write-ahead logging, relaxed
/// sync, a larger cache.
const PRAGMAS: &'static str = "PRAGMA journal_mode=WAL;
PRAGMA synchronous=NORMAL;
PRAGMA mmap_size=268435456;
PRAGMA cache_size=-20000;
PRAGMA foreign_keys=ON;
PRAGMA temp_store=MEMORY;";

/// Migration step 1: the item table and its text index.
const MIGRATION_1: &'static str = "CREATE TABLE IF NOT EXISTS items (
    id INTEGER PRIMARY KEY AUTOINCREMENT,
    kind TEXT NOT NULL,
    content_ref TEXT NOT NULL,
    source_app TEXT,
    created_at INTEGER NOT NULL,
    pinned INTEGER NOT NULL DEFAULT 0,
    tags TEXT NOT NULL DEFAULT '[]'
);
CREATE INDEX IF NOT EXISTS idx_items_created_at ON items(created_at DESC);
CREATE INDEX IF NOT EXISTS idx_items_kind_content ON items(kind, content_ref);
CREATE VIRTUAL TABLE IF NOT EXISTS items_fts USING fts5(item_id UNINDEXED, text);";

const VERSION_PRAGMA: &'static str = "user_version";

const BEGIN: &'static str = "BEGIN";

const COMMIT: &'static str = "COMMIT";

const ROLLBACK: &'static str = "ROLLBACK";

const INSERT_ITEM: &'static str = "INSERT INTO items (kind, content_ref, source_app, created_at, pinned, tags, dedup_key)
VALUES (?1, ?2, ?3, ?4, 0, ?5, ?6)";

const INSERT_INDEX: &'static str = "INSERT INTO items_fts (item_id, text) VALUES (?1, ?2)";

const SELECT_ITEM: &'static str = "SELECT id, kind, content_ref, source_app, created_at, pinned, tags
FROM items WHERE id = ?1";

const DELETE_INDEX: &'static str = "DELETE FROM items_fts WHERE item_id = ?1";

const DELETE_ITEM: &'static str = "DELETE FROM items WHERE id = ?1";

const SET_PINNED: &'static str = "UPDATE items SET pinned = ?1 WHERE id = ?2";

const FIND_DUPLICATE: &'static str = "SELECT id FROM items WHERE kind = ?1 AND dedup_key = ?2
ORDER BY created_at DESC LIMIT 1";

/// Migration step 2: the stored dedup key, which duplicate lookups compare.
const MIGRATION_2: &'static str = "ALTER TABLE items ADD COLUMN dedup_key TEXT;
CREATE INDEX IF NOT EXISTS idx_items_kind_dedup ON items(kind, dedup_key);";

const SELECT_UNKEYED: &'static str = "SELECT id, kind, content_ref, source_app, created_at, pinned, tags
FROM items WHERE dedup_key IS NULL";

const SET_DEDUP_KEY: &'static str = "UPDATE items SET dedup_key = ?1 WHERE id = ?2";

const BUMP_TIMESTAMP: &'static str = "UPDATE items SET created_at = ?1 WHERE id = ?2";

/// A storage error naming the operation and the engine's message.
fn storage(op: &str, e: &rusqlite::Error) -> (r: StoreError)
    ensures
        r is Storage,
{
    let mut msg = op.to_owned();
    msg.append(": ");
    msg.append(error_text(e).as_str());
    StoreError::Storage(msg)
}

/// A migration error naming the step and the engine's message.
fn migration(op: &str, e: &rusqlite::Error) -> (r: StoreError)
    ensures
        r is Migration,
{
    let mut msg = op.to_owned();
    msg.append(": ");
    msg.append(error_text(e).as_str());
    StoreError::Migration(msg)
}

/// Rolls back the open transaction after `e` and reports `e`.
fn abort(c: &Connection, e: StoreError) -> (r: StoreError)
    ensures
        r == e,
{
    let _ = run_batch(c, ROLLBACK);
    e
}

/// The schema script of migration step `v`.
fn migration_script(v: i64) -> &'static str
    requires
        1 <= v <= LATEST_VERSION,
{
    if v == 1 {
        MIGRATION_1
    } else {
        MIGRATION_2
    }
}

/// Stores the dedup key of every row that has none yet.
fn backfill_keys(c: &Connection) -> (r: Result<(), StoreError>)
    ensures
        r matches Err(e) ==> e is Migration,
{
    let rows = match query_rows(c, SELECT_UNKEYED, &Vec::new()) {
        Ok(rows) => rows,
        Err(e) => return Err(migration("read rows without a dedup key", &e)),
    };
    for i in 0..rows.len() {
        if let Some(args) = backfill_args(&rows[i]) {
            if let Err(e) = execute(c, SET_DEDUP_KEY, &args) {
                return Err(migration("store dedup key", &e));
            }
        }
    }
    Ok(())
}

/// Runs each pending migration step in order, each in a transaction that also
/// records its version.
fn migrate(c: &Connection, _unit: ()) -> (r: Result<(), StoreError>)
    ensures
        r matches Err(e) ==> e is Migration,
{
    let current = match read_pragma(c, VERSION_PRAGMA) {
        Ok(v) => v,
        Err(e) => return Err(migration("read schema version", &e)),
    };
    let steps = pending_migrations(current);
    for i in 0..steps.len()
        invariant
            forall|w: i64| steps@.contains(w) <==> is_pending(current, w),
    {
        let v = steps[i];
        assert(steps@[i as int] == v);
        assert(steps@.contains(v));
        assert(is_pending(current, v));
        if let Err(e) = run_batch(c, BEGIN) {
            return Err(migration("begin migration", &e));
        }
        if let Err(e) = run_batch(c, migration_script(v)) {
            return Err(abort(c, migration("apply migration", &e)));
        }
        if v == KEY_COLUMN_VERSION {
            if let Err(e) = backfill_keys(c) {
                return Err(abort(c, e));
            }
        }
        if let Err(e) = write_pragma(c, VERSION_PRAGMA, v) {
            return Err(abort(c, migration("record schema version", &e)));
        }
        if let Err(e) = run_batch(c, COMMIT) {
            return Err(abort(c, migration("commit migration", &e)));
        }
    }
    Ok(())
}

/// Inserts `item` and, for a text kind, its text index entry, in one transaction.
fn insert_in(c: &Connection, item: &NewItem) -> (r: Result<i64, StoreError>)
    ensures
        r matches Err(e) ==> e is Storage,
{
    let tags = match encode_tags(&item.tags) {
        Ok(t) => t,
        Err(_) => return Err(StoreError::Storage("encode tags".to_owned())),
    };
    if let Err(e) = run_batch(c, BEGIN) {
        return Err(storage("begin insert", &e));
    }
    if let Err(e) = execute(c, INSERT_ITEM, &insert_args(item, &tags)) {
        return Err(abort(c, storage("insert item", &e)));
    }
    let id = last_insert_rowid(c);
    if let Some(entry) = index_entry_args(item, id) {
        if let Err(e) = execute(c, INSERT_INDEX, &entry) {
            return Err(abort(c, storage("insert text index entry", &e)));
        }
    }
    if let Err(e) = run_batch(c, COMMIT) {
        return Err(abort(c, storage("commit insert", &e)));
    }
    Ok(id)
}

/// The id of the most recent stored item with the candidate's kind and dedup key.
fn find_duplicate_in(c: &Connection, item: &NewItem) -> (r: Result<Option<i64>, StoreError>)
    ensures
        r matches Err(e) ==> e is Storage,
{
    match query_int(c, FIND_DUPLICATE, &dedup_args(item)) {
        Ok(found) => Ok(found),
        Err(e) => Err(storage("look up duplicate", &e)),
    }
}

/// Overwrites the creation time of item `id`.
fn bump_in(c: &Connection, id: i64, created_at: i64) -> (r: Result<(), StoreError>)
    ensures
        r matches Err(e) ==> e is Storage || e == StoreError::NotFound(id),
{
    match execute(c, BUMP_TIMESTAMP, &bump_args(id, created_at)) {
        Ok(n) => changed_one(id, n),
        Err(e) => Err(storage("update timestamp", &e)),
    }
}

/// Looks for a duplicate of `item`; bumps it if found, inserts `item` if not.
fn insert_or_bump_in(c: &Connection, item: &NewItem) -> (r: Result<i64, StoreError>)
    ensures
        r matches Err(e) ==> e is Storage || e is NotFound,
{
    let found = find_duplicate_in(c, item)?;
    match DedupDecision::from_lookup(found) {
        DedupDecision::BumpExisting(id) => bump_outcome(id, bump_in(c, id, item.created_at)),
        DedupDecision::Insert => insert_in(c, item),
    }
}

/// Database connection with migrations applied, behind one lock.
pub struct Database {
    conn: parking_lot::Mutex<Connection>,
}

impl Database {
    /// Opens or creates the store at `db_path`, configures the connection and
    /// brings the schema up to date. Any failure fails the whole open.
    pub fn open(db_path: &str) -> (r: Result<Database, StoreError>)
        ensures
            r matches Err(e) ==> e is Storage || e is Migration,
    {
        let c = match open_connection(db_path) {
            Ok(c) => c,
            Err(e) => return Err(storage("open database", &e)),
        };
        if let Err(e) = run_batch(&c, PRAGMAS) {
            return Err(storage("configure connection", &e));
        }
        let db = Database { conn: new_lock(c) };
        db.apply_migrations()?;
        Ok(db)
    }

    /// Applies every migration step newer than the recorded schema version.
    fn apply_migrations(&self) -> (r: Result<(), StoreError>)
        ensures
            r matches Err(e) ==> e is Migration,
    {
        with_lock(&self.conn, (), migrate)
    }

    /// Inserts a new item, indexing its text for text kinds, and returns its id.
    pub fn insert_item(&self, item: &NewItem) -> (r: Result<i64, StoreError>)
        ensures
            r matches Err(e) ==> e is Storage,
    {
        with_lock(&self.conn, item, insert_in)
    }

    /// The item with id `id`.
    pub fn get_item(&self, id: i64) -> (r: Result<Item, StoreError>)
        ensures
            r matches Ok(it) ==> it.id == id,
            r matches Err(e) ==> e is Storage || e is Validation || e == StoreError::NotFound(id),
    {
        with_lock(&self.conn, id, get_in)
    }

    /// Deletes the item `id` and its text index entry, in one transaction.
    pub fn delete_item(&self, id: i64) -> (r: Result<(), StoreError>)
        ensures
            r matches Err(e) ==> e is Storage || e == StoreError::NotFound(id),
    {
        with_lock(&self.conn, id, delete_in)
    }

    /// Sets the pinned flag of item `id`.
    pub fn set_pinned(&self, id: i64, pinned: bool) -> (r: Result<(), StoreError>)
        ensures
            r matches Err(e) ==> e is Storage || e == StoreError::NotFound(id),
    {
        with_lock(&self.conn, (id, pinned), pin_in)
    }

    /// Items matching `query`, at most `limit` of them: a substring scan over
    /// every item, newest first, for a query under three characters; the text
    /// index (text kinds only), best rank first and newest first among equals,
    /// otherwise.
    pub fn search(&self, query: &str, limit: u32) -> (r: Result<Vec<Item>, StoreError>)
        ensures
            r matches Ok(items) ==> items.len() <= limit && (uses_full_text(query@) ==> forall|i: int|
                0 <= i < items.len() ==> is_text_kind(#[trigger] items[i].kind)),
            r matches Err(e) ==> e is Storage || e is Validation,
    {
        let plan = SearchPlan::new(query, limit);
        with_lock(&self.conn, &plan, search_in)
    }

    /// Whether a stored item has the candidate's kind and dedup key.
    pub fn has_duplicate(&self, new_item: &NewItem) -> (r: Result<bool, StoreError>)
        ensures
            r matches Err(e) ==> e is Storage,
    {
        with_lock(&self.conn, new_item, has_duplicate_in)
    }

    /// Moves the creation time of the candidate's duplicate to the candidate's
    /// and returns its id; `None` where there is no duplicate.
    pub fn update_duplicate_timestamp(&self, new_item: &NewItem) -> (r: Result<Option<i64>, StoreError>)
        ensures
            r matches Err(e) ==> e is Storage || e is NotFound,
    {
        with_lock(&self.conn, new_item, update_duplicate_in)
    }

    /// Bumps the candidate's duplicate or inserts the candidate, under one
    /// lock, and returns the id of the item that now stands for it.
    pub fn insert_or_bump(&self, new_item: &NewItem) -> (r: Result<i64, StoreError>)
        ensures
            r matches Err(e) ==> e is Storage || e is NotFound,
    {
        with_lock(&self.conn, new_item, insert_or_bump_in)
    }
}

/// Sets the pinned flag of one item.
fn pin_in(c: &Connection, target: (i64, bool)) -> (r: Result<(), StoreError>)
    ensures
        r matches Err(e) ==> e is Storage || e == StoreError::NotFound(target.0),
{
    let (id, pinned) = target;
    match execute(c, SET_PINNED, &pin_args(id, pinned)) {
        Ok(n) => changed_one(id, n),
        Err(e) => Err(storage("update pinned flag", &e)),
    }
}

/// Whether the candidate has a stored duplicate.
fn has_duplicate_in(c: &Connection, item: &NewItem) -> (r: Result<bool, StoreError>)
    ensures
        r matches Err(e) ==> e is Storage,
{
    let found = find_duplicate_in(c, item)?;
    Ok(DedupDecision::from_lookup(found).is_bump())
}

/// Bumps the candidate's duplicate, if there is one, and returns its id.
fn update_duplicate_in(c: &Connection, item: &NewItem) -> (r: Result<Option<i64>, StoreError>)
    ensures
        r matches Err(e) ==> e is Storage || e is NotFound,
{
    let d = DedupDecision::from_lookup(find_duplicate_in(c, item)?);
    let bumped = match d {
        DedupDecision::BumpExisting(id) => bump_in(c, id, item.created_at),
        DedupDecision::Insert => Ok(()),
    };
    bump_reply(d, bumped)
}

/// Reads the item `id`.
fn get_in(c: &Connection, id: i64) -> (r: Result<Item, StoreError>)
    ensures
        r matches Ok(it) ==> it.id == id,
        r matches Err(e) ==> e is Storage || e is Validation || e == StoreError::NotFound(id),
{
    let rows = match query_rows(c, SELECT_ITEM, &id_args(id)) {
        Ok(rows) => rows,
        Err(e) => return Err(storage("read item", &e)),
    };
    item_from_rows(id, &rows)
}

/// The item that a lookup of `id` found: the first row, which holds `id`.
pub fn item_from_rows(id: i64, rows: &Vec<StoredRow>) -> (r: Result<Item, StoreError>)
    ensures
        rows.len() == 0 || rows[0].id != id ==> r == Err::<Item, StoreError>(StoreError::NotFound(id)),
        rows.len() > 0 && rows[0].id == id ==> (match r {
            Ok(it) => row_holds(rows[0], it),
            Err(e) => e is Validation && !known_kind(rows[0].kind@),
        }),
{
    if rows.len() == 0 || rows[0].id != id {
        Err(StoreError::NotFound(id))
    } else {
        decode_row(&rows[0])
    }
}

/// Deletes the index entry, then the row, in one transaction.
fn delete_in(c: &Connection, id: i64) -> (r: Result<(), StoreError>)
    ensures
        r matches Err(e) ==> e is Storage || e == StoreError::NotFound(id),
{
    if let Err(e) = run_batch(c, BEGIN) {
        return Err(storage("begin delete", &e));
    }
    let args = id_args(id);
    if let Err(e) = execute(c, DELETE_INDEX, &args) {
        return Err(abort(c, storage("delete text index entry", &e)));
    }
    let n = match execute(c, DELETE_ITEM, &args) {
        Ok(n) => n,
        Err(e) => return Err(abort(c, storage("delete item", &e))),
    };
    if let Err(e) = changed_one(id, n) {
        return Err(abort(c, e));
    }
    if let Err(e) = run_batch(c, COMMIT) {
        return Err(abort(c, storage("commit delete", &e)));
    }
    Ok(())
}

/// Runs a search plan and reads the rows it returns.
fn search_in(c: &Connection, plan: &SearchPlan) -> (r: Result<Vec<Item>, StoreError>)
    requires
        plan.limit >= 0,
    ensures
        r matches Ok(items) ==> items.len() <= plan.limit && (plan.full_text ==> forall|i: int|
            0 <= i < items.len() ==> is_text_kind(#[trigger] items[i].kind)),
        r matches Err(e) ==> e is Storage || e is Validation,
{
    let rows = match query_rows(c, plan.sql, &plan.args()) {
        Ok(rows) => rows,
        Err(e) => return Err(storage("search", &e)),
    };
    let items = decode_rows(&rows)?;
    let kept = select_results(items, plan.full_text, plan.limit);
    proof {
        lemma_selected_bounds(items@, plan.full_text, plan.limit as int);
    }
    Ok(kept)
}

} // verus!
