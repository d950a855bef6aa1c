//! The embedded SQL engine and the lock around its connection, reached
//! through trusted items. Nothing here states what the engine stores: its
//! answers are taken as they come and checked by the callers.
use vstd::prelude::*;
use parking_lot::lock_api;
use rusqlite::types::Value;
use rusqlite::{Connection, OptionalExtension};

verus! {

#[verifier::external_type_specification]
#[verifier::external_body]
pub struct ExConnection(rusqlite::Connection);

#[verifier::external_type_specification]
#[verifier::external_body]
pub struct ExSqlError(rusqlite::Error);

#[verifier::external_type_specification]
#[verifier::external_body]
pub struct ExRawMutex(parking_lot::RawMutex);

#[verifier::external_type_specification]
#[verifier::external_body]
#[verifier::reject_recursive_types(R)]
#[verifier::reject_recursive_types(T)]
pub struct ExMutex<R, T: ?Sized>(lock_api::Mutex<R, T>);

/// A value bound to a statement parameter.
#[derive(Debug, Clone, PartialEq, Eq)]
pub enum SqlArg {
    Int(i64),
    Text(String),
    Null,
}

/// What a statement parameter holds, as a mathematical value.
pub enum ArgValue {
    Int(i64),
    Text(Seq<char>),
    Null,
}

impl View for SqlArg {
    type V = ArgValue;

    open spec fn view(&self) -> ArgValue {
        match self {
            SqlArg::Int(i) => ArgValue::Int(*i),
            SqlArg::Text(s) => ArgValue::Text(s@),
            SqlArg::Null => ArgValue::Null,
        }
    }
}

impl DeepView for SqlArg {
    type V = ArgValue;

    open spec fn deep_view(&self) -> ArgValue {
        self@
    }
}

/// One row of the item table, column by column as the engine returns it.
#[derive(Debug, Clone, PartialEq, Eq)]
pub struct StoredRow {
    pub id: i64,
    pub kind: String,
    pub content_ref: String,
    pub source_app: Option<String>,
    pub created_at: i64,
    pub pinned: i64,
    pub tags: String,
}

/// Relies on `rusqlite::Connection::open`: opens the database file, creating it if absent.
#[verifier::external_body]
pub(crate) fn open_connection(path: &str) -> Result<Connection, rusqlite::Error> {
    Connection::open(path)
}

/// Relies on `Connection::execute_batch`: runs the statements of `sql` in order.
#[verifier::external_body]
pub(crate) fn run_batch(c: &Connection, sql: &str) -> Result<(), rusqlite::Error> {
    c.execute_batch(sql)
}

/// Relies on `Connection::execute`: runs one statement with `args` bound in
/// order and returns the number of rows it changed.
#[verifier::external_body]
pub(crate) fn execute(c: &Connection, sql: &str, args: &Vec<SqlArg>) -> Result<usize, rusqlite::Error> {
    let vals = args.iter().map(|a| match a {
        SqlArg::Int(i) => Value::Integer(*i),
        SqlArg::Text(t) => Value::Text(t.clone()),
        SqlArg::Null => Value::Null,
    });
    c.execute(sql, rusqlite::params_from_iter(vals))
}

/// Relies on `Connection::last_insert_rowid`: the id of the row inserted last.
#[verifier::external_body]
pub(crate) fn last_insert_rowid(c: &Connection) -> i64 {
    c.last_insert_rowid()
}

/// Relies on `Connection::query_row` with `optional`: the integer in the
/// first column of the first row, `None` where the query has no row.
#[verifier::external_body]
pub(crate) fn query_int(c: &Connection, sql: &str, args: &Vec<SqlArg>) -> Result<Option<i64>, rusqlite::Error> {
    let vals = args.iter().map(|a| match a {
        SqlArg::Int(i) => Value::Integer(*i),
        SqlArg::Text(t) => Value::Text(t.clone()),
        SqlArg::Null => Value::Null,
    });
    c.query_row(sql, rusqlite::params_from_iter(vals), |r| r.get(0)).optional()
}

/// Relies on `Statement::query_map`: the rows of an item query, in the order
/// the engine returns them, the seven columns read in table order.
#[verifier::external_body]
pub(crate) fn query_rows(c: &Connection, sql: &str, args: &Vec<SqlArg>) -> Result<Vec<StoredRow>, rusqlite::Error> {
    let vals = args.iter().map(|a| match a {
        SqlArg::Int(i) => Value::Integer(*i),
        SqlArg::Text(t) => Value::Text(t.clone()),
        SqlArg::Null => Value::Null,
    });
    let mut st = c.prepare(sql)?;
    let rows = st.query_map(rusqlite::params_from_iter(vals), |r| Ok(StoredRow {
        id: r.get(0)?, kind: r.get(1)?, content_ref: r.get(2)?, source_app: r.get(3)?,
        created_at: r.get(4)?, pinned: r.get(5)?, tags: r.get(6)?,
    }))?;
    rows.collect()
}

/// Relies on `Connection::pragma_query_value`: the integer value of a pragma.
#[verifier::external_body]
pub(crate) fn read_pragma(c: &Connection, name: &str) -> Result<i64, rusqlite::Error> {
    c.pragma_query_value(None, name, |r| r.get(0))
}

/// Relies on `Connection::pragma_update`: sets a pragma to an integer value.
#[verifier::external_body]
pub(crate) fn write_pragma(c: &Connection, name: &str, v: i64) -> Result<(), rusqlite::Error> {
    c.pragma_update(None, name, v)
}

/// Relies on `Display` for `rusqlite::Error`: the engine's message.
#[verifier::external_body]
pub(crate) fn error_text(e: &rusqlite::Error) -> String {
    e.to_string()
}

/// Relies on `parking_lot::Mutex::new`: the lock starts unlocked around `c`.
#[verifier::external_body]
pub(crate) fn new_lock(c: Connection) -> parking_lot::Mutex<Connection> {
    parking_lot::Mutex::new(c)
}

/// Relies on `parking_lot::Mutex::lock`: `f` runs on the connection and `x`
/// while the lock is held, and the lock is released when it returns.
#[verifier::external_body]
pub(crate) fn with_lock<X, A, F: FnOnce(&Connection, X) -> A>(
    m: &parking_lot::Mutex<Connection>,
    x: X,
    f: F,
) -> (r: A)
    requires
        forall|c: &Connection| #[trigger] f.requires((c, x)),
    ensures
        exists|c: &Connection| #[trigger] f.ensures((c, x), r),
{
    f(&m.lock(), x)
}

} // verus!
