//! The decisions of the store that do not depend on the engine: which search
//! path a query takes, which migrations are pending, what a duplicate is, and
//! how rows and statement arguments map to items.
use vstd::prelude::*;

use crate::backend::{ArgValue, SqlArg, StoredRow};
use crate::error::StoreError;
use crate::json::{decode_tags, json_of_strings};
use crate::models::{
    dedup_key, is_text_kind, kind_name, lemma_kind_names_distinct, Item, ItemKind, NewItem,
};
use crate::text::{lemma_normalize_idempotent, normalize, normalize_text};

verus! {

/// Queries of at least this many characters go through the text index.
pub const FULL_TEXT_MIN_CHARS: usize = 3;

/// The schema version that the last migration step records.
pub const LATEST_VERSION: i64 = 2;

/// The migration step that adds the stored dedup key, filled in for rows
/// that were written before it.
pub const KEY_COLUMN_VERSION: i64 = 2;

/// The substring scan: every kind, newest first.
pub const SEARCH_SUBSTRING: &'static str = "SELECT id, kind, content_ref, source_app, created_at, pinned, tags
FROM items
WHERE content_ref LIKE ?1
ORDER BY created_at DESC
LIMIT ?2";

/// The text index search: text kinds only, best rank first, newest first among equals.
pub const SEARCH_FULL_TEXT: &'static str = "SELECT i.id, i.kind, i.content_ref, i.source_app, i.created_at, i.pinned, i.tags
FROM items i
INNER JOIN items_fts fts ON fts.item_id = i.id
WHERE items_fts MATCH ?1
ORDER BY fts.rank, i.created_at DESC
LIMIT ?2";

/// Whether a query is answered from the text index.
pub open spec fn uses_full_text(q: Seq<char>) -> bool {
    q.len() >= FULL_TEXT_MIN_CHARS
}

/// The argument matched against items: the query itself for the text index,
/// the query between `%` wildcards for the substring scan.
pub open spec fn search_pattern(q: Seq<char>) -> Seq<char> {
    if uses_full_text(q) {
        q
    } else {
        seq!['%'] + q + seq!['%']
    }
}

/// How one search runs.
pub struct SearchPlan {
    /// Through the text index (text kinds only, by rank then recency), or
    /// by substring over every item (by recency).
    pub full_text: bool,
    /// The statement that runs it.
    pub sql: &'static str,
    pub pattern: String,
    pub limit: i64,
}

/// The statement of the search path chosen for `q`.
pub open spec fn search_statement(q: Seq<char>) -> Seq<char> {
    if uses_full_text(q) {
        SEARCH_FULL_TEXT@
    } else {
        SEARCH_SUBSTRING@
    }
}

impl SearchPlan {
    /// Chooses the search path for `query` and the arguments it is given.
    pub fn new(query: &str, limit: u32) -> (r: SearchPlan)
        ensures
            r.full_text == uses_full_text(query@),
            r.sql@ == search_statement(query@),
            r.pattern@ == search_pattern(query@),
            r.limit == limit as i64,
    {
        let n = query.unicode_len();
        if n >= FULL_TEXT_MIN_CHARS {
            SearchPlan {
                full_text: true,
                sql: SEARCH_FULL_TEXT,
                pattern: query.to_owned(),
                limit: limit as i64,
            }
        } else {
            let mut p = String::from_str("%");
            p.append(query);
            p.append("%");
            proof {
                reveal_strlit("%");
            }
            SearchPlan { full_text: false, sql: SEARCH_SUBSTRING, pattern: p, limit: limit as i64 }
        }
    }

    /// The statement arguments: the pattern, then the limit.
    pub fn args(&self) -> (r: Vec<SqlArg>)
        ensures
            r.deep_view() == seq![ArgValue::Text(self.pattern@), ArgValue::Int(self.limit)],
    {
        let r = vec![SqlArg::Text(self.pattern.clone()), SqlArg::Int(self.limit)];
        assert(r.deep_view() =~= seq![ArgValue::Text(self.pattern@), ArgValue::Int(self.limit)]);
        r
    }
}

/// The results kept, in order: at most `limit`, and of text kinds only on the
/// full-text path, whose index holds entries for text kinds alone.
pub open spec fn selected(items: Seq<Item>, full_text: bool, limit: int) -> Seq<Item>
    decreases items.len(),
{
    if items.len() == 0 {
        Seq::empty()
    } else {
        let s = selected(items.drop_last(), full_text, limit);
        if s.len() >= limit || (full_text && !is_text_kind(items.last().kind)) {
            s
        } else {
            s.push(items.last())
        }
    }
}

/// What `selected` keeps is within the limit and, on the full-text path, of text kinds.
pub proof fn lemma_selected_bounds(items: Seq<Item>, full_text: bool, limit: int)
    requires
        limit >= 0,
    ensures
        selected(items, full_text, limit).len() <= limit,
        full_text ==> forall|i: int|
            0 <= i < selected(items, full_text, limit).len() ==> is_text_kind(
                #[trigger] selected(items, full_text, limit)[i].kind,
            ),
    decreases items.len(),
{
    if items.len() > 0 {
        lemma_selected_bounds(items.drop_last(), full_text, limit);
    }
}

/// Keeps the results that `selected` keeps.
pub fn select_results(items: Vec<Item>, full_text: bool, limit: i64) -> (r: Vec<Item>)
    ensures
        r@ == selected(items@, full_text, limit as int),
{
    let ghost all = items@;
    let mut out: Vec<Item> = Vec::new();
    for it in iter: items.into_iter()
        invariant
            iter.seq() == all,
            out@ == selected(all.take(iter.index() as int), full_text, limit as int),
    {
        assert(all.take(iter.index() + 1).drop_last() == all.take(iter.index() as int));
        assert(all.take(iter.index() + 1).last() == it);
        if (out.len() as i128) < (limit as i128) && (!full_text || it.kind.is_text()) {
            out.push(it);
        }
    }
    assert(all.take(all.len() as int) == all);
    out
}

/// Whether migration step `v` must run on a store at version `current`.
pub open spec fn is_pending(current: i64, v: i64) -> bool {
    1 <= v <= LATEST_VERSION && current < v
}

/// The version a store at `current` records once its pending steps have run.
pub open spec fn version_after(current: i64) -> i64 {
    if current < LATEST_VERSION {
        LATEST_VERSION
    } else {
        current
    }
}

/// The migration steps that a store at version `current` still needs, in order.
pub fn pending_migrations(current: i64) -> (r: Vec<i64>)
    ensures
        forall|v: i64| #[trigger] r@.contains(v) <==> is_pending(current, v),
        forall|i: int, j: int| 0 <= i < j < r.len() ==> r[i] < r[j],
{
    let mut r: Vec<i64> = Vec::new();
    let mut v: i64 = 1;
    while v <= LATEST_VERSION
        invariant
            1 <= v <= LATEST_VERSION + 1,
            forall|w: i64| r@.contains(w) <==> (is_pending(current, w) && w < v),
            forall|i: int, j: int| 0 <= i < j < r.len() ==> r[i] < r[j],
            forall|i: int| 0 <= i < r.len() ==> r[i] < v,
        decreases LATEST_VERSION + 1 - v,
    {
        if current < v {
            let ghost before = r@;
            r.push(v);
            assert(r@ == before.push(v));
            assert forall|w: i64| r@.contains(w) <==> (is_pending(current, w) && w < v + 1) by {
                if w == v {
                    assert(r@[r.len() - 1] == w);
                }
                if r@.contains(w) && w != v {
                    let k = choose|k: int| 0 <= k < r.len() && r@[k] == w;
                    assert(k < before.len());
                    assert(before[k] == w);
                    assert(before.contains(w));
                }
                if is_pending(current, w) && w < v {
                    assert(before.contains(w));
                    let k = choose|k: int| 0 <= k < before.len() && before[k] == w;
                    assert(r@[k] == w);
                }
            }
        } else {
            assert forall|w: i64| r@.contains(w) <==> (is_pending(current, w) && w < v + 1) by {}
        }
        v = v + 1;
    }
    r
}

/// Once every pending step has run, opening the same store again finds no
/// step pending: no migration is applied twice.
pub proof fn lemma_migrations_run_once(current: i64)
    ensures
        forall|v: i64| is_pending(current, v) ==> current < v <= version_after(current),
        forall|v: i64| !is_pending(version_after(current), v),
{
}

/// The stored form of a pinned flag.
pub open spec fn pinned_value(pinned: bool) -> i64 {
    if pinned {
        1
    } else {
        0
    }
}

/// The text form of an optional string argument.
pub open spec fn opt_arg(s: Option<String>) -> ArgValue {
    match s {
        Some(t) => ArgValue::Text(t@),
        None => ArgValue::Null,
    }
}

/// The values that inserting `n`, with `tags_json` for its tags, binds: kind
/// tag, content, source, creation time, tags text and dedup key.
pub open spec fn insert_row_values(n: NewItem, tags_json: Seq<char>) -> Seq<ArgValue> {
    seq![
        ArgValue::Text(kind_name(n.kind)),
        ArgValue::Text(n.content_ref@),
        opt_arg(n.source_app),
        ArgValue::Int(n.created_at),
        ArgValue::Text(tags_json),
        ArgValue::Text(dedup_key(n.kind, n.content_ref@)),
    ]
}

fn clone_opt(s: &Option<String>) -> (r: Option<String>)
    ensures
        r is Some <==> s is Some,
        r is Some ==> r->Some_0@ == s->Some_0@,
{
    match s {
        Some(t) => Some(t.clone()),
        None => None,
    }
}

fn opt_sql(s: &Option<String>) -> (r: SqlArg)
    ensures
        r@ == opt_arg(*s),
{
    match s {
        Some(t) => SqlArg::Text(t.clone()),
        None => SqlArg::Null,
    }
}

/// Arguments of the item insert: kind tag, content, source, time, tags text, dedup key.
pub fn insert_args(n: &NewItem, tags_json: &String) -> (r: Vec<SqlArg>)
    ensures
        r.deep_view() == insert_row_values(*n, tags_json@),
{
    let r = vec![
        SqlArg::Text(n.kind.as_str().to_owned()),
        SqlArg::Text(n.content_ref.clone()),
        opt_sql(&n.source_app),
        SqlArg::Int(n.created_at),
        SqlArg::Text(tags_json.clone()),
        SqlArg::Text(dedup_lookup_key(n)),
    ];
    assert(r.deep_view() =~= insert_row_values(*n, tags_json@));
    r
}

/// The text index entry that inserting `n` under `id` writes: one, holding
/// the id and the text, for a text kind; none for an image or a file.
pub fn index_entry_args(n: &NewItem, id: i64) -> (r: Option<Vec<SqlArg>>)
    ensures
        r is Some <==> is_text_kind(n.kind),
        r matches Some(a) ==> a.deep_view() == seq![ArgValue::Int(id), ArgValue::Text(n.content_ref@)],
{
    if n.kind.is_text() {
        Some(index_args(id, &n.content_ref))
    } else {
        None
    }
}

/// Arguments of the text index insert: the item id and its text.
pub fn index_args(id: i64, content: &String) -> (r: Vec<SqlArg>)
    ensures
        r.deep_view() == seq![ArgValue::Int(id), ArgValue::Text(content@)],
{
    let r = vec![SqlArg::Int(id), SqlArg::Text(content.clone())];
    assert(r.deep_view() =~= seq![ArgValue::Int(id), ArgValue::Text(content@)]);
    r
}

/// Arguments of a statement on one item id.
pub fn id_args(id: i64) -> (r: Vec<SqlArg>)
    ensures
        r.deep_view() == seq![ArgValue::Int(id)],
{
    let r = vec![SqlArg::Int(id)];
    assert(r.deep_view() =~= seq![ArgValue::Int(id)]);
    r
}

/// Arguments of the pin update: the stored flag, then the id.
pub fn pin_args(id: i64, pinned: bool) -> (r: Vec<SqlArg>)
    ensures
        r.deep_view() == seq![ArgValue::Int(pinned_value(pinned)), ArgValue::Int(id)],
{
    let flag: i64 = if pinned { 1 } else { 0 };
    let r = vec![SqlArg::Int(flag), SqlArg::Int(id)];
    assert(r.deep_view() =~= seq![ArgValue::Int(pinned_value(pinned)), ArgValue::Int(id)]);
    r
}

/// Arguments of the timestamp bump: the new time, then the id.
pub fn bump_args(id: i64, created_at: i64) -> (r: Vec<SqlArg>)
    ensures
        r.deep_view() == seq![ArgValue::Int(created_at), ArgValue::Int(id)],
{
    let r = vec![SqlArg::Int(created_at), SqlArg::Int(id)];
    assert(r.deep_view() =~= seq![ArgValue::Int(created_at), ArgValue::Int(id)]);
    r
}

/// The dedup key of a candidate: its normalised text for text kinds, its raw
/// reference otherwise.
pub fn dedup_lookup_key(n: &NewItem) -> (r: String)
    ensures
        r@ == dedup_key(n.kind, n.content_ref@),
{
    dedup_key_of(n.kind, &n.content_ref)
}

/// The dedup key of content of the given kind.
pub fn dedup_key_of(kind: ItemKind, content: &String) -> (r: String)
    ensures
        r@ == dedup_key(kind, content@),
{
    if kind.is_text() {
        normalize_text(content.as_str())
    } else {
        content.clone()
    }
}

/// For a row written before keys were stored: the key to store, then the
/// id; `None` for a row whose kind tag is unknown.
pub fn backfill_args(row: &StoredRow) -> (r: Option<Vec<SqlArg>>)
    ensures
        r is Some <==> known_kind(row.kind@),
        r matches Some(a) ==> exists|k: ItemKind| #[trigger] kind_name(k) == row.kind@
            && a.deep_view() == seq![
                ArgValue::Text(dedup_key(k, row.content_ref@)),
                ArgValue::Int(row.id),
            ],
{
    match ItemKind::parse(row.kind.as_str()) {
        Ok(kind) => {
            let r = vec![SqlArg::Text(dedup_key_of(kind, &row.content_ref)), SqlArg::Int(row.id)];
            assert(r.deep_view() =~= seq![
                ArgValue::Text(dedup_key(kind, row.content_ref@)),
                ArgValue::Int(row.id),
            ]);
            Some(r)
        },
        Err(_) => None,
    }
}

/// Arguments of the duplicate lookup: the kind tag, then the dedup key, which
/// is compared with the dedup key stored with each item.
pub fn dedup_args(n: &NewItem) -> (r: Vec<SqlArg>)
    ensures
        r.deep_view() == seq![
            ArgValue::Text(kind_name(n.kind)),
            ArgValue::Text(dedup_key(n.kind, n.content_ref@)),
        ],
{
    let r = vec![SqlArg::Text(n.kind.as_str().to_owned()), SqlArg::Text(dedup_lookup_key(n))];
    assert(r.deep_view() =~= seq![
        ArgValue::Text(kind_name(n.kind)),
        ArgValue::Text(dedup_key(n.kind, n.content_ref@)),
    ]);
    r
}

/// What to do with a candidate, given the id of a stored duplicate if any.
#[derive(Debug, Clone, Copy, PartialEq, Eq, Structural)]
pub enum DedupDecision {
    Insert,
    BumpExisting(i64),
}

impl DedupDecision {
    /// A found duplicate is bumped; otherwise the candidate is inserted.
    pub fn from_lookup(found: Option<i64>) -> (r: DedupDecision)
        ensures
            r == (match found {
                Some(id) => DedupDecision::BumpExisting(id),
                None => DedupDecision::Insert,
            }),
    {
        match found {
            Some(id) => DedupDecision::BumpExisting(id),
            None => DedupDecision::Insert,
        }
    }
}

impl DedupDecision {
    /// Whether a duplicate was found.
    pub fn is_bump(&self) -> (r: bool)
        ensures
            r == (self is BumpExisting),
    {
        match self {
            DedupDecision::BumpExisting(_) => true,
            DedupDecision::Insert => false,
        }
    }
}

/// The id that stands for a candidate once its duplicate `id` was bumped: `id`
/// itself, or the bump's failure.
pub fn bump_outcome(id: i64, bumped: Result<(), StoreError>) -> (r: Result<i64, StoreError>)
    ensures
        r == (match bumped {
            Ok(_) => Ok::<i64, StoreError>(id),
            Err(e) => Err(e),
        }),
{
    match bumped {
        Ok(_) => Ok(id),
        Err(e) => Err(e),
    }
}

/// The reply of a bump-only request: `None` where no duplicate was found and
/// nothing was done, the bumped id where the bump succeeded, its failure
/// otherwise.
pub fn bump_reply(d: DedupDecision, bumped: Result<(), StoreError>) -> (r: Result<Option<i64>, StoreError>)
    ensures
        d is Insert ==> r == Ok::<Option<i64>, StoreError>(None),
        d matches DedupDecision::BumpExisting(id) ==> r == (match bumped {
            Ok(_) => Ok::<Option<i64>, StoreError>(Some(id)),
            Err(e) => Err(e),
        }),
{
    match d {
        DedupDecision::Insert => Ok(None),
        DedupDecision::BumpExisting(id) => match bumped {
            Ok(_) => Ok(Some(id)),
            Err(e) => Err(e),
        },
    }
}

/// The result of a statement meant to change the item `id`: it is absent
/// when no row changed.
pub fn changed_one(id: i64, rows: usize) -> (r: Result<(), StoreError>)
    ensures
        rows == 0 ==> r == Err::<(), StoreError>(StoreError::NotFound(id)),
        rows != 0 ==> r is Ok,
{
    if rows == 0 {
        Err(StoreError::NotFound(id))
    } else {
        Ok(())
    }
}

/// `s` is the tag of some kind.
pub open spec fn known_kind(s: Seq<char>) -> bool {
    exists|k: ItemKind| kind_name(k) == s
}

/// `it` is what `row` holds, read field by field; the tags are those that the
/// stored text encodes, and no tags where it encodes none.
pub open spec fn row_holds(row: StoredRow, it: Item) -> bool {
    &&& it.id == row.id
    &&& kind_name(it.kind) == row.kind@
    &&& it.content_ref@ == row.content_ref@
    &&& (it.source_app is Some <==> row.source_app is Some)
    &&& (it.source_app is Some ==> it.source_app->Some_0@ == row.source_app->Some_0@)
    &&& it.created_at == row.created_at
    &&& it.pinned == (row.pinned != 0)
    &&& forall|t: Seq<Seq<char>>| row.tags@ == #[trigger] json_of_strings(t) ==> it.tags.deep_view() == t
}

/// Reads an item out of a stored row. A row whose kind tag is unknown is a
/// validation error; tags that do not read back as a list are taken as none.
pub fn decode_row(row: &StoredRow) -> (r: Result<Item, StoreError>)
    ensures
        r is Ok <==> known_kind(row.kind@),
        r matches Ok(it) ==> row_holds(*row, it),
        r matches Err(e) ==> e is Validation,
{
    let kind = ItemKind::parse(row.kind.as_str())?;
    let tags = match decode_tags(row.tags.as_str()) {
        Ok(t) => t,
        Err(_) => Vec::new(),
    };
    let it = Item {
        id: row.id,
        kind,
        content_ref: row.content_ref.clone(),
        source_app: clone_opt(&row.source_app),
        created_at: row.created_at,
        pinned: row.pinned != 0,
        tags,
    };
    proof {
        lemma_kind_names_distinct();
    }
    Ok(it)
}

/// Reads every row, in order; fails on the first row that does not decode.
pub fn decode_rows(rows: &Vec<StoredRow>) -> (r: Result<Vec<Item>, StoreError>)
    ensures
        r is Ok <==> forall|i: int| 0 <= i < rows.len() ==> known_kind(#[trigger] rows[i].kind@),
        r matches Ok(items) ==> items.len() == rows.len() && forall|i: int|
            0 <= i < rows.len() ==> row_holds(#[trigger] rows[i], items[i]),
        r matches Err(e) ==> e is Validation,
{
    let mut items: Vec<Item> = Vec::new();
    let mut i: usize = 0;
    while i < rows.len()
        invariant
            i <= rows.len(),
            items.len() == i,
            forall|j: int| 0 <= j < i ==> known_kind(#[trigger] rows[j].kind@),
            forall|j: int| 0 <= j < i ==> row_holds(#[trigger] rows[j], items[j]),
        decreases rows.len() - i,
    {
        match decode_row(&rows[i]) {
            Ok(it) => {
                items.push(it);
                assert(row_holds(rows[i as int], items[i as int]));
            },
            Err(e) => {
                assert(!known_kind(rows[i as int].kind@));
                return Err(e);
            },
        }
        i = i + 1;
    }
    Ok(items)
}

/// The row that an insert of `n` under `id` writes reads back as `n`, with
/// that id and not pinned: kind, content, source, time and tags all survive.
pub proof fn lemma_insert_round_trip(n: NewItem, id: i64, row: StoredRow, it: Item)
    requires
        row.tags@ == json_of_strings(n.tags.deep_view()),
        row.id == id,
        row.pinned == 0,
        seq![
            ArgValue::Text(row.kind@),
            ArgValue::Text(row.content_ref@),
            opt_arg(row.source_app),
            ArgValue::Int(row.created_at),
            ArgValue::Text(row.tags@),
        ] == insert_row_values(n, row.tags@).take(5),
        row_holds(row, it),
    ensures
        it.id == id,
        it.kind == n.kind,
        it.content_ref@ == n.content_ref@,
        it.source_app is Some <==> n.source_app is Some,
        it.source_app is Some ==> it.source_app->Some_0@ == n.source_app->Some_0@,
        it.created_at == n.created_at,
        !it.pinned,
        it.tags.deep_view() == n.tags.deep_view(),
{
    lemma_kind_names_distinct();
    let vals = insert_row_values(n, row.tags@);
    assert(vals.take(5)[0] == ArgValue::Text(row.kind@));
    assert(vals.take(5)[1] == ArgValue::Text(row.content_ref@));
    assert(vals.take(5)[2] == opt_arg(row.source_app));
    assert(vals.take(5)[3] == ArgValue::Int(row.created_at));
}

/// A later candidate of the same kind with the same dedup key (for text
/// kinds: the same text up to whitespace) looks up an earlier item by exactly
/// the kind tag and dedup key that the earlier item's insert stored.
pub proof fn lemma_duplicate_lookup_matches_insert(a: NewItem, b: NewItem, tags_json: Seq<char>)
    requires
        a.kind == b.kind,
        dedup_key(b.kind, b.content_ref@) == dedup_key(a.kind, a.content_ref@),
    ensures
        seq![ArgValue::Text(kind_name(b.kind)), ArgValue::Text(dedup_key(b.kind, b.content_ref@))]
            == seq![insert_row_values(a, tags_json)[0], insert_row_values(a, tags_json)[5]],
{
}

/// Text stored in normalised form is its own dedup key, so a later candidate
/// with the same normalised text looks it up exactly.
pub proof fn lemma_normalized_text_is_own_key(k: ItemKind, x: Seq<char>)
    requires
        is_text_kind(k),
    ensures
        dedup_key(k, normalize(x)) == normalize(x),
{
    lemma_normalize_idempotent(x);
}

} // verus!
