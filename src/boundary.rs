//! The decisions of the foreign call boundary: status codes, kind codes and
//! the flat form of an item. The pointer handling itself lives outside the
//! verified library.
use vstd::prelude::*;

use crate::error::StoreError;
use crate::json::{encode_tags, json_char, json_chars, json_items, json_of_strings, json_string};
use crate::models::{kind_code, Item};

verus! {

/// Whether `s` holds a NUL character, which a C string cannot carry.
pub open spec fn has_nul(s: Seq<char>) -> bool {
    exists|i: int| 0 <= i < s.len() && s[i] == '\0'
}

/// A NUL lies in a concatenation exactly when it lies in one of its parts.
proof fn lemma_nul_concat(a: Seq<char>, b: Seq<char>)
    ensures
        has_nul(a + b) <==> has_nul(a) || has_nul(b),
{
    if has_nul(a + b) {
        let i = choose|i: int| 0 <= i < (a + b).len() && (a + b)[i] == '\0';
        if i < a.len() {
            assert(a[i] == (a + b)[i]);
        } else {
            assert(b[i - a.len()] == (a + b)[i]);
        }
    }
    if has_nul(a) {
        let i = choose|i: int| 0 <= i < a.len() && a[i] == '\0';
        assert((a + b)[i] == a[i]);
    }
    if has_nul(b) {
        let i = choose|i: int| 0 <= i < b.len() && b[i] == '\0';
        assert((a + b)[a.len() + i] == b[i]);
    }
}

proof fn lemma_json_char_no_nul(c: char)
    ensures
        !has_nul(json_char(c)),
{
    let s = json_char(c);
    let u = c as u32;
    let digits = seq!['0', '1', '2', '3', '4', '5', '6', '7', '8', '9', 'a', 'b', 'c', 'd', 'e', 'f'];
    assert(forall|k: int| 0 <= k < 16 ==> digits[k] != '\0');
    assert forall|i: int| 0 <= i < s.len() implies s[i] != '\0' by {
        if u < 0x20 && u != 0x08 && u != 0x09 && u != 0x0A && u != 0x0C && u != 0x0D {
            assert(u / 16 < 16 && u % 16 < 16);
        }
    }
}

proof fn lemma_json_chars_no_nul(s: Seq<char>)
    ensures
        !has_nul(json_chars(s)),
    decreases s.len(),
{
    if s.len() > 0 {
        lemma_json_chars_no_nul(s.drop_last());
        lemma_json_char_no_nul(s.last());
        lemma_nul_concat(json_chars(s.drop_last()), json_char(s.last()));
    }
}

proof fn lemma_json_string_no_nul(s: Seq<char>)
    ensures
        !has_nul(json_string(s)),
{
    lemma_json_chars_no_nul(s);
    lemma_nul_concat(seq!['"'], json_chars(s));
    lemma_nul_concat(seq!['"'] + json_chars(s), seq!['"']);
    assert(!has_nul(seq!['"'])) by {
        assert(seq!['"'][0] == '"');
    }
}

proof fn lemma_json_items_no_nul(t: Seq<Seq<char>>)
    ensures
        !has_nul(json_items(t)),
    decreases t.len(),
{
    if t.len() == 1 {
        lemma_json_string_no_nul(t[0]);
    } else if t.len() > 1 {
        lemma_json_items_no_nul(t.drop_last());
        lemma_json_string_no_nul(t.last());
        lemma_nul_concat(json_items(t.drop_last()), seq![',']);
        lemma_nul_concat(json_items(t.drop_last()) + seq![','], json_string(t.last()));
        assert(!has_nul(seq![','])) by {
            assert(seq![','][0] == ',');
        }
    }
}

/// The JSON text of a list of strings holds no NUL character, so it always
/// fits in a C string.
pub proof fn lemma_json_has_no_nul(t: Seq<Seq<char>>)
    ensures
        !has_nul(json_of_strings(t)),
{
    lemma_json_items_no_nul(t);
    lemma_nul_concat(seq!['['], json_items(t));
    lemma_nul_concat(seq!['['] + json_items(t), seq![']']);
    assert(!has_nul(seq!['['])) by {
        assert(seq!['['][0] == '[');
    }
    assert(!has_nul(seq![']'])) by {
        assert(seq![']'][0] == ']');
    }
}

/// Whether a string holds a NUL character.
pub fn contains_nul(s: &str) -> (r: bool)
    ensures
        r == has_nul(s@),
{
    let n = s.unicode_len();
    let mut i: usize = 0;
    while i < n
        invariant
            n == s@.len(),
            i <= n,
            forall|j: int| 0 <= j < i ==> s@[j] != '\0',
        decreases n - i,
    {
        if s.get_char(i) == '\0' {
            return true;
        }
        i = i + 1;
    }
    false
}

/// An item in the flat form handed across the boundary: kind and pinned flag
/// as integers, the tags as their JSON text, a source that a C string cannot
/// carry left out.
#[derive(Debug, Clone, PartialEq, Eq)]
pub struct FlatItem {
    pub id: i64,
    pub kind: i32,
    pub content_ref: String,
    pub source_app: Option<String>,
    pub created_at: i64,
    pub pinned: i32,
    pub tags_json: String,
}

/// `f` is the flat form of `it`.
pub open spec fn flat_of(it: Item, f: FlatItem) -> bool {
    &&& f.id == it.id
    &&& f.kind == kind_code(it.kind)
    &&& f.content_ref@ == it.content_ref@
    &&& (f.source_app is Some <==> (it.source_app is Some && !has_nul(it.source_app->Some_0@)))
    &&& (f.source_app is Some ==> f.source_app->Some_0@ == it.source_app->Some_0@)
    &&& f.created_at == it.created_at
    &&& f.pinned == (if it.pinned { 1i32 } else { 0i32 })
    &&& f.tags_json@ == json_of_strings(it.tags.deep_view())
    &&& !has_nul(f.tags_json@)
}

impl FlatItem {
    /// The flat form of `it`; `None` where its content holds a NUL character.
    pub fn from_item(it: &Item) -> (r: Option<FlatItem>)
        ensures
            r is None <==> has_nul(it.content_ref@),
            r matches Some(f) ==> flat_of(*it, f),
    {
        if contains_nul(it.content_ref.as_str()) {
            return None;
        }
        let source_app = match &it.source_app {
            Some(s) => if contains_nul(s.as_str()) { None } else { Some(s.clone()) },
            None => None,
        };
        let tags_json = match encode_tags(&it.tags) {
            Ok(t) => t,
            Err(_) => String::new(),
        };
        proof {
            lemma_json_has_no_nul(it.tags.deep_view());
        }
        Some(FlatItem {
            id: it.id,
            kind: it.kind.code(),
            content_ref: it.content_ref.clone(),
            source_app,
            created_at: it.created_at,
            pinned: if it.pinned { 1 } else { 0 },
            tags_json,
        })
    }
}

/// The items that have a flat form, in order.
pub open spec fn flattenable(items: Seq<Item>) -> Seq<Item>
    decreases items.len(),
{
    if items.len() == 0 {
        Seq::empty()
    } else if has_nul(items.last().content_ref@) {
        flattenable(items.drop_last())
    } else {
        flattenable(items.drop_last()).push(items.last())
    }
}

/// The flat form of each item that has one, in order; the others are left out.
pub fn flatten_items(items: &Vec<Item>) -> (r: Vec<FlatItem>)
    ensures
        r.len() == flattenable(items@).len(),
        forall|i: int| 0 <= i < r.len() ==> flat_of(flattenable(items@)[i], #[trigger] r[i]),
{
    let mut r: Vec<FlatItem> = Vec::new();
    for i in 0..items.len()
        invariant
            r.len() == flattenable(items@.take(i as int)).len(),
            forall|j: int| 0 <= j < r.len() ==> flat_of(flattenable(items@.take(i as int))[j], #[trigger] r[j]),
    {
        assert(items@.take(i + 1).drop_last() == items@.take(i as int));
        match FlatItem::from_item(&items[i]) {
            Some(f) => {
                r.push(f);
                assert forall|j: int| 0 <= j < r.len() implies flat_of(
                    flattenable(items@.take(i + 1))[j],
                    #[trigger] r[j],
                ) by {
                    if j < r.len() - 1 {
                        assert(flattenable(items@.take(i + 1))[j] == flattenable(items@.take(i as int))[j]);
                    }
                }
            },
            None => {},
        }
    }
    assert(items@.take(items.len() as int) == items@);
    r
}

/// The status of an add: the new id, or -1 on failure.
pub fn add_status(r: &Result<i64, StoreError>) -> (s: i64)
    ensures
        s == (match r {
            Ok(id) => *id,
            Err(_) => -1i64,
        }),
{
    match r {
        Ok(id) => *id,
        Err(_) => -1,
    }
}

/// The status of a dedup insert: the id that stands for the item, 0 where
/// none was named, -1 on failure.
pub fn dedupe_status(r: &Result<Option<i64>, StoreError>) -> (s: i64)
    ensures
        s == (match r {
            Ok(Some(id)) => *id,
            Ok(None) => 0i64,
            Err(_) => -1i64,
        }),
{
    match r {
        Ok(Some(id)) => *id,
        Ok(None) => 0,
        Err(_) => -1,
    }
}

/// The status of a delete or a pin: 0 on success, -1 on failure.
pub fn unit_status(r: &Result<(), StoreError>) -> (s: i32)
    ensures
        s == (if r is Ok { 0i32 } else { -1i32 }),
{
    match r {
        Ok(_) => 0,
        Err(_) => -1,
    }
}

/// A boundary flag read as a boolean: any value but 0 is true.
pub fn flag_is_set(flag: i32) -> (r: bool)
    ensures
        r == (flag != 0),
{
    flag != 0
}

} // verus!
