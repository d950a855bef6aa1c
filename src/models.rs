//! The item model: kinds, stored items and items to insert.
use vstd::prelude::*;
use vstd::std_specs::hash::DefaultHasherAdditionalSpecFns;
use vstd::utf8::encode_utf8;
use std::collections::hash_map::DefaultHasher;
use std::hash::Hasher;

use crate::error::StoreError;
use crate::text::{normalize, normalize_text, str_eq};

verus! {

/// Type of clipboard item.
#[derive(Debug, Clone, Copy, PartialEq, Eq, Structural)]
pub enum ItemKind {
    Text,
    Rtf,
    Image,
    File,
}

/// The tag under which a kind is stored.
pub open spec fn kind_name(k: ItemKind) -> Seq<char> {
    match k {
        ItemKind::Text => "text"@,
        ItemKind::Rtf => "rtf"@,
        ItemKind::Image => "image"@,
        ItemKind::File => "file"@,
    }
}

/// The integer code of a kind at the foreign call boundary.
pub open spec fn kind_code(k: ItemKind) -> i32 {
    match k {
        ItemKind::Text => 0,
        ItemKind::Rtf => 1,
        ItemKind::Image => 2,
        ItemKind::File => 3,
    }
}

/// Kinds whose content is literal text and goes into the text index.
pub open spec fn is_text_kind(k: ItemKind) -> bool {
    k is Text || k is Rtf
}

/// The four tags are pairwise distinct.
pub proof fn lemma_kind_names_distinct()
    ensures
        forall|a: ItemKind, b: ItemKind| kind_name(a) == kind_name(b) ==> a == b,
{
    reveal_strlit("text");
    reveal_strlit("rtf");
    reveal_strlit("image");
    reveal_strlit("file");
    assert("text"@[0] == 't' && "rtf"@[0] == 'r' && "image"@[0] == 'i' && "file"@[0] == 'f');
}

impl ItemKind {
    /// The tag under which this kind is stored.
    pub fn as_str(&self) -> (r: &'static str)
        ensures
            r@ == kind_name(*self),
    {
        match self {
            ItemKind::Text => "text",
            ItemKind::Rtf => "rtf",
            ItemKind::Image => "image",
            ItemKind::File => "file",
        }
    }

    /// Reads a stored tag back; an unknown tag is a validation error.
    pub fn parse(s: &str) -> (r: Result<ItemKind, StoreError>)
        ensures
            r is Ok <==> exists|k: ItemKind| kind_name(k) == s@,
            r matches Ok(k) ==> kind_name(k) == s@,
            forall|k: ItemKind| #[trigger] kind_name(k) == s@ ==> r == Ok::<ItemKind, StoreError>(k),
            r matches Err(e) ==> e is Validation,
    {
        proof {
            lemma_kind_names_distinct();
        }
        if str_eq(s, "text") {
            assert(kind_name(ItemKind::Text) == s@);
            Ok(ItemKind::Text)
        } else if str_eq(s, "rtf") {
            assert(kind_name(ItemKind::Rtf) == s@);
            Ok(ItemKind::Rtf)
        } else if str_eq(s, "image") {
            assert(kind_name(ItemKind::Image) == s@);
            Ok(ItemKind::Image)
        } else if str_eq(s, "file") {
            assert(kind_name(ItemKind::File) == s@);
            Ok(ItemKind::File)
        } else {
            proof {
                assert forall|k: ItemKind| kind_name(k) != s@ by {
                    match k {
                        ItemKind::Text => {},
                        ItemKind::Rtf => {},
                        ItemKind::Image => {},
                        ItemKind::File => {},
                    }
                }
            }
            Err(StoreError::Validation(s.to_owned()))
        }
    }

    /// The integer code of this kind at the foreign call boundary.
    pub fn code(&self) -> (r: i32)
        ensures
            r == kind_code(*self),
    {
        match self {
            ItemKind::Text => 0,
            ItemKind::Rtf => 1,
            ItemKind::Image => 2,
            ItemKind::File => 3,
        }
    }

    /// The kind with the given boundary code, if any.
    pub fn from_code(code: i32) -> (r: Option<ItemKind>)
        ensures
            r matches Some(k) ==> kind_code(k) == code,
            r is None <==> !(0 <= code <= 3),
    {
        if code == 0 {
            Some(ItemKind::Text)
        } else if code == 1 {
            Some(ItemKind::Rtf)
        } else if code == 2 {
            Some(ItemKind::Image)
        } else if code == 3 {
            Some(ItemKind::File)
        } else {
            None
        }
    }

    /// Whether items of this kind hold literal text and are full-text indexed.
    pub fn is_text(&self) -> (r: bool)
        ensures
            r == is_text_kind(*self),
    {
        match self {
            ItemKind::Text | ItemKind::Rtf => true,
            _ => false,
        }
    }
}

impl std::str::FromStr for ItemKind {
    type Err = StoreError;

    fn from_str(s: &str) -> Result<ItemKind, StoreError> {
        ItemKind::parse(s)
    }
}

/// A stored clipboard item.
#[derive(Debug, Clone, PartialEq)]
pub struct Item {
    pub id: i64,
    pub kind: ItemKind,
    pub content_ref: String,
    pub source_app: Option<String>,
    pub created_at: i64,
    pub pinned: bool,
    pub tags: Vec<String>,
}

/// A new item to be inserted.
#[derive(Debug, Clone, PartialEq)]
pub struct NewItem {
    pub kind: ItemKind,
    pub content_ref: String,
    pub source_app: Option<String>,
    pub created_at: i64,
    pub tags: Vec<String>,
}

/// The value two items must share, with their kind, to be duplicates:
/// normalised text for text kinds, the raw reference otherwise.
pub open spec fn dedup_key(kind: ItemKind, content: Seq<char>) -> Seq<char> {
    if is_text_kind(kind) {
        normalize(content)
    } else {
        content
    }
}

/// The hash of a kind and a dedup key: both strings fed to the default
/// hasher the way `Hash for str` feeds them, each followed by `0xFF`.
pub open spec fn dedup_hash_of(kind: ItemKind, key: Seq<char>) -> u64 {
    DefaultHasher::spec_finish(
        seq![encode_utf8(kind_name(kind)), seq![0xFFu8], encode_utf8(key), seq![0xFFu8]],
    )
}

/// Relies on `str::hash` for the default hasher: it writes the bytes of the string, then `0xFF`.
#[verifier::external_body]
fn hash_str(s: &str, h: &mut DefaultHasher)
    ensures
        final(h)@ == old(h)@.push(encode_utf8(s@)).push(seq![0xFFu8]),
{
    std::hash::Hash::hash(s, h)
}

impl NewItem {
    /// Trims the content and collapses each run of whitespace to one space.
    pub fn normalized_text(&self) -> (r: String)
        ensures
            r@ == normalize(self.content_ref@),
    {
        normalize_text(self.content_ref.as_str())
    }

    /// A stable hash of the kind and the dedup key.
    pub fn dedupe_hash(&self) -> (r: u64)
        ensures
            r == dedup_hash_of(self.kind, dedup_key(self.kind, self.content_ref@)),
    {
        let mut hasher = DefaultHasher::new();
        hash_str(self.kind.as_str(), &mut hasher);
        if self.kind.is_text() {
            let key = self.normalized_text();
            hash_str(key.as_str(), &mut hasher);
        } else {
            hash_str(self.content_ref.as_str(), &mut hasher);
        }
        assert(hasher@ =~= seq![
            encode_utf8(kind_name(self.kind)),
            seq![0xFFu8],
            encode_utf8(dedup_key(self.kind, self.content_ref@)),
            seq![0xFFu8],
        ]);
        hasher.finish()
    }
}

} // verus!
