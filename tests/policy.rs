use osp_core::backend::{SqlArg, StoredRow};
use osp_core::db::item_from_rows;
use osp_core::policy::{
    backfill_args, bump_outcome, bump_reply, dedup_key_of, index_entry_args, SEARCH_FULL_TEXT,
    SEARCH_SUBSTRING,
    bump_args, changed_one, decode_row, decode_rows, dedup_args, dedup_lookup_key, id_args,
    index_args, insert_args, pending_migrations, pin_args,
};
use osp_core::{DedupDecision, ItemKind, NewItem, SearchPlan, StoreError};

fn text_item(content: &str) -> NewItem {
    NewItem {
        kind: ItemKind::Text,
        content_ref: content.to_string(),
        source_app: None,
        created_at: 0,
        tags: vec![],
    }
}

fn row(kind: &str, tags: &str, pinned: i64) -> StoredRow {
    StoredRow {
        id: 7,
        kind: kind.to_string(),
        content_ref: "body".to_string(),
        source_app: Some("app".to_string()),
        created_at: 1234,
        pinned,
        tags: tags.to_string(),
    }
}

#[test]
fn kind_tags_and_codes() {
    assert_eq!(ItemKind::Text.as_str(), "text");
    assert_eq!(ItemKind::Rtf.as_str(), "rtf");
    assert_eq!(ItemKind::Image.as_str(), "image");
    assert_eq!(ItemKind::File.as_str(), "file");
    assert_eq!(ItemKind::parse("image"), Ok(ItemKind::Image));
    assert_eq!("rtf".parse::<ItemKind>(), Ok(ItemKind::Rtf));
    assert_eq!(ItemKind::parse("Text"), Err(StoreError::Validation("Text".to_string())));
    assert_eq!(ItemKind::File.code(), 3);
    assert_eq!(ItemKind::from_code(1), Some(ItemKind::Rtf));
    assert_eq!(ItemKind::from_code(4), None);
    assert_eq!(ItemKind::from_code(-1), None);
    assert!(ItemKind::Rtf.is_text());
    assert!(!ItemKind::File.is_text());
}

#[test]
fn normalized_text_edge_cases() {
    assert_eq!(text_item("").normalized_text(), "");
    assert_eq!(text_item(" \t\n ").normalized_text(), "");
    assert_eq!(text_item("a\u{3000}\u{00A0}b\r\nc").normalized_text(), "a b c");
    assert_eq!(text_item("single").normalized_text(), "single");
}

#[test]
fn dedupe_hash_by_kind_and_key() {
    let mut image_a = text_item("/tmp/a  b.png");
    image_a.kind = ItemKind::Image;
    let mut image_b = text_item("/tmp/a b.png");
    image_b.kind = ItemKind::Image;
    assert_ne!(image_a.dedupe_hash(), image_b.dedupe_hash());
    let mut rtf = text_item("hello world");
    rtf.kind = ItemKind::Rtf;
    assert_ne!(rtf.dedupe_hash(), text_item("hello world").dedupe_hash());
    assert_eq!(text_item("\thello\nworld").dedupe_hash(), text_item("hello world").dedupe_hash());
}

#[test]
fn search_plan_threshold() {
    let short = SearchPlan::new("ab", 10);
    assert!(!short.full_text);
    assert_eq!(short.pattern, "%ab%");
    assert_eq!(short.limit, 10);
    assert_eq!(short.sql, SEARCH_SUBSTRING);
    let long = SearchPlan::new("abc", 5);
    assert!(long.full_text);
    assert_eq!(long.pattern, "abc");
    assert_eq!(long.sql, SEARCH_FULL_TEXT);
    // two characters, four bytes: still the substring path
    let accented = SearchPlan::new("éé", 3);
    assert!(!accented.full_text);
    assert_eq!(accented.pattern, "%éé%");
    assert_eq!(SearchPlan::new("", 1).pattern, "%%");
    assert_eq!(long.args(), vec![SqlArg::Text("abc".to_string()), SqlArg::Int(5)]);
}

#[test]
fn pending_migration_steps() {
    assert_eq!(pending_migrations(0), vec![1, 2]);
    assert_eq!(pending_migrations(-3), vec![1, 2]);
    assert_eq!(pending_migrations(1), vec![2]);
    assert_eq!(pending_migrations(2), Vec::<i64>::new());
    assert_eq!(pending_migrations(9), Vec::<i64>::new());
}

#[test]
fn changed_rows_outcome() {
    assert_eq!(changed_one(5, 0), Err(StoreError::NotFound(5)));
    assert_eq!(changed_one(5, 1), Ok(()));
}

#[test]
fn dedup_decision_from_lookup() {
    assert_eq!(DedupDecision::from_lookup(Some(4)), DedupDecision::BumpExisting(4));
    assert_eq!(DedupDecision::from_lookup(None), DedupDecision::Insert);
    assert!(DedupDecision::BumpExisting(4).is_bump());
    assert!(!DedupDecision::Insert.is_bump());
}

#[test]
fn dedup_outcomes() {
    let failed = StoreError::Storage("disk".to_string());
    assert_eq!(bump_outcome(9, Ok(())), Ok(9));
    assert_eq!(bump_outcome(9, Err(failed.clone())), Err(failed.clone()));
    assert_eq!(bump_reply(DedupDecision::BumpExisting(9), Ok(())), Ok(Some(9)));
    assert_eq!(bump_reply(DedupDecision::BumpExisting(9), Err(StoreError::NotFound(9))), Err(StoreError::NotFound(9)));
    assert_eq!(bump_reply(DedupDecision::Insert, Ok(())), Ok(None));
}

#[test]
fn index_entries_and_keys() {
    let text = text_item("a  b");
    assert_eq!(index_entry_args(&text, 4), Some(vec![SqlArg::Int(4), SqlArg::Text("a  b".to_string())]));
    let mut image = text_item("/a  b.png");
    image.kind = ItemKind::Image;
    assert_eq!(index_entry_args(&image, 4), None);
    assert_eq!(dedup_key_of(ItemKind::Rtf, &" x \n y ".to_string()), "x y");
    assert_eq!(dedup_key_of(ItemKind::File, &" x ".to_string()), " x ");
    let mut r = row("text", "[]", 0);
    r.content_ref = "  hello   world ".to_string();
    assert_eq!(backfill_args(&r), Some(vec![SqlArg::Text("hello world".to_string()), SqlArg::Int(7)]));
    let mut f = row("file", "[]", 0);
    f.content_ref = "/p  q".to_string();
    assert_eq!(backfill_args(&f), Some(vec![SqlArg::Text("/p  q".to_string()), SqlArg::Int(7)]));
    assert_eq!(backfill_args(&row("nope", "[]", 0)), None);
}

#[test]
fn statement_arguments() {
    let item = NewItem {
        kind: ItemKind::Rtf,
        content_ref: "x  y".to_string(),
        source_app: Some("editor".to_string()),
        created_at: 99,
        tags: vec!["t".to_string()],
    };
    assert_eq!(
        insert_args(&item, &"[\"t\"]".to_string()),
        vec![
            SqlArg::Text("rtf".to_string()),
            SqlArg::Text("x  y".to_string()),
            SqlArg::Text("editor".to_string()),
            SqlArg::Int(99),
            SqlArg::Text("[\"t\"]".to_string()),
            SqlArg::Text("x y".to_string()),
        ]
    );
    assert_eq!(dedup_lookup_key(&item), "x y");
    assert_eq!(dedup_args(&item), vec![SqlArg::Text("rtf".to_string()), SqlArg::Text("x y".to_string())]);
    let mut file = item.clone();
    file.kind = ItemKind::File;
    assert_eq!(dedup_lookup_key(&file), "x  y");
    let mut anonymous = item.clone();
    anonymous.source_app = None;
    assert_eq!(insert_args(&anonymous, &"[]".to_string())[2], SqlArg::Null);
    assert_eq!(index_args(3, &"hi".to_string()), vec![SqlArg::Int(3), SqlArg::Text("hi".to_string())]);
    assert_eq!(id_args(8), vec![SqlArg::Int(8)]);
    assert_eq!(pin_args(8, true), vec![SqlArg::Int(1), SqlArg::Int(8)]);
    assert_eq!(pin_args(8, false), vec![SqlArg::Int(0), SqlArg::Int(8)]);
    assert_eq!(bump_args(8, 2000), vec![SqlArg::Int(2000), SqlArg::Int(8)]);
}

#[test]
fn decode_stored_rows() {
    let it = decode_row(&row("file", "[\"a\",\"b\"]", 2)).unwrap();
    assert_eq!(it.id, 7);
    assert_eq!(it.kind, ItemKind::File);
    assert_eq!(it.content_ref, "body");
    assert_eq!(it.source_app, Some("app".to_string()));
    assert_eq!(it.created_at, 1234);
    assert!(it.pinned);
    assert_eq!(it.tags, vec!["a".to_string(), "b".to_string()]);
    let unpinned = decode_row(&row("text", "not json", 0)).unwrap();
    assert!(!unpinned.pinned);
    assert!(unpinned.tags.is_empty());
    assert_eq!(decode_row(&row("video", "[]", 0)), Err(StoreError::Validation("video".to_string())));
    let rows = vec![row("text", "[]", 0), row("rtf", "[]", 1)];
    assert_eq!(decode_rows(&rows).unwrap().len(), 2);
    let bad = vec![row("text", "[]", 0), row("bogus", "[]", 0)];
    assert!(matches!(decode_rows(&bad), Err(StoreError::Validation(_))));
    assert_eq!(decode_rows(&vec![]).unwrap().len(), 0);
}

#[test]
fn item_lookup_rows() {
    assert_eq!(item_from_rows(7, &vec![]), Err(StoreError::NotFound(7)));
    assert_eq!(item_from_rows(8, &vec![row("text", "[]", 0)]), Err(StoreError::NotFound(8)));
    assert_eq!(item_from_rows(7, &vec![row("text", "[]", 0)]).unwrap().id, 7);
}
