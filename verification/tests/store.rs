use pasty::content::ContentType;
use pasty::error::PastyError;
use pasty::error::StorageFault;
use pasty::service::delete_pasty_by_id;
use pasty::service::ensure_table_exists;
use pasty::service::get_pasty_by_id;
use pasty::service::get_stats_by_id;
use pasty::service::list_all_pasties;
use pasty::service::update_pasty_by_id;
use pasty::service::view_stats_by_id;
use pasty::tables::CONTENT_TABLE;
use pasty::tables::KIND_TABLE;
use pasty::tables::STATS_TABLE;
use pasty::tables::TOKEN_TABLE;
use redb::backends::InMemoryBackend;
use redb::Database;
use redb::ReadableTable;
use redb::TableDefinition;

fn fresh_db() -> Database {
    let db = Database::builder().create_with_backend(InMemoryBackend::new()).unwrap();
    ensure_table_exists(&db).unwrap();
    db
}

fn put_raw_kind(db: &Database, id: &str, byte: u8) {
    let txn = db.begin_write().unwrap();
    {
        let mut table = txn.open_table(TableDefinition::<&str, u8>::new(KIND_TABLE)).unwrap();
        table.insert(id, byte).unwrap();
    }
    txn.commit().unwrap();
}

fn put_raw_content(db: &Database, id: &str, content: &str) {
    let txn = db.begin_write().unwrap();
    {
        let mut table =
            txn.open_table(TableDefinition::<&str, String>::new(CONTENT_TABLE)).unwrap();
        table.insert(id, content.to_string()).unwrap();
    }
    txn.commit().unwrap();
}

fn listed_ids(db: &Database) -> Vec<String> {
    list_all_pasties(db).unwrap().into_iter().map(|(pasty, _)| pasty.id).collect()
}

#[test]
fn table_names_are_the_stored_ones() {
    assert_eq!(KIND_TABLE, "pasty_type");
    assert_eq!(STATS_TABLE, "pasty_stats");
    assert_eq!(CONTENT_TABLE, "pasty_content");
    assert_eq!(TOKEN_TABLE, "pasty_token");
}

#[test]
fn ensure_table_exists_can_be_repeated() {
    let db = fresh_db();
    update_pasty_by_id(&db, "abc", "hello", ContentType::Plaintext, None).unwrap();
    ensure_table_exists(&db).unwrap();
    assert_eq!(get_pasty_by_id(&db, "abc").unwrap().content, "hello");
}

#[test]
fn read_without_tables_is_a_storage_failure() {
    let db = Database::builder().create_with_backend(InMemoryBackend::new()).unwrap();
    assert!(matches!(
        get_pasty_by_id(&db, "abc"),
        Err(PastyError::StorageFailure(StorageFault::Engine(_)))
    ));
    assert!(matches!(
        get_stats_by_id(&db, "abc"),
        Err(PastyError::StorageFailure(StorageFault::Engine(_)))
    ));
    assert!(matches!(
        list_all_pasties(&db),
        Err(PastyError::StorageFailure(StorageFault::Engine(_)))
    ));
}

#[test]
fn creation_then_fetch() {
    let db = fresh_db();
    update_pasty_by_id(&db, "abc", "hello", ContentType::Plaintext, None).unwrap();
    let pasty = get_pasty_by_id(&db, "abc").unwrap();
    assert_eq!(pasty.id, "abc");
    assert_eq!(pasty.content_type, ContentType::Plaintext);
    assert_eq!(pasty.content, "hello");
}

#[test]
fn fetch_of_unknown_id_is_not_found() {
    let db = fresh_db();
    assert!(matches!(get_pasty_by_id(&db, "nope"), Err(PastyError::NotFound)));
    assert!(matches!(get_stats_by_id(&db, "nope"), Err(PastyError::NotFound)));
}

#[test]
fn repeated_fetch_gives_the_same() {
    let db = fresh_db();
    update_pasty_by_id(&db, "r", "https://example.com/", ContentType::Redirect, Some("t")).unwrap();
    let first = get_pasty_by_id(&db, "r").unwrap();
    let second = get_pasty_by_id(&db, "r").unwrap();
    assert_eq!(first.id, second.id);
    assert_eq!(first.content_type, second.content_type);
    assert_eq!(first.content, second.content);
    assert_eq!(first.content_type, ContentType::Redirect);
    assert_eq!(first.content, "https://example.com/");
}

#[test]
fn fetch_does_not_count_a_view() {
    let db = fresh_db();
    update_pasty_by_id(&db, "abc", "hello", ContentType::Plaintext, None).unwrap();
    get_pasty_by_id(&db, "abc").unwrap();
    get_pasty_by_id(&db, "abc").unwrap();
    assert_eq!(get_stats_by_id(&db, "abc").unwrap().views, 0);
}

#[test]
fn token_enforcement() {
    let db = fresh_db();
    update_pasty_by_id(&db, "p", "one", ContentType::Plaintext, Some("s3cret")).unwrap();
    assert!(matches!(
        update_pasty_by_id(&db, "p", "two", ContentType::Plaintext, None),
        Err(PastyError::TokenRequired)
    ));
    assert!(matches!(
        update_pasty_by_id(&db, "p", "two", ContentType::Plaintext, Some("wrong")),
        Err(PastyError::TokenMismatch)
    ));
    assert_eq!(get_pasty_by_id(&db, "p").unwrap().content, "one");
    update_pasty_by_id(&db, "p", "two", ContentType::Redirect, Some("s3cret")).unwrap();
    let pasty = get_pasty_by_id(&db, "p").unwrap();
    assert_eq!(pasty.content, "two");
    assert_eq!(pasty.content_type, ContentType::Redirect);
}

#[test]
fn token_guards_removal() {
    let db = fresh_db();
    update_pasty_by_id(&db, "p", "one", ContentType::Plaintext, Some("s3cret")).unwrap();
    assert!(matches!(delete_pasty_by_id(&db, "p", None), Err(PastyError::TokenRequired)));
    assert!(matches!(
        delete_pasty_by_id(&db, "p", Some("S3cret")),
        Err(PastyError::TokenMismatch)
    ));
    assert_eq!(get_pasty_by_id(&db, "p").unwrap().content, "one");
    delete_pasty_by_id(&db, "p", Some("s3cret")).unwrap();
    assert!(matches!(get_pasty_by_id(&db, "p"), Err(PastyError::NotFound)));
}

#[test]
fn unprotected_id_admits_any_token() {
    let db = fresh_db();
    update_pasty_by_id(&db, "open", "one", ContentType::Plaintext, None).unwrap();
    update_pasty_by_id(&db, "open", "two", ContentType::Plaintext, Some("anything")).unwrap();
    update_pasty_by_id(&db, "open", "three", ContentType::Plaintext, None).unwrap();
    assert_eq!(get_pasty_by_id(&db, "open").unwrap().content, "three");
    delete_pasty_by_id(&db, "open", Some("whatever")).unwrap();
    assert!(matches!(get_pasty_by_id(&db, "open"), Err(PastyError::NotFound)));
}

#[test]
fn token_offered_to_an_open_id_does_not_claim_it() {
    let db = fresh_db();
    update_pasty_by_id(&db, "open", "one", ContentType::Plaintext, None).unwrap();
    update_pasty_by_id(&db, "open", "two", ContentType::Plaintext, Some("mine")).unwrap();
    update_pasty_by_id(&db, "open", "three", ContentType::Plaintext, Some("other")).unwrap();
    assert_eq!(get_pasty_by_id(&db, "open").unwrap().content, "three");
}

#[test]
fn first_creator_keeps_the_token() {
    let db = fresh_db();
    update_pasty_by_id(&db, "x", "first", ContentType::Plaintext, Some("a")).unwrap();
    assert!(matches!(
        update_pasty_by_id(&db, "x", "second", ContentType::Plaintext, Some("b")),
        Err(PastyError::TokenMismatch)
    ));
    assert_eq!(get_pasty_by_id(&db, "x").unwrap().content, "first");
    update_pasty_by_id(&db, "x", "third", ContentType::Plaintext, Some("a")).unwrap();
    assert_eq!(get_pasty_by_id(&db, "x").unwrap().content, "third");
}

#[test]
fn delete_removes_all_traces() {
    let db = fresh_db();
    update_pasty_by_id(&db, "gone", "x", ContentType::Plaintext, Some("t")).unwrap();
    update_pasty_by_id(&db, "stays", "y", ContentType::Plaintext, None).unwrap();
    view_stats_by_id(&db, "gone").unwrap();
    delete_pasty_by_id(&db, "gone", Some("t")).unwrap();
    assert!(matches!(get_pasty_by_id(&db, "gone"), Err(PastyError::NotFound)));
    assert!(matches!(get_stats_by_id(&db, "gone"), Err(PastyError::NotFound)));
    assert_eq!(listed_ids(&db), vec!["stays".to_string()]);
    let txn = db.begin_read().unwrap();
    let tokens = txn.open_table(TableDefinition::<&str, Option<String>>::new(TOKEN_TABLE)).unwrap();
    assert!(tokens.get("gone").unwrap().is_none());
    assert!(tokens.get("stays").unwrap().is_some());
}

#[test]
fn delete_of_unknown_id_is_not_found() {
    let db = fresh_db();
    assert!(matches!(delete_pasty_by_id(&db, "nope", None), Err(PastyError::NotFound)));
    assert!(matches!(delete_pasty_by_id(&db, "nope", Some("t")), Err(PastyError::NotFound)));
}

#[test]
fn deleted_id_can_be_created_anew_with_another_token() {
    let db = fresh_db();
    update_pasty_by_id(&db, "x", "one", ContentType::Plaintext, Some("a")).unwrap();
    delete_pasty_by_id(&db, "x", Some("a")).unwrap();
    update_pasty_by_id(&db, "x", "two", ContentType::Plaintext, Some("b")).unwrap();
    assert!(matches!(
        update_pasty_by_id(&db, "x", "three", ContentType::Plaintext, Some("a")),
        Err(PastyError::TokenMismatch)
    ));
    assert_eq!(get_pasty_by_id(&db, "x").unwrap().content, "two");
    assert_eq!(get_stats_by_id(&db, "x").unwrap().views, 0);
}

#[test]
fn view_accounting() {
    let db = fresh_db();
    update_pasty_by_id(&db, "v", "x", ContentType::Plaintext, None).unwrap();
    let before = get_stats_by_id(&db, "v").unwrap();
    assert_eq!(before.views, 0);
    let mut last = before.last_viewed_at;
    for n in 1..=5u32 {
        view_stats_by_id(&db, "v").unwrap();
        let stats = get_stats_by_id(&db, "v").unwrap();
        assert_eq!(stats.views, n);
        assert!(stats.last_viewed_at >= last);
        assert_eq!(stats.created_at, before.created_at);
        assert_eq!(stats.updated_at, before.updated_at);
        last = stats.last_viewed_at;
    }
}

#[test]
fn view_of_unknown_id_starts_its_statistics() {
    let db = fresh_db();
    view_stats_by_id(&db, "ghost").unwrap();
    let stats = get_stats_by_id(&db, "ghost").unwrap();
    assert_eq!(stats.views, 1);
    assert_eq!(stats.created_at, stats.updated_at);
    assert!(matches!(get_pasty_by_id(&db, "ghost"), Err(PastyError::NotFound)));
    assert!(listed_ids(&db).is_empty());
}

#[test]
fn update_preserves_created_at() {
    let db = fresh_db();
    update_pasty_by_id(&db, "u", "one", ContentType::Plaintext, None).unwrap();
    let first = get_stats_by_id(&db, "u").unwrap();
    view_stats_by_id(&db, "u").unwrap();
    update_pasty_by_id(&db, "u", "two", ContentType::Plaintext, None).unwrap();
    update_pasty_by_id(&db, "u", "three", ContentType::Redirect, None).unwrap();
    let later = get_stats_by_id(&db, "u").unwrap();
    assert_eq!(later.created_at, first.created_at);
    assert!(later.updated_at >= first.updated_at);
    assert_eq!(later.views, 1);
}

#[test]
fn refused_update_changes_no_statistics() {
    let db = fresh_db();
    update_pasty_by_id(&db, "p", "one", ContentType::Plaintext, Some("t")).unwrap();
    let before = get_stats_by_id(&db, "p").unwrap();
    assert!(update_pasty_by_id(&db, "p", "two", ContentType::Plaintext, Some("no")).is_err());
    assert_eq!(get_stats_by_id(&db, "p").unwrap(), before);
}

#[test]
fn listing_of_an_empty_store_is_empty() {
    let db = fresh_db();
    assert!(list_all_pasties(&db).unwrap().is_empty());
}

#[test]
fn listing_comes_in_the_order_of_the_identifiers() {
    let db = fresh_db();
    for id in ["b", "a", "ab", "B", "a0", "é"] {
        update_pasty_by_id(&db, id, id, ContentType::Plaintext, None).unwrap();
    }
    assert_eq!(listed_ids(&db), vec!["B", "a", "a0", "ab", "b", "é"]);
}

#[test]
fn listing_carries_kind_content_and_statistics() {
    let db = fresh_db();
    update_pasty_by_id(&db, "t", "text", ContentType::Plaintext, None).unwrap();
    update_pasty_by_id(&db, "l", "https://example.com/", ContentType::Redirect, Some("k")).unwrap();
    view_stats_by_id(&db, "t").unwrap();
    view_stats_by_id(&db, "t").unwrap();
    let listing = list_all_pasties(&db).unwrap();
    assert_eq!(listing.len(), 2);
    assert_eq!(listing[0].0.id, "l");
    assert_eq!(listing[0].0.content_type, ContentType::Redirect);
    assert_eq!(listing[0].0.content, "https://example.com/");
    assert_eq!(listing[0].1, get_stats_by_id(&db, "l").unwrap());
    assert_eq!(listing[1].0.id, "t");
    assert_eq!(listing[1].0.content_type, ContentType::Plaintext);
    assert_eq!(listing[1].0.content, "text");
    assert_eq!(listing[1].1.views, 2);
}

#[test]
fn listing_skips_a_kind_without_content() {
    let db = fresh_db();
    update_pasty_by_id(&db, "whole", "x", ContentType::Plaintext, None).unwrap();
    put_raw_kind(&db, "half", 0);
    assert_eq!(listed_ids(&db), vec!["whole".to_string()]);
    assert!(matches!(get_pasty_by_id(&db, "half"), Err(PastyError::NotFound)));
}

#[test]
fn listing_skips_a_content_without_kind() {
    let db = fresh_db();
    update_pasty_by_id(&db, "whole", "x", ContentType::Plaintext, None).unwrap();
    put_raw_content(&db, "half", "y");
    assert_eq!(listed_ids(&db), vec!["whole".to_string()]);
    assert!(matches!(get_pasty_by_id(&db, "half"), Err(PastyError::NotFound)));
}

#[test]
fn listing_gives_fresh_statistics_where_none_are_stored() {
    let db = fresh_db();
    put_raw_kind(&db, "bare", 1);
    put_raw_content(&db, "bare", "https://example.com/");
    let before = chrono::Utc::now().timestamp();
    let listing = list_all_pasties(&db).unwrap();
    let after = chrono::Utc::now().timestamp();
    assert_eq!(listing.len(), 1);
    let stats = listing[0].1;
    assert_eq!(stats.views, 0);
    assert_eq!(stats.created_at, stats.updated_at);
    assert_eq!(stats.created_at, stats.last_viewed_at);
    assert!(before <= stats.created_at && stats.created_at <= after);
    assert!(matches!(get_stats_by_id(&db, "bare"), Err(PastyError::NotFound)));
}

#[test]
fn unknown_kind_byte_is_a_storage_failure() {
    let db = fresh_db();
    put_raw_kind(&db, "odd", 7);
    put_raw_content(&db, "odd", "x");
    assert!(matches!(
        get_pasty_by_id(&db, "odd"),
        Err(PastyError::StorageFailure(StorageFault::UnknownContentType(7)))
    ));
    assert!(matches!(
        list_all_pasties(&db),
        Err(PastyError::StorageFailure(StorageFault::UnknownContentType(7)))
    ));
}

#[test]
fn statistics_are_stored_as_28_bytes() {
    let db = fresh_db();
    update_pasty_by_id(&db, "s", "x", ContentType::Plaintext, None).unwrap();
    let stats = get_stats_by_id(&db, "s").unwrap();
    let txn = db.begin_read().unwrap();
    let table = txn.open_table(TableDefinition::<&str, &[u8; 28]>::new(STATS_TABLE)).unwrap();
    let row = table.get("s").unwrap().unwrap();
    assert_eq!(*row.value(), stats.as_bytes());
}

#[test]
fn rows_are_stored_under_the_identifier() {
    let db = fresh_db();
    update_pasty_by_id(&db, "k", "text", ContentType::Redirect, Some("tok")).unwrap();
    let txn = db.begin_read().unwrap();
    let kinds = txn.open_table(TableDefinition::<&str, u8>::new(KIND_TABLE)).unwrap();
    assert_eq!(kinds.get("k").unwrap().unwrap().value(), 1);
    let contents = txn.open_table(TableDefinition::<&str, String>::new(CONTENT_TABLE)).unwrap();
    assert_eq!(contents.get("k").unwrap().unwrap().value(), "text");
    let tokens = txn.open_table(TableDefinition::<&str, Option<String>>::new(TOKEN_TABLE)).unwrap();
    assert_eq!(tokens.get("k").unwrap().unwrap().value(), Some("tok".to_string()));
    assert_eq!(kinds.iter().unwrap().count(), 1);
}

#[test]
fn empty_token_is_a_token() {
    let db = fresh_db();
    update_pasty_by_id(&db, "e", "one", ContentType::Plaintext, Some("")).unwrap();
    assert!(matches!(
        update_pasty_by_id(&db, "e", "two", ContentType::Plaintext, None),
        Err(PastyError::TokenRequired)
    ));
    update_pasty_by_id(&db, "e", "two", ContentType::Plaintext, Some("")).unwrap();
    assert_eq!(get_pasty_by_id(&db, "e").unwrap().content, "two");
}

#[test]
fn listed_statistics_hold_representable_instants() {
    let db = fresh_db();
    update_pasty_by_id(&db, "far", "x", ContentType::Plaintext, None).unwrap();
    {
        let txn = db.begin_write().unwrap();
        {
            let mut table =
                txn.open_table(TableDefinition::<&str, &[u8; 28]>::new(STATS_TABLE)).unwrap();
            let mut record = [0u8; 28];
            record[3] = 9;
            record[4..12].copy_from_slice(&i64::MAX.to_be_bytes());
            record[12..20].copy_from_slice(&i64::MIN.to_be_bytes());
            record[20..28].copy_from_slice(&86_400i64.to_be_bytes());
            table.insert("far", &record).unwrap();
        }
        txn.commit().unwrap();
    }
    let listing = list_all_pasties(&db).unwrap();
    assert_eq!(listing.len(), 1);
    assert_eq!(listing[0].1.views, 9);
    assert_eq!(listing[0].1.created_at, 0);
    assert_eq!(listing[0].1.updated_at, 0);
    assert_eq!(listing[0].1.last_viewed_at, 86_400);
    assert_eq!(get_stats_by_id(&db, "far").unwrap(), listing[0].1);
}
