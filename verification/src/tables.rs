//! The four tables of the store, as redb keeps them, and the transactions
//! that read and write them.
//!
//! Each table is keyed by the identifier. Keys are ordered as redb orders
//! `&str` keys: by their bytes, which for UTF-8 is by code point.
//!
//! Everything in this module that touches redb is believed, not proved: each
//! function says in its comment what it takes from redb.

use redb::Database;
use redb::ReadTransaction;
use redb::ReadableTable;
use redb::TableDefinition;
use redb::WriteTransaction;
use vstd::prelude::*;

verus! {

/// Name of the table that maps an identifier to the byte of its kind.
pub const KIND_TABLE: &'static str = "pasty_type";

/// Name of the table that maps an identifier to its stored statistics.
pub const STATS_TABLE: &'static str = "pasty_stats";

/// Name of the table that maps an identifier to its content.
pub const CONTENT_TABLE: &'static str = "pasty_content";

/// Name of the table that maps an identifier to its owner token, if it has one.
pub const TOKEN_TABLE: &'static str = "pasty_token";

/// redb's handle on an open database file.
#[verifier::external_type_specification]
#[verifier::external_body]
pub struct ExDatabase(redb::Database);

/// redb's write transaction: the one writer of the database while it lives.
#[verifier::external_type_specification]
#[verifier::external_body]
pub struct ExWriteTransaction(redb::WriteTransaction);

/// redb's read transaction: a snapshot of what was committed when it began.
#[verifier::external_type_specification]
#[verifier::external_body]
pub struct ExReadTransaction(redb::ReadTransaction);

/// redb's error, which every failure of a transaction or a table converts into.
#[verifier::external_type_specification]
#[verifier::external_body]
pub struct ExError(redb::Error);

/// The rows of the kind table as a write transaction sees them.
pub uninterp spec fn written_kinds(txn: WriteTransaction) -> Map<Seq<char>, u8>;

/// The rows of the content table as a write transaction sees them.
pub uninterp spec fn written_contents(txn: WriteTransaction) -> Map<Seq<char>, Seq<char>>;

/// The rows of the token table as a write transaction sees them.
pub uninterp spec fn written_tokens(txn: WriteTransaction) -> Map<Seq<char>, Option<Seq<char>>>;

/// The rows of the statistics table as a write transaction sees them.
pub uninterp spec fn written_stats(txn: WriteTransaction) -> Map<Seq<char>, Seq<u8>>;

/// The rows of the kind table in the snapshot of a read transaction.
pub uninterp spec fn seen_kinds(txn: ReadTransaction) -> Map<Seq<char>, u8>;

/// The rows of the content table in the snapshot of a read transaction.
pub uninterp spec fn seen_contents(txn: ReadTransaction) -> Map<Seq<char>, Seq<char>>;

/// The rows of the statistics table in the snapshot of a read transaction.
pub uninterp spec fn seen_stats(txn: ReadTransaction) -> Map<Seq<char>, Seq<u8>>;

/// Whether key `a` comes before key `b`: the first place where they differ
/// decides by code point, and a proper prefix comes first.
pub open spec fn key_before(a: Seq<char>, b: Seq<char>) -> bool
    decreases a.len(),
{
    if b.len() == 0 {
        false
    } else if a.len() == 0 {
        true
    } else if a[0] != b[0] {
        (a[0] as u32) < (b[0] as u32)
    } else {
        key_before(a.skip(1), b.skip(1))
    }
}

/// Whether `rows` is the whole of `table`, each row once, in key order.
pub open spec fn is_scan_of(rows: Seq<(Seq<char>, u8)>, table: Map<Seq<char>, u8>) -> bool {
    &&& forall|i: int| 0 <= i < rows.len() ==> table.contains_pair(#[trigger] rows[i].0, rows[i].1)
    &&& forall|i: int, j: int|
        0 <= i < j < rows.len() ==> key_before(#[trigger] rows[i].0, #[trigger] rows[j].0)
    &&& forall|key: Seq<char>| #[trigger]
        table.contains_key(key) ==> exists|i: int| 0 <= i < rows.len() && rows[i].0 == key
}

/// `Database::begin_write`. Nothing is claimed of what the transaction sees:
/// that is whatever was last committed to the file.
#[verifier::external_body]
pub(crate) fn begin_write(db: &Database) -> (r: Result<WriteTransaction, redb::Error>) {
    Ok(db.begin_write()?)
}

/// `WriteTransaction::commit`.
#[verifier::external_body]
pub(crate) fn commit(txn: WriteTransaction) -> (r: Result<(), redb::Error>) {
    Ok(txn.commit()?)
}

/// `WriteTransaction::open_table` on each of the four tables. Opening creates
/// a table that is missing and changes no row.
#[verifier::external_body]
pub(crate) fn open_tables(txn: &mut WriteTransaction) -> (r: Result<(), redb::Error>)
    ensures
        r is Ok ==> {
            &&& written_kinds(*final(txn)) == written_kinds(*old(txn))
            &&& written_contents(*final(txn)) == written_contents(*old(txn))
            &&& written_tokens(*final(txn)) == written_tokens(*old(txn))
            &&& written_stats(*final(txn)) == written_stats(*old(txn))
        },
{
    txn.open_table(TableDefinition::<&str, u8>::new(KIND_TABLE))?;
    txn.open_table(TableDefinition::<&str, &[u8; 28]>::new(STATS_TABLE))?;
    txn.open_table(TableDefinition::<&str, String>::new(CONTENT_TABLE))?;
    txn.open_table(TableDefinition::<&str, Option<String>>::new(TOKEN_TABLE))?;
    Ok(())
}

/// `Table::get` on the token table: the row under `id`, if there is one.
#[verifier::external_body]
pub(crate) fn token_row(txn: &WriteTransaction, id: &str) -> (r: Result<
    Option<Option<String>>,
    redb::Error,
>)
    ensures
        r matches Ok(row) ==> row.deep_view() == written_tokens(*txn).get(id@),
{
    let table = txn.open_table(TableDefinition::<&str, Option<String>>::new(TOKEN_TABLE))?;
    let row = table.get(id)?;
    Ok(row.map(|guard| guard.value()))
}

/// `Table::insert` on the token table: the row under `id` becomes `token`,
/// in place of the one that was there, if any. No other row changes.
#[verifier::external_body]
pub(crate) fn put_token(txn: &mut WriteTransaction, id: &str, token: Option<&str>) -> (r: Result<
    (),
    redb::Error,
>)
    ensures
        r is Ok ==> {
            &&& written_tokens(*final(txn)) == written_tokens(*old(txn)).insert(
                id@,
                token.deep_view(),
            )
            &&& written_kinds(*final(txn)) == written_kinds(*old(txn))
            &&& written_contents(*final(txn)) == written_contents(*old(txn))
            &&& written_stats(*final(txn)) == written_stats(*old(txn))
        },
{
    let mut table = txn.open_table(TableDefinition::<&str, Option<String>>::new(TOKEN_TABLE))?;
    table.insert(id, token.map(|text| text.to_string()))?;
    Ok(())
}

/// `Table::remove` on the token table: the row under `id` is gone, if there
/// was one. No other row changes.
#[verifier::external_body]
pub(crate) fn remove_token(txn: &mut WriteTransaction, id: &str) -> (r: Result<(), redb::Error>)
    ensures
        r is Ok ==> {
            &&& written_tokens(*final(txn)) == written_tokens(*old(txn)).remove(id@)
            &&& written_kinds(*final(txn)) == written_kinds(*old(txn))
            &&& written_contents(*final(txn)) == written_contents(*old(txn))
            &&& written_stats(*final(txn)) == written_stats(*old(txn))
        },
{
    let mut table = txn.open_table(TableDefinition::<&str, Option<String>>::new(TOKEN_TABLE))?;
    table.remove(id)?;
    Ok(())
}

/// `Table::insert` on the kind table: the row under `id` becomes `kind`, in
/// place of the one that was there, if any. No other row changes.
#[verifier::external_body]
pub(crate) fn put_kind(txn: &mut WriteTransaction, id: &str, kind: u8) -> (r: Result<
    (),
    redb::Error,
>)
    ensures
        r is Ok ==> {
            &&& written_kinds(*final(txn)) == written_kinds(*old(txn)).insert(id@, kind)
            &&& written_contents(*final(txn)) == written_contents(*old(txn))
            &&& written_tokens(*final(txn)) == written_tokens(*old(txn))
            &&& written_stats(*final(txn)) == written_stats(*old(txn))
        },
{
    let mut table = txn.open_table(TableDefinition::<&str, u8>::new(KIND_TABLE))?;
    table.insert(id, kind)?;
    Ok(())
}

/// `Table::remove` on the kind table: the row under `id` is gone, if there
/// was one. No other row changes.
#[verifier::external_body]
pub(crate) fn remove_kind(txn: &mut WriteTransaction, id: &str) -> (r: Result<(), redb::Error>)
    ensures
        r is Ok ==> {
            &&& written_kinds(*final(txn)) == written_kinds(*old(txn)).remove(id@)
            &&& written_contents(*final(txn)) == written_contents(*old(txn))
            &&& written_tokens(*final(txn)) == written_tokens(*old(txn))
            &&& written_stats(*final(txn)) == written_stats(*old(txn))
        },
{
    let mut table = txn.open_table(TableDefinition::<&str, u8>::new(KIND_TABLE))?;
    table.remove(id)?;
    Ok(())
}

/// `Table::insert` on the content table: the row under `id` becomes
/// `content`, in place of the one that was there, if any. No other row
/// changes.
#[verifier::external_body]
pub(crate) fn put_content(txn: &mut WriteTransaction, id: &str, content: &str) -> (r: Result<
    (),
    redb::Error,
>)
    ensures
        r is Ok ==> {
            &&& written_contents(*final(txn)) == written_contents(*old(txn)).insert(id@, content@)
            &&& written_kinds(*final(txn)) == written_kinds(*old(txn))
            &&& written_tokens(*final(txn)) == written_tokens(*old(txn))
            &&& written_stats(*final(txn)) == written_stats(*old(txn))
        },
{
    let mut table = txn.open_table(TableDefinition::<&str, String>::new(CONTENT_TABLE))?;
    table.insert(id, content.to_string())?;
    Ok(())
}

/// `Table::remove` on the content table: the row under `id` is gone, if
/// there was one. No other row changes.
#[verifier::external_body]
pub(crate) fn remove_content(txn: &mut WriteTransaction, id: &str) -> (r: Result<(), redb::Error>)
    ensures
        r is Ok ==> {
            &&& written_contents(*final(txn)) == written_contents(*old(txn)).remove(id@)
            &&& written_kinds(*final(txn)) == written_kinds(*old(txn))
            &&& written_tokens(*final(txn)) == written_tokens(*old(txn))
            &&& written_stats(*final(txn)) == written_stats(*old(txn))
        },
{
    let mut table = txn.open_table(TableDefinition::<&str, String>::new(CONTENT_TABLE))?;
    table.remove(id)?;
    Ok(())
}

/// `Table::get` on the statistics table: the row under `id`, if there is one.
#[verifier::external_body]
pub(crate) fn stats_row(txn: &WriteTransaction, id: &str) -> (r: Result<
    Option<[u8; 28]>,
    redb::Error,
>)
    ensures
        r matches Ok(row) ==> row.deep_view() == written_stats(*txn).get(id@),
{
    let table = txn.open_table(TableDefinition::<&str, &[u8; 28]>::new(STATS_TABLE))?;
    let row = table.get(id)?;
    Ok(row.map(|guard| *guard.value()))
}

/// `Table::insert` on the statistics table: the row under `id` becomes
/// `record`, in place of the one that was there, if any. No other row
/// changes.
#[verifier::external_body]
pub(crate) fn put_stats(txn: &mut WriteTransaction, id: &str, record: &[u8; 28]) -> (r: Result<
    (),
    redb::Error,
>)
    ensures
        r is Ok ==> {
            &&& written_stats(*final(txn)) == written_stats(*old(txn)).insert(id@, record@)
            &&& written_kinds(*final(txn)) == written_kinds(*old(txn))
            &&& written_contents(*final(txn)) == written_contents(*old(txn))
            &&& written_tokens(*final(txn)) == written_tokens(*old(txn))
        },
{
    let mut table = txn.open_table(TableDefinition::<&str, &[u8; 28]>::new(STATS_TABLE))?;
    table.insert(id, record)?;
    Ok(())
}

/// `Table::remove` on the statistics table: the row under `id` is gone, if
/// there was one. No other row changes.
#[verifier::external_body]
pub(crate) fn remove_stats(txn: &mut WriteTransaction, id: &str) -> (r: Result<(), redb::Error>)
    ensures
        r is Ok ==> {
            &&& written_stats(*final(txn)) == written_stats(*old(txn)).remove(id@)
            &&& written_kinds(*final(txn)) == written_kinds(*old(txn))
            &&& written_contents(*final(txn)) == written_contents(*old(txn))
            &&& written_tokens(*final(txn)) == written_tokens(*old(txn))
        },
{
    let mut table = txn.open_table(TableDefinition::<&str, &[u8; 28]>::new(STATS_TABLE))?;
    table.remove(id)?;
    Ok(())
}

/// `Database::begin_read`. Nothing is claimed of what the snapshot holds:
/// that is whatever was last committed to the file.
#[verifier::external_body]
pub(crate) fn begin_read(db: &Database) -> (r: Result<ReadTransaction, redb::Error>) {
    Ok(db.begin_read()?)
}

/// `ReadOnlyTable::get` on the kind table: the row under `id`, if there is one.
#[verifier::external_body]
pub(crate) fn seen_kind(txn: &ReadTransaction, id: &str) -> (r: Result<Option<u8>, redb::Error>)
    ensures
        r matches Ok(row) ==> row == seen_kinds(*txn).get(id@),
{
    let table = txn.open_table(TableDefinition::<&str, u8>::new(KIND_TABLE))?;
    let row = table.get(id)?;
    Ok(row.map(|guard| guard.value()))
}

/// `ReadOnlyTable::get` on the content table: the row under `id`, if there is
/// one.
#[verifier::external_body]
pub(crate) fn seen_content(txn: &ReadTransaction, id: &str) -> (r: Result<
    Option<String>,
    redb::Error,
>)
    ensures
        r matches Ok(row) ==> row.deep_view() == seen_contents(*txn).get(id@),
{
    let table = txn.open_table(TableDefinition::<&str, String>::new(CONTENT_TABLE))?;
    let row = table.get(id)?;
    Ok(row.map(|guard| guard.value()))
}

/// `ReadOnlyTable::get` on the statistics table: the row under `id`, if there
/// is one.
#[verifier::external_body]
pub(crate) fn seen_stats_row(txn: &ReadTransaction, id: &str) -> (r: Result<
    Option<[u8; 28]>,
    redb::Error,
>)
    ensures
        r matches Ok(row) ==> row.deep_view() == seen_stats(*txn).get(id@),
{
    let table = txn.open_table(TableDefinition::<&str, &[u8; 28]>::new(STATS_TABLE))?;
    let row = table.get(id)?;
    Ok(row.map(|guard| *guard.value()))
}

/// `ReadableTable::iter` on the kind table, walked to its end: every row of
/// the table, once, in the order of the keys.
#[verifier::external_body]
pub(crate) fn scan_kinds(txn: &ReadTransaction) -> (r: Result<Vec<(String, u8)>, redb::Error>)
    ensures
        r matches Ok(rows) ==> is_scan_of(rows.deep_view(), seen_kinds(*txn)),
{
    let table = txn.open_table(TableDefinition::<&str, u8>::new(KIND_TABLE))?;
    let mut rows = Vec::new();
    for row in table.iter()? {
        let (key, kind) = row?;
        rows.push((key.value().to_owned(), kind.value()));
    }
    Ok(rows)
}

} // verus!
