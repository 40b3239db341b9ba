//! The operations of the store.
//!
//! Each operation comes twice. The one that takes a transaction does the
//! work, and its contract says exactly what it finds in the tables of that
//! transaction and what it makes of them; only a failure of the engine lies
//! outside it. The one that takes the database opens a transaction, runs the
//! first in it and, where it wrote, commits.
//!
//! A creation, change or removal checks the token and writes in one write
//! transaction, so that no other writer comes between the check and the write.
//! The view counter saturates.

use crate::content::ContentType;
use crate::error::engine_failed;
use crate::error::PastyError;
use crate::error::StorageFault;
use crate::model::authorize_spec;
use crate::model::find_pasty;
use crate::model::find_stats;
use crate::model::has_unknown_kind;
use crate::model::is_listed;
use crate::model::is_listing;
use crate::model::stats_or_fresh;
use crate::model::Tables;
use crate::pasty::Pasty;
use crate::pasty::PastyView;
use crate::stats::current_timestamp;
use crate::stats::Stats;
use crate::tables::begin_read;
use crate::tables::begin_write;
use crate::tables::commit;
use crate::tables::is_scan_of;
use crate::tables::key_before;
use crate::tables::open_tables;
use crate::tables::put_content;
use crate::tables::put_kind;
use crate::tables::put_stats;
use crate::tables::put_token;
use crate::tables::remove_content;
use crate::tables::remove_kind;
use crate::tables::remove_stats;
use crate::tables::remove_token;
use crate::tables::scan_kinds;
use crate::tables::seen_content;
use crate::tables::seen_contents;
use crate::tables::seen_kind;
use crate::tables::seen_kinds;
use crate::tables::seen_stats;
use crate::tables::seen_stats_row;
use crate::tables::stats_row;
use crate::tables::token_row;
use crate::tables::written_contents;
use crate::tables::written_kinds;
use crate::tables::written_stats;
use crate::tables::written_tokens;
use crate::text::same_text;
use redb::Database;
use redb::ReadTransaction;
use redb::WriteTransaction;
use vstd::prelude::*;

verus! {

/// The tables as a write transaction sees them.
pub open spec fn tables_of(txn: WriteTransaction) -> Tables {
    Tables {
        kinds: written_kinds(txn),
        contents: written_contents(txn),
        tokens: written_tokens(txn),
        stats: written_stats(txn),
    }
}

/// The outcome of a fetch as a value of specifications.
pub open spec fn pasty_outcome(outcome: Result<Pasty, PastyError>) -> Result<
    PastyView,
    PastyError,
> {
    match outcome {
        Ok(pasty) => Ok(pasty@),
        Err(error) => Err(error),
    }
}

/// The outcome of a check of the token as a value of specifications.
pub open spec fn token_outcome(outcome: Result<Option<String>, PastyError>) -> Result<
    Option<Seq<char>>,
    PastyError,
> {
    match outcome {
        Ok(token) => Ok(token.deep_view()),
        Err(error) => Err(error),
    }
}

/// A listing as a value of specifications.
pub open spec fn listing_view(listing: Seq<(Pasty, Stats)>) -> Seq<(PastyView, Stats)> {
    Seq::new(listing.len(), |i: int| (listing[i].0@, listing[i].1))
}

/// Decides from the token row of an identifier whether a caller who offers
/// `user_token` may change it, and gives back the token it is stored with.
pub fn authorize(stored: Option<Option<String>>, user_token: Option<&str>) -> (outcome: Result<
    Option<String>,
    PastyError,
>)
    ensures
        token_outcome(outcome) == authorize_spec(stored.deep_view(), user_token.deep_view()),
{
    match stored {
        None => Err(PastyError::NotFound),
        Some(None) => Ok(None),
        Some(Some(secret)) => match user_token {
            None => Err(PastyError::TokenRequired),
            Some(token) => {
                if same_text(secret.as_str(), token) {
                    Ok(Some(secret))
                } else {
                    Err(PastyError::TokenMismatch)
                }
            },
        },
    }
}

/// The kind that a row of the kind table stands for.
pub fn kind_of_row(row: Option<u8>) -> (outcome: Result<ContentType, PastyError>)
    ensures
        outcome == match row {
            None => Err::<ContentType, PastyError>(PastyError::NotFound),
            Some(byte) => match ContentType::decode(byte) {
                None => Err(PastyError::StorageFailure(StorageFault::UnknownContentType(byte))),
                Some(kind) => Ok(kind),
            },
        },
{
    match row {
        None => Err(PastyError::NotFound),
        Some(byte) => match ContentType::from_byte(byte) {
            None => Err(PastyError::StorageFailure(StorageFault::UnknownContentType(byte))),
            Some(kind) => Ok(kind),
        },
    }
}

/// Fetches the entry under `id` from the snapshot of a read transaction.
/// Statistics and token are not touched.
pub fn get(txn: &ReadTransaction, id: &str) -> (outcome: Result<Pasty, PastyError>)
    ensures
        engine_failed(outcome) || pasty_outcome(outcome) == find_pasty(
            seen_kinds(*txn),
            seen_contents(*txn),
            id@,
        ),
{
    let kind_row = match seen_kind(txn, id) {
        Ok(row) => row,
        Err(cause) => return Err(PastyError::engine(cause)),
    };
    let content_type = match kind_of_row(kind_row) {
        Ok(kind) => kind,
        Err(error) => return Err(error),
    };
    let content_row = match seen_content(txn, id) {
        Ok(row) => row,
        Err(cause) => return Err(PastyError::engine(cause)),
    };
    match content_row {
        None => Err(PastyError::NotFound),
        Some(content) => Ok(Pasty { id: id.to_owned(), content_type, content }),
    }
}

/// Fetches the statistics of `id` from the snapshot of a read transaction.
pub fn get_stats(txn: &ReadTransaction, id: &str) -> (outcome: Result<Stats, PastyError>)
    ensures
        engine_failed(outcome) || outcome == find_stats(seen_stats(*txn), id@),
        outcome matches Ok(stats) ==> stats.well_formed(),
{
    let row = match seen_stats_row(txn, id) {
        Ok(row) => row,
        Err(cause) => return Err(PastyError::engine(cause)),
    };
    match row {
        None => Err(PastyError::NotFound),
        Some(record) => {
            assert(record.deep_view() =~= record@);
            Ok(Stats::from_bytes(record.as_slice()))
        },
    }
}

/// Checks, against the token row of `id` in a write transaction, whether a
/// caller who offers `user_token` may change it.
pub fn check_token(txn: &WriteTransaction, id: &str, user_token: Option<&str>) -> (outcome: Result<
    Option<String>,
    PastyError,
>)
    ensures
        engine_failed(outcome) || token_outcome(outcome) == tables_of(*txn).check_token(
            id@,
            user_token.deep_view(),
        ),
{
    let stored = match token_row(txn, id) {
        Ok(row) => row,
        Err(cause) => return Err(PastyError::engine(cause)),
    };
    authorize(stored, user_token)
}

/// The statistics of `id` in a write transaction, or those of an identifier
/// first seen at `now` where it has none.
fn stats_or_new(txn: &WriteTransaction, id: &str, now: i64) -> (outcome: Result<Stats, PastyError>)
    ensures
        outcome matches Err(error) ==> error.is_engine_failure(),
        outcome matches Ok(stats) ==> stats == stats_or_fresh(written_stats(*txn), id@, now),
{
    let row = match stats_row(txn, id) {
        Ok(row) => row,
        Err(cause) => return Err(PastyError::engine(cause)),
    };
    match row {
        None => Ok(Stats::new_at(now)),
        Some(record) => {
            assert(record.deep_view() =~= record@);
            Ok(Stats::from_bytes(record.as_slice()))
        },
    }
}

/// Records a view of `id` at `now` in a write transaction. Only the engine
/// can make it fail; an identifier without statistics gets them.
pub fn record_view(txn: &mut WriteTransaction, id: &str, now: i64) -> (outcome: Result<
    (),
    PastyError,
>)
    ensures
        outcome matches Err(error) ==> error.is_engine_failure(),
        outcome is Ok ==> tables_of(*final(txn)) == tables_of(*old(txn)).viewed(id@, now),
{
    let mut stats = match stats_or_new(txn, id, now) {
        Ok(stats) => stats,
        Err(error) => return Err(error),
    };
    stats.view_at(now);
    let record = stats.as_bytes();
    match put_stats(txn, id, &record) {
        Ok(()) => Ok(()),
        Err(cause) => Err(PastyError::engine(cause)),
    }
}

/// Creates the entry under `id`, or replaces its kind and content, at `now`
/// in a write transaction. The token is checked first, in the same
/// transaction; a refusal leaves the tables as they were.
pub fn create_or_update(
    txn: &mut WriteTransaction,
    id: &str,
    content: &str,
    content_type: ContentType,
    user_token: Option<&str>,
    now: i64,
) -> (outcome: Result<(), PastyError>)
    ensures
        engine_failed(outcome) || outcome == tables_of(*old(txn)).update_outcome(
            id@,
            user_token.deep_view(),
        ),
        outcome is Ok ==> tables_of(*final(txn)) == tables_of(*old(txn)).updated(
            id@,
            content@,
            content_type,
            user_token.deep_view(),
            now,
        ),
        outcome is Err && !engine_failed(outcome) ==> tables_of(*final(txn)) == tables_of(
            *old(txn),
        ),
{
    let first_creation = match check_token(txn, id, user_token) {
        Ok(_) => false,
        Err(PastyError::NotFound) => true,
        Err(refusal) => return Err(refusal),
    };
    if first_creation {
        match put_token(txn, id, user_token) {
            Ok(()) => {},
            Err(cause) => return Err(PastyError::engine(cause)),
        }
    }
    match put_kind(txn, id, content_type.to_byte()) {
        Ok(()) => {},
        Err(cause) => return Err(PastyError::engine(cause)),
    }
    match put_content(txn, id, content) {
        Ok(()) => {},
        Err(cause) => return Err(PastyError::engine(cause)),
    }
    let stats = match stats_or_new(txn, id, now) {
        Ok(stats) => stats.update_at(now),
        Err(error) => return Err(error),
    };
    let record = stats.as_bytes();
    match put_stats(txn, id, &record) {
        Ok(()) => Ok(()),
        Err(cause) => Err(PastyError::engine(cause)),
    }
}

/// Removes every row of `id` in a write transaction. The token is checked
/// first, in the same transaction; a refusal leaves the tables as they were.
pub fn delete(txn: &mut WriteTransaction, id: &str, user_token: Option<&str>) -> (outcome: Result<
    (),
    PastyError,
>)
    ensures
        engine_failed(outcome) || outcome == tables_of(*old(txn)).delete_outcome(
            id@,
            user_token.deep_view(),
        ),
        outcome is Ok ==> tables_of(*final(txn)) == tables_of(*old(txn)).deleted(
            id@,
            user_token.deep_view(),
        ),
        outcome is Err && !engine_failed(outcome) ==> tables_of(*final(txn)) == tables_of(
            *old(txn),
        ),
{
    match check_token(txn, id, user_token) {
        Ok(_) => {},
        Err(refusal) => return Err(refusal),
    }
    match remove_kind(txn, id) {
        Ok(()) => {},
        Err(cause) => return Err(PastyError::engine(cause)),
    }
    match remove_content(txn, id) {
        Ok(()) => {},
        Err(cause) => return Err(PastyError::engine(cause)),
    }
    match remove_token(txn, id) {
        Ok(()) => {},
        Err(cause) => return Err(PastyError::engine(cause)),
    }
    match remove_stats(txn, id) {
        Ok(()) => Ok(()),
        Err(cause) => Err(PastyError::engine(cause)),
    }
}

/// Lists, from the snapshot of a read transaction, every entry that has a
/// kind and a content, in the order of the identifiers. An entry without
/// statistics is listed with those of an identifier first seen at `now`.
/// A kind byte that stands for no kind fails the whole listing.
pub fn list_all(txn: &ReadTransaction, now: i64) -> (outcome: Result<
    Vec<(Pasty, Stats)>,
    PastyError,
>)
    ensures
        match outcome {
            Ok(listing) => {
                &&& !has_unknown_kind(seen_kinds(*txn))
                &&& is_listing(
                    listing_view(listing@),
                    seen_kinds(*txn),
                    seen_contents(*txn),
                    seen_stats(*txn),
                    now,
                )
            },
            Err(error) => error.is_engine_failure() || (error matches PastyError::StorageFailure(
                StorageFault::UnknownContentType(byte),
            ) && ContentType::decode(byte) is None && exists|id: Seq<char>|
                seen_kinds(*txn).contains_pair(id, byte)),
        },
{
    let rows = match scan_kinds(txn) {
        Ok(rows) => rows,
        Err(cause) => return Err(PastyError::engine(cause)),
    };
    let ghost kinds = seen_kinds(*txn);
    let ghost contents = seen_contents(*txn);
    let ghost stats = seen_stats(*txn);
    let ghost scan = rows.deep_view();
    let mut listing: Vec<(Pasty, Stats)> = Vec::new();
    let mut at: usize = 0;
    while at < rows.len()
        invariant
            at <= rows.len(),
            kinds == seen_kinds(*txn),
            contents == seen_contents(*txn),
            stats == seen_stats(*txn),
            scan == rows.deep_view(),
            scan.len() == rows.len(),
            is_scan_of(scan, kinds),
            forall|m: int| 0 <= m < at ==> ContentType::decode((#[trigger] scan[m]).1) is Some,
            forall|i: int|
                0 <= i < listing.len() ==> {
                    &&& find_pasty(kinds, contents, (#[trigger] listing[i]).0@.id) == Ok::<
                        PastyView,
                        PastyError,
                    >(listing[i].0@)
                    &&& listing[i].1 == stats_or_fresh(stats, listing[i].0@.id, now)
                },
            forall|i: int, j: int|
                0 <= i < j < listing.len() ==> key_before(
                    (#[trigger] listing[i]).0@.id,
                    (#[trigger] listing[j]).0@.id,
                ),
            forall|i: int, m: int|
                0 <= i < listing.len() && at <= m < scan.len() ==> key_before(
                    (#[trigger] listing[i]).0@.id,
                    (#[trigger] scan[m]).0,
                ),
            forall|m: int|
                0 <= m < at && contents.contains_key((#[trigger] scan[m]).0) ==> exists|i: int|
                    0 <= i < listing.len() && (#[trigger] listing[i]).0@.id == scan[m].0,
        decreases rows.len() - at,
    {
        let id = rows[at].0.as_str();
        let byte = rows[at].1;
        assert(scan[at as int] == (id@, byte));
        assert(kinds.contains_pair(scan[at as int].0, scan[at as int].1));
        let content_type = match ContentType::from_byte(byte) {
            Some(kind) => kind,
            None => {
                return Err(PastyError::StorageFailure(StorageFault::UnknownContentType(byte)));
            },
        };
        let content_row = match seen_content(txn, id) {
            Ok(row) => row,
            Err(cause) => return Err(PastyError::engine(cause)),
        };
        match content_row {
            None => {},
            Some(content) => {
                let stats_of_id = match seen_stats_row(txn, id) {
                    Ok(None) => Stats::new_at(now),
                    Ok(Some(record)) => {
                        assert(record.deep_view() =~= record@);
                        Stats::from_bytes(record.as_slice())
                    },
                    Err(cause) => return Err(PastyError::engine(cause)),
                };
                let ghost before = listing@;
                listing.push((Pasty { id: id.to_owned(), content_type, content }, stats_of_id));
                proof {
                    let last = before.len() as int;
                    assert(listing@[last].0@.id == scan[at as int].0);
                    assert forall|i: int| 0 <= i < last implies listing@[i] == before[i] by {}
                }
            },
        }
        at += 1;
    }
    proof {
        let view = listing_view(listing@);
        assert forall|id: Seq<char>| #[trigger] is_listed(kinds, contents, id) implies exists|
            i: int,
        |
            0 <= i < view.len() && (#[trigger] view[i]).0.id == id by {
            let m = choose|m: int| 0 <= m < scan.len() && scan[m].0 == id;
            let i = choose|i: int| 0 <= i < listing.len() && listing[i].0@.id == scan[m].0;
            assert(view[i].0.id == id);
        }
        assert(!has_unknown_kind(kinds)) by {
            if has_unknown_kind(kinds) {
                let id = choose|id: Seq<char>| #[trigger]
                    kinds.contains_key(id) && ContentType::decode(kinds[id]) is None;
                let m = choose|m: int| 0 <= m < scan.len() && scan[m].0 == id;
                assert(kinds.contains_pair(scan[m].0, scan[m].1));
            }
        }
    }
    Ok(listing)
}

/// Makes sure that the four tables exist, so that read transactions can
/// open them. Only the engine can make it fail.
pub fn ensure_table_exists(db: &Database) -> (outcome: Result<(), PastyError>)
    ensures
        outcome matches Err(error) ==> error.is_engine_failure(),
{
    let mut txn = match begin_write(db) {
        Ok(txn) => txn,
        Err(cause) => return Err(PastyError::engine(cause)),
    };
    match open_tables(&mut txn) {
        Ok(()) => {},
        Err(cause) => return Err(PastyError::engine(cause)),
    }
    match commit(txn) {
        Ok(()) => Ok(()),
        Err(cause) => Err(PastyError::engine(cause)),
    }
}

/// Fetches the statistics of `id` as last committed. What is committed is
/// the engine's to say; whatever it is, no token is asked for and the instants
/// returned are ones the calendar can represent.
pub fn get_stats_by_id(db: &Database, id: &str) -> (outcome: Result<Stats, PastyError>)
    ensures
        outcome matches Ok(stats) ==> stats.well_formed(),
        outcome matches Err(error) ==> error is NotFound || error.is_engine_failure(),
{
    let txn = match begin_read(db) {
        Ok(txn) => txn,
        Err(cause) => return Err(PastyError::engine(cause)),
    };
    get_stats(&txn, id)
}

/// Records a view of `id`, seen now, and commits it. Only the engine can
/// make it fail.
pub fn view_stats_by_id(db: &Database, id: &str) -> (outcome: Result<(), PastyError>)
    ensures
        outcome matches Err(error) ==> error.is_engine_failure(),
{
    let mut txn = match begin_write(db) {
        Ok(txn) => txn,
        Err(cause) => return Err(PastyError::engine(cause)),
    };
    match record_view(&mut txn, id, current_timestamp()) {
        Ok(()) => {},
        Err(error) => return Err(error),
    }
    match commit(txn) {
        Ok(()) => Ok(()),
        Err(cause) => Err(PastyError::engine(cause)),
    }
}

/// Fetches the entry under `id` as last committed. What is committed is the
/// engine's to say; whatever it is, the entry returned is the one asked for
/// and no token is asked for.
pub fn get_pasty_by_id(db: &Database, id: &str) -> (outcome: Result<Pasty, PastyError>)
    ensures
        outcome matches Ok(pasty) ==> pasty@.id == id@,
        outcome matches Err(error) ==> error is NotFound || error is StorageFailure,
{
    let txn = match begin_read(db) {
        Ok(txn) => txn,
        Err(cause) => return Err(PastyError::engine(cause)),
    };
    get(&txn, id)
}

/// Creates the entry under `id`, or replaces its kind and content, now, and
/// commits it. What was committed before is the engine's to say; whatever it
/// was, an identifier is never reported missing, a token is asked for only of
/// a caller who offered none, and a token is found wrong only where one was
/// offered. Nothing is committed where the outcome is a failure.
pub fn update_pasty_by_id(
    db: &Database,
    id: &str,
    content: &str,
    content_type: ContentType,
    user_token: Option<&str>,
) -> (outcome: Result<(), PastyError>)
    ensures
        !(outcome matches Err(PastyError::NotFound)),
        outcome matches Err(PastyError::TokenRequired) ==> user_token is None,
        outcome matches Err(PastyError::TokenMismatch) ==> user_token is Some,
        outcome matches Err(PastyError::StorageFailure(fault)) ==> fault is Engine,
{
    let mut txn = match begin_write(db) {
        Ok(txn) => txn,
        Err(cause) => return Err(PastyError::engine(cause)),
    };
    match create_or_update(&mut txn, id, content, content_type, user_token, current_timestamp()) {
        Ok(()) => {},
        Err(error) => return Err(error),
    }
    match commit(txn) {
        Ok(()) => Ok(()),
        Err(cause) => Err(PastyError::engine(cause)),
    }
}

/// Removes every row of `id` and commits it. What was committed before is
/// the engine's to say; whatever it was, a token is asked for only of a caller
/// who offered none, and a token is found wrong only where one was offered.
/// Nothing is committed where the outcome is a failure.
pub fn delete_pasty_by_id(db: &Database, id: &str, user_token: Option<&str>) -> (outcome: Result<
    (),
    PastyError,
>)
    ensures
        outcome matches Err(PastyError::TokenRequired) ==> user_token is None,
        outcome matches Err(PastyError::TokenMismatch) ==> user_token is Some,
        outcome matches Err(PastyError::StorageFailure(fault)) ==> fault is Engine,
{
    let mut txn = match begin_write(db) {
        Ok(txn) => txn,
        Err(cause) => return Err(PastyError::engine(cause)),
    };
    match delete(&mut txn, id, user_token) {
        Ok(()) => {},
        Err(error) => return Err(error),
    }
    match commit(txn) {
        Ok(()) => Ok(()),
        Err(cause) => Err(PastyError::engine(cause)),
    }
}

/// Lists every entry as last committed, in the order of the identifiers.
/// Whatever is committed, the identifiers listed come in strictly rising
/// order, the statistics listed hold instants the calendar can represent,
/// and the listing fails only on a fault of the storage.
pub fn list_all_pasties(db: &Database) -> (outcome: Result<Vec<(Pasty, Stats)>, PastyError>)
    ensures
        outcome matches Ok(listing) ==> forall|i: int, j: int|
            0 <= i < j < listing.len() ==> key_before(
                (#[trigger] listing[i]).0@.id,
                (#[trigger] listing[j]).0@.id,
            ),
        outcome matches Ok(listing) ==> forall|i: int|
            0 <= i < listing.len() ==> (#[trigger] listing[i]).1.well_formed(),
        outcome matches Err(error) ==> error is StorageFailure,
{
    let txn = match begin_read(db) {
        Ok(txn) => txn,
        Err(cause) => return Err(PastyError::engine(cause)),
    };
    let now = current_timestamp();
    let outcome = list_all(&txn, now);
    proof {
        if outcome is Ok {
            let listing = outcome->Ok_0;
            let view = listing_view(listing@);
            assert forall|i: int, j: int| 0 <= i < j < listing.len() implies key_before(
                (#[trigger] listing[i]).0@.id,
                (#[trigger] listing[j]).0@.id,
            ) by {
                assert(view[i].0.id == listing[i].0@.id);
                assert(view[j].0.id == listing[j].0@.id);
            }
            assert forall|i: int| 0 <= i < listing.len() implies (#[trigger] listing[i]).1.well_formed() by {
                assert(view[i].1 == listing[i].1);
                assert(view[i].1 == stats_or_fresh(seen_stats(txn), view[i].0.id, now));
            }
        }
    }
    outcome
}

} // verus!
