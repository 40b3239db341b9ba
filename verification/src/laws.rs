//! What holds of the operations taken together, proved over the tables as
//! mathematics. The operations in a transaction are tied to these by their
//! contracts; that a transaction sees what the one before it committed is the
//! engine's part.

use crate::content::ContentType;
use crate::error::PastyError;
use crate::model::find_pasty;
use crate::model::is_listed;
use crate::model::is_listing;
use crate::model::stats_or_fresh;
use crate::model::Tables;
use crate::pasty::PastyView;
use crate::stats::lemma_decode_encode;
use crate::stats::representable;
use crate::stats::Stats;
use vstd::prelude::*;

verus! {

/// Whether `outcome` is what a fetch of `id` may return on the snapshot
/// `(kinds, contents)`: a failure of the engine, or what the tables hold.
pub open spec fn is_fetch_of(
    outcome: Result<PastyView, PastyError>,
    kinds: Map<Seq<char>, u8>,
    contents: Map<Seq<char>, Seq<char>>,
    id: Seq<char>,
) -> bool {
    (outcome matches Err(error) && error.is_engine_failure()) || outcome == find_pasty(
        kinds,
        contents,
        id,
    )
}

/// The tables after views of `id` at each of the instants `nows`, in turn.
pub open spec fn viewed_at_each(tables: Tables, id: Seq<char>, nows: Seq<i64>) -> Tables
    decreases nows.len(),
{
    if nows.len() == 0 {
        tables
    } else {
        viewed_at_each(tables, id, nows.drop_last()).viewed(id, nows.last())
    }
}

/// The counter `views` after `more` further views: it stops at its largest
/// value.
pub open spec fn saturated(views: u32, more: nat) -> u32 {
    if views + more <= u32::MAX {
        (views + more) as u32
    } else {
        u32::MAX
    }
}

/// Two fetches of one identifier from one snapshot, neither of which the
/// engine failed, return the same.
pub proof fn law_reread_is_same(
    first: Result<PastyView, PastyError>,
    second: Result<PastyView, PastyError>,
    kinds: Map<Seq<char>, u8>,
    contents: Map<Seq<char>, Seq<char>>,
    id: Seq<char>,
)
    requires
        is_fetch_of(first, kinds, contents, id),
        is_fetch_of(second, kinds, contents, id),
        !(first matches Err(error) && error.is_engine_failure()),
        !(second matches Err(error) && error.is_engine_failure()),
    ensures
        first == second,
{
}

/// After a creation or change that was not refused, a fetch of the
/// identifier gives the kind and content just written.
pub proof fn law_update_then_fetch(
    tables: Tables,
    id: Seq<char>,
    content: Seq<char>,
    content_type: ContentType,
    offered: Option<Seq<char>>,
    now: i64,
)
    requires
        tables.update_outcome(id, offered) is Ok,
    ensures
        tables.updated(id, content, content_type, offered, now).pasty(id) == Ok::<
            PastyView,
            PastyError,
        >(PastyView { id, content_type, content }),
{
}

/// An identifier created with a secret is protected by it: without a token
/// a change is refused for want of one, with another token for the mismatch,
/// and with the secret it is admitted. The same holds of a removal.
pub proof fn law_token_enforced(
    tables: Tables,
    id: Seq<char>,
    content: Seq<char>,
    content_type: ContentType,
    secret: Seq<char>,
    other: Seq<char>,
    now: i64,
)
    requires
        !tables.tokens.contains_key(id),
        other != secret,
    ensures
        ({
            let created = tables.updated(id, content, content_type, Some(secret), now);
            &&& tables.update_outcome(id, Some(secret)) is Ok
            &&& created.update_outcome(id, None) == Err::<(), PastyError>(
                PastyError::TokenRequired,
            )
            &&& created.update_outcome(id, Some(other)) == Err::<(), PastyError>(
                PastyError::TokenMismatch,
            )
            &&& created.update_outcome(id, Some(secret)) is Ok
            &&& created.delete_outcome(id, None) == Err::<(), PastyError>(
                PastyError::TokenRequired,
            )
            &&& created.delete_outcome(id, Some(other)) == Err::<(), PastyError>(
                PastyError::TokenMismatch,
            )
            &&& created.delete_outcome(id, Some(secret)) is Ok
        }),
{
}

/// An identifier created without a token stays open: every later change
/// and removal is admitted, whatever token is offered, and none as well.
pub proof fn law_unprotected_stays_open(
    tables: Tables,
    id: Seq<char>,
    content: Seq<char>,
    content_type: ContentType,
    later: Option<Seq<char>>,
    now: i64,
)
    requires
        !tables.tokens.contains_key(id),
    ensures
        ({
            let created = tables.updated(id, content, content_type, None, now);
            &&& created.update_outcome(id, later) is Ok
            &&& created.delete_outcome(id, later) is Ok
        }),
{
}

/// A token row, once written, is never changed by a creation or change:
/// the token of an identifier is set when it is created and stays.
pub proof fn law_token_set_once(
    tables: Tables,
    id: Seq<char>,
    content: Seq<char>,
    content_type: ContentType,
    offered: Option<Seq<char>>,
    now: i64,
)
    requires
        tables.tokens.contains_key(id),
    ensures
        tables.updated(id, content, content_type, offered, now).tokens == tables.tokens,
{
}

/// Of two creators of one new identifier, the one whose transaction comes
/// first sets the token. The second, offering another token, is refused and
/// changes nothing.
pub proof fn law_first_creator_wins(
    tables: Tables,
    id: Seq<char>,
    first_content: Seq<char>,
    second_content: Seq<char>,
    content_type: ContentType,
    first: Seq<char>,
    second: Option<Seq<char>>,
    now: i64,
    later: i64,
)
    requires
        !tables.tokens.contains_key(id),
        second != Some(first),
    ensures
        ({
            let created = tables.updated(id, first_content, content_type, Some(first), now);
            &&& created.tokens[id] == Some(first)
            &&& created.update_outcome(id, second) is Err
            &&& created.updated(id, second_content, content_type, second, later) == created
        }),
{
}

/// After a removal that was not refused, nothing of the identifier is
/// left: a fetch and a fetch of the statistics find nothing, it is in no
/// listing, and it counts as never created.
pub proof fn law_delete_removes_all(tables: Tables, id: Seq<char>, offered: Option<Seq<char>>)
    requires
        tables.delete_outcome(id, offered) is Ok,
    ensures
        ({
            let after = tables.deleted(id, offered);
            &&& after.pasty(id) == Err::<PastyView, PastyError>(PastyError::NotFound)
            &&& after.stats_of(id) == Err::<Stats, PastyError>(PastyError::NotFound)
            &&& !is_listed(after.kinds, after.contents, id)
            &&& after.check_token(id, offered) == Err::<Option<Seq<char>>, PastyError>(
                PastyError::NotFound,
            )
        }),
{
}

/// No listing of the tables after a removal that was not refused holds
/// the identifier.
pub proof fn law_deleted_is_not_listed(
    tables: Tables,
    id: Seq<char>,
    offered: Option<Seq<char>>,
    listing: Seq<(PastyView, Stats)>,
    now: i64,
)
    requires
        tables.delete_outcome(id, offered) is Ok,
        ({
            let after = tables.deleted(id, offered);
            is_listing(listing, after.kinds, after.contents, after.stats, now)
        }),
    ensures
        forall|i: int| 0 <= i < listing.len() ==> (#[trigger] listing[i]).0.id != id,
{
    let after = tables.deleted(id, offered);
    assert forall|i: int| 0 <= i < listing.len() implies (#[trigger] listing[i]).0.id != id by {
        if listing[i].0.id == id {
            assert(find_pasty(after.kinds, after.contents, listing[i].0.id) is Ok);
        }
    }
}

/// Every entry of a listing has both its kind and its content, and is
/// listed as a fetch gives it.
pub proof fn law_listing_is_whole(
    listing: Seq<(PastyView, Stats)>,
    kinds: Map<Seq<char>, u8>,
    contents: Map<Seq<char>, Seq<char>>,
    stats: Map<Seq<char>, Seq<u8>>,
    now: i64,
)
    requires
        is_listing(listing, kinds, contents, stats, now),
    ensures
        forall|i: int|
            0 <= i < listing.len() ==> {
                let entry = (#[trigger] listing[i]).0;
                &&& kinds.contains_key(entry.id)
                &&& contents.contains_key(entry.id)
                &&& ContentType::decode(kinds[entry.id]) == Some(entry.content_type)
                &&& contents[entry.id] == entry.content
            },
{
    assert forall|i: int| 0 <= i < listing.len() implies {
        let entry = (#[trigger] listing[i]).0;
        &&& kinds.contains_key(entry.id)
        &&& contents.contains_key(entry.id)
        &&& ContentType::decode(kinds[entry.id]) == Some(entry.content_type)
        &&& contents[entry.id] == entry.content
    } by {
        let entry = listing[i].0;
        assert(find_pasty(kinds, contents, entry.id) == Ok::<PastyView, PastyError>(entry));
    }
}

/// One view at an instant the calendar can represent counts once and
/// moves the instant of the last view there; created and updated stay.
pub proof fn law_view_counts_once(tables: Tables, id: Seq<char>, now: i64)
    requires
        representable(now),
    ensures
        ({
            let before = stats_or_fresh(tables.stats, id, now);
            let after = tables.viewed(id, now).stats_of(id);
            &&& after == Ok::<Stats, PastyError>(before.viewed(now))
            &&& before.viewed(now).views == saturated(before.views, 1)
            &&& before.viewed(now).last_viewed_at == now
        }),
{
    let before = stats_or_fresh(tables.stats, id, now);
    lemma_decode_encode(before.viewed(now));
}

/// Views at `nows.len()` instants that the calendar can represent raise
/// the counter of an identifier that has statistics by that many, up to its
/// largest value, and leave every other table as it was.
pub proof fn law_views_add_up(tables: Tables, id: Seq<char>, nows: Seq<i64>)
    requires
        tables.stats.contains_key(id),
        forall|i: int| 0 <= i < nows.len() ==> representable(#[trigger] nows[i]),
    ensures
        ({
            let after = viewed_at_each(tables, id, nows);
            &&& after.kinds == tables.kinds
            &&& after.contents == tables.contents
            &&& after.tokens == tables.tokens
            &&& after.stats.contains_key(id)
            &&& Stats::decode(after.stats[id]).views == saturated(
                Stats::decode(tables.stats[id]).views,
                nows.len(),
            )
            &&& Stats::decode(after.stats[id]).created_at == Stats::decode(
                tables.stats[id],
            ).created_at
            &&& nows.len() > 0 ==> Stats::decode(after.stats[id]).last_viewed_at == nows.last()
        }),
    decreases nows.len(),
{
    if nows.len() > 0 {
        let earlier = nows.drop_last();
        law_views_add_up(tables, id, earlier);
        let middle = viewed_at_each(tables, id, earlier);
        let before = Stats::decode(middle.stats[id]);
        lemma_decode_encode(before.viewed(nows.last()));
    }
}

/// With a clock that does not run backwards, a view never moves the
/// instant of the last view back.
pub proof fn law_last_view_never_earlier(tables: Tables, id: Seq<char>, now: i64)
    requires
        representable(now),
        tables.stats.contains_key(id),
        Stats::decode(tables.stats[id]).last_viewed_at <= now,
    ensures
        ({
            let after = tables.viewed(id, now);
            Stats::decode(tables.stats[id]).last_viewed_at <= Stats::decode(
                after.stats[id],
            ).last_viewed_at
        }),
{
    let before = Stats::decode(tables.stats[id]);
    lemma_decode_encode(before.viewed(now));
}

/// A change that was not refused keeps the instant of creation and the
/// view counter of an identifier that has statistics, and moves the instant
/// of the last change to now.
pub proof fn law_update_keeps_created_at(
    tables: Tables,
    id: Seq<char>,
    content: Seq<char>,
    content_type: ContentType,
    offered: Option<Seq<char>>,
    now: i64,
)
    requires
        representable(now),
        tables.stats.contains_key(id),
        tables.update_outcome(id, offered) is Ok,
    ensures
        ({
            let before = Stats::decode(tables.stats[id]);
            let after = tables.updated(id, content, content_type, offered, now).stats_of(id);
            &&& after is Ok
            &&& after->Ok_0.created_at == before.created_at
            &&& after->Ok_0.views == before.views
            &&& after->Ok_0.last_viewed_at == before.last_viewed_at
            &&& after->Ok_0.updated_at == now
        }),
{
    let before = Stats::decode(tables.stats[id]);
    lemma_decode_encode(before.updated(now));
}

/// A creation at an instant the calendar can represent starts the
/// statistics there: never viewed, created and updated now.
pub proof fn law_creation_starts_stats(
    tables: Tables,
    id: Seq<char>,
    content: Seq<char>,
    content_type: ContentType,
    offered: Option<Seq<char>>,
    now: i64,
)
    requires
        representable(now),
        !tables.stats.contains_key(id),
        tables.update_outcome(id, offered) is Ok,
    ensures
        tables.updated(id, content, content_type, offered, now).stats_of(id) == Ok::<
            Stats,
            PastyError,
        >(Stats::fresh(now)),
{
    lemma_decode_encode(Stats::fresh(now).updated(now));
}

} // verus!
