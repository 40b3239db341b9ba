//! The store as mathematics: four maps keyed by identifier, and what each
//! operation finds in them and makes of them.
//!
//! An identifier is created when its token row is written, and is live while
//! its kind row exists. The statistics rows hold the stored form of a record.

use crate::content::ContentType;
use crate::error::PastyError;
use crate::error::StorageFault;
use crate::pasty::PastyView;
use crate::stats::Stats;
use vstd::prelude::*;

verus! {

/// The four tables, each a map from identifier to row.
pub struct Tables {
    /// The byte of the kind of content.
    pub kinds: Map<Seq<char>, u8>,
    /// The content.
    pub contents: Map<Seq<char>, Seq<char>>,
    /// The owner token; `None` stands for an identifier that anyone may change.
    pub tokens: Map<Seq<char>, Option<Seq<char>>>,
    /// The statistics record in its stored form.
    pub stats: Map<Seq<char>, Seq<u8>>,
}

/// What a fetch of `id` gives. The kind row decides whether the entry
/// exists; a kind row without a content row counts as no entry; a kind byte
/// that stands for no kind is a fault of the storage.
pub open spec fn find_pasty(
    kinds: Map<Seq<char>, u8>,
    contents: Map<Seq<char>, Seq<char>>,
    id: Seq<char>,
) -> Result<PastyView, PastyError> {
    match kinds.get(id) {
        None => Err(PastyError::NotFound),
        Some(byte) => match ContentType::decode(byte) {
            None => Err(PastyError::StorageFailure(StorageFault::UnknownContentType(byte))),
            Some(content_type) => match contents.get(id) {
                None => Err(PastyError::NotFound),
                Some(content) => Ok(PastyView { id, content_type, content }),
            },
        },
    }
}

/// What a fetch of the statistics of `id` gives.
pub open spec fn find_stats(stats: Map<Seq<char>, Seq<u8>>, id: Seq<char>) -> Result<
    Stats,
    PastyError,
> {
    match stats.get(id) {
        None => Err(PastyError::NotFound),
        Some(record) => Ok(Stats::decode(record)),
    }
}

/// The statistics of `id`, or those of an identifier first seen at `now`
/// where it has none.
pub open spec fn stats_or_fresh(stats: Map<Seq<char>, Seq<u8>>, id: Seq<char>, now: i64) -> Stats {
    match stats.get(id) {
        None => Stats::fresh(now),
        Some(record) => Stats::decode(record),
    }
}

/// Whether a caller who offers `offered` may change what is stored under a
/// token row `stored`, and the token it is stored with. No row: the
/// identifier was never created. A row without a secret admits everyone. A
/// row with a secret admits who offers that secret.
pub open spec fn authorize_spec(
    stored: Option<Option<Seq<char>>>,
    offered: Option<Seq<char>>,
) -> Result<Option<Seq<char>>, PastyError> {
    match stored {
        None => Err(PastyError::NotFound),
        Some(None) => Ok(None),
        Some(Some(secret)) => match offered {
            None => Err(PastyError::TokenRequired),
            Some(token) => if token == secret {
                Ok(Some(secret))
            } else {
                Err(PastyError::TokenMismatch)
            },
        },
    }
}

/// Whether `id` shows in a listing: it has a kind and a content.
pub open spec fn is_listed(
    kinds: Map<Seq<char>, u8>,
    contents: Map<Seq<char>, Seq<char>>,
    id: Seq<char>,
) -> bool {
    kinds.contains_key(id) && contents.contains_key(id)
}

/// Whether some kind row holds a byte that stands for no kind.
pub open spec fn has_unknown_kind(kinds: Map<Seq<char>, u8>) -> bool {
    exists|id: Seq<char>| #[trigger] kinds.contains_key(id) && ContentType::decode(kinds[id]) is None
}

impl Tables {
    /// What a fetch of `id` gives.
    pub open spec fn pasty(self, id: Seq<char>) -> Result<PastyView, PastyError> {
        find_pasty(self.kinds, self.contents, id)
    }

    /// What a fetch of the statistics of `id` gives.
    pub open spec fn stats_of(self, id: Seq<char>) -> Result<Stats, PastyError> {
        find_stats(self.stats, id)
    }

    /// What the check of the token `offered` for `id` gives.
    pub open spec fn check_token(self, id: Seq<char>, offered: Option<Seq<char>>) -> Result<
        Option<Seq<char>>,
        PastyError,
    > {
        authorize_spec(self.tokens.get(id), offered)
    }

    /// The tables after a view of `id` at `now`: its statistics count one
    /// more view; where it had none, they start at `now`.
    pub open spec fn viewed(self, id: Seq<char>, now: i64) -> Tables {
        Tables {
            kinds: self.kinds,
            contents: self.contents,
            tokens: self.tokens,
            stats: self.stats.insert(id, stats_or_fresh(self.stats, id, now).viewed(now).encode()),
        }
    }

    /// How a creation or change of `id` by a caller who offers `offered`
    /// ends: it is refused only where the identifier has a secret and the
    /// caller does not offer it.
    pub open spec fn update_outcome(self, id: Seq<char>, offered: Option<Seq<char>>) -> Result<
        (),
        PastyError,
    > {
        match self.check_token(id, offered) {
            Ok(_) => Ok(()),
            Err(PastyError::NotFound) => Ok(()),
            Err(refusal) => Err(refusal),
        }
    }

    /// The tables after a creation or change of `id` at `now`. Where it is
    /// refused they are as before. Else kind and content are replaced, the
    /// statistics record the change, and an identifier that had no token row
    /// gets `offered` as its token; a token row that exists stays as it is.
    pub open spec fn updated(
        self,
        id: Seq<char>,
        content: Seq<char>,
        content_type: ContentType,
        offered: Option<Seq<char>>,
        now: i64,
    ) -> Tables {
        if self.update_outcome(id, offered) is Err {
            self
        } else {
            Tables {
                kinds: self.kinds.insert(id, content_type.code()),
                contents: self.contents.insert(id, content),
                tokens: if self.tokens.contains_key(id) {
                    self.tokens
                } else {
                    self.tokens.insert(id, offered)
                },
                stats: self.stats.insert(
                    id,
                    stats_or_fresh(self.stats, id, now).updated(now).encode(),
                ),
            }
        }
    }

    /// How a removal of `id` by a caller who offers `offered` ends: it
    /// succeeds where the check of the token does.
    pub open spec fn delete_outcome(self, id: Seq<char>, offered: Option<Seq<char>>) -> Result<
        (),
        PastyError,
    > {
        match self.check_token(id, offered) {
            Ok(_) => Ok(()),
            Err(refusal) => Err(refusal),
        }
    }

    /// The tables after a removal of `id`. Where it is refused they are as
    /// before. Else no table holds a row for `id`.
    pub open spec fn deleted(self, id: Seq<char>, offered: Option<Seq<char>>) -> Tables {
        if self.delete_outcome(id, offered) is Err {
            self
        } else {
            Tables {
                kinds: self.kinds.remove(id),
                contents: self.contents.remove(id),
                tokens: self.tokens.remove(id),
                stats: self.stats.remove(id),
            }
        }
    }
}

/// Whether `listing` is the listing of the tables at `now`: every entry
/// that has a kind and a content, once, in the order of the identifiers, each
/// as a fetch gives it, with its statistics or, where it has none, those of
/// an identifier first seen at `now`.
pub open spec fn is_listing(
    listing: Seq<(PastyView, Stats)>,
    kinds: Map<Seq<char>, u8>,
    contents: Map<Seq<char>, Seq<char>>,
    stats: Map<Seq<char>, Seq<u8>>,
    now: i64,
) -> bool {
    &&& forall|i: int|
        0 <= i < listing.len() ==> {
            &&& find_pasty(kinds, contents, (#[trigger] listing[i]).0.id) == Ok::<
                PastyView,
                PastyError,
            >(listing[i].0)
            &&& listing[i].1 == stats_or_fresh(stats, listing[i].0.id, now)
        }
    &&& forall|i: int, j: int|
        0 <= i < j < listing.len() ==> crate::tables::key_before(
            (#[trigger] listing[i]).0.id,
            (#[trigger] listing[j]).0.id,
        )
    &&& forall|id: Seq<char>| #[trigger]
        is_listed(kinds, contents, id) ==> exists|i: int|
            0 <= i < listing.len() && (#[trigger] listing[i]).0.id == id
}

} // verus!
