//! The failures that the store reports.

use vstd::prelude::*;

verus! {

/// Why the storage under the store failed.
#[derive(Debug)]
pub enum StorageFault {
    /// The engine refused or failed a transaction or a table operation.
    Engine(redb::Error),
    /// A stored byte that stands for no kind of content.
    UnknownContentType(u8),
}

/// A failure of an operation of the store. No two of them mean the same.
#[derive(Debug)]
pub enum PastyError {
    /// The identifier has no live entry.
    NotFound,
    /// The entry is protected and the token supplied is not its token.
    TokenMismatch,
    /// The entry is protected and no token was supplied.
    TokenRequired,
    /// The storage failed underneath the operation.
    StorageFailure(StorageFault),
}

impl PastyError {
    /// Whether the failure is the engine's own, which the tables do not
    /// decide.
    pub open spec fn is_engine_failure(self) -> bool {
        self matches PastyError::StorageFailure(StorageFault::Engine(_))
    }

    /// Wraps a failure of the engine.
    pub fn engine(cause: redb::Error) -> (error: PastyError)
        ensures
            error == PastyError::StorageFailure(StorageFault::Engine(cause)),
    {
        PastyError::StorageFailure(StorageFault::Engine(cause))
    }

    /// The text of the failure, where the store itself words it; a failure
    /// of the engine is worded by the engine.
    pub open spec fn wording(self) -> Option<Seq<char>> {
        match self {
            PastyError::NotFound => Some("key not found"@),
            PastyError::TokenMismatch => Some("token mismatch"@),
            PastyError::TokenRequired => Some("token required"@),
            PastyError::StorageFailure(StorageFault::UnknownContentType(_)) => Some(
                "unknown content type"@,
            ),
            PastyError::StorageFailure(StorageFault::Engine(_)) => None,
        }
    }

    /// The failure as text for a reader.
    pub fn message(&self) -> (text: String)
        ensures
            self.wording() matches Some(words) ==> text@ == words,
    {
        match self {
            PastyError::NotFound => "key not found".to_owned(),
            PastyError::TokenMismatch => "token mismatch".to_owned(),
            PastyError::TokenRequired => "token required".to_owned(),
            PastyError::StorageFailure(StorageFault::UnknownContentType(_)) => {
                "unknown content type".to_owned()
            },
            PastyError::StorageFailure(StorageFault::Engine(cause)) => engine_text(cause),
        }
    }
}

/// redb's wording of one of its errors, as `Display for redb::Error` writes
/// it. Nothing is claimed of the text.
#[verifier::external_body]
fn engine_text(cause: &redb::Error) -> (text: String) {
    cause.to_string()
}

/// Whether an operation ended in a failure of the engine.
pub open spec fn engine_failed<T>(outcome: Result<T, PastyError>) -> bool {
    outcome matches Err(error) && error.is_engine_failure()
}

} // verus!
