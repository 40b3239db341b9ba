//! The settings of a deployment.

use vstd::prelude::*;

verus! {

/// What an operator sets.
pub struct Config {
    /// Where the database file lies.
    pub db_path: String,
    /// How many characters a generated identifier has.
    pub random_id_length: u32,
    /// The password that guards writing and listing; empty for an open
    /// deployment.
    pub access_password: String,
    /// The text shown at the root where no link is set.
    pub index_text: String,
    /// Where the root redirects to; empty for none.
    pub index_link: String,
}

} // verus!
