//! Text operations of std that the verifier has no account of.

use vstd::prelude::*;

verus! {

/// std's equality of string slices (`==` on `&str`): two slices are equal
/// where they hold the same characters.
#[verifier::external_body]
pub(crate) fn same_text(a: &str, b: &str) -> (same: bool)
    ensures
        same == (a@ == b@),
{
    a == b
}

/// std's `format!` with two slices one after the other: the text of the
/// first followed by the text of the second.
#[verifier::external_body]
pub(crate) fn joined(head: &str, tail: &str) -> (text: String)
    ensures
        text@ == head@ + tail@,
{
    format!("{}{}", head, tail)
}

} // verus!
