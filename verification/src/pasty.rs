//! An entry of the store as callers see it.

use crate::content::ContentType;
use vstd::prelude::*;

verus! {

/// An entry: its identifier, what kind of content it holds, and the content.
#[derive(Debug)]
pub struct Pasty {
    pub id: String,
    pub content_type: ContentType,
    pub content: String,
}

/// An entry as a value of specifications.
pub struct PastyView {
    pub id: Seq<char>,
    pub content_type: ContentType,
    pub content: Seq<char>,
}

impl View for Pasty {
    type V = PastyView;

    open spec fn view(&self) -> PastyView {
        PastyView { id: self.id@, content_type: self.content_type, content: self.content@ }
    }
}

} // verus!
