//! The two kinds of entry and their one-byte encoding.

use vstd::prelude::*;

verus! {

/// What an entry holds: text served as it is, or the target of a redirect.
#[derive(Debug, Clone, Copy, PartialEq, Eq, Structural)]
pub enum ContentType {
    Plaintext,
    Redirect,
}

impl ContentType {
    /// The byte under which this kind is stored.
    pub open spec fn code(self) -> u8 {
        match self {
            ContentType::Plaintext => 0u8,
            ContentType::Redirect => 1u8,
        }
    }

    /// The kind stored under `byte`, if `byte` stands for one.
    pub open spec fn decode(byte: u8) -> Option<ContentType> {
        if byte == 0 {
            Some(ContentType::Plaintext)
        } else if byte == 1 {
            Some(ContentType::Redirect)
        } else {
            None
        }
    }

    /// Encodes the kind as its stored byte.
    pub fn to_byte(self) -> (byte: u8)
        ensures
            byte == self.code(),
    {
        match self {
            ContentType::Plaintext => 0,
            ContentType::Redirect => 1,
        }
    }

    /// Decodes a stored byte; any byte other than 0 and 1 stands for no kind.
    pub fn from_byte(byte: u8) -> (kind: Option<ContentType>)
        ensures
            kind == ContentType::decode(byte),
    {
        if byte == 0 {
            Some(ContentType::Plaintext)
        } else if byte == 1 {
            Some(ContentType::Redirect)
        } else {
            None
        }
    }
}

} // verus!
