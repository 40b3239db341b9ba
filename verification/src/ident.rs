//! Identifiers for entries whose creator names none.

use vstd::prelude::*;

verus! {

/// Whether `c` may stand in a generated identifier: a digit or a letter of
/// the Latin alphabet, of either case.
pub open spec fn is_id_char(c: char) -> bool {
    ('0' <= c && c <= '9') || ('a' <= c && c <= 'z') || ('A' <= c && c <= 'Z')
}

/// `nanoid::format` with the generator `nanoid::rngs::default`: a text of
/// `size` characters, each drawn from `alphabet`. Which ones is left to
/// chance. The function does not come back for an empty alphabet or for no
/// characters, stops on an alphabet of more than 255, and counts the
/// result in bytes, so the alphabet must be of one-byte characters.
#[verifier::external_body]
fn random_text(alphabet: &[char], size: usize) -> (id: String)
    requires
        1 <= alphabet@.len() <= 255,
        forall|i: int| 0 <= i < alphabet@.len() ==> #[trigger] alphabet@[i] <= '\x7f',
        1 <= size <= u32::MAX,
    ensures
        id@.len() == size,
        forall|i: int| 0 <= i < id@.len() ==> alphabet@.contains(#[trigger] id@[i]),
{
    nanoid::format(nanoid::rngs::default, alphabet, size)
}

/// A new identifier of `length` characters, all digits and letters, left
/// to chance.
pub fn random_id(length: u32) -> (id: String)
    requires
        length >= 1,
    ensures
        id@.len() == length,
        forall|i: int| 0 <= i < id@.len() ==> is_id_char(#[trigger] id@[i]),
{
    let alphabet: [char; 62] = [
        '0', '1', '2', '3', '4', '5', '6', '7', '8', '9', 'a', 'b', 'c', 'd', 'e', 'f', 'g', 'h',
        'i', 'j', 'k', 'l', 'm', 'n', 'o', 'p', 'q', 'r', 's', 't', 'u', 'v', 'w', 'x', 'y', 'z',
        'A', 'B', 'C', 'D', 'E', 'F', 'G', 'H', 'I', 'J', 'K', 'L', 'M', 'N', 'O', 'P', 'Q', 'R',
        'S', 'T', 'U', 'V', 'W', 'X', 'Y', 'Z',
    ];
    assert(forall|i: int| 0 <= i < 62 ==> is_id_char(#[trigger] alphabet@[i]));
    let id = random_text(alphabet.as_slice(), length as usize);
    assert forall|i: int| 0 <= i < id@.len() implies is_id_char(#[trigger] id@[i]) by {
        let at = choose|at: int| 0 <= at < alphabet@.len() && alphabet@[at] == id@[i];
        assert(is_id_char(alphabet@[at]));
    }
    id
}

} // verus!
