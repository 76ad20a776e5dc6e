//! Random identifiers over an alphabet.

use rand::Rng;
use vstd::prelude::*;

verus! {

/// The decimal digits, the alphabet of verification codes.
pub open spec fn numbers() -> Seq<char> {
    seq!['0', '1', '2', '3', '4', '5', '6', '7', '8', '9']
}

/// An identifier of `len` characters, each taken from `alphabet`.
pub open spec fn drawn_from(id: Seq<char>, len: nat, alphabet: Seq<char>) -> bool {
    &&& id.len() == len
    &&& forall|i: int| 0 <= i < id.len() ==> alphabet.contains(#[trigger] id[i])
}

/// Draws an index below `bound` with `rand::Rng::gen_range` on the
/// thread-local generator (`rand::thread_rng`), which is seeded by the
/// system and meant for secrets.
///
/// Trusted: the index is below the bound. Which index comes is not said: two
/// calls may differ. The call panics on an empty range, hence the
/// precondition.
#[verifier::external_body]
fn random_index(bound: usize) -> (index: usize)
    requires
        bound > 0,
    ensures
        index < bound,
{
    rand::thread_rng().gen_range(0..bound)
}

/// `String::push`.
#[verifier::external_body]
fn push_char(text: &mut String, c: char)
    ensures
        final(text)@ == old(text)@.push(c),
{
    text.push(c)
}

/// The ten decimal digits.
pub fn digits() -> (alphabet: Vec<char>)
    ensures
        alphabet@ == numbers(),
{
    let alphabet = vec!['0', '1', '2', '3', '4', '5', '6', '7', '8', '9'];
    assert(alphabet@ =~= numbers());
    alphabet
}

/// A random identifier of `len` characters over `alphabet`, each character
/// drawn independently. Over an empty alphabet there is only the empty
/// identifier.
pub fn generate_custom(len: usize, alphabet: &Vec<char>) -> (id: String)
    requires
        len == 0 || alphabet@.len() > 0,
    ensures
        drawn_from(id@, len as nat, alphabet@),
{
    let mut id = String::new();
    let mut i: usize = 0;
    while i < len
        invariant
            i <= len,
            len == 0 || alphabet@.len() > 0,
            drawn_from(id@, i as nat, alphabet@),
        decreases len - i,
    {
        let index = random_index(alphabet.len());
        let c = alphabet[index];
        assert(alphabet@.contains(c));
        push_char(&mut id, c);
        i = i + 1;
    }
    id
}

} // verus!
