//! What the rendering of outbound mail is given.

use vstd::prelude::*;

verus! {

/// The input of the verification mail: the code that the recipient is to
/// send back.
pub struct VerifyEmailTemplate<'a> {
    pub token: &'a str,
}

} // verus!
