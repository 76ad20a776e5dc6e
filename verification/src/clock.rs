//! The clock that credentials and challenges are timed by.

use vstd::prelude::*;

verus! {

/// `jsonwebtoken::get_current_timestamp`: the seconds since the Unix epoch by
/// the system clock. Nothing is promised of the value. The call panics on a
/// machine whose clock stands before the epoch.
#[verifier::external_body]
pub(crate) fn current_timestamp() -> (now: u64) {
    jsonwebtoken::get_current_timestamp()
}

} // verus!
