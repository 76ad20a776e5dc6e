//! What the answers of the identity store mean.
//!
//! The store itself is a collaborator: it is asked by the caller, and its
//! answers are handed in here as plain values.

use crate::error::ElyError;
use vstd::prelude::*;

verus! {

/// The record found for an identity, or `UserNotFound` where there is none.
pub fn get<T>(found: Option<T>) -> (result: Result<T, ElyError>)
    ensures
        result == match found {
            Some(record) => Ok::<T, ElyError>(record),
            None => Err::<T, ElyError>(ElyError::UserNotFound),
        },
{
    match found {
        Some(record) => Ok(record),
        None => Err(ElyError::UserNotFound),
    }
}

/// Whether an identity exists, given the outcome of looking it up: a missing
/// identity is an answer, any other failure is passed on.
pub fn user_exists<T>(looked_up: Result<T, ElyError>) -> (result: Result<bool, ElyError>)
    ensures
        result == match looked_up {
            Ok(_) => Ok::<bool, ElyError>(true),
            Err(ElyError::UserNotFound) => Ok::<bool, ElyError>(false),
            Err(e) => Err::<bool, ElyError>(e),
        },
{
    match looked_up {
        Ok(_) => Ok(true),
        Err(ElyError::UserNotFound) => Ok(false),
        Err(e) => Err(e),
    }
}

/// The outcome of checking a secret, given whether the store found the
/// identity's stored secret to match (`Ok(true)`), not to match (`Ok(false)`),
/// or could not look the identity up. A mismatch is reported like a missing
/// identity, so that the two cannot be told apart.
pub fn verify(secret_matches: Result<bool, ElyError>) -> (result: Result<(), ElyError>)
    ensures
        result == match secret_matches {
            Ok(true) => Ok::<(), ElyError>(()),
            Ok(false) => Err::<(), ElyError>(ElyError::UserNotFound),
            Err(e) => Err::<(), ElyError>(e),
        },
{
    match secret_matches {
        Ok(true) => Ok(()),
        Ok(false) => Err(ElyError::UserNotFound),
        Err(e) => Err(e),
    }
}

} // verus!
