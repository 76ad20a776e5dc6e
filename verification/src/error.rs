//! The error taxonomy shared by every operation of the library, the text each
//! error is shown with, and the response class it maps to at the RPC boundary.

use vstd::prelude::*;
use vstd::std_specs::convert::FromSpecImpl;

verus! {

/// Every failure the backend reports.
#[derive(Debug, Clone, Copy, PartialEq, Eq, Structural)]
pub enum ElyError {
    /// The identity named by a call does not exist (any more).
    UserNotFound,
    /// An account with that name is already registered.
    UserAlreadyExists,
    /// No session is known under the given handle.
    SessionNotFound,
    /// No credential was presented, or the presented secret was refused.
    Unauthorized,
    /// The credential is malformed, wrongly signed, or expired.
    InvalidToken,
    /// The post does not exist.
    PostNotFound,
    /// No live challenge matches the email and code.
    EmailNotVerified,
    /// A collaborator (identity store, delivery) failed.
    Database,
}

/// The response classes of the RPC boundary that errors are mapped to.
#[derive(Debug, Clone, Copy, PartialEq, Eq, Structural)]
pub enum StatusCode {
    NotFound,
    AlreadyExists,
    Unauthenticated,
    Internal,
}

/// The failure type of the token codec; the library only ever forwards it.
#[verifier::external_type_specification]
#[verifier::external_body]
pub struct ExJwtError(jsonwebtoken::errors::Error);

/// Whether an executable result is the given spec-level result.
pub open spec fn same(result: Result<String, ElyError>, expected: Result<Seq<char>, ElyError>) -> bool {
    match result {
        Ok(text) => expected == Ok::<Seq<char>, ElyError>(text@),
        Err(e) => expected == Err::<Seq<char>, ElyError>(e),
    }
}

impl ElyError {
    /// The human-readable text of an error.
    pub open spec fn message_text(self) -> Seq<char> {
        match self {
            ElyError::Database => "Internal Database Error"@,
            ElyError::UserNotFound => "User not found"@,
            ElyError::SessionNotFound => "Session not found"@,
            ElyError::UserAlreadyExists => "User already exists"@,
            ElyError::Unauthorized => "Unauthorized"@,
            ElyError::InvalidToken => "Invalid token"@,
            ElyError::PostNotFound => "Post not found"@,
            ElyError::EmailNotVerified => "Email could not be verified"@,
        }
    }

    /// The response class of an error.
    ///
    /// Everything that speaks of a failed authentication (no credential, a
    /// bad credential, a credential for an identity that is gone) is
    /// `Unauthenticated`, so that a caller cannot tell these apart by class.
    /// A failed email verification looks like a missing resource, and a
    /// failing collaborator is an internal error.
    pub open spec fn status_code_spec(self) -> StatusCode {
        match self {
            ElyError::Unauthorized => StatusCode::Unauthenticated,
            ElyError::InvalidToken => StatusCode::Unauthenticated,
            ElyError::UserNotFound => StatusCode::Unauthenticated,
            ElyError::UserAlreadyExists => StatusCode::AlreadyExists,
            ElyError::SessionNotFound => StatusCode::NotFound,
            ElyError::PostNotFound => StatusCode::NotFound,
            ElyError::EmailNotVerified => StatusCode::NotFound,
            ElyError::Database => StatusCode::Internal,
        }
    }

    /// Renders the error as text.
    pub fn message(&self) -> (text: String)
        ensures
            text@ == self.message_text(),
    {
        match self {
            ElyError::Database => "Internal Database Error".to_owned(),
            ElyError::UserNotFound => "User not found".to_owned(),
            ElyError::SessionNotFound => "Session not found".to_owned(),
            ElyError::UserAlreadyExists => "User already exists".to_owned(),
            ElyError::Unauthorized => "Unauthorized".to_owned(),
            ElyError::InvalidToken => "Invalid token".to_owned(),
            ElyError::PostNotFound => "Post not found".to_owned(),
            ElyError::EmailNotVerified => "Email could not be verified".to_owned(),
        }
    }

    /// The response class of the error.
    pub fn status_code(&self) -> (code: StatusCode)
        ensures
            code == self.status_code_spec(),
    {
        match self {
            ElyError::Unauthorized | ElyError::InvalidToken | ElyError::UserNotFound => {
                StatusCode::Unauthenticated
            },
            ElyError::UserAlreadyExists => StatusCode::AlreadyExists,
            ElyError::SessionNotFound | ElyError::PostNotFound | ElyError::EmailNotVerified => {
                StatusCode::NotFound
            },
            ElyError::Database => StatusCode::Internal,
        }
    }

    /// The text sent along with the response class: the message, closed by a
    /// full stop.
    pub fn status_message(&self) -> (text: String)
        ensures
            text@ == self.message_text() + "."@,
    {
        let mut text = self.message();
        text.append(".");
        text
    }
}

impl From<jsonwebtoken::errors::Error> for ElyError {
    /// Whatever the token codec objects to, the caller sees an invalid token.
    fn from(error: jsonwebtoken::errors::Error) -> (converted: ElyError) {
        ElyError::InvalidToken
    }
}

impl FromSpecImpl<jsonwebtoken::errors::Error> for ElyError {
    open spec fn obeys_from_spec() -> bool {
        true
    }

    open spec fn from_spec(error: jsonwebtoken::errors::Error) -> ElyError {
        ElyError::InvalidToken
    }
}

} // verus!
