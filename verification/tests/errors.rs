use elysium::api::user;
use elysium::error::{ElyError, StatusCode};

const ALL: [ElyError; 8] = [
    ElyError::UserNotFound,
    ElyError::UserAlreadyExists,
    ElyError::SessionNotFound,
    ElyError::Unauthorized,
    ElyError::InvalidToken,
    ElyError::PostNotFound,
    ElyError::EmailNotVerified,
    ElyError::Database,
];

#[test]
fn every_error_has_its_message() {
    assert_eq!(ElyError::Database.message(), "Internal Database Error");
    assert_eq!(ElyError::UserNotFound.message(), "User not found");
    assert_eq!(ElyError::SessionNotFound.message(), "Session not found");
    assert_eq!(ElyError::UserAlreadyExists.message(), "User already exists");
    assert_eq!(ElyError::Unauthorized.message(), "Unauthorized");
    assert_eq!(ElyError::InvalidToken.message(), "Invalid token");
    assert_eq!(ElyError::PostNotFound.message(), "Post not found");
    assert_eq!(ElyError::EmailNotVerified.message(), "Email could not be verified");
}

#[test]
fn status_message_is_the_message_with_a_full_stop() {
    for e in ALL {
        assert_eq!(e.status_message(), format!("{}.", e.message()));
    }
    assert_eq!(ElyError::Unauthorized.status_message(), "Unauthorized.");
}

#[test]
fn authentication_failures_share_one_class() {
    assert_eq!(ElyError::Unauthorized.status_code(), StatusCode::Unauthenticated);
    assert_eq!(ElyError::InvalidToken.status_code(), StatusCode::Unauthenticated);
    assert_eq!(ElyError::UserNotFound.status_code(), StatusCode::Unauthenticated);
}

#[test]
fn other_errors_map_to_their_class() {
    assert_eq!(ElyError::EmailNotVerified.status_code(), StatusCode::NotFound);
    assert_eq!(ElyError::PostNotFound.status_code(), StatusCode::NotFound);
    assert_eq!(ElyError::SessionNotFound.status_code(), StatusCode::NotFound);
    assert_eq!(ElyError::UserAlreadyExists.status_code(), StatusCode::AlreadyExists);
    assert_eq!(ElyError::Database.status_code(), StatusCode::Internal);
}

#[test]
fn codec_errors_become_invalid_token() {
    let kinds = vec![
        jsonwebtoken::errors::ErrorKind::InvalidSignature,
        jsonwebtoken::errors::ErrorKind::ExpiredSignature,
        jsonwebtoken::errors::ErrorKind::InvalidAlgorithmName,
    ];
    for kind in kinds {
        let error: jsonwebtoken::errors::Error = kind.into();
        assert_eq!(ElyError::from(error), ElyError::InvalidToken);
    }
}

#[test]
fn a_found_record_is_returned() {
    assert_eq!(user::get(Some(7u32)), Ok(7u32));
    assert_eq!(user::get::<u32>(None), Err(ElyError::UserNotFound));
}

#[test]
fn a_missing_identity_does_not_exist() {
    assert_eq!(user::user_exists(Ok::<u32, ElyError>(1)), Ok(true));
    assert_eq!(user::user_exists(Err::<u32, ElyError>(ElyError::UserNotFound)), Ok(false));
    assert_eq!(
        user::user_exists(Err::<u32, ElyError>(ElyError::Database)),
        Err(ElyError::Database)
    );
}

#[test]
fn a_mismatched_secret_looks_like_a_missing_identity() {
    assert_eq!(user::verify(Ok(true)), Ok(()));
    assert_eq!(user::verify(Ok(false)), Err(ElyError::UserNotFound));
    assert_eq!(user::verify(Err(ElyError::UserNotFound)), Err(ElyError::UserNotFound));
    assert_eq!(user::verify(Err(ElyError::Database)), Err(ElyError::Database));
}
