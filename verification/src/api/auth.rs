//! Session credentials: issuing them, validating them, and the guard that
//! reads one out of the metadata of a call.
//!
//! A credential is a signed token that names a subject and an expiry. The
//! token codec signs and checks signatures; whether a well-signed credential
//! is still valid at a given moment is decided here.

use crate::config::AppConfig;
use crate::clock::current_timestamp;
use crate::error::{same, ElyError};
use crate::named::{find, first_named};
use std::str::FromStr;
use vstd::prelude::*;

verus! {

/// What a credential asserts: who the bearer is, and the second (since the
/// epoch) from which on it is no longer valid.
#[derive(Debug, Clone)]
pub struct Claim {
    pub sub: String,
    pub exp: u64,
}

/// What a call carries under one key of its metadata.
#[derive(Debug, Clone)]
pub enum MetadataValue {
    /// A value that is text.
    Text(String),
    /// A value that cannot be read as text.
    Opaque(Vec<u8>),
}

/// The metadata of a call: keys with their values, in the order in which
/// they were added. Where a key occurs more than once, the first counts.
#[derive(Debug, Clone)]
pub struct Metadata {
    entries: Vec<(String, MetadataValue)>,
}

/// The key under which a call carries its credential.
pub open spec fn token_key() -> Seq<char> {
    "token"@
}

/// What the token codec reads out of `token` when it checks it against
/// `key` and the algorithm named `algorithm`, not looking at the time:
/// `None` where it refuses the token, else the token's subject (if it has one
/// and it is text) and its expiry (if it has one and it is an unsigned
/// integer).
pub uninterp spec fn decoded(token: Seq<char>, key: Seq<char>, algorithm: Seq<char>) -> Option<(Option<Seq<char>>, Option<u64>)>;

/// The token that the codec makes of a subject and an expiry, signed with
/// `key` under the algorithm named `algorithm`; `None` where it makes none.
pub uninterp spec fn signed(algorithm: Seq<char>, key: Seq<char>, subject: Seq<char>, expiry: u64) -> Option<Seq<char>>;

/// The names of the algorithms that sign with a shared secret.
pub open spec fn is_hmac(algorithm: Seq<char>) -> bool {
    algorithm == "HS256"@ || algorithm == "HS384"@ || algorithm == "HS512"@
}

/// A token that is refused under every algorithm but `algorithm`, whatever
/// the key.
pub open spec fn only_under(token: Seq<char>, algorithm: Seq<char>) -> bool {
    forall|key: Seq<char>, other: Seq<char>|
        other != algorithm ==> (#[trigger] decoded(token, key, other)) is None
}

/// The spec-level reading of what the signing wrapper returns.
pub open spec fn written(result: Result<String, jsonwebtoken::errors::Error>) -> Option<Seq<char>> {
    match result {
        Ok(token) => Some(token@),
        Err(_) => None,
    }
}

/// The spec-level reading of what the decoding wrapper returns.
pub open spec fn read_out(
    result: Result<(Option<String>, Option<u64>), jsonwebtoken::errors::Error>,
) -> Option<(Option<Seq<char>>, Option<u64>)> {
    match result {
        Ok((sub, exp)) => Some(
            (
                match sub {
                    Some(s) => Some(s@),
                    None => None,
                },
                exp,
            ),
        ),
        Err(_) => None,
    }
}

/// The claim that the decoded members of a token make: subject and expiry,
/// where both are there.
pub open spec fn members(sub: Option<String>, exp: Option<u64>) -> Option<(Seq<char>, u64)> {
    match (sub, exp) {
        (Some(s), Some(e)) => Some((s@, e)),
        _ => None,
    }
}

/// The claim that `token` carries under `key` and `algorithm`: subject and
/// expiry, where the codec accepts the token and both are there.
pub open spec fn claim_of(token: Seq<char>, key: Seq<char>, algorithm: Seq<char>) -> Option<
    (Seq<char>, u64),
> {
    match decoded(token, key, algorithm) {
        Some((Some(sub), Some(exp))) => Some((sub, exp)),
        _ => None,
    }
}

/// The claim that `token` carries under a configuration.
pub open spec fn credential(config: AppConfig, token: Seq<char>) -> Option<(Seq<char>, u64)> {
    claim_of(token, config.jwt_key@, config.jwt_algo@)
}

/// Why no credential is issued, if none is: the identity store refused the
/// secret or did not know the identity (`Unauthorized`), it failed (its error
/// is passed on), or no token can be made, because the expiry is not a
/// representable time or the configured algorithm does not sign with a shared
/// secret (`InvalidToken`).
pub open spec fn issue_error(
    verified: Result<(), ElyError>,
    algorithm: Seq<char>,
    now: u64,
    ttl: u64,
) -> Option<ElyError> {
    match verified {
        Err(ElyError::UserNotFound) => Some(ElyError::Unauthorized),
        Err(e) => Some(e),
        Ok(_) => if now + ttl > u64::MAX || !is_hmac(algorithm) {
            Some(ElyError::InvalidToken)
        } else {
            None
        },
    }
}

/// Whether `result` is what issuing a credential for `user` at `now` gives:
/// the error that `issue_error` names, or else the token that the codec makes
/// of `user` and the expiry `now + ttl` under the configured key and
/// algorithm. That token carries `user` and this expiry when it is decoded
/// under the same key and algorithm, and no other algorithm accepts it.
pub open spec fn issues(
    config: AppConfig,
    user: Seq<char>,
    verified: Result<(), ElyError>,
    now: u64,
    result: Result<String, ElyError>,
) -> bool {
    match result {
        Ok(token) => {
            &&& issue_error(verified, config.jwt_algo@, now, config.jwt_expiry_secs) is None
            &&& signed(
                config.jwt_algo@,
                config.jwt_key@,
                user,
                (now + config.jwt_expiry_secs) as u64,
            ) == Some(token@)
            &&& credential(config, token@) == Some((user, (now + config.jwt_expiry_secs) as u64))
            &&& only_under(token@, config.jwt_algo@)
        },
        Err(e) => issue_error(verified, config.jwt_algo@, now, config.jwt_expiry_secs) == Some(e),
    }
}

/// What a claim is worth at `now`: its subject while `now` is before the
/// expiry, `InvalidToken` from the expiry on, and where there is no claim.
pub open spec fn accepted(claim: Option<(Seq<char>, u64)>, now: u64) -> Result<Seq<char>, ElyError> {
    match claim {
        Some((sub, exp)) => if now < exp {
            Ok(sub)
        } else {
            Err(ElyError::InvalidToken)
        },
        None => Err(ElyError::InvalidToken),
    }
}

/// What validating `token` at `now` gives.
pub open spec fn validate(config: AppConfig, token: Seq<char>, now: u64) -> Result<
    Seq<char>,
    ElyError,
> {
    accepted(credential(config, token), now)
}

/// What the guard answers for a call with the given metadata at `now`:
/// `Unauthorized` where the call carries no credential or one that is not
/// text, else whatever validating the credential gives.
pub open spec fn authenticate(
    config: AppConfig,
    entries: Seq<(String, MetadataValue)>,
    now: u64,
) -> Result<Seq<char>, ElyError> {
    match first_named(entries, token_key()) {
        Some(MetadataValue::Text(token)) => validate(config, token@, now),
        _ => Err(ElyError::Unauthorized),
    }
}

/// Signs a claim with `jsonwebtoken::encode`, under a header for the
/// algorithm that `jsonwebtoken::Algorithm::from_str` finds under the given
/// name and a key made by `EncodingKey::from_secret`.
///
/// Trusted: the outcome depends on the four arguments alone, and is the
/// value that `signed` names; the call succeeds exactly for the three
/// shared-secret algorithms; the token it returns decodes, under the same key
/// and algorithm, to the subject and expiry that went in; and decoding that
/// token under any other algorithm name fails, because the header names the
/// algorithm.
#[verifier::external_body]
fn encode(algorithm: &str, key: &str, subject: &str, expiry: u64) -> (result: Result<
    String,
    jsonwebtoken::errors::Error,
>)
    ensures
        written(result) == signed(algorithm@, key@, subject@, expiry),
        result is Ok <==> is_hmac(algorithm@),
        result matches Ok(token) ==> decoded(token@, key@, algorithm@) == Some(
            (Some(subject@), Some(expiry)),
        ),
        result matches Ok(token) ==> only_under(token@, algorithm@),
{
    let header = jsonwebtoken::Header::new(jsonwebtoken::Algorithm::from_str(algorithm)?);
    let mut claims = serde_json::Map::new();
    claims.insert("sub".to_owned(), serde_json::Value::from(subject));
    claims.insert("exp".to_owned(), serde_json::Value::from(expiry));
    jsonwebtoken::encode(&header, &claims, &jsonwebtoken::EncodingKey::from_secret(key.as_bytes()))
}

/// Checks a token with `jsonwebtoken::decode`, against a key made by
/// `DecodingKey::from_secret` and a `Validation` for the named algorithm
/// with the check of the expiry switched off, and hands out the members
/// `sub` (as text) and `exp` (as an unsigned integer) of what it decoded.
///
/// Trusted: with the expiry check off the outcome depends on the three
/// arguments alone; it is the value that `decoded` names.
#[verifier::external_body]
fn decode(token: &str, key: &str, algorithm: &str) -> (result: Result<
    (Option<String>, Option<u64>),
    jsonwebtoken::errors::Error,
>)
    ensures
        read_out(result) == decoded(token@, key@, algorithm@),
{
    let mut validation = jsonwebtoken::Validation::new(jsonwebtoken::Algorithm::from_str(algorithm)?);
    validation.validate_exp = false;
    let key = jsonwebtoken::DecodingKey::from_secret(key.as_bytes());
    let claims = jsonwebtoken::decode::<serde_json::Value>(token, &key, &validation)?.claims;
    let sub = claims.get("sub").and_then(|v| v.as_str()).map(|s| s.to_owned());
    let exp = claims.get("exp").and_then(|v| v.as_u64());
    Ok((sub, exp))
}

impl Claim {
    /// The claim for `user`, issued at `now` for `ttl` seconds; `None` where
    /// `now + ttl` is not a representable time.
    pub fn issue(user: String, now: u64, ttl: u64) -> (claim: Option<Claim>)
        ensures
            claim is Some <==> now + ttl <= u64::MAX,
            claim matches Some(c) ==> c.sub@ == user@ && c.exp == now + ttl,
    {
        match now.checked_add(ttl) {
            Some(exp) => Some(Claim { sub: user, exp }),
            None => None,
        }
    }
}

/// What the decoded members of a token are worth at `now`: the subject, if
/// subject and expiry are both there and `now` is before the expiry; else
/// `InvalidToken`.
pub fn accept(sub: Option<String>, exp: Option<u64>, now: u64) -> (result: Result<String, ElyError>)
    ensures
        same(result, accepted(members(sub, exp), now)),
{
    match (sub, exp) {
        (Some(subject), Some(expiry)) => {
            if now < expiry {
                Ok(subject)
            } else {
                Err(ElyError::InvalidToken)
            }
        },
        _ => Err(ElyError::InvalidToken),
    }
}

/// Issues a credential for `user` at the time `now`.
///
/// `verified` is the answer of the identity store to the check of the user's
/// secret. The credential expires `config.jwt_expiry_secs` seconds after
/// `now`.
pub fn create_token_at(
    config: &AppConfig,
    user: String,
    verified: Result<(), ElyError>,
    now: u64,
) -> (result: Result<String, ElyError>)
    ensures
        issues(*config, user@, verified, now, result),
{
    match verified {
        Err(ElyError::UserNotFound) => { return Err(ElyError::Unauthorized); },
        Err(e) => { return Err(e); },
        Ok(_) => {},
    }
    let claim = match Claim::issue(user, now, config.jwt_expiry_secs) {
        Some(claim) => claim,
        None => { return Err(ElyError::InvalidToken); },
    };
    match encode(config.jwt_algo.as_str(), config.jwt_key.as_str(), claim.sub.as_str(), claim.exp) {
        Ok(token) => Ok(token),
        Err(e) => Err(ElyError::from(e)),
    }
}

/// Issues a credential for `user` at the present time (see
/// [`create_token_at`]).
pub fn create_token(config: &AppConfig, user: String, verified: Result<(), ElyError>) -> (result:
    Result<String, ElyError>)
    ensures
        exists|now: u64| issues(*config, user@, verified, now, result),
{
    let now = current_timestamp();
    let result = create_token_at(config, user, verified, now);
    assert(issues(*config, user@, verified, now, result));
    result
}

/// Validates a credential at the time `now`: the subject it was issued for,
/// or `InvalidToken` where the codec refuses it under the configured key and
/// algorithm, where it lacks a subject or an expiry, or where `now` is not
/// before its expiry.
pub fn verify_token_at(config: &AppConfig, token: &str, now: u64) -> (result: Result<
    String,
    ElyError,
>)
    ensures
        same(result, validate(*config, token@, now)),
        credential(*config, token@) matches Some(claim) && now >= claim.1 ==> result == Err::<
            String,
            ElyError,
        >(ElyError::InvalidToken),
{
    match decode(token, config.jwt_key.as_str(), config.jwt_algo.as_str()) {
        Ok((sub, exp)) => accept(sub, exp, now),
        Err(e) => Err(ElyError::from(e)),
    }
}

/// Validates a credential at the present time (see [`verify_token_at`]).
pub fn verify_token(config: &AppConfig, token: &str) -> (result: Result<String, ElyError>)
    ensures
        exists|now: u64| same(result, validate(*config, token@, now)),
{
    let now = current_timestamp();
    let result = verify_token_at(config, token, now);
    assert(same(result, validate(*config, token@, now)));
    result
}

impl Metadata {
    /// The entries, in order.
    pub closed spec fn view(&self) -> Seq<(String, MetadataValue)> {
        self.entries@
    }

    /// Metadata without entries.
    pub fn new() -> (metadata: Metadata)
        ensures
            metadata@.len() == 0,
    {
        Metadata { entries: Vec::new() }
    }

    /// Adds an entry behind those that are there.
    pub fn append(&mut self, key: String, value: MetadataValue)
        ensures
            final(self)@ == old(self)@.push((key, value)),
    {
        self.entries.push((key, value));
    }

    /// The first value under `key`.
    pub fn get(&self, key: &str) -> (value: Option<&MetadataValue>)
        ensures
            match value {
                Some(v) => first_named(self@, key@) == Some(*v),
                None => first_named(self@, key@) is None,
            },
    {
        find(&self.entries, key)
    }
}

/// The guard at the time `now`: reads the credential of a call out of its
/// metadata and validates it.
pub fn auth_at(config: &AppConfig, metadata: &Metadata, now: u64) -> (result: Result<
    String,
    ElyError,
>)
    ensures
        same(result, authenticate(*config, metadata@, now)),
{
    match metadata.get("token") {
        Some(MetadataValue::Text(token)) => verify_token_at(config, token.as_str(), now),
        _ => Err(ElyError::Unauthorized),
    }
}

/// The guard at the present time (see [`auth_at`]).
pub fn auth(config: &AppConfig, metadata: &Metadata) -> (result: Result<String, ElyError>)
    ensures
        exists|now: u64| same(result, authenticate(*config, metadata@, now)),
{
    let now = current_timestamp();
    let result = auth_at(config, metadata, now);
    assert(same(result, authenticate(*config, metadata@, now)));
    result
}

/// A credential that has just been issued validates, at the time of issue, to
/// the identity it was issued for, and its expiry is the time of issue plus
/// the configured time to live.
///
/// A time to live of zero is left out: such a credential is expired the
/// moment it is issued.
pub proof fn lemma_issue_then_validate(
    config: AppConfig,
    user: Seq<char>,
    verified: Result<(), ElyError>,
    now: u64,
    token: String,
)
    requires
        issues(config, user, verified, now, Ok(token)),
        config.jwt_expiry_secs > 0,
    ensures
        verified is Ok,
        validate(config, token@, now) == Ok::<Seq<char>, ElyError>(user),
        credential(config, token@) matches Some(claim) && claim.1 == now + config.jwt_expiry_secs,
{
}

/// A credential is valid at every moment before its expiry, and at none from
/// its expiry on: then validation fails with `InvalidToken`, however well the
/// credential is signed.
pub proof fn lemma_valid_until_expiry(
    config: AppConfig,
    token: Seq<char>,
    subject: Seq<char>,
    expiry: u64,
    now: u64,
)
    requires
        credential(config, token) == Some((subject, expiry)),
    ensures
        now < expiry ==> validate(config, token, now) == Ok::<Seq<char>, ElyError>(subject),
        now >= expiry ==> validate(config, token, now) == Err::<Seq<char>, ElyError>(
            ElyError::InvalidToken,
        ),
{
}

/// A credential issued under one algorithm fails validation, with
/// `InvalidToken`, under a configuration that names another algorithm,
/// whatever its key and at whatever time.
pub proof fn lemma_other_algorithm_rejected(
    config: AppConfig,
    user: Seq<char>,
    verified: Result<(), ElyError>,
    issued_at: u64,
    token: String,
    other: AppConfig,
    now: u64,
)
    requires
        issues(config, user, verified, issued_at, Ok(token)),
        other.jwt_algo@ != config.jwt_algo@,
    ensures
        validate(other, token@, now) == Err::<Seq<char>, ElyError>(ElyError::InvalidToken),
{
    assert(decoded(token@, other.jwt_key@, other.jwt_algo@) is None);
}

} // verus!
