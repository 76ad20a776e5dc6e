//! The store of one-time email verification challenges.
//!
//! For each email address the store holds at most one challenge: the code
//! that was sent there and the time it was issued at. A challenge is made in
//! two steps, with the delivery of the code between them: `start_verify`
//! draws the code, the caller has it delivered, and `install` puts it into
//! the store if, and only if, it was delivered. `end_verify` redeems a
//! challenge and removes it whether or not the code was right. `cleanup`
//! evicts the challenges that are older than the configured expiry.

use crate::clock::current_timestamp;
use crate::error::{same, ElyError};
use crate::id::{digits, drawn_from, generate_custom, numbers};
use crate::templates::VerifyEmailTemplate;
use std::str::FromStr;
use vstd::prelude::*;

verus! {

/// The concurrent map the challenges are kept in.
#[verifier::external_type_specification]
#[verifier::external_body]
#[verifier::reject_recursive_types(K)]
#[verifier::reject_recursive_types(V)]
#[verifier::reject_recursive_types(H)]
pub struct ExChallengeMap<K, V, H: core::hash::BuildHasher>(scc::HashMap<K, V, H>);

/// The hasher state the challenge map is built with.
#[verifier::external_type_specification]
#[verifier::external_body]
pub struct ExRandomState(ahash::RandomState);

/// One outstanding challenge: the code that was sent, and the second (since
/// the epoch) at which it was issued.
#[derive(Debug, Clone)]
pub struct EmailVerifyEntry {
    pub token: String,
    pub timestamp: u64,
}

/// A challenge that has been drawn and is yet to be delivered and installed.
#[derive(Debug)]
pub struct Challenge {
    email: String,
    token: String,
}

/// What became of the delivery of a code.
#[derive(Debug, Clone, Copy, PartialEq, Eq, Structural)]
pub enum Delivery {
    /// The code was handed to the mail transport.
    Sent,
    /// The mail could not be rendered or sent.
    Failed,
}

/// The store of challenges.
#[derive(Debug)]
pub struct EmailVerifier {
    tokens: scc::HashMap<String, EmailVerifyEntry, ahash::RandomState>,
    token_len: usize,
    expiry_secs: u64,
}

/// The model of the store: for each email address with an outstanding
/// challenge, the code that was sent and the time it was issued at.
pub type Challenges = Map<Seq<char>, (Seq<char>, u64)>;

/// The store with no challenge outstanding.
pub open spec fn no_challenges() -> Challenges {
    Map::empty()
}

/// The store after a challenge for `email` has been put in: it replaces any
/// challenge that was there for the address, and touches no other.
pub open spec fn installed(store: Challenges, email: Seq<char>, code: Seq<char>, now: u64) -> Challenges {
    store.insert(email, (code, now))
}

/// The store after a redemption for `email` has been tried, with whatever
/// code: the challenge is gone.
pub open spec fn redeemed(store: Challenges, email: Seq<char>) -> Challenges {
    store.remove(email)
}

/// What a redemption returns: the email, where the store holds a challenge
/// for it with this very code; `EmailNotVerified` otherwise.
pub open spec fn redemption(store: Challenges, email: Seq<char>, code: Seq<char>) -> Result<
    Seq<char>,
    ElyError,
> {
    if store.dom().contains(email) && store[email].0 == code {
        Ok(email)
    } else {
        Err(ElyError::EmailNotVerified)
    }
}

/// Whether a challenge issued at `issued_at` has reached its expiry at `now`.
pub open spec fn stale(issued_at: u64, now: u64, expiry: u64) -> bool {
    now - issued_at >= expiry
}

/// The store after a sweep at `now`: the challenges that have not reached
/// their expiry, unchanged.
pub open spec fn swept(store: Challenges, now: u64, expiry: u64) -> Challenges {
    Map::new(
        |email: Seq<char>| store.dom().contains(email) && !stale(store[email].1, now, expiry),
        |email: Seq<char>| store[email],
    )
}

/// What taking the challenge for `email` out of a map does: it hands out the
/// challenge that was there and leaves the map without it, or finds none and
/// leaves the map as it was.
pub open spec fn took(
    before: Challenges,
    email: Seq<char>,
    found: Option<EmailVerifyEntry>,
    after: Challenges,
) -> bool {
    match found {
        Some(entry) => {
            &&& before.dom().contains(email)
            &&& before[email] == (entry.token@, entry.timestamp)
            &&& after == before.remove(email)
        },
        None => !before.dom().contains(email) && after == before,
    }
}

/// What the map holds: for each email address, the code and its issue time.
pub uninterp spec fn entries(map: scc::HashMap<String, EmailVerifyEntry, ahash::RandomState>) -> Map<Seq<char>, (Seq<char>, u64)>;

/// Whether the mail library accepts `email` as an address.
pub uninterp spec fn valid_address(email: Seq<char>) -> bool;

/// `scc::HashMap::default`. Trusted: the new map is empty.
#[verifier::external_body]
fn empty_map() -> (created: scc::HashMap<String, EmailVerifyEntry, ahash::RandomState>)
    ensures
        entries(created) == no_challenges(),
{
    scc::HashMap::default()
}

/// `scc::HashMap::entry` followed by `Entry::insert_entry`. Trusted: the
/// value is stored under the key, in place of what was there under it, and
/// no other key is touched.
#[verifier::external_body]
fn put(
    map: &mut scc::HashMap<String, EmailVerifyEntry, ahash::RandomState>,
    email: String,
    entry: EmailVerifyEntry,
)
    ensures
        entries(*final(map)) == entries(*old(map)).insert(email@, (entry.token@, entry.timestamp)),
{
    map.entry(email).insert_entry(entry);
}

/// `scc::HashMap::get` followed by `OccupiedEntry::remove_entry`. Trusted:
/// where the key is present its value is handed out and the key removed,
/// where it is absent nothing is handed out; no other key is touched.
#[verifier::external_body]
fn take(map: &mut scc::HashMap<String, EmailVerifyEntry, ahash::RandomState>, email: &str) -> (found:
    Option<EmailVerifyEntry>)
    ensures
        took(entries(*old(map)), email@, found, entries(*final(map))),
{
    map.get(email).map(|occupied| occupied.remove_entry().1)
}

/// `scc::HashMap::retain` with the predicate [`is_live`]. Trusted: exactly
/// the entries for which the predicate holds stay, unchanged.
#[verifier::external_body]
fn drop_stale(
    map: &mut scc::HashMap<String, EmailVerifyEntry, ahash::RandomState>,
    now: u64,
    expiry: u64,
)
    ensures
        entries(*final(map)) == swept(entries(*old(map)), now, expiry),
{
    map.retain(|_, entry| is_live(entry, now, expiry))
}

/// `lettre::Address::from_str`, asked only whether it succeeds. Trusted: the
/// answer depends on the text alone.
#[verifier::external_body]
fn address_is_valid(email: &str) -> (valid: bool)
    ensures
        valid == valid_address(email@),
{
    lettre::Address::from_str(email).is_ok()
}

/// Whether a challenge has not reached its expiry at `now`.
pub fn is_live(entry: &EmailVerifyEntry, now: u64, expiry: u64) -> (live: bool)
    ensures
        live == !stale(entry.timestamp, now, expiry),
{
    now < entry.timestamp || now - entry.timestamp < expiry
}

impl Challenge {
    /// The address the code is to be delivered to.
    pub closed spec fn address(&self) -> Seq<char> {
        self.email@
    }

    /// The code.
    pub closed spec fn code(&self) -> Seq<char> {
        self.token@
    }

    /// The address the code is to be delivered to.
    pub fn email(&self) -> (email: &str)
        ensures
            email@ == self.address(),
    {
        self.email.as_str()
    }

    /// The code.
    pub fn token(&self) -> (token: &str)
        ensures
            token@ == self.code(),
    {
        self.token.as_str()
    }

    /// What the rendering of the mail is given: the code.
    pub fn template(&self) -> (template: VerifyEmailTemplate<'_>)
        ensures
            template.token@ == self.code(),
    {
        VerifyEmailTemplate { token: self.token.as_str() }
    }
}

impl EmailVerifier {
    /// The challenges that are outstanding.
    pub closed spec fn view(&self) -> Challenges {
        entries(self.tokens)
    }

    /// How many characters a code has.
    pub closed spec fn token_len(&self) -> usize {
        self.token_len
    }

    /// After how many seconds a challenge is stale.
    pub closed spec fn expiry_secs(&self) -> u64 {
        self.expiry_secs
    }

    /// Whether `after` is the same store as `self` but for its challenges.
    pub open spec fn configured_as(&self, after: &EmailVerifier) -> bool {
        after.token_len() == self.token_len() && after.expiry_secs() == self.expiry_secs()
    }

    /// A store without challenges, for codes of `token_len` digits that can be
    /// redeemed for `expiry_secs` seconds.
    pub fn new(token_len: usize, expiry_secs: u64) -> (verifier: EmailVerifier)
        ensures
            verifier@ == no_challenges(),
            verifier.token_len() == token_len,
            verifier.expiry_secs() == expiry_secs,
    {
        EmailVerifier { tokens: empty_map(), token_len, expiry_secs }
    }

    /// Draws a code: `token_len` decimal digits, each at random.
    pub fn generate_token(&self) -> (token: String)
        ensures
            drawn_from(token@, self.token_len() as nat, numbers()),
    {
        let alphabet = digits();
        generate_custom(self.token_len, &alphabet)
    }

    /// Begins a verification of `email`: checks the address and draws the code
    /// that is to be delivered there. The store is not touched: the challenge
    /// exists only once [`install`](Self::install) has been told of its
    /// delivery.
    ///
    /// Fails with `InvalidToken` exactly where the mail library refuses the
    /// address.
    pub fn start_verify(&self, email: String) -> (result: Result<Challenge, ElyError>)
        ensures
            result is Ok <==> valid_address(email@),
            result matches Ok(challenge) ==> challenge.address() == email@ && drawn_from(
                challenge.code(),
                self.token_len() as nat,
                numbers(),
            ),
            result matches Err(e) ==> e == ElyError::InvalidToken,
    {
        if !address_is_valid(email.as_str()) {
            return Err(ElyError::InvalidToken);
        }
        let token = self.generate_token();
        Ok(Challenge { email, token })
    }

    /// Ends the making of a challenge, at the time `now`. Where the code was
    /// sent, the challenge is installed for its address, in place of any that
    /// was there. Where the delivery failed, the store stays as it was and the
    /// failure is reported as `Database`, the error of a failing collaborator.
    pub fn install_at(&mut self, challenge: Challenge, delivery: Delivery, now: u64) -> (result:
        Result<(), ElyError>)
        ensures
            old(self).configured_as(final(self)),
            delivery == Delivery::Sent ==> result is Ok && final(self)@ == installed(
                old(self)@,
                challenge.address(),
                challenge.code(),
                now,
            ),
            delivery == Delivery::Failed ==> result == Err::<(), ElyError>(ElyError::Database)
                && final(self)@ == old(self)@,
    {
        match delivery {
            Delivery::Sent => {
                put(
                    &mut self.tokens,
                    challenge.email,
                    EmailVerifyEntry { token: challenge.token, timestamp: now },
                );
                Ok(())
            },
            Delivery::Failed => Err(ElyError::Database),
        }
    }

    /// Ends the making of a challenge at the present time (see
    /// [`install_at`](Self::install_at)).
    pub fn install(&mut self, challenge: Challenge, delivery: Delivery) -> (result: Result<
        (),
        ElyError,
    >)
        ensures
            old(self).configured_as(final(self)),
            delivery == Delivery::Sent ==> result is Ok && exists|now: u64|
                final(self)@ == installed(old(self)@, challenge.address(), challenge.code(), now),
            delivery == Delivery::Failed ==> result == Err::<(), ElyError>(ElyError::Database)
                && final(self)@ == old(self)@,
    {
        let now = current_timestamp();
        let result = self.install_at(challenge, delivery, now);
        assert(delivery == Delivery::Sent ==> self@ == installed(
            old(self)@,
            challenge.address(),
            challenge.code(),
            now,
        ));
        result
    }

    /// Redeems the challenge for `email`: returns the email where a challenge
    /// is outstanding for it and `token` is its code, `EmailNotVerified`
    /// otherwise. Either way the challenge is gone afterwards: a wrong code
    /// uses it up.
    pub fn end_verify(&mut self, email: String, token: String) -> (result: Result<String, ElyError>)
        ensures
            old(self).configured_as(final(self)),
            final(self)@ == redeemed(old(self)@, email@),
            same(result, redemption(old(self)@, email@, token@)),
    {
        match take(&mut self.tokens, email.as_str()) {
            Some(entry) => {
                assert(self@ =~= redeemed(old(self)@, email@));
                if entry.token == token {
                    Ok(email)
                } else {
                    Err(ElyError::EmailNotVerified)
                }
            },
            None => {
                assert(self@ =~= redeemed(old(self)@, email@));
                Err(ElyError::EmailNotVerified)
            },
        }
    }

    /// Sweeps the store at the time `now`: every challenge that has reached
    /// its expiry is evicted, the others stay as they are.
    pub fn cleanup_at(&mut self, now: u64)
        ensures
            old(self).configured_as(final(self)),
            final(self)@ == swept(old(self)@, now, old(self).expiry_secs()),
    {
        drop_stale(&mut self.tokens, now, self.expiry_secs);
    }

    /// Sweeps the store at the present time (see
    /// [`cleanup_at`](Self::cleanup_at)).
    pub fn cleanup(&mut self)
        ensures
            old(self).configured_as(final(self)),
            exists|now: u64| final(self)@ == swept(old(self)@, now, old(self).expiry_secs()),
    {
        let now = current_timestamp();
        self.cleanup_at(now);
        assert(self@ == swept(old(self)@, now, old(self).expiry_secs()));
    }
}

/// A challenge that was just installed can be redeemed with its code exactly
/// once: the first redemption returns the email, and a second one, on the
/// store that the first leaves behind, fails with `EmailNotVerified`.
pub proof fn lemma_redeem_once(store: Challenges, email: Seq<char>, code: Seq<char>, now: u64)
    ensures
        redemption(installed(store, email, code, now), email, code) == Ok::<Seq<char>, ElyError>(
            email,
        ),
        redemption(redeemed(installed(store, email, code, now), email), email, code) == Err::<
            Seq<char>,
            ElyError,
        >(ElyError::EmailNotVerified),
{
}

/// A redemption with a wrong code fails with `EmailNotVerified` and uses the
/// challenge up: afterwards the right code fails too, until a new challenge
/// is installed.
pub proof fn lemma_wrong_code_consumes(
    store: Challenges,
    email: Seq<char>,
    code: Seq<char>,
    wrong: Seq<char>,
    now: u64,
)
    requires
        wrong != code,
    ensures
        redemption(installed(store, email, code, now), email, wrong) == Err::<Seq<char>, ElyError>(
            ElyError::EmailNotVerified,
        ),
        redemption(redeemed(installed(store, email, code, now), email), email, code) == Err::<
            Seq<char>,
            ElyError,
        >(ElyError::EmailNotVerified),
{
}

/// Once a redemption for an email has been tried, no code redeems it, and
/// the store holds nothing for it.
pub proof fn lemma_redeemed_is_gone(store: Challenges, email: Seq<char>, code: Seq<char>)
    ensures
        !redeemed(store, email).dom().contains(email),
        redemption(redeemed(store, email), email, code) == Err::<Seq<char>, ElyError>(
            ElyError::EmailNotVerified,
        ),
{
}

/// Challenges for two distinct emails do not touch each other: in whichever
/// order they are installed the store is the same, each can be redeemed with
/// its own code, and redeeming the one leaves the other redeemable.
pub proof fn lemma_distinct_emails_independent(
    store: Challenges,
    first: Seq<char>,
    first_code: Seq<char>,
    first_time: u64,
    second: Seq<char>,
    second_code: Seq<char>,
    second_time: u64,
)
    requires
        first != second,
    ensures
        installed(installed(store, first, first_code, first_time), second, second_code, second_time)
            == installed(
            installed(store, second, second_code, second_time),
            first,
            first_code,
            first_time,
        ),
        redemption(
            installed(
                installed(store, first, first_code, first_time),
                second,
                second_code,
                second_time,
            ),
            first,
            first_code,
        ) == Ok::<Seq<char>, ElyError>(first),
        redemption(
            installed(
                installed(store, first, first_code, first_time),
                second,
                second_code,
                second_time,
            ),
            second,
            second_code,
        ) == Ok::<Seq<char>, ElyError>(second),
        redemption(
            redeemed(
                installed(
                    installed(store, first, first_code, first_time),
                    second,
                    second_code,
                    second_time,
                ),
                first,
            ),
            second,
            second_code,
        ) == Ok::<Seq<char>, ElyError>(second),
{
    assert(installed(
        installed(store, first, first_code, first_time),
        second,
        second_code,
        second_time,
    ) =~= installed(
        installed(store, second, second_code, second_time),
        first,
        first_code,
        first_time,
    ));
}

/// Installing or redeeming a challenge for one email leaves the challenge of
/// every other email as it was.
pub proof fn lemma_other_emails_untouched(
    store: Challenges,
    email: Seq<char>,
    code: Seq<char>,
    now: u64,
    other: Seq<char>,
)
    requires
        other != email,
    ensures
        installed(store, email, code, now).dom().contains(other) == store.dom().contains(other),
        redeemed(store, email).dom().contains(other) == store.dom().contains(other),
        store.dom().contains(other) ==> installed(store, email, code, now)[other] == store[other]
            && redeemed(store, email)[other] == store[other],
{
}

/// A challenge that is not redeemed is evicted by the first sweep at or after
/// its expiry, and from then on even its right code fails with
/// `EmailNotVerified`.
pub proof fn lemma_sweep_evicts_expired(
    store: Challenges,
    email: Seq<char>,
    code: Seq<char>,
    issued_at: u64,
    now: u64,
    expiry: u64,
)
    requires
        now >= issued_at + expiry,
    ensures
        !swept(installed(store, email, code, issued_at), now, expiry).dom().contains(email),
        redemption(swept(installed(store, email, code, issued_at), now, expiry), email, code)
            == Err::<Seq<char>, ElyError>(ElyError::EmailNotVerified),
{
}

/// A sweep before the expiry of a challenge leaves it in the store, with its
/// code and its issue time.
pub proof fn lemma_sweep_keeps_live(
    store: Challenges,
    email: Seq<char>,
    code: Seq<char>,
    issued_at: u64,
    now: u64,
    expiry: u64,
)
    requires
        now < issued_at + expiry,
    ensures
        swept(installed(store, email, code, issued_at), now, expiry).dom().contains(email),
        swept(installed(store, email, code, issued_at), now, expiry)[email] == (code, issued_at),
        redemption(swept(installed(store, email, code, issued_at), now, expiry), email, code)
            == Ok::<Seq<char>, ElyError>(email),
{
}

/// After a sweep the store holds only challenges of the store before it, and
/// none of them has reached its expiry: no challenge outlives its expiry by
/// more than the time to the next sweep.
pub proof fn lemma_sweep_bounds_lifetime(store: Challenges, now: u64, expiry: u64)
    ensures
        forall|email: Seq<char>| #[trigger]
            swept(store, now, expiry).dom().contains(email) ==> store.dom().contains(email)
                && swept(store, now, expiry)[email] == store[email] && now - store[email].1
                < expiry,
{
}

} // verus!
