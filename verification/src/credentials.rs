//! The credential snapshot and the shared cell that holds it.
//!
//! Every outbound request carries the current access token, and a background
//! refresher replaces the token pair while uploads are in flight. The two
//! sides share only [`TokenCell`]: a cell that is read and replaced in one
//! atomic step, always holding one whole [`Credentials`] snapshot. A reader
//! therefore sees either the pair from before a refresh or the pair after it,
//! never the access token of one beside the refresh token of the other.

use std::sync::Arc;

use vstd::prelude::*;

use crate::error::Error;

verus! {

/// Seconds before expiry at which the background loop refreshes the token.
pub const REFRESH_MARGIN: u64 = 120;

/// Seconds between two ticks of the background refresh loop.
pub const REFRESH_INTERVAL: u64 = 60;

/// One complete credential snapshot. It is only ever created and replaced as
/// a whole.
#[derive(Debug, Clone)]
pub struct Credentials {
    pub access_token: String,
    pub refresh_token: String,
    pub expires_at: u64,
}

/// What a successful token exchange grants: a fresh pair and its lifetime in
/// seconds.
#[derive(Debug, Clone)]
pub struct TokenGrant {
    pub access_token: String,
    pub refresh_token: String,
    pub expires_in: u64,
}

/// The absolute time at which a token granted at `now` for `expires_in`
/// seconds expires.
pub fn calu_expires_at(now: u64, expires_in: u64) -> (r: u64)
    requires
        now + expires_in <= u64::MAX,
    ensures
        r == now + expires_in,
{
    now + expires_in
}

/// The snapshot a grant received at time `now` installs.
pub fn credentials_from_grant(grant: TokenGrant, now: u64) -> (r: Credentials)
    requires
        now + grant.expires_in <= u64::MAX,
    ensures
        r.access_token == grant.access_token,
        r.refresh_token == grant.refresh_token,
        r.expires_at == now + grant.expires_in,
{
    let expires_at = calu_expires_at(now, grant.expires_in);
    Credentials { access_token: grant.access_token, refresh_token: grant.refresh_token, expires_at }
}

impl Credentials {
    /// Whether the snapshot is due for refresh at time `now`: its remaining
    /// life has fallen below the safety margin.
    pub fn needs_refresh(&self, now: u64) -> (r: bool)
        ensures
            r == (now + REFRESH_MARGIN > self.expires_at),
    {
        if now > u64::MAX - REFRESH_MARGIN {
            true
        } else {
            now + REFRESH_MARGIN > self.expires_at
        }
    }
}

/// The snapshot after one refresh attempt: a grant replaces the snapshot as a
/// whole; a failure leaves it exactly as it was, so uploads keep using the
/// old token until it truly expires.
pub fn apply_refresh(current: &Credentials, outcome: &Result<TokenGrant, String>, now: u64) -> (r:
    Credentials)
    requires
        match outcome {
            Ok(grant) => now + grant.expires_in <= u64::MAX,
            Err(_) => true,
        },
    ensures
        match outcome {
            Ok(grant) => {
                &&& r.access_token == grant.access_token
                &&& r.refresh_token == grant.refresh_token
                &&& r.expires_at == now + grant.expires_in
            },
            Err(_) => r == *current,
        },
{
    match outcome {
        Ok(grant) => credentials_from_grant(
            TokenGrant {
                access_token: grant.access_token.clone(),
                refresh_token: grant.refresh_token.clone(),
                expires_in: grant.expires_in,
            },
            now,
        ),
        Err(_) => Credentials {
            access_token: current.access_token.clone(),
            refresh_token: current.refresh_token.clone(),
            expires_at: current.expires_at,
        },
    }
}

/// Any snapshot that is one of the two whole snapshots around a refresh
/// carries a matched token pair: both tokens of the old snapshot, or both of
/// the new one — never the access token of one beside the refresh token of
/// the other. The cell below only ever stores whole snapshots, so this covers
/// every concurrent read.
pub proof fn lemma_snapshot_never_torn(
    before: Credentials,
    after: Credentials,
    observed: Credentials,
)
    requires
        observed == before || observed == after,
    ensures
        (observed.access_token == before.access_token && observed.refresh_token
            == before.refresh_token) || (observed.access_token == after.access_token
            && observed.refresh_token == after.refresh_token),
{
}

/// A shared cell holding the current credential snapshot.
///
/// Uploaders read it without blocking; the background refresher replaces it.
/// Both go through an atomic whole-value swap, so no reader ever observes a
/// partially replaced snapshot. The cell's own type cannot be declared to
/// Verus — its strategy parameter is a type private to its crate — so the
/// struct is held opaque as a whole.
#[verifier::external_body]
pub struct TokenCell {
    cell: arc_swap::ArcSwap<Credentials>,
}

impl TokenCell {
    /// Relies on arc_swap::ArcSwap::from_pointee: the new cell holds
    /// `initial`.
    #[verifier::external_body]
    pub fn new(initial: Credentials) -> (r: TokenCell) {
        TokenCell { cell: arc_swap::ArcSwap::from_pointee(initial) }
    }

    /// Relies on arc_swap::ArcSwapAny::load_full: hands back a clone of the
    /// snapshot most recently stored, read in one atomic step. Which store it
    /// observes depends on the concurrent refresher, so nothing is promised
    /// of the value; decisions on it are made by functions that take the
    /// snapshot as an argument and hold for every snapshot.
    #[verifier::external_body]
    pub fn load(&self) -> (r: Credentials) {
        self.cell.load_full().as_ref().clone()
    }

    /// Relies on arc_swap::ArcSwapAny::store: replaces the whole snapshot in
    /// one atomic step.
    #[verifier::external_body]
    pub fn store(&self, snapshot: Credentials) {
        self.cell.store(Arc::new(snapshot));
    }
}

/// Installs the outcome of one refresh exchange: a grant becomes the new
/// snapshot, stored whole; a failure stores nothing and is surfaced as a
/// `RefreshToken` error, leaving the previous snapshot serving.
pub fn install_refresh_outcome(cell: &TokenCell, outcome: Result<TokenGrant, String>, now: u64) -> (
    r: Result<(), Error>)
    requires
        match outcome {
            Ok(grant) => now + grant.expires_in <= u64::MAX,
            Err(_) => true,
        },
    ensures
        match r {
            Ok(_) => outcome is Ok,
            Err(e) => {
                &&& outcome matches Err(m)
                &&& e matches Error::RefreshToken { message } && message == m
            },
        },
{
    match outcome {
        Ok(grant) => {
            cell.store(credentials_from_grant(grant, now));
            Ok(())
        },
        Err(m) => Err(Error::RefreshToken { message: m }),
    }
}

/// Accepts the state value echoed back by the interactive authorization
/// flow only if it is exactly the one that was sent out with the request.
pub fn check_csrf_state(expected: &String, returned: &String) -> (r: Result<(), Error>)
    ensures
        match r {
            Ok(_) => expected@ == returned@,
            Err(e) => expected@ != returned@ && e is CsrfToken,
        },
{
    if *expected == *returned {
        Ok(())
    } else {
        Err(Error::CsrfToken)
    }
}

/// Relies on chrono::Utc::now: the current wall-clock time in whole seconds
/// since the epoch. The value depends on the clock, so nothing is promised of
/// it.
#[verifier::external_body]
pub fn now_timestamp() -> (r: u64) {
    chrono::Utc::now().timestamp() as u64
}

} // verus!
