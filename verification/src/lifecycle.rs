//! Keeping a stored token usable: what to do before an authenticated call, and
//! what a stored token looks like to the user.

use vstd::prelude::*;
use crate::cli::Platform;
use crate::clock::{Span, Timestamp};
use crate::config::{TokenInfo, TokenInfoView, TokenStorage, TokenStorageView};
use crate::error::{AuthError, AuthErrorView};
use crate::exchange::{
    read_outcome, refresh_params, refreshed_token, Grant, HttpOutcome, HttpOutcomeView,
};
use crate::provider::{ProviderConfig, ProviderConfigView};
use crate::text::pairs_view;

verus! {

/// What has to happen before an authenticated call can be made.
#[derive(Debug, PartialEq, Eq)]
pub enum TokenPlan {
    /// Nothing is stored for the platform: run an authorization attempt.
    Authorize,
    /// The stored token is good: make the call with it.
    Use { access_token: String },
    /// The stored token is expired or about to be: post `params` as a form to
    /// `token_url` and hand the outcome to `complete_refresh`.
    Refresh { token_url: String, params: Vec<(String, String)> },
    /// The call cannot be made; the user has to authorize again.
    Fail(AuthError),
}

/// The mathematical value of a `TokenPlan`.
pub enum TokenPlanView {
    Authorize,
    Use { access_token: Seq<char> },
    Refresh { token_url: Seq<char>, params: Seq<(Seq<char>, Seq<char>)> },
    Fail(AuthErrorView),
}

impl View for TokenPlan {
    type V = TokenPlanView;

    open spec fn view(&self) -> TokenPlanView {
        match self {
            TokenPlan::Authorize => TokenPlanView::Authorize,
            TokenPlan::Use { access_token } => TokenPlanView::Use { access_token: access_token@ },
            TokenPlan::Refresh { token_url, params } => TokenPlanView::Refresh {
                token_url: token_url@,
                params: pairs_view(params@),
            },
            TokenPlan::Fail(e) => TokenPlanView::Fail(e@),
        }
    }
}

impl TokenPlanView {
    /// Whether the plan sends anything over the network.
    pub open spec fn uses_network(self) -> bool {
        self is Refresh || self is Authorize
    }
}

/// The plan for a platform whose stored record is `entry`, at `now`.
pub open spec fn plan_for(entry: Option<TokenInfoView>, config: ProviderConfigView, now: Timestamp) -> TokenPlanView {
    match entry {
        None => TokenPlanView::Authorize,
        Some(token) => if !token.is_expired_at(now) {
            TokenPlanView::Use { access_token: token.access_token }
        } else {
            match token.refresh_token {
                Some(refresh_token) => TokenPlanView::Refresh {
                    token_url: config.token_url,
                    params: refresh_params(config, refresh_token),
                },
                None => TokenPlanView::Fail(AuthErrorView::NoRefreshToken),
            }
        },
    }
}

/// The storage and the result after a refresh for `config`'s platform ended
/// with `outcome` at `now`. Only a successful answer changes the storage: the
/// platform's record is superseded. Without a stored refresh token there is
/// nothing that the outcome could belong to.
pub open spec fn after_refresh(
    storage: TokenStorageView,
    config: ProviderConfigView,
    outcome: HttpOutcomeView,
    now: Timestamp,
) -> (TokenStorageView, Result<Seq<char>, AuthErrorView>) {
    match storage.entry(config.platform) {
        Some(TokenInfoView { refresh_token: Some(previous), .. }) => match read_outcome(
            outcome,
            Grant::RefreshToken,
        ) {
            Ok(response) => (
                storage.with_entry(config.platform, refreshed_token(previous, response, now)),
                Ok(response.access_token),
            ),
            Err(e) => (storage, Err(e)),
        },
        _ => (storage, Err(AuthErrorView::NoRefreshToken)),
    }
}

/// The value of an access token or the error in its place.
pub open spec fn access_result_view(r: Result<String, AuthError>) -> Result<
    Seq<char>,
    AuthErrorView,
> {
    match r {
        Ok(token) => Ok(token@),
        Err(e) => Err(e@),
    }
}

/// Decides what has to happen before an authenticated call to `config`'s
/// platform at `now`. The storage is only read.
pub fn ensure_valid_token(storage: &TokenStorage, config: &ProviderConfig, now: Timestamp) -> (plan:
    TokenPlan)
    ensures
        plan@ == plan_for(storage@.entry(config@.platform), config@, now),
{
    match storage.get_token(config.platform) {
        None => TokenPlan::Authorize,
        Some(token) => {
            if !token.is_expired_at(now) {
                TokenPlan::Use { access_token: token.access_token.clone() }
            } else {
                match &token.refresh_token {
                    Some(refresh_token) => TokenPlan::Refresh {
                        token_url: config.token_url.clone(),
                        params: config.refresh_params(refresh_token.as_str()),
                    },
                    None => TokenPlan::Fail(AuthError::NoRefreshToken),
                }
            }
        },
    }
}

/// The refresh token stored for `platform`, if there is one.
fn stored_refresh_token(storage: &TokenStorage, platform: Platform) -> (r: Option<String>)
    ensures
        match storage@.entry(platform) {
            Some(token) => crate::config::option_text(r) == token.refresh_token,
            None => r is None,
        },
{
    match storage.get_token(platform) {
        Some(token) => crate::config::clone_option_text(&token.refresh_token),
        None => None,
    }
}

/// Takes the outcome of a refresh, which ended at `now`. On success the
/// platform's record is superseded and the new access token returned; the
/// caller then saves the storage. On failure the storage stays as it was.
pub fn complete_refresh(
    storage: &mut TokenStorage,
    config: &ProviderConfig,
    outcome: HttpOutcome,
    now: Timestamp,
) -> (r: Result<String, AuthError>)
    ensures
        (final(storage)@, access_result_view(r)) == after_refresh(
            old(storage)@,
            config@,
            outcome@,
            now,
        ),
{
    match stored_refresh_token(storage, config.platform) {
        Some(previous) => match outcome.read(Grant::RefreshToken) {
            Ok(response) => {
                let access_token = response.access_token.clone();
                let token = response.into_refreshed_token(previous.as_str(), now);
                storage.set_tokens(config.platform, token);
                Ok(access_token)
            },
            Err(e) => Err(e),
        },
        None => Err(AuthError::NoRefreshToken),
    }
}

/// What the user is shown of one platform's authorization.
#[derive(Clone, Copy, Debug, PartialEq, Eq, Structural)]
pub struct ProviderStatus {
    /// Whether a record is stored for the platform.
    pub authorized: bool,
    /// The time left until the token expires, if its lifetime is known.
    pub expires_in: Option<Span>,
    /// Whether the token is expired or will be within five minutes.
    pub needs_refresh: bool,
    /// Whether the record holds a refresh token.
    pub can_refresh: bool,
}

/// The status of a platform whose stored record is `entry`, at `now`.
pub open spec fn status_of(entry: Option<TokenInfoView>, now: Timestamp) -> (
    bool,
    Option<int>,
    bool,
    bool,
) {
    match entry {
        Some(token) => (
            true,
            token.time_until_expiry_at(now),
            token.is_expired_at(now),
            token.refresh_token is Some,
        ),
        None => (false, None, false, false),
    }
}

impl ProviderStatus {
    /// The status as plain values: authorized, nanoseconds left, needs
    /// refresh, can refresh.
    pub open spec fn as_tuple(self) -> (bool, Option<int>, bool, bool) {
        (
            self.authorized,
            match self.expires_in {
                Some(span) => Some(span.nanos as int),
                None => None,
            },
            self.needs_refresh,
            self.can_refresh,
        )
    }
}

/// The status of `platform` at `now`. The storage is only read, and nothing
/// is sent anywhere.
pub fn status(storage: &TokenStorage, platform: Platform, now: Timestamp) -> (s: ProviderStatus)
    ensures
        s.as_tuple() == status_of(storage@.entry(platform), now),
{
    match storage.get_token(platform) {
        Some(token) => ProviderStatus {
            authorized: true,
            expires_in: token.time_until_expiry_at(now),
            needs_refresh: token.is_expired_at(now),
            can_refresh: token.refresh_token.is_some(),
        },
        None => ProviderStatus {
            authorized: false,
            expires_in: None,
            needs_refresh: false,
            can_refresh: false,
        },
    }
}

/// An expired record without a refresh token cannot be renewed: the plan is
/// to fail, and it sends nothing over the network.
pub proof fn lemma_no_refresh_token_fails(token: TokenInfoView, config: ProviderConfigView, now: Timestamp)
    requires
        token.refresh_token is None,
        token.is_expired_at(now),
    ensures
        plan_for(Some(token), config, now) == TokenPlanView::Fail(AuthErrorView::NoRefreshToken),
        !plan_for(Some(token), config, now).uses_network(),
{
}

/// A token that is good at some instant is used as it is at that instant and
/// at every earlier one: asking twice gives the same access token both times,
/// and neither answer sends anything over the network. A token without a
/// lifetime is good at every instant.
pub proof fn lemma_valid_token_is_reused(
    token: TokenInfoView,
    config: ProviderConfigView,
    first: Timestamp,
    second: Timestamp,
)
    requires
        first.as_nanos() <= second.as_nanos(),
        !token.is_expired_at(second),
    ensures
        plan_for(Some(token), config, first) == (TokenPlanView::Use {
            access_token: token.access_token,
        }),
        plan_for(Some(token), config, second) == plan_for(Some(token), config, first),
        !plan_for(Some(token), config, second).uses_network(),
        token.expires_in is None ==> forall|now: Timestamp|
            plan_for(Some(token), config, now) == plan_for(Some(token), config, first),
{
}

/// A refresh that fails changes nothing, and a refresh that the endpoint
/// rejects leaves the user no way on but to authorize again.
pub proof fn lemma_failed_refresh_keeps_storage(
    storage: TokenStorageView,
    config: ProviderConfigView,
    outcome: HttpOutcomeView,
    now: Timestamp,
)
    requires
        after_refresh(storage, config, outcome, now).1 is Err,
    ensures
        after_refresh(storage, config, outcome, now).0 == storage,
        outcome is Reply && !crate::exchange::is_success(outcome->status) ==> after_refresh(
            storage,
            config,
            outcome,
            now,
        ).1->Err_0.needs_reauthorization(),
{
}

/// A successful refresh supersedes the record: the new one is made at the
/// refresh time, holds the new access token, and keeps the previous refresh
/// token exactly when the provider issued no new one. Other platforms'
/// records stay as they were.
pub proof fn lemma_refresh_supersedes(
    storage: TokenStorageView,
    config: ProviderConfigView,
    outcome: HttpOutcomeView,
    now: Timestamp,
    other: Platform,
)
    requires
        after_refresh(storage, config, outcome, now).1 is Ok,
        other != config.platform,
    ensures
        ({
            let after = after_refresh(storage, config, outcome, now).0;
            let previous = storage.entry(config.platform)->0;
            let response = read_outcome(outcome, Grant::RefreshToken)->Ok_0;
            &&& after.entry(other) == storage.entry(other)
            &&& after.entry(config.platform) is Some
            &&& after.entry(config.platform)->0.created_at == now
            &&& after.entry(config.platform)->0.access_token == response.access_token
            &&& after.entry(config.platform)->0.expires_in == response.expires_in
            &&& after.entry(config.platform)->0.refresh_token == (if response.refresh_token
                is Some {
                response.refresh_token
            } else {
                previous.refresh_token
            })
        }),
{
}

} // verus!
