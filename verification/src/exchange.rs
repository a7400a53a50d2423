//! The two requests to the token endpoint, and what their answers mean.

use vstd::prelude::*;
use vstd::string::StringExecFns;
use crate::clock::Timestamp;
use crate::config::{clone_option_text, option_text, TokenInfo, TokenInfoView};
use crate::error::{AuthError, AuthErrorView};
use crate::provider::{ProviderConfig, ProviderConfigView};
use crate::text::{pair, pairs_view};

verus! {

/// What the token endpoint sends on success.
#[derive(Debug, PartialEq, Eq)]
pub struct TokenResponse {
    pub access_token: String,
    pub refresh_token: Option<String>,
    pub expires_in: Option<i64>,
}

/// The mathematical value of a `TokenResponse`.
pub struct TokenResponseView {
    pub access_token: Seq<char>,
    pub refresh_token: Option<Seq<char>>,
    pub expires_in: Option<i64>,
}

impl View for TokenResponse {
    type V = TokenResponseView;

    open spec fn view(&self) -> TokenResponseView {
        TokenResponseView {
            access_token: self.access_token@,
            refresh_token: option_text(self.refresh_token),
            expires_in: self.expires_in,
        }
    }
}

/// How a request to the token endpoint ended.
#[derive(Debug, PartialEq, Eq)]
pub enum HttpOutcome {
    /// The endpoint answered. `parsed` holds the body read as a token
    /// response, if it has that shape.
    Reply { status: u16, body: String, parsed: Option<TokenResponse> },
    /// No answer arrived: a timeout, a failed lookup, a refused connection.
    TransportFailed,
}

/// The mathematical value of an `HttpOutcome`.
pub enum HttpOutcomeView {
    Reply { status: u16, body: Seq<char>, parsed: Option<TokenResponseView> },
    TransportFailed,
}

/// The value of an optional token response.
pub open spec fn option_response(r: Option<TokenResponse>) -> Option<TokenResponseView> {
    match r {
        Some(response) => Some(response@),
        None => None,
    }
}

impl View for HttpOutcome {
    type V = HttpOutcomeView;

    open spec fn view(&self) -> HttpOutcomeView {
        match self {
            HttpOutcome::Reply { status, body, parsed } => HttpOutcomeView::Reply {
                status: *status,
                body: body@,
                parsed: option_response(*parsed),
            },
            HttpOutcome::TransportFailed => HttpOutcomeView::TransportFailed,
        }
    }
}

/// Which of the two requests an answer belongs to.
#[derive(Clone, Copy, Debug, PartialEq, Eq, Structural)]
pub enum Grant {
    AuthorizationCode,
    RefreshToken,
}

/// Whether an HTTP status reports success: 200 to 299.
pub open spec fn is_success(status: u16) -> bool {
    200 <= status < 300
}

/// Whether an HTTP status reports success: 200 to 299.
pub fn status_is_success(status: u16) -> (r: bool)
    ensures
        r == is_success(status),
{
    200 <= status && status < 300
}

/// The form fields of a code exchange: the client's identifier and secret, the
/// redirect address and the code; with a verifier also the grant type and the
/// verifier itself.
pub open spec fn exchange_params(
    config: ProviderConfigView,
    code: Seq<char>,
    verifier: Option<Seq<char>>,
) -> Seq<(Seq<char>, Seq<char>)> {
    (match verifier {
        Some(_) => seq![("grant_type"@, "authorization_code"@)],
        None => seq![],
    }) + seq![
        ("client_id"@, config.client_id),
        ("client_secret"@, config.client_secret),
        ("redirect_uri"@, config.redirect_uri),
        ("code"@, code),
    ] + (match verifier {
        Some(value) => seq![("code_verifier"@, value)],
        None => seq![],
    })
}

/// The form fields of a refresh: the client's identifier and secret, the grant
/// type and the refresh token.
pub open spec fn refresh_params(config: ProviderConfigView, refresh_token: Seq<char>) -> Seq<
    (Seq<char>, Seq<char>),
> {
    seq![
        ("client_id"@, config.client_id),
        ("client_secret"@, config.client_secret),
        ("grant_type"@, "refresh_token"@),
        ("refresh_token"@, refresh_token),
    ]
}

/// What an answer of the token endpoint amounts to: the token response on a
/// success status with a body of the expected shape, and otherwise the error
/// that belongs to the request that was made.
pub open spec fn read_outcome(outcome: HttpOutcomeView, grant: Grant) -> Result<
    TokenResponseView,
    AuthErrorView,
> {
    match outcome {
        HttpOutcomeView::Reply { status, body, parsed } => if is_success(status) {
            match parsed {
                Some(response) => Ok(response),
                None => Err(AuthErrorView::TokenParseFailed),
            }
        } else {
            match grant {
                Grant::AuthorizationCode => Err(
                    AuthErrorView::TokenExchangeFailed { status, body },
                ),
                Grant::RefreshToken => Err(AuthErrorView::RefreshFailed { status, body }),
            }
        },
        HttpOutcomeView::TransportFailed => Err(AuthErrorView::TransportFailed),
    }
}

/// The record that a code exchange leaves behind when it is answered with
/// `response` at `now`.
pub open spec fn exchanged_token(response: TokenResponseView, now: Timestamp) -> TokenInfoView {
    TokenInfoView {
        access_token: response.access_token,
        refresh_token: response.refresh_token,
        created_at: now,
        expires_in: response.expires_in,
    }
}

/// The record that supersedes one with the refresh token `previous` when the
/// refresh is answered with `response` at `now`. The previous refresh token
/// stays only if the provider issued no new one.
pub open spec fn refreshed_token(
    previous: Seq<char>,
    response: TokenResponseView,
    now: Timestamp,
) -> TokenInfoView {
    TokenInfoView {
        access_token: response.access_token,
        refresh_token: match response.refresh_token {
            Some(issued) => Some(issued),
            None => Some(previous),
        },
        created_at: now,
        expires_in: response.expires_in,
    }
}

/// The value of a reading of an answer.
pub open spec fn response_result_view(r: Result<TokenResponse, AuthError>) -> Result<
    TokenResponseView,
    AuthErrorView,
> {
    match r {
        Ok(response) => Ok(response@),
        Err(e) => Err(e@),
    }
}

impl ProviderConfig {
    /// The form fields to post to the token endpoint in exchange for `code`.
    pub fn exchange_code_params(&self, code: &str, verifier: Option<&str>) -> (params: Vec<
        (String, String),
    >)
        ensures
            pairs_view(params@) == exchange_params(
                self@,
                code@,
                match verifier {
                    Some(value) => Some(value@),
                    None => None,
                },
            ),
    {
        let mut params: Vec<(String, String)> = Vec::new();
        if verifier.is_some() {
            params.push(pair("grant_type", "authorization_code"));
        }
        params.push(pair("client_id", self.client_id.as_str()));
        params.push(pair("client_secret", self.client_secret.as_str()));
        params.push(pair("redirect_uri", self.redirect_uri.as_str()));
        params.push(pair("code", code));
        match verifier {
            Some(value) => {
                params.push(pair("code_verifier", value));
            },
            None => {},
        }
        assert(pairs_view(params@) =~= exchange_params(
            self@,
            code@,
            match verifier {
                Some(value) => Some(value@),
                None => None,
            },
        ));
        params
    }

    /// The form fields to post to the token endpoint to renew a token.
    pub fn refresh_params(&self, refresh_token: &str) -> (params: Vec<(String, String)>)
        ensures
            pairs_view(params@) == refresh_params(self@, refresh_token@),
    {
        let mut params: Vec<(String, String)> = Vec::new();
        params.push(pair("client_id", self.client_id.as_str()));
        params.push(pair("client_secret", self.client_secret.as_str()));
        params.push(pair("grant_type", "refresh_token"));
        params.push(pair("refresh_token", refresh_token));
        assert(pairs_view(params@) =~= refresh_params(self@, refresh_token@));
        params
    }
}

impl HttpOutcome {
    /// Reads the answer to a request for `grant`.
    pub fn read(self, grant: Grant) -> (r: Result<TokenResponse, AuthError>)
        ensures
            response_result_view(r) == read_outcome(self@, grant),
    {
        match self {
            HttpOutcome::Reply { status, body, parsed } => {
                if status_is_success(status) {
                    match parsed {
                        Some(response) => Ok(response),
                        None => Err(AuthError::TokenParseFailed),
                    }
                } else {
                    match grant {
                        Grant::AuthorizationCode => Err(
                            AuthError::TokenExchangeFailed { status, body },
                        ),
                        Grant::RefreshToken => Err(AuthError::RefreshFailed { status, body }),
                    }
                }
            },
            HttpOutcome::TransportFailed => Err(AuthError::TransportFailed),
        }
    }
}

impl TokenResponse {
    /// The record for a code exchange that was answered at `now`.
    pub fn into_token(self, now: Timestamp) -> (t: TokenInfo)
        ensures
            t@ == exchanged_token(self@, now),
    {
        TokenInfo::created_at(self.access_token, self.refresh_token, self.expires_in, now)
    }

    /// The record for a refresh that was answered at `now`, made with the
    /// refresh token `previous`.
    pub fn into_refreshed_token(self, previous: &str, now: Timestamp) -> (t: TokenInfo)
        ensures
            t@ == refreshed_token(previous@, self@, now),
    {
        let refresh_token = match self.refresh_token {
            Some(issued) => Some(issued),
            None => Some(String::from_str(previous)),
        };
        TokenInfo::created_at(self.access_token, refresh_token, self.expires_in, now)
    }
}

} // verus!
