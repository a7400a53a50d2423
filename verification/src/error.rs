//! The ways in which authorization and token upkeep fail.

use vstd::prelude::*;
use vstd::string::StringExecFns;
use crate::cli::Platform;
use crate::text::{decimal, decimal_text};

verus! {

/// A failure of an authorization attempt or of a token refresh. Each one ends
/// the attempt; none is retried by this library.
#[derive(Debug, PartialEq, Eq)]
pub enum AuthError {
    /// The authorize endpoint of the provider is not a URL.
    InvalidAuthorizeUrl,
    /// The loopback port could not be bound.
    ListenerUnavailable,
    /// The redirect did not echo the state value that was sent.
    CsrfMismatch,
    /// The redirect was malformed or carried no authorization code.
    MissingAuthorizationCode,
    /// The token endpoint answered the code exchange with a failure status.
    TokenExchangeFailed { status: u16, body: String },
    /// The token endpoint's answer did not have the expected shape.
    TokenParseFailed,
    /// The token is expired and there is no refresh token to renew it with.
    NoRefreshToken,
    /// The token endpoint answered the refresh with a failure status.
    RefreshFailed { status: u16, body: String },
    /// The request never reached the token endpoint, or its answer was lost.
    TransportFailed,
    /// An event arrived that the attempt was not waiting for.
    UnexpectedEvent,
    /// Nothing is stored for the platform: the user has not authorized yet.
    NotAuthorized { platform: Platform },
}

/// The mathematical value of an `AuthError`.
pub enum AuthErrorView {
    InvalidAuthorizeUrl,
    ListenerUnavailable,
    CsrfMismatch,
    MissingAuthorizationCode,
    TokenExchangeFailed { status: u16, body: Seq<char> },
    TokenParseFailed,
    NoRefreshToken,
    RefreshFailed { status: u16, body: Seq<char> },
    TransportFailed,
    UnexpectedEvent,
    NotAuthorized { platform: Platform },
}

impl View for AuthError {
    type V = AuthErrorView;

    open spec fn view(&self) -> AuthErrorView {
        match self {
            AuthError::InvalidAuthorizeUrl => AuthErrorView::InvalidAuthorizeUrl,
            AuthError::ListenerUnavailable => AuthErrorView::ListenerUnavailable,
            AuthError::CsrfMismatch => AuthErrorView::CsrfMismatch,
            AuthError::MissingAuthorizationCode => AuthErrorView::MissingAuthorizationCode,
            AuthError::TokenExchangeFailed { status, body } => AuthErrorView::TokenExchangeFailed {
                status: *status,
                body: body@,
            },
            AuthError::TokenParseFailed => AuthErrorView::TokenParseFailed,
            AuthError::NoRefreshToken => AuthErrorView::NoRefreshToken,
            AuthError::RefreshFailed { status, body } => AuthErrorView::RefreshFailed {
                status: *status,
                body: body@,
            },
            AuthError::TransportFailed => AuthErrorView::TransportFailed,
            AuthError::UnexpectedEvent => AuthErrorView::UnexpectedEvent,
            AuthError::NotAuthorized { platform } => AuthErrorView::NotAuthorized {
                platform: *platform,
            },
        }
    }
}

impl AuthErrorView {
    /// The failure in words, for the user.
    pub open spec fn message(self) -> Seq<char> {
        match self {
            AuthErrorView::InvalidAuthorizeUrl => "The authorize endpoint is not a URL"@,
            AuthErrorView::ListenerUnavailable => "Failed to start callback server. Is the port already in use?"@,
            AuthErrorView::CsrfMismatch => "State mismatch - possible CSRF attack"@,
            AuthErrorView::MissingAuthorizationCode => "Authorization code not found in callback"@,
            AuthErrorView::TokenExchangeFailed { status, body } => "Token exchange failed with status "@
                + decimal_text(status as nat) + ": "@ + body,
            AuthErrorView::TokenParseFailed => "Failed to parse token response"@,
            AuthErrorView::NoRefreshToken => "No refresh token available. Please re-authorize."@,
            AuthErrorView::RefreshFailed { status, body } => "Token refresh failed with status "@
                + decimal_text(status as nat) + ": "@ + body + ". Please re-authorize."@,
            AuthErrorView::TransportFailed => "Failed to reach the token endpoint"@,
            AuthErrorView::UnexpectedEvent => "The authorization attempt was not waiting for this"@,
            AuthErrorView::NotAuthorized { platform } => "Not authorized with "@
                + platform.display_name() + ". Run 'dj-uploader auth "@ + platform.command_name()
                + "' first"@,
        }
    }

    /// Whether the failure leaves the user no way on but to authorize again.
    pub open spec fn needs_reauthorization(self) -> bool {
        self is NoRefreshToken || self is RefreshFailed
    }
}

impl Clone for AuthError {
    fn clone(&self) -> (c: Self)
        ensures
            c@ == self@,
    {
        match self {
            AuthError::InvalidAuthorizeUrl => AuthError::InvalidAuthorizeUrl,
            AuthError::ListenerUnavailable => AuthError::ListenerUnavailable,
            AuthError::CsrfMismatch => AuthError::CsrfMismatch,
            AuthError::MissingAuthorizationCode => AuthError::MissingAuthorizationCode,
            AuthError::TokenExchangeFailed { status, body } => AuthError::TokenExchangeFailed {
                status: *status,
                body: body.clone(),
            },
            AuthError::TokenParseFailed => AuthError::TokenParseFailed,
            AuthError::NoRefreshToken => AuthError::NoRefreshToken,
            AuthError::RefreshFailed { status, body } => AuthError::RefreshFailed {
                status: *status,
                body: body.clone(),
            },
            AuthError::TransportFailed => AuthError::TransportFailed,
            AuthError::UnexpectedEvent => AuthError::UnexpectedEvent,
            AuthError::NotAuthorized { platform } => AuthError::NotAuthorized { platform: *platform },
        }
    }
}

impl AuthError {
    /// The failure in words, for the user.
    pub fn message(&self) -> (s: String)
        ensures
            s@ == self@.message(),
    {
        match self {
            AuthError::InvalidAuthorizeUrl => String::from_str("The authorize endpoint is not a URL"),
            AuthError::ListenerUnavailable => String::from_str(
                "Failed to start callback server. Is the port already in use?",
            ),
            AuthError::CsrfMismatch => String::from_str("State mismatch - possible CSRF attack"),
            AuthError::MissingAuthorizationCode => String::from_str(
                "Authorization code not found in callback",
            ),
            AuthError::TokenExchangeFailed { status, body } => {
                let mut s = String::from_str("Token exchange failed with status ");
                s.append(decimal(*status as u128).as_str());
                s.append(": ");
                s.append(body.as_str());
                assert(s@ =~= self@.message());
                s
            },
            AuthError::TokenParseFailed => String::from_str("Failed to parse token response"),
            AuthError::NoRefreshToken => String::from_str(
                "No refresh token available. Please re-authorize.",
            ),
            AuthError::RefreshFailed { status, body } => {
                let mut s = String::from_str("Token refresh failed with status ");
                s.append(decimal(*status as u128).as_str());
                s.append(": ");
                s.append(body.as_str());
                s.append(". Please re-authorize.");
                assert(s@ =~= self@.message());
                s
            },
            AuthError::TransportFailed => String::from_str("Failed to reach the token endpoint"),
            AuthError::UnexpectedEvent => String::from_str(
                "The authorization attempt was not waiting for this",
            ),
            AuthError::NotAuthorized { platform } => {
                let mut s = String::from_str("Not authorized with ");
                s.append(platform.name().as_str());
                s.append(". Run 'dj-uploader auth ");
                s.append(platform.command().as_str());
                s.append("' first");
                assert(s@ =~= self@.message());
                s
            },
        }
    }

    /// Whether the failure leaves the user no way on but to authorize again.
    pub fn needs_reauthorization(&self) -> (r: bool)
        ensures
            r == self@.needs_reauthorization(),
    {
        match self {
            AuthError::NoRefreshToken => true,
            AuthError::RefreshFailed { .. } => true,
            _ => false,
        }
    }
}

} // verus!
