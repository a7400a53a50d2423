//! SoundCloud: OAuth2 with proof of key exchange, with the callback on port
//! 8889.

use vstd::prelude::*;
use vstd::string::StringExecFns;
use crate::cli::Platform;
use crate::clock::Timestamp;
use crate::config::{SoundcloudCredentials, TokenStorage};
use crate::flow::{begin, AuthAction, AuthorizationFlow};
use crate::lifecycle::{ensure_valid_token, plan_for, TokenPlan};
use crate::pkce::{is_state_value, is_verifier};
use crate::provider::{ProviderConfig, ProviderConfigView};
use crate::text::{pair, pairs_view, signed_decimal, signed_decimal_text};
use crate::upload::{
    soundcloud_form, soundcloud_parts, step_for, UploadMetadata, UploadMetadataView,
    UploadRequest, UploadRequestView, UploadStep,
};

verus! {

pub const OAUTH_AUTHORIZE_URL: &'static str = "https://secure.soundcloud.com/authorize";

pub const OAUTH_TOKEN_URL: &'static str = "https://secure.soundcloud.com/oauth/token";

pub const UPLOAD_URL: &'static str = "https://api.soundcloud.com/tracks";

pub const REDIRECT_URI: &'static str = "http://localhost:8889/callback";

/// The page that the browser is shown once the redirect has arrived.
pub const CONFIRMATION_PAGE: &'static str = r#"
<!DOCTYPE html>
<html>
<head>
    <meta charset="UTF-8">
    <title>Authorization Successful</title>
    <style>
        body {
            font-family: -apple-system, BlinkMacSystemFont, "Segoe UI", Roboto, sans-serif;
            display: flex;
            justify-content: center;
            align-items: center;
            height: 100vh;
            margin: 0;
            background: linear-gradient(135deg, #ff8800 0%, #ff3300 100%);
            color: white;
        }
        .container {
            text-align: center;
            padding: 2rem;
            background: rgba(255, 255, 255, 0.1);
            border-radius: 10px;
            backdrop-filter: blur(10px);
        }
        h1 { margin: 0 0 1rem 0; }
        p { margin: 0; opacity: 0.9; }
    </style>
</head>
<body>
    <div class="container">
        <h1>✓ Authorization Successful!</h1>
        <p>You can close this window and return to the terminal.</p>
        <p style="margin-top: 1rem; font-size: 0.9em;">This window will close automatically...</p>
    </div>
    <script>
        setTimeout(function() { window.close(); }, 2000);
    </script>
</body>
</html>
"#;

/// The port that `REDIRECT_URI` names.
pub const CALLBACK_PORT: u16 = 8889;

/// The scope that asks for a token without a lifetime.
pub const SCOPE: &'static str = "non-expiring";

/// What SoundCloud answers to an upload.
#[derive(Debug, PartialEq, Eq)]
pub struct UploadResponse {
    pub id: i64,
    pub permalink_url: Option<String>,
    pub title: String,
    pub description: Option<String>,
}

/// SoundCloud as a provider, for a client with the given identifier and
/// secret.
pub open spec fn provider_config(client_id: Seq<char>, client_secret: Seq<char>) -> ProviderConfigView {
    ProviderConfigView {
        platform: Platform::Soundcloud,
        authorize_url: OAUTH_AUTHORIZE_URL@,
        token_url: OAUTH_TOKEN_URL@,
        redirect_uri: REDIRECT_URI@,
        port: CALLBACK_PORT,
        requires_pkce: true,
        scope: Some(SCOPE@),
        client_id,
        client_secret,
    }
}

/// The notice on a fresh token's lifetime, in hours.
pub open spec fn expiry_notice(expires_in: i64) -> Seq<char> {
    "Token expires in "@ + signed_decimal_text(
        crate::clock::truncated_quotient(expires_in as int, 3600),
    ) + " hours"@
}

/// The notice on a fresh token's lifetime.
pub fn expiry_notice_text(expires_in: i64) -> (s: String)
    ensures
        s@ == expiry_notice(expires_in),
{
    let hours: i64 = expires_in / 3600;
    let mut s = String::from_str("Token expires in ");
    let number = signed_decimal(hours as i128);
    s.append(number.as_str());
    s.append(" hours");
    assert(s@ =~= expiry_notice(expires_in));
    s
}

/// The request that uploads a track to SoundCloud: the access token travels
/// in the `Authorization` header.
pub open spec fn upload_request(access_token: Seq<char>, meta: UploadMetadataView) -> UploadRequestView {
    UploadRequestView {
        url: UPLOAD_URL@,
        query: Seq::empty(),
        headers: seq![("Authorization"@, "OAuth "@ + access_token)],
        parts: soundcloud_parts(meta),
    }
}

/// The lines that report a finished upload.
pub open spec fn upload_summary(
    id: i64,
    title: Seq<char>,
    permalink_url: Option<Seq<char>>,
    description: Option<Seq<char>>,
) -> Seq<Seq<char>> {
    seq![
        ""@,
        "\u{2713} Upload successful!"@,
        "  ID: "@ + signed_decimal_text(id as int),
        "  Title: "@ + title,
    ] + (match permalink_url {
        Some(url) => seq!["  URL: "@ + url],
        None => Seq::empty(),
    }) + (match description {
        Some(text) => seq!["  Description: "@ + text],
        None => Seq::empty(),
    })
}

/// The lines that report a finished upload.
pub fn upload_summary_lines(response: &UploadResponse) -> (lines: Vec<String>)
    ensures
        crate::config::texts(lines@) == upload_summary(
            response.id,
            response.title@,
            crate::config::option_text(response.permalink_url),
            crate::config::option_text(response.description),
        ),
{
    let mut lines: Vec<String> = Vec::new();
    lines.push(String::from_str(""));
    lines.push(String::from_str("\u{2713} Upload successful!"));
    let mut id = String::from_str("  ID: ");
    id.append(signed_decimal(response.id as i128).as_str());
    lines.push(id);
    let mut title = String::from_str("  Title: ");
    title.append(response.title.as_str());
    lines.push(title);
    match &response.permalink_url {
        Some(url) => {
            let mut line = String::from_str("  URL: ");
            line.append(url.as_str());
            lines.push(line);
        },
        None => {},
    }
    match &response.description {
        Some(text) => {
            let mut line = String::from_str("  Description: ");
            line.append(text.as_str());
            lines.push(line);
        },
        None => {},
    }
    assert(crate::config::texts(lines@) =~= upload_summary(
        response.id,
        response.title@,
        crate::config::option_text(response.permalink_url),
        crate::config::option_text(response.description),
    ));
    lines
}

/// The SoundCloud side of the application: the client's credentials and the
/// stored tokens.
#[derive(Debug, PartialEq, Eq)]
pub struct SoundcloudClient {
    pub credentials: SoundcloudCredentials,
    pub token_storage: TokenStorage,
}

impl SoundcloudClient {
    /// A client with the given credentials and the tokens that were loaded.
    pub fn new(credentials: SoundcloudCredentials, token_storage: TokenStorage) -> (c: Self)
        ensures
            c.credentials.client_id@ == credentials.client_id@,
            c.credentials.client_secret@ == credentials.client_secret@,
            c.token_storage@ == token_storage@,
    {
        SoundcloudClient { credentials, token_storage }
    }

    /// SoundCloud as a provider for these credentials.
    pub fn provider(credentials: &SoundcloudCredentials) -> (config: ProviderConfig)
        ensures
            config@ == provider_config(credentials.client_id@, credentials.client_secret@),
    {
        ProviderConfig {
            platform: Platform::Soundcloud,
            authorize_url: String::from_str(OAUTH_AUTHORIZE_URL),
            token_url: String::from_str(OAUTH_TOKEN_URL),
            redirect_uri: String::from_str(REDIRECT_URI),
            port: CALLBACK_PORT,
            requires_pkce: true,
            scope: Some(String::from_str(SCOPE)),
            client_id: credentials.client_id.clone(),
            client_secret: credentials.client_secret.clone(),
        }
    }

    /// Starts an authorization attempt with SoundCloud.
    pub fn authorize(credentials: &SoundcloudCredentials) -> (r: (AuthorizationFlow, AuthAction))
        ensures
            is_state_value(r.0@.state),
            r.0@.verifier is Some,
            is_verifier(r.0@.verifier->0),
            (r.0@, r.1@) == begin(
                provider_config(credentials.client_id@, credentials.client_secret@),
                r.0@.verifier,
                r.0@.state,
            ),
    {
        AuthorizationFlow::start(Self::provider(credentials))
    }

    /// Decides what has to happen before an upload at `now`: use the stored
    /// token, refresh it, authorize first, or give up.
    pub fn refresh_token_if_needed(&self, now: Timestamp) -> (plan: TokenPlan)
        ensures
            plan@ == plan_for(
                self.token_storage@.soundcloud,
                provider_config(self.credentials.client_id@, self.credentials.client_secret@),
                now,
            ),
    {
        let config = Self::provider(&self.credentials);
        ensure_valid_token(&self.token_storage, &config, now)
    }

    /// The request that uploads a track with the given access token.
    pub fn upload_request(access_token: &str, meta: &UploadMetadata) -> (request: UploadRequest)
        ensures
            request@ == upload_request(access_token@, meta@),
    {
        let mut value = String::from_str("OAuth ");
        value.append(access_token);
        let mut headers: Vec<(String, String)> = Vec::new();
        headers.push(pair("Authorization", value.as_str()));
        let request = UploadRequest {
            url: String::from_str(UPLOAD_URL),
            query: Vec::new(),
            headers,
            parts: soundcloud_form(meta),
        };
        assert(pairs_view(request.headers@) =~= seq![
            ("Authorization"@, "OAuth "@ + access_token@),
        ]);
        assert(pairs_view(request.query@) =~= Seq::empty());
        request
    }

    /// Decides what has to happen to upload a track at `now`: send the request
    /// with the stored token, or first renew the token or authorize, or give
    /// up.
    pub fn upload(&self, meta: &UploadMetadata, now: Timestamp) -> (step: UploadStep)
        ensures
            ({
                let plan = plan_for(
                    self.token_storage@.soundcloud,
                    provider_config(self.credentials.client_id@, self.credentials.client_secret@),
                    now,
                );
                step@ == step_for(
                    plan,
                    upload_request(
                        match plan {
                            crate::lifecycle::TokenPlanView::Use { access_token } => access_token,
                            _ => Seq::empty(),
                        },
                        meta@,
                    ),
                )
            }),
    {
        match self.refresh_token_if_needed(now) {
            TokenPlan::Authorize => UploadStep::Authorize,
            TokenPlan::Use { access_token } => UploadStep::Send(
                Self::upload_request(access_token.as_str(), meta),
            ),
            TokenPlan::Refresh { token_url, params } => UploadStep::Refresh { token_url, params },
            TokenPlan::Fail(e) => UploadStep::Fail(e),
        }
    }
}

} // verus!
