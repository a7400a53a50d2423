//! Mixcloud: plain OAuth2, with the callback on port 8888.

use vstd::prelude::*;
use vstd::string::StringExecFns;
use crate::cli::Platform;
use crate::clock::Timestamp;
use crate::config::{MixcloudCredentials, TokenStorage};
use crate::flow::{begin, AuthAction, AuthorizationFlow};
use crate::lifecycle::{ensure_valid_token, plan_for, TokenPlan};
use crate::pkce::is_state_value;
use crate::provider::{ProviderConfig, ProviderConfigView};
use crate::text::{pair, pairs_view, signed_decimal, signed_decimal_text};
use crate::upload::{
    mixcloud_form, mixcloud_parts, step_for, UploadMetadata, UploadMetadataView, UploadRequest,
    UploadRequestView, UploadStep,
};

verus! {

pub const OAUTH_AUTHORIZE_URL: &'static str = "https://www.mixcloud.com/oauth/authorize";

pub const OAUTH_TOKEN_URL: &'static str = "https://www.mixcloud.com/oauth/access_token";

pub const UPLOAD_URL: &'static str = "https://api.mixcloud.com/upload/";

pub const REDIRECT_URI: &'static str = "http://localhost:8888/callback";

/// The page that the browser is shown once the redirect has arrived.
pub const CONFIRMATION_PAGE: &'static str = r#"
<!DOCTYPE html>
<html>
<head>
    <meta charset="UTF-8">
    <title>Authorization Successful</title>
    <style>
        body {
            font-family: -apple-system, BlinkMacSystemFont, "Segoe UI", Roboto, sans-serif;
            display: flex;
            justify-content: center;
            align-items: center;
            height: 100vh;
            margin: 0;
            background: linear-gradient(135deg, #667eea 0%, #764ba2 100%);
            color: white;
        }
        .container {
            text-align: center;
            padding: 2rem;
            background: rgba(255, 255, 255, 0.1);
            border-radius: 10px;
            backdrop-filter: blur(10px);
        }
        h1 { margin: 0 0 1rem 0; }
        p { margin: 0; opacity: 0.9; }
    </style>
</head>
<body>
    <div class="container">
        <h1>✓ Authorization Successful!</h1>
        <p>You can close this window and return to the terminal.</p>
        <p style="margin-top: 1rem; font-size: 0.9em;">This window will close automatically...</p>
    </div>
    <script>
        // Auto-close after 2 seconds
        setTimeout(function() {
            window.close();
        }, 2000);
    </script>
</body>
</html>
"#;

/// The port that `REDIRECT_URI` names.
pub const CALLBACK_PORT: u16 = 8888;

/// What Mixcloud answers to an upload.
#[derive(Debug, PartialEq, Eq)]
pub struct UploadResponse {
    pub result: UploadResult,
}

/// The body of Mixcloud's answer to an upload.
#[derive(Debug, PartialEq, Eq)]
pub struct UploadResult {
    pub success: bool,
    pub message: String,
    pub key: String,
}

/// Mixcloud as a provider, for a client with the given identifier and secret.
pub open spec fn provider_config(client_id: Seq<char>, client_secret: Seq<char>) -> ProviderConfigView {
    ProviderConfigView {
        platform: Platform::Mixcloud,
        authorize_url: OAUTH_AUTHORIZE_URL@,
        token_url: OAUTH_TOKEN_URL@,
        redirect_uri: REDIRECT_URI@,
        port: CALLBACK_PORT,
        requires_pkce: false,
        scope: None,
        client_id,
        client_secret,
    }
}

/// The notice on a fresh token's lifetime: in days once it reaches a day, in
/// hours below that.
pub open spec fn expiry_notice(expires_in: i64) -> Seq<char> {
    let hours = crate::clock::truncated_quotient(expires_in as int, 3600);
    let days = crate::clock::truncated_quotient(hours, 24);
    if days > 0 {
        "Token expires in "@ + signed_decimal_text(days) + " days"@
    } else {
        "Token expires in "@ + signed_decimal_text(hours) + " hours"@
    }
}

/// The notice on a fresh token's lifetime.
pub fn expiry_notice_text(expires_in: i64) -> (s: String)
    ensures
        s@ == expiry_notice(expires_in),
{
    let hours: i64 = expires_in / 3600;
    let days: i64 = hours / 24;
    let mut s = String::from_str("Token expires in ");
    if days > 0 {
        let number = signed_decimal(days as i128);
        s.append(number.as_str());
        s.append(" days");
    } else {
        let number = signed_decimal(hours as i128);
        s.append(number.as_str());
        s.append(" hours");
    }
    assert(s@ =~= expiry_notice(expires_in));
    s
}

/// The request that uploads a mix to Mixcloud: the access token travels in
/// the query string.
pub open spec fn upload_request(access_token: Seq<char>, meta: UploadMetadataView) -> UploadRequestView {
    UploadRequestView {
        url: UPLOAD_URL@,
        query: seq![("access_token"@, access_token)],
        headers: Seq::empty(),
        parts: mixcloud_parts(meta),
    }
}

/// The lines that report a finished upload. `scheduled` says whether a
/// publish date was sent along.
pub open spec fn upload_summary(message: Seq<char>, key: Seq<char>, scheduled: bool) -> Seq<Seq<char>> {
    seq![
        ""@,
        "\u{2713} Upload successful!"@,
        "  Message: "@ + message,
        "  Key: "@ + key,
        "  URL: https://www.mixcloud.com"@ + key,
    ] + (if scheduled {
        seq!["  Scheduled: Yes (check Mixcloud for publish time)"@]
    } else {
        Seq::empty()
    })
}

/// The lines that report a finished upload.
pub fn upload_summary_lines(response: &UploadResponse, scheduled: bool) -> (lines: Vec<String>)
    ensures
        crate::config::texts(lines@) == upload_summary(
            response.result.message@,
            response.result.key@,
            scheduled,
        ),
{
    let mut lines: Vec<String> = Vec::new();
    lines.push(String::from_str(""));
    lines.push(String::from_str("\u{2713} Upload successful!"));
    let mut message = String::from_str("  Message: ");
    message.append(response.result.message.as_str());
    lines.push(message);
    let mut key = String::from_str("  Key: ");
    key.append(response.result.key.as_str());
    lines.push(key);
    let mut address = String::from_str("  URL: https://www.mixcloud.com");
    address.append(response.result.key.as_str());
    lines.push(address);
    if scheduled {
        lines.push(String::from_str("  Scheduled: Yes (check Mixcloud for publish time)"));
    }
    assert(crate::config::texts(lines@) =~= upload_summary(
        response.result.message@,
        response.result.key@,
        scheduled,
    ));
    lines
}

/// The Mixcloud side of the application: the client's credentials and the
/// stored tokens.
#[derive(Debug, PartialEq, Eq)]
pub struct MixcloudClient {
    pub credentials: MixcloudCredentials,
    pub token_storage: TokenStorage,
}

impl MixcloudClient {
    /// A client with the given credentials and the tokens that were loaded.
    pub fn new(credentials: MixcloudCredentials, token_storage: TokenStorage) -> (c: Self)
        ensures
            c.credentials.client_id@ == credentials.client_id@,
            c.credentials.client_secret@ == credentials.client_secret@,
            c.token_storage@ == token_storage@,
    {
        MixcloudClient { credentials, token_storage }
    }

    /// Mixcloud as a provider for these credentials.
    pub fn provider(credentials: &MixcloudCredentials) -> (config: ProviderConfig)
        ensures
            config@ == provider_config(credentials.client_id@, credentials.client_secret@),
    {
        ProviderConfig {
            platform: Platform::Mixcloud,
            authorize_url: String::from_str(OAUTH_AUTHORIZE_URL),
            token_url: String::from_str(OAUTH_TOKEN_URL),
            redirect_uri: String::from_str(REDIRECT_URI),
            port: CALLBACK_PORT,
            requires_pkce: false,
            scope: None,
            client_id: credentials.client_id.clone(),
            client_secret: credentials.client_secret.clone(),
        }
    }

    /// Starts an authorization attempt with Mixcloud.
    pub fn authorize(credentials: &MixcloudCredentials) -> (r: (AuthorizationFlow, AuthAction))
        ensures
            is_state_value(r.0@.state),
            r.0@.verifier is None,
            (r.0@, r.1@) == begin(
                provider_config(credentials.client_id@, credentials.client_secret@),
                None,
                r.0@.state,
            ),
    {
        AuthorizationFlow::start(Self::provider(credentials))
    }

    /// Decides what has to happen before an upload at `now`: use the stored
    /// token, refresh it, authorize first, or give up.
    pub fn refresh_token_if_needed(&self, now: Timestamp) -> (plan: TokenPlan)
        ensures
            plan@ == plan_for(
                self.token_storage@.mixcloud,
                provider_config(self.credentials.client_id@, self.credentials.client_secret@),
                now,
            ),
    {
        let config = Self::provider(&self.credentials);
        ensure_valid_token(&self.token_storage, &config, now)
    }

    /// The request that uploads a mix with the given access token.
    pub fn upload_request(access_token: &str, meta: &UploadMetadata) -> (request: UploadRequest)
        ensures
            request@ == upload_request(access_token@, meta@),
    {
        let mut query: Vec<(String, String)> = Vec::new();
        query.push(pair("access_token", access_token));
        let request = UploadRequest {
            url: String::from_str(UPLOAD_URL),
            query,
            headers: Vec::new(),
            parts: mixcloud_form(meta),
        };
        assert(pairs_view(request.query@) =~= seq![("access_token"@, access_token@)]);
        assert(pairs_view(request.headers@) =~= Seq::empty());
        request
    }

    /// Decides what has to happen to upload a mix at `now`: send the request
    /// with the stored token, or first renew the token or authorize, or give
    /// up.
    pub fn upload(&self, meta: &UploadMetadata, now: Timestamp) -> (step: UploadStep)
        ensures
            ({
                let plan = plan_for(
                    self.token_storage@.mixcloud,
                    provider_config(self.credentials.client_id@, self.credentials.client_secret@),
                    now,
                );
                step@ == step_for(
                    plan,
                    upload_request(
                        match plan {
                            crate::lifecycle::TokenPlanView::Use { access_token } => access_token,
                            _ => Seq::empty(),
                        },
                        meta@,
                    ),
                )
            }),
    {
        match self.refresh_token_if_needed(now) {
            TokenPlan::Authorize => UploadStep::Authorize,
            TokenPlan::Use { access_token } => UploadStep::Send(
                Self::upload_request(access_token.as_str(), meta),
            ),
            TokenPlan::Refresh { token_url, params } => UploadStep::Refresh { token_url, params },
            TokenPlan::Fail(e) => UploadStep::Fail(e),
        }
    }
}

} // verus!
