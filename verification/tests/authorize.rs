use dj_uploader::callback::{
    confirmation_response_for, extract_code_from_request, read_callback_pairs, request_target_of,
    Callback,
};
use dj_uploader::cli::Platform;
use dj_uploader::clock::Timestamp;
use dj_uploader::config::{MixcloudCredentials, SoundcloudCredentials, TokenInfo};
use dj_uploader::error::AuthError;
use dj_uploader::exchange::{Grant, HttpOutcome, TokenResponse};
use dj_uploader::flow::{AuthAction, AuthEvent, AuthorizationFlow, FlowPhase};
use dj_uploader::pkce::generate_code_challenge;
use dj_uploader::platforms::mixcloud::MixcloudClient;
use dj_uploader::platforms::soundcloud::SoundcloudClient;
use dj_uploader::platforms::{handle_auth, provider_for};
use dj_uploader::provider::{append_pairs, ProviderConfig};
use dj_uploader::text::pair;

fn mixcloud() -> ProviderConfig {
    MixcloudClient::provider(&MixcloudCredentials::new("mix-id".to_string(), "mix-secret".to_string()))
}

fn soundcloud() -> ProviderConfig {
    SoundcloudClient::provider(&SoundcloudCredentials::new("sc-id".to_string(), "sc-secret".to_string()))
}

fn pairs(items: &[(&str, &str)]) -> Vec<(String, String)> {
    items.iter().map(|(k, v)| (k.to_string(), v.to_string())).collect()
}

fn now() -> Timestamp {
    Timestamp { secs: 1_700_000_000, nanos: 42 }
}

fn reply(status: u16, body: &str, parsed: Option<TokenResponse>) -> AuthEvent {
    AuthEvent::Token(HttpOutcome::Reply { status, body: body.to_string(), parsed })
}

fn response(access: &str, refresh: Option<&str>, expires_in: Option<i64>) -> TokenResponse {
    TokenResponse {
        access_token: access.to_string(),
        refresh_token: refresh.map(|r| r.to_string()),
        expires_in,
    }
}

#[test]
fn provider_descriptions() {
    let config = mixcloud();
    assert_eq!(config.platform, Platform::Mixcloud);
    assert_eq!(config.authorize_url, "https://www.mixcloud.com/oauth/authorize");
    assert_eq!(config.token_url, "https://www.mixcloud.com/oauth/access_token");
    assert_eq!(config.redirect_uri, "http://localhost:8888/callback");
    assert_eq!(config.port, 8888);
    assert!(!config.requires_pkce);
    assert_eq!(config.scope, None);
    assert_eq!(config.client_id, "mix-id");
    assert_eq!(config.client_secret, "mix-secret");
    let config = soundcloud();
    assert_eq!(config.platform, Platform::Soundcloud);
    assert_eq!(config.authorize_url, "https://secure.soundcloud.com/authorize");
    assert_eq!(config.token_url, "https://secure.soundcloud.com/oauth/token");
    assert_eq!(config.redirect_uri, "http://localhost:8889/callback");
    assert_eq!(config.port, 8889);
    assert!(config.requires_pkce);
    assert_eq!(config.scope.as_deref(), Some("non-expiring"));
    assert_eq!(config.clone(), config);
}

#[test]
fn providers_listen_on_different_ports() {
    let m = MixcloudCredentials::new("a".to_string(), "b".to_string());
    let s = SoundcloudCredentials::new("c".to_string(), "d".to_string());
    let first = provider_for(Platform::Mixcloud, &m, &s);
    let second = provider_for(Platform::Soundcloud, &m, &s);
    assert_ne!(first.port, second.port);
    assert_eq!(first, mixcloud_with("a", "b"));
    assert_eq!(second.client_id, "c");
}

fn mixcloud_with(id: &str, secret: &str) -> ProviderConfig {
    MixcloudClient::provider(&MixcloudCredentials::new(id.to_string(), secret.to_string()))
}

#[test]
fn authorize_params_without_pkce() {
    assert_eq!(
        mixcloud().authorize_params(None, "abc123"),
        pairs(&[
            ("client_id", "mix-id"),
            ("redirect_uri", "http://localhost:8888/callback"),
            ("state", "abc123"),
        ])
    );
}

#[test]
fn authorize_params_with_pkce_and_scope() {
    assert_eq!(
        soundcloud().authorize_params(Some("CHALLENGE"), "abc123"),
        pairs(&[
            ("client_id", "sc-id"),
            ("redirect_uri", "http://localhost:8889/callback"),
            ("response_type", "code"),
            ("code_challenge", "CHALLENGE"),
            ("code_challenge_method", "S256"),
            ("state", "abc123"),
            ("scope", "non-expiring"),
        ])
    );
}

#[test]
fn authorize_url_is_the_endpoint_with_encoded_pairs() {
    assert_eq!(
        mixcloud().authorize_url(None, "abc123"),
        Ok("https://www.mixcloud.com/oauth/authorize?client_id=mix-id&redirect_uri=http%3A%2F%2Flocalhost%3A8888%2Fcallback&state=abc123".to_string())
    );
    assert_eq!(
        soundcloud().authorize_url(Some("a b&c"), "s"),
        Ok("https://secure.soundcloud.com/authorize?client_id=sc-id&redirect_uri=http%3A%2F%2Flocalhost%3A8889%2Fcallback&response_type=code&code_challenge=a+b%26c&code_challenge_method=S256&state=s&scope=non-expiring".to_string())
    );
}

#[test]
fn authorize_url_needs_a_url_to_start_from() {
    let mut config = mixcloud();
    config.authorize_url = "not a url".to_string();
    assert_eq!(config.authorize_url(None, "s"), Err(AuthError::InvalidAuthorizeUrl));
    let (flow, action) = AuthorizationFlow::start_with(config, None, "s".to_string());
    assert_eq!(flow.phase, FlowPhase::Failed);
    assert_eq!(action, AuthAction::Abort(AuthError::InvalidAuthorizeUrl));
}

#[test]
fn append_pairs_keeps_an_existing_query() {
    let url = url::Url::parse("https://example.org/path?x=1").unwrap();
    assert_eq!(
        append_pairs(url, &vec![pair("k", "v"), pair("\u{e9}", "=")]),
        "https://example.org/path?x=1&k=v&%C3%A9=%3D"
    );
    let url = url::Url::parse("https://example.org").unwrap();
    assert_eq!(append_pairs(url, &Vec::new()), "https://example.org/");
}

#[test]
fn request_target_is_the_second_word() {
    assert_eq!(request_target_of("GET /callback?code=X HTTP/1.1").as_deref(), Some("/callback?code=X"));
    assert_eq!(request_target_of("  GET \t /a  ").as_deref(), Some("/a"));
    assert_eq!(request_target_of("GET"), None);
    assert_eq!(request_target_of("GET   "), None);
    assert_eq!(request_target_of(""), None);
    assert_eq!(request_target_of("a\u{a0}b\u{2003}c").as_deref(), Some("b"));
}

#[test]
fn request_target_agrees_with_std() {
    for line in [
        "GET /callback?code=1&state=2 HTTP/1.1",
        "POST\t/x\tHTTP/1.0",
        "\r\nGET\r\n/y",
        "one",
        " ",
        "a  b",
        "\u{3000}lead\u{3000}\u{e9}t\u{e9}\u{3000}",
    ] {
        let expected = line.split_whitespace().nth(1).map(|s| s.to_string());
        assert_eq!(request_target_of(line), expected);
    }
}

#[test]
fn callback_with_code_only() {
    assert_eq!(
        extract_code_from_request("GET /callback?code=AUTH_CODE HTTP/1.1"),
        Ok(Callback { code: "AUTH_CODE".to_string(), state: None })
    );
}

#[test]
fn callback_with_code_and_state() {
    assert_eq!(
        extract_code_from_request("GET /callback?state=xyz789&code=c0de HTTP/1.1"),
        Ok(Callback { code: "c0de".to_string(), state: Some("xyz789".to_string()) })
    );
}

#[test]
fn callback_values_are_decoded() {
    assert_eq!(
        extract_code_from_request("GET /callback?code=a%20b+c%2F&state=%C3%A9 HTTP/1.1"),
        Ok(Callback { code: "a b c/".to_string(), state: Some("\u{e9}".to_string()) })
    );
}

#[test]
fn callback_takes_the_first_of_repeated_keys() {
    assert_eq!(
        extract_code_from_request("GET /callback?code=first&code=second&state=1&state=2 HTTP/1.1"),
        Ok(Callback { code: "first".to_string(), state: Some("1".to_string()) })
    );
}

#[test]
fn callback_without_code_is_refused() {
    for line in [
        "GET /callback?error=access_denied HTTP/1.1",
        "GET /callback HTTP/1.1",
        "GET",
        "",
        "GET /callback?state=abc HTTP/1.1",
        "GET :99999999/callback?code=1 HTTP/1.1",
    ] {
        assert_eq!(extract_code_from_request(line), Err(AuthError::MissingAuthorizationCode));
    }
}

#[test]
fn callback_pairs_are_read_in_order() {
    assert_eq!(
        read_callback_pairs(&pairs(&[("x", "1"), ("code", "c"), ("state", "s"), ("code", "d")])),
        Ok(Callback { code: "c".to_string(), state: Some("s".to_string()) })
    );
    assert_eq!(
        read_callback_pairs(&pairs(&[("state", "s")])),
        Err(AuthError::MissingAuthorizationCode)
    );
    assert_eq!(
        read_callback_pairs(&pairs(&[("code", "")])),
        Ok(Callback { code: String::new(), state: None })
    );
}

#[test]
fn confirmation_response_frames_the_page() {
    for platform in [Platform::Mixcloud, Platform::Soundcloud] {
        let response = confirmation_response_for(platform);
        let (head, body) = response.split_once("\r\n\r\n").unwrap();
        let mut lines = head.split("\r\n");
        assert_eq!(lines.next(), Some("HTTP/1.1 200 OK"));
        assert_eq!(lines.next(), Some("Content-Type: text/html; charset=utf-8"));
        assert_eq!(lines.next(), Some(format!("Content-Length: {}", body.len()).as_str()));
        assert_eq!(lines.next(), None);
        assert!(body.contains("Authorization Successful!"));
        assert!(body.contains("window.close()"));
        assert!(body.starts_with("\n<!DOCTYPE html>"));
        assert!(body.ends_with("</html>\n"));
    }
    assert!(confirmation_response_for(Platform::Mixcloud).contains("#667eea"));
    assert!(confirmation_response_for(Platform::Soundcloud).contains("#ff8800"));
}

#[test]
fn state_mismatch_aborts_and_stores_nothing() {
    let (flow, action) = AuthorizationFlow::start_with(
        soundcloud(),
        Some("verifier".to_string()),
        "abc123".to_string(),
    );
    assert_eq!(flow.phase, FlowPhase::AwaitingCallback);
    assert!(matches!(action, AuthAction::Listen { port: 8889, .. }));
    let (flow, action) = flow.step(
        AuthEvent::Callback { request_line: "GET /callback?code=c&state=xyz789 HTTP/1.1".to_string() },
        now(),
    );
    assert_eq!(action, AuthAction::Abort(AuthError::CsrfMismatch));
    assert_eq!(flow.phase, FlowPhase::Failed);
    let (flow, action) = flow.step(reply(200, "{}", Some(response("t", None, None))), now());
    assert_eq!(action, AuthAction::Abort(AuthError::UnexpectedEvent));
    assert_eq!(flow.phase, FlowPhase::Failed);
}

#[test]
fn missing_state_counts_as_mismatch_with_pkce() {
    let (flow, _) = AuthorizationFlow::start_with(
        soundcloud(),
        Some("verifier".to_string()),
        "abc123".to_string(),
    );
    let (flow, action) = flow.step(
        AuthEvent::Callback { request_line: "GET /callback?code=c HTTP/1.1".to_string() },
        now(),
    );
    assert_eq!(action, AuthAction::Abort(AuthError::CsrfMismatch));
    assert_eq!(flow.phase, FlowPhase::Failed);
}

#[test]
fn missing_code_is_reported_before_the_state_is_checked() {
    let (flow, _) = AuthorizationFlow::start_with(
        soundcloud(),
        Some("verifier".to_string()),
        "abc123".to_string(),
    );
    let (flow, action) = flow.step(
        AuthEvent::Callback { request_line: "GET /callback?state=wrong HTTP/1.1".to_string() },
        now(),
    );
    assert_eq!(action, AuthAction::Abort(AuthError::MissingAuthorizationCode));
    assert_eq!(flow.phase, FlowPhase::Failed);
}

#[test]
fn pkce_attempt_runs_to_a_stored_token() {
    let verifier = "dBjftJeZ4CVP-mB92K27uhbUJU1p1r_wW1gFWFOEjXk";
    let (flow, action) = AuthorizationFlow::start_with(
        soundcloud(),
        Some(verifier.to_string()),
        "abc123".to_string(),
    );
    assert_eq!(
        action,
        AuthAction::Listen {
            url: "https://secure.soundcloud.com/authorize?client_id=sc-id&redirect_uri=http%3A%2F%2Flocalhost%3A8889%2Fcallback&response_type=code&code_challenge=E9Melhoa2OwvFrEMTJguCHaoeK1t8URWbuGJSstw-cM&code_challenge_method=S256&state=abc123&scope=non-expiring".to_string(),
            port: 8889,
        }
    );
    let (flow, action) = flow.step(
        AuthEvent::Callback { request_line: "GET /callback?code=the-code&state=abc123 HTTP/1.1".to_string() },
        now(),
    );
    assert_eq!(flow.phase, FlowPhase::AwaitingToken);
    assert_eq!(
        action,
        AuthAction::Exchange {
            token_url: "https://secure.soundcloud.com/oauth/token".to_string(),
            params: pairs(&[
                ("grant_type", "authorization_code"),
                ("client_id", "sc-id"),
                ("client_secret", "sc-secret"),
                ("redirect_uri", "http://localhost:8889/callback"),
                ("code", "the-code"),
                ("code_verifier", verifier),
            ]),
        }
    );
    let (flow, action) =
        flow.step(reply(200, "{...}", Some(response("access", Some("refresh"), Some(3600)))), now());
    assert_eq!(flow.phase, FlowPhase::Finished);
    assert_eq!(
        action,
        AuthAction::Store {
            platform: Platform::Soundcloud,
            token: TokenInfo {
                access_token: "access".to_string(),
                refresh_token: Some("refresh".to_string()),
                created_at: now(),
                expires_in: Some(3600),
            },
        }
    );
    let (flow, action) = flow.step(AuthEvent::ListenerUnavailable, now());
    assert_eq!(flow.phase, FlowPhase::Finished);
    assert_eq!(action, AuthAction::Abort(AuthError::UnexpectedEvent));
}

#[test]
fn plain_attempt_does_not_check_the_state() {
    let (flow, action) = AuthorizationFlow::start_with(mixcloud(), None, "abc123".to_string());
    assert_eq!(
        action,
        AuthAction::Listen {
            url: "https://www.mixcloud.com/oauth/authorize?client_id=mix-id&redirect_uri=http%3A%2F%2Flocalhost%3A8888%2Fcallback&state=abc123".to_string(),
            port: 8888,
        }
    );
    let (flow, action) = flow.step(
        AuthEvent::Callback { request_line: "GET /callback?code=AUTH_CODE HTTP/1.1".to_string() },
        now(),
    );
    assert_eq!(flow.phase, FlowPhase::AwaitingToken);
    assert_eq!(
        action,
        AuthAction::Exchange {
            token_url: "https://www.mixcloud.com/oauth/access_token".to_string(),
            params: pairs(&[
                ("client_id", "mix-id"),
                ("client_secret", "mix-secret"),
                ("redirect_uri", "http://localhost:8888/callback"),
                ("code", "AUTH_CODE"),
            ]),
        }
    );
    let (flow, action) = flow.step(reply(200, "", Some(response("a", None, None))), now());
    assert_eq!(flow.phase, FlowPhase::Finished);
    assert_eq!(
        action,
        AuthAction::Store {
            platform: Platform::Mixcloud,
            token: TokenInfo {
                access_token: "a".to_string(),
                refresh_token: None,
                created_at: now(),
                expires_in: None,
            },
        }
    );
}

fn awaiting_token() -> AuthorizationFlow {
    let (flow, _) = AuthorizationFlow::start_with(mixcloud(), None, "s".to_string());
    let (flow, _) = flow.step(
        AuthEvent::Callback { request_line: "GET /callback?code=c HTTP/1.1".to_string() },
        now(),
    );
    assert_eq!(flow.phase, FlowPhase::AwaitingToken);
    flow
}

#[test]
fn failure_status_carries_status_and_body() {
    for status in [199u16, 300, 400, 401, 500] {
        let (flow, action) = awaiting_token().step(
            reply(status, "{\"error\":\"invalid_grant\"}", Some(response("a", None, None))),
            now(),
        );
        assert_eq!(flow.phase, FlowPhase::Failed);
        assert_eq!(
            action,
            AuthAction::Abort(AuthError::TokenExchangeFailed {
                status,
                body: "{\"error\":\"invalid_grant\"}".to_string(),
            })
        );
    }
}

#[test]
fn every_success_status_is_accepted() {
    for status in [200u16, 201, 204, 299] {
        let (flow, action) = awaiting_token().step(reply(status, "", Some(response("a", None, None))), now());
        assert_eq!(flow.phase, FlowPhase::Finished);
        assert!(matches!(action, AuthAction::Store { .. }));
    }
}

#[test]
fn unreadable_answer_is_a_parse_failure() {
    let (flow, action) = awaiting_token().step(reply(200, "<html>", None), now());
    assert_eq!(flow.phase, FlowPhase::Failed);
    assert_eq!(action, AuthAction::Abort(AuthError::TokenParseFailed));
}

#[test]
fn transport_failure_is_passed_on() {
    let (flow, action) = awaiting_token().step(AuthEvent::Token(HttpOutcome::TransportFailed), now());
    assert_eq!(flow.phase, FlowPhase::Failed);
    assert_eq!(action, AuthAction::Abort(AuthError::TransportFailed));
}

#[test]
fn busy_port_aborts_the_attempt() {
    let (flow, _) = AuthorizationFlow::start_with(mixcloud(), None, "s".to_string());
    let (flow, action) = flow.step(AuthEvent::ListenerUnavailable, now());
    assert_eq!(flow.phase, FlowPhase::Failed);
    assert_eq!(action, AuthAction::Abort(AuthError::ListenerUnavailable));
}

#[test]
fn a_second_redirect_is_not_accepted() {
    let (flow, action) = awaiting_token().step(
        AuthEvent::Callback { request_line: "GET /callback?code=again HTTP/1.1".to_string() },
        now(),
    );
    assert_eq!(flow.phase, FlowPhase::Failed);
    assert_eq!(action, AuthAction::Abort(AuthError::UnexpectedEvent));
}

#[test]
fn token_reply_before_the_redirect_is_unexpected() {
    let (flow, _) = AuthorizationFlow::start_with(mixcloud(), None, "s".to_string());
    let (flow, action) = flow.step(reply(200, "", Some(response("a", None, None))), now());
    assert_eq!(flow.phase, FlowPhase::Failed);
    assert_eq!(action, AuthAction::Abort(AuthError::UnexpectedEvent));
}

#[test]
fn on_callback_takes_the_parsed_redirect() {
    let (flow, _) = AuthorizationFlow::start_with(soundcloud(), Some("v".to_string()), "abc123".to_string());
    assert!(flow.accepts_state(&Some("abc123".to_string())));
    assert!(!flow.accepts_state(&Some("abc124".to_string())));
    assert!(!flow.accepts_state(&None));
    let (flow, action) =
        flow.on_callback(Ok(Callback { code: "c".to_string(), state: Some("abc123".to_string()) }));
    assert_eq!(flow.phase, FlowPhase::AwaitingToken);
    assert!(matches!(action, AuthAction::Exchange { .. }));
    let (flow, action) = flow.on_token(HttpOutcome::TransportFailed, now());
    assert_eq!(flow.phase, FlowPhase::Failed);
    assert_eq!(action, AuthAction::Abort(AuthError::TransportFailed));
    let (other, _) = AuthorizationFlow::start_with(mixcloud(), None, "s".to_string());
    let (other, action) = other.on_callback(Err(AuthError::MissingAuthorizationCode));
    assert_eq!(other.phase, FlowPhase::Failed);
    assert_eq!(action, AuthAction::Abort(AuthError::MissingAuthorizationCode));
}

fn query_of(url: &str) -> Vec<(String, String)> {
    url::Url::parse(url).unwrap().query_pairs().into_owned().collect()
}

#[test]
fn start_draws_fresh_secrets() {
    let (flow, action) = AuthorizationFlow::start(soundcloud());
    assert_eq!(flow.phase, FlowPhase::AwaitingCallback);
    assert_eq!(flow.state.len(), 32);
    assert!(flow.state.chars().all(|c| c.is_ascii_alphanumeric()));
    let verifier = flow.verifier.clone().unwrap();
    assert_eq!(verifier.len(), 43);
    let (url, port) = match action {
        AuthAction::Listen { url, port } => (url, port),
        other => panic!("unexpected action {:?}", other),
    };
    assert_eq!(port, 8889);
    assert!(url.starts_with("https://secure.soundcloud.com/authorize?"));
    assert_eq!(
        query_of(&url),
        pairs(&[
            ("client_id", "sc-id"),
            ("redirect_uri", "http://localhost:8889/callback"),
            ("response_type", "code"),
            ("code_challenge", generate_code_challenge(&verifier).as_str()),
            ("code_challenge_method", "S256"),
            ("state", flow.state.as_str()),
            ("scope", "non-expiring"),
        ])
    );
    let (second, _) = AuthorizationFlow::start(soundcloud());
    assert_ne!(second.state, flow.state);
    assert_ne!(second.verifier, flow.verifier);
}

#[test]
fn start_without_pkce_has_no_verifier() {
    let (flow, action) = AuthorizationFlow::start(mixcloud());
    assert_eq!(flow.verifier, None);
    assert_eq!(flow.state.len(), 32);
    let url = match action {
        AuthAction::Listen { url, port: 8888 } => url,
        other => panic!("unexpected action {:?}", other),
    };
    assert_eq!(
        query_of(&url),
        pairs(&[
            ("client_id", "mix-id"),
            ("redirect_uri", "http://localhost:8888/callback"),
            ("state", flow.state.as_str()),
        ])
    );
}

#[test]
fn handle_auth_starts_the_attempt_of_the_platform() {
    let m = MixcloudCredentials::new("mix-id".to_string(), "mix-secret".to_string());
    let s = SoundcloudCredentials::new("sc-id".to_string(), "sc-secret".to_string());
    let (flow, action) = handle_auth(Platform::Mixcloud, &m, &s);
    assert_eq!(flow.config, mixcloud());
    assert_eq!(flow.verifier, None);
    assert!(matches!(action, AuthAction::Listen { port: 8888, .. }));
    let (flow, action) = handle_auth(Platform::Soundcloud, &m, &s);
    assert_eq!(flow.config, soundcloud());
    assert!(flow.verifier.is_some());
    assert!(matches!(action, AuthAction::Listen { port: 8889, .. }));
    let (flow, _) = MixcloudClient::authorize(&m);
    assert_eq!(flow.config.platform, Platform::Mixcloud);
    let (flow, _) = SoundcloudClient::authorize(&s);
    assert_eq!(flow.config.platform, Platform::Soundcloud);
}

#[test]
fn exchange_and_refresh_fields() {
    assert_eq!(
        mixcloud().exchange_code_params("c", None),
        pairs(&[
            ("client_id", "mix-id"),
            ("client_secret", "mix-secret"),
            ("redirect_uri", "http://localhost:8888/callback"),
            ("code", "c"),
        ])
    );
    assert_eq!(
        soundcloud().refresh_params("old-refresh"),
        pairs(&[
            ("client_id", "sc-id"),
            ("client_secret", "sc-secret"),
            ("grant_type", "refresh_token"),
            ("refresh_token", "old-refresh"),
        ])
    );
}

#[test]
fn outcome_is_read_for_the_request_that_was_made() {
    let failed = HttpOutcome::Reply { status: 400, body: "bad".to_string(), parsed: None };
    assert_eq!(
        failed.read(Grant::RefreshToken),
        Err(AuthError::RefreshFailed { status: 400, body: "bad".to_string() })
    );
    let failed = HttpOutcome::Reply { status: 400, body: "bad".to_string(), parsed: None };
    assert_eq!(
        failed.read(Grant::AuthorizationCode),
        Err(AuthError::TokenExchangeFailed { status: 400, body: "bad".to_string() })
    );
    let good = HttpOutcome::Reply {
        status: 200,
        body: String::new(),
        parsed: Some(response("a", Some("r"), Some(5))),
    };
    assert_eq!(good.read(Grant::RefreshToken), Ok(response("a", Some("r"), Some(5))));
    assert_eq!(HttpOutcome::TransportFailed.read(Grant::RefreshToken), Err(AuthError::TransportFailed));
}
