//! What the library knows of one OAuth2 provider, and the authorize URL that
//! is built from it.

use vstd::prelude::*;
use vstd::string::StringExecFns;
use crate::cli::Platform;
use crate::config::{clone_option_text, option_text};
use crate::error::AuthError;
use crate::text::{pair, pairs_view};

verus! {

/// The static description of one provider.
#[derive(Debug, PartialEq, Eq)]
pub struct ProviderConfig {
    pub platform: Platform,
    /// The endpoint that the user's browser is sent to.
    pub authorize_url: String,
    /// The endpoint that exchanges codes and refresh tokens for tokens.
    pub token_url: String,
    /// The loopback address that the provider redirects the browser to.
    pub redirect_uri: String,
    /// The port that `redirect_uri` names, on which the callback is awaited.
    pub port: u16,
    /// Whether the provider wants proof of key exchange.
    pub requires_pkce: bool,
    /// The scope to ask for, if any.
    pub scope: Option<String>,
    pub client_id: String,
    pub client_secret: String,
}

/// The mathematical value of a `ProviderConfig`.
pub struct ProviderConfigView {
    pub platform: Platform,
    pub authorize_url: Seq<char>,
    pub token_url: Seq<char>,
    pub redirect_uri: Seq<char>,
    pub port: u16,
    pub requires_pkce: bool,
    pub scope: Option<Seq<char>>,
    pub client_id: Seq<char>,
    pub client_secret: Seq<char>,
}

impl View for ProviderConfig {
    type V = ProviderConfigView;

    open spec fn view(&self) -> ProviderConfigView {
        ProviderConfigView {
            platform: self.platform,
            authorize_url: self.authorize_url@,
            token_url: self.token_url@,
            redirect_uri: self.redirect_uri@,
            port: self.port,
            requires_pkce: self.requires_pkce,
            scope: option_text(self.scope),
            client_id: self.client_id@,
            client_secret: self.client_secret@,
        }
    }
}

impl Clone for ProviderConfig {
    fn clone(&self) -> (c: Self)
        ensures
            c@ == self@,
    {
        ProviderConfig {
            platform: self.platform,
            authorize_url: self.authorize_url.clone(),
            token_url: self.token_url.clone(),
            redirect_uri: self.redirect_uri.clone(),
            port: self.port,
            requires_pkce: self.requires_pkce,
            scope: clone_option_text(&self.scope),
            client_id: self.client_id.clone(),
            client_secret: self.client_secret.clone(),
        }
    }
}

/// `url::Url`, a parsed URL. Nothing inside it is visible here.
#[verifier::external_type_specification]
#[verifier::external_body]
pub struct ExUrl(url::Url);

/// `url::ParseError`, the reason why a text is not a URL. It is only passed
/// through.
#[verifier::external_type_specification]
#[verifier::external_body]
pub struct ExParseError(url::ParseError);

/// The serialization that a parsed URL holds.
pub uninterp spec fn url_text(url: url::Url) -> Seq<char>;

/// The serialization of the URL that `input` parses to, if it parses.
pub uninterp spec fn url_parse(input: Seq<char>) -> Option<Seq<char>>;

/// The serialization of a URL after one more name/value pair was appended to
/// its query string.
pub uninterp spec fn url_with_pair(text: Seq<char>, key: Seq<char>, value: Seq<char>) -> Seq<char>;

/// The decoded name/value pairs of a URL's query string, in order.
pub uninterp spec fn url_query_pairs(text: Seq<char>) -> Seq<(Seq<char>, Seq<char>)>;

/// `url::Url::parse` reads an absolute URL. Whether it succeeds, and the
/// serialization of the URL it gives, depend on the input alone.
pub assume_specification[ url::Url::parse ](input: &str) -> (r: Result<url::Url, url::ParseError>)
    ensures
        match r {
            Ok(url) => url_parse(input@) == Some(url_text(url)),
            Err(_) => url_parse(input@) is None,
        },
;

/// `url::Url::as_str` hands out the URL's serialization.
pub assume_specification[ url::Url::as_str ](url: &url::Url) -> (text: &str)
    ensures
        text@ == url_text(*url),
;

/// Appends one pair to the query string with `Url::query_pairs_mut` and
/// `Serializer::append_pair`, which percent-encodes both parts. A `Url` is
/// determined by its serialization, so the new serialization depends on the
/// old one and on the pair alone.
#[verifier::external_body]
fn append_query_pair(url: &mut url::Url, key: &str, value: &str)
    ensures
        url_text(*final(url)) == url_with_pair(url_text(*old(url)), key@, value@),
{
    url.query_pairs_mut().append_pair(key, value);
}

/// Reads the query string with `Url::query_pairs`, which splits it at `&` and
/// `=` and decodes both parts of each pair, and collects the pairs in order.
#[verifier::external_body]
pub(crate) fn query_pairs(url: &url::Url) -> (pairs: Vec<(String, String)>)
    ensures
        pairs_view(pairs@) == url_query_pairs(url_text(*url)),
{
    url.query_pairs().into_owned().collect()
}

/// The serialization `text` after each of `pairs` was appended to its query
/// string, in order.
pub open spec fn with_pairs(text: Seq<char>, pairs: Seq<(Seq<char>, Seq<char>)>) -> Seq<char>
    decreases pairs.len(),
{
    if pairs.len() == 0 {
        text
    } else {
        url_with_pair(with_pairs(text, pairs.drop_last()), pairs.last().0, pairs.last().1)
    }
}

/// The query parameters of an authorization request: the client, the redirect
/// address, the proof-of-key-exchange parameters when a challenge is sent, the
/// state value, and the scope when the provider has one.
pub open spec fn authorize_params(
    config: ProviderConfigView,
    challenge: Option<Seq<char>>,
    state: Seq<char>,
) -> Seq<(Seq<char>, Seq<char>)> {
    seq![("client_id"@, config.client_id), ("redirect_uri"@, config.redirect_uri)] + (match challenge {
        Some(value) => seq![
            ("response_type"@, "code"@),
            ("code_challenge"@, value),
            ("code_challenge_method"@, "S256"@),
        ],
        None => seq![],
    }) + seq![("state"@, state)] + (match config.scope {
        Some(scope) => seq![("scope"@, scope)],
        None => seq![],
    })
}

/// The authorize URL for one attempt, if the provider's endpoint is a URL.
pub open spec fn authorize_url(
    config: ProviderConfigView,
    challenge: Option<Seq<char>>,
    state: Seq<char>,
) -> Option<Seq<char>> {
    match url_parse(config.authorize_url) {
        Some(base) => Some(with_pairs(base, authorize_params(config, challenge, state))),
        None => None,
    }
}

impl ProviderConfig {
    /// The query parameters of an authorization request, in the order in which
    /// they are appended to the authorize endpoint.
    pub fn authorize_params(&self, challenge: Option<&str>, state: &str) -> (params: Vec<
        (String, String),
    >)
        ensures
            pairs_view(params@) == authorize_params(
                self@,
                match challenge {
                    Some(value) => Some(value@),
                    None => None,
                },
                state@,
            ),
    {
        let mut params: Vec<(String, String)> = Vec::new();
        params.push(pair("client_id", self.client_id.as_str()));
        params.push(pair("redirect_uri", self.redirect_uri.as_str()));
        match challenge {
            Some(value) => {
                params.push(pair("response_type", "code"));
                params.push(pair("code_challenge", value));
                params.push(pair("code_challenge_method", "S256"));
            },
            None => {},
        }
        params.push(pair("state", state));
        match &self.scope {
            Some(scope) => {
                params.push(pair("scope", scope.as_str()));
            },
            None => {},
        }
        assert(pairs_view(params@) =~= authorize_params(
            self@,
            match challenge {
                Some(value) => Some(value@),
                None => None,
            },
            state@,
        ));
        params
    }

    /// The URL to open in the browser for one authorization attempt: the
    /// authorize endpoint with the request's parameters appended.
    pub fn authorize_url(&self, challenge: Option<&str>, state: &str) -> (r: Result<
        String,
        AuthError,
    >)
        ensures
            match r {
                Ok(text) => Some(text@) == authorize_url(
                    self@,
                    match challenge {
                        Some(value) => Some(value@),
                        None => None,
                    },
                    state@,
                ),
                Err(e) => e@ == crate::error::AuthErrorView::InvalidAuthorizeUrl && url_parse(
                    self@.authorize_url,
                ) is None,
            },
    {
        let params = self.authorize_params(challenge, state);
        match url::Url::parse(self.authorize_url.as_str()) {
            Ok(url) => Ok(append_pairs(url, &params)),
            Err(_) => Err(AuthError::InvalidAuthorizeUrl),
        }
    }
}

/// Appends each of `pairs` to the query string of `url` and gives the
/// serialization of the result.
pub fn append_pairs(url: url::Url, pairs: &Vec<(String, String)>) -> (text: String)
    ensures
        text@ == with_pairs(url_text(url), pairs_view(pairs@)),
{
    let mut url = url;
    let ghost base = url_text(url);
    let mut i: usize = 0;
    while i < pairs.len()
        invariant
            i <= pairs.len(),
            url_text(url) == with_pairs(base, pairs_view(pairs@).take(i as int)),
        decreases pairs.len() - i,
    {
        append_query_pair(&mut url, pairs[i].0.as_str(), pairs[i].1.as_str());
        proof {
            let all = pairs_view(pairs@);
            assert(all.take(i + 1).drop_last() =~= all.take(i as int));
            assert(all.take(i + 1).last() == all[i as int]);
        }
        i += 1;
    }
    assert(pairs_view(pairs@).take(i as int) =~= pairs_view(pairs@));
    String::from_str(url.as_str())
}

} // verus!
