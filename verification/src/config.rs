//! Client credentials, token records and the storage that maps each platform
//! to its record.

use vstd::prelude::*;
use vstd::string::StringExecFns;
use crate::cli::Platform;
use crate::clock::{now_utc, Span, Timestamp, EXPIRY_BUFFER_SECONDS};
use crate::error::{AuthError, AuthErrorView};
use crate::secrets::{decrypt_string, opened, CredentialError};

verus! {

/// The client identifier and secret that Mixcloud issued to this application.
#[derive(Debug, PartialEq, Eq)]
pub struct MixcloudCredentials {
    pub client_id: String,
    pub client_secret: String,
}

impl Clone for MixcloudCredentials {
    fn clone(&self) -> (c: Self)
        ensures
            c.client_id@ == self.client_id@,
            c.client_secret@ == self.client_secret@,
    {
        Self { client_id: self.client_id.clone(), client_secret: self.client_secret.clone() }
    }
}

impl MixcloudCredentials {
    /// Credentials made of the two values as they are given.
    pub fn new(client_id: String, client_secret: String) -> (c: Self)
        ensures
            c.client_id@ == client_id@,
            c.client_secret@ == client_secret@,
    {
        Self { client_id, client_secret }
    }

    /// Credentials from their sealed form: the identifier is opened first,
    /// then the secret, both with the same key and nonce.
    pub fn decrypt(sealed_id: &str, sealed_secret: &str, key_hex: &str, nonce_hex: &str) -> (r:
        Result<Self, CredentialError>)
        ensures
            match r {
                Ok(c) => opened(sealed_id@, key_hex@, nonce_hex@) == Ok::<
                    Seq<char>,
                    CredentialError,
                >(c.client_id@) && opened(sealed_secret@, key_hex@, nonce_hex@) == Ok::<
                    Seq<char>,
                    CredentialError,
                >(c.client_secret@),
                Err(e) => opened(sealed_id@, key_hex@, nonce_hex@) == Err::<
                    Seq<char>,
                    CredentialError,
                >(e) || (opened(sealed_id@, key_hex@, nonce_hex@) is Ok && opened(
                    sealed_secret@,
                    key_hex@,
                    nonce_hex@,
                ) == Err::<Seq<char>, CredentialError>(e)),
            },
    {
        let client_id = match decrypt_string(sealed_id, key_hex, nonce_hex) {
            Ok(text) => text,
            Err(e) => {
                return Err(e);
            },
        };
        let client_secret = match decrypt_string(sealed_secret, key_hex, nonce_hex) {
            Ok(text) => text,
            Err(e) => {
                return Err(e);
            },
        };
        Ok(Self { client_id, client_secret })
    }
}

/// The client identifier and secret that SoundCloud issued to this application.
#[derive(Debug, PartialEq, Eq)]
pub struct SoundcloudCredentials {
    pub client_id: String,
    pub client_secret: String,
}

impl Clone for SoundcloudCredentials {
    fn clone(&self) -> (c: Self)
        ensures
            c.client_id@ == self.client_id@,
            c.client_secret@ == self.client_secret@,
    {
        Self { client_id: self.client_id.clone(), client_secret: self.client_secret.clone() }
    }
}

impl SoundcloudCredentials {
    /// Credentials made of the two values as they are given.
    pub fn new(client_id: String, client_secret: String) -> (c: Self)
        ensures
            c.client_id@ == client_id@,
            c.client_secret@ == client_secret@,
    {
        Self { client_id, client_secret }
    }

    /// Credentials from their sealed form: the identifier is opened first,
    /// then the secret, both with the same key and nonce.
    pub fn decrypt(sealed_id: &str, sealed_secret: &str, key_hex: &str, nonce_hex: &str) -> (r:
        Result<Self, CredentialError>)
        ensures
            match r {
                Ok(c) => opened(sealed_id@, key_hex@, nonce_hex@) == Ok::<
                    Seq<char>,
                    CredentialError,
                >(c.client_id@) && opened(sealed_secret@, key_hex@, nonce_hex@) == Ok::<
                    Seq<char>,
                    CredentialError,
                >(c.client_secret@),
                Err(e) => opened(sealed_id@, key_hex@, nonce_hex@) == Err::<
                    Seq<char>,
                    CredentialError,
                >(e) || (opened(sealed_id@, key_hex@, nonce_hex@) is Ok && opened(
                    sealed_secret@,
                    key_hex@,
                    nonce_hex@,
                ) == Err::<Seq<char>, CredentialError>(e)),
            },
    {
        let client_id = match decrypt_string(sealed_id, key_hex, nonce_hex) {
            Ok(text) => text,
            Err(e) => {
                return Err(e);
            },
        };
        let client_secret = match decrypt_string(sealed_secret, key_hex, nonce_hex) {
            Ok(text) => text,
            Err(e) => {
                return Err(e);
            },
        };
        Ok(Self { client_id, client_secret })
    }
}

/// A token record: what a successful exchange or refresh left behind.
#[derive(Debug, PartialEq, Eq)]
pub struct TokenInfo {
    pub access_token: String,
    pub refresh_token: Option<String>,
    /// The instant at which the record was made.
    pub created_at: Timestamp,
    /// Seconds from `created_at` until the token expires, if known.
    pub expires_in: Option<i64>,
}

/// The mathematical value of a token record.
pub struct TokenInfoView {
    pub access_token: Seq<char>,
    pub refresh_token: Option<Seq<char>>,
    pub created_at: Timestamp,
    pub expires_in: Option<i64>,
}

/// The value of an optional string.
pub open spec fn option_text(s: Option<String>) -> Option<Seq<char>> {
    match s {
        Some(t) => Some(t@),
        None => None,
    }
}

/// A copy of an optional string.
pub fn clone_option_text(s: &Option<String>) -> (c: Option<String>)
    ensures
        option_text(c) == option_text(*s),
{
    match s {
        Some(t) => Some(t.clone()),
        None => None,
    }
}

impl View for TokenInfo {
    type V = TokenInfoView;

    open spec fn view(&self) -> TokenInfoView {
        TokenInfoView {
            access_token: self.access_token@,
            refresh_token: option_text(self.refresh_token),
            created_at: self.created_at,
            expires_in: self.expires_in,
        }
    }
}

impl TokenInfoView {
    /// The instant, in nanoseconds since the epoch, from which the record
    /// counts as expired: five minutes before the end of its lifetime.
    pub open spec fn expiry_threshold(self) -> int
        recommends
            self.expires_in is Some,
    {
        self.created_at.as_nanos() + (self.expires_in->0 - EXPIRY_BUFFER_SECONDS)
            * 1_000_000_000
    }

    /// Whether the record is expired, or will be within five minutes, at `now`.
    /// A record without a lifetime never is.
    pub open spec fn is_expired_at(self, now: Timestamp) -> bool {
        match self.expires_in {
            Some(_) => now.as_nanos() >= self.expiry_threshold(),
            None => false,
        }
    }

    /// Nanoseconds from `now` to the end of the record's lifetime; negative
    /// once it has passed.
    pub open spec fn nanos_left_at(self, now: Timestamp) -> int
        recommends
            self.expires_in is Some,
    {
        self.created_at.as_nanos() + self.expires_in->0 * 1_000_000_000 - now.as_nanos()
    }

    /// The time left at `now`: nothing for a record without a lifetime, the
    /// empty span when less than a whole second is left.
    pub open spec fn time_until_expiry_at(self, now: Timestamp) -> Option<int> {
        match self.expires_in {
            Some(_) => if self.nanos_left_at(now) >= 1_000_000_000 {
                Some(self.nanos_left_at(now))
            } else {
                Some(0)
            },
            None => None,
        }
    }
}

impl Clone for TokenInfo {
    fn clone(&self) -> (c: Self)
        ensures
            c@ == self@,
    {
        TokenInfo {
            access_token: self.access_token.clone(),
            refresh_token: clone_option_text(&self.refresh_token),
            created_at: self.created_at,
            expires_in: self.expires_in,
        }
    }
}

impl TokenInfo {
    /// A record made now: the creation instant is read from the system clock.
    pub fn new(access_token: String, refresh_token: Option<String>, expires_in: Option<i64>) -> (t:
        Self)
        ensures
            t@.access_token == access_token@,
            t@.refresh_token == option_text(refresh_token),
            t@.expires_in == expires_in,
            t@.created_at.nanos < crate::clock::NANOS_PER_SECOND,
    {
        Self::created_at(access_token, refresh_token, expires_in, now_utc())
    }

    /// A record made at the instant `created_at`.
    pub fn created_at(
        access_token: String,
        refresh_token: Option<String>,
        expires_in: Option<i64>,
        created_at: Timestamp,
    ) -> (t: Self)
        ensures
            t@ == (TokenInfoView {
                access_token: access_token@,
                refresh_token: option_text(refresh_token),
                created_at,
                expires_in,
            }),
    {
        Self { access_token, refresh_token, created_at, expires_in }
    }

    /// Whether the token is expired, or will be within five minutes, at `now`.
    pub fn is_expired_at(&self, now: Timestamp) -> (r: bool)
        ensures
            r == self@.is_expired_at(now),
    {
        match self.expires_in {
            Some(expires_in) => {
                let lifetime: i128 = expires_in as i128;
                let buffer: i128 = EXPIRY_BUFFER_SECONDS as i128;
                let threshold: i128 = self.created_at.total_nanos() + (lifetime - buffer)
                    * 1_000_000_000;
                now.total_nanos() >= threshold
            },
            None => false,
        }
    }

    /// Whether the token is expired, or will be within five minutes, by the
    /// system clock. A token without a lifetime never is.
    pub fn is_expired(&self) -> (r: bool)
        ensures
            self@.expires_in is None ==> !r,
            exists|now: Timestamp| r == self@.is_expired_at(now),
    {
        let now = now_utc();
        self.is_expired_at(now)
    }

    /// The time left at `now` until the token expires.
    pub fn time_until_expiry_at(&self, now: Timestamp) -> (r: Option<Span>)
        ensures
            match r {
                Some(span) => self@.time_until_expiry_at(now) == Some(span.nanos as int),
                None => self@.time_until_expiry_at(now) is None,
            },
    {
        match self.expires_in {
            Some(expires_in) => {
                let lifetime: i128 = expires_in as i128;
                let left: i128 = self.created_at.total_nanos() + lifetime * 1_000_000_000
                    - now.total_nanos();
                if left >= 1_000_000_000 {
                    Some(Span { nanos: left })
                } else {
                    Some(Span::zero())
                }
            },
            None => None,
        }
    }

    /// The time left until the token expires, by the system clock: nothing for
    /// a token without a lifetime, and never a negative span.
    pub fn time_until_expiry(&self) -> (r: Option<Span>)
        ensures
            r is Some <==> self@.expires_in is Some,
            r is Some ==> r->0.nanos == 0 || r->0.nanos >= 1_000_000_000,
    {
        let now = now_utc();
        self.time_until_expiry_at(now)
    }
}

/// The stored tokens: for each platform at most one record.
#[derive(Debug, PartialEq, Eq)]
pub struct TokenStorage {
    pub mixcloud: Option<TokenInfo>,
    pub soundcloud: Option<TokenInfo>,
}

/// The value of an optional token record.
pub open spec fn option_token(t: Option<TokenInfo>) -> Option<TokenInfoView> {
    match t {
        Some(info) => Some(info@),
        None => None,
    }
}

/// A copy of an optional token record.
pub fn clone_option_token(t: &Option<TokenInfo>) -> (c: Option<TokenInfo>)
    ensures
        option_token(c) == option_token(*t),
{
    match t {
        Some(info) => Some(info.clone()),
        None => None,
    }
}

/// The mathematical value of a token storage.
pub struct TokenStorageView {
    pub mixcloud: Option<TokenInfoView>,
    pub soundcloud: Option<TokenInfoView>,
}

impl TokenStorageView {
    /// The record stored for `platform`, if there is one.
    pub open spec fn entry(self, platform: Platform) -> Option<TokenInfoView> {
        match platform {
            Platform::Mixcloud => self.mixcloud,
            Platform::Soundcloud => self.soundcloud,
        }
    }

    /// The storage with `platform`'s entry replaced by `token` and every other
    /// entry as it was.
    pub open spec fn with_entry(self, platform: Platform, token: TokenInfoView) -> Self {
        match platform {
            Platform::Mixcloud => TokenStorageView { mixcloud: Some(token), ..self },
            Platform::Soundcloud => TokenStorageView { soundcloud: Some(token), ..self },
        }
    }
}

impl View for TokenStorage {
    type V = TokenStorageView;

    open spec fn view(&self) -> TokenStorageView {
        TokenStorageView {
            mixcloud: option_token(self.mixcloud),
            soundcloud: option_token(self.soundcloud),
        }
    }
}

impl Clone for TokenStorage {
    fn clone(&self) -> (c: Self)
        ensures
            c@ == self@,
    {
        TokenStorage {
            mixcloud: clone_option_token(&self.mixcloud),
            soundcloud: clone_option_token(&self.soundcloud),
        }
    }
}

impl TokenStorage {
    /// The storage that a missing token file stands for: no platform is
    /// authorized.
    pub fn empty() -> (s: Self)
        ensures
            s@.mixcloud is None,
            s@.soundcloud is None,
    {
        TokenStorage { mixcloud: None, soundcloud: None }
    }

    /// The components of the token file's path, outermost first, for the given
    /// values of the configuration root override and of the home directory.
    /// The override wins; without either there is no path.
    pub fn token_path(xdg_config_home: Option<String>, home_dir: Option<String>) -> (r: Option<
        Vec<String>,
    >)
        ensures
            match r {
                Some(parts) => Some(crate::config::texts(parts@)) == token_path_parts(
                    option_text(xdg_config_home),
                    option_text(home_dir),
                ),
                None => token_path_parts(option_text(xdg_config_home), option_text(home_dir))
                    is None,
            },
    {
        let mut parts: Vec<String> = Vec::new();
        match xdg_config_home {
            Some(root) => {
                parts.push(root);
            },
            None => match home_dir {
                Some(home) => {
                    parts.push(home);
                    parts.push(String::from_str(".config"));
                },
                None => {
                    return None;
                },
            },
        }
        parts.push(String::from_str("dj-uploader"));
        parts.push(String::from_str("tokens.json"));
        proof {
            let want = token_path_parts(option_text(xdg_config_home), option_text(home_dir))->0;
            assert(texts(parts@) =~= want);
        }
        Some(parts)
    }

    /// Stores `token_info` as `platform`'s record and leaves every other entry
    /// as it was.
    pub fn set_tokens(&mut self, platform: Platform, token_info: TokenInfo)
        ensures
            final(self)@ == old(self)@.with_entry(platform, token_info@),
    {
        match platform {
            Platform::Mixcloud => {
                self.mixcloud = Some(token_info);
            },
            Platform::Soundcloud => {
                self.soundcloud = Some(token_info);
            },
        }
    }

    /// The record stored for `platform`, if there is one.
    pub fn get_token(&self, platform: Platform) -> (r: Option<&TokenInfo>)
        ensures
            match r {
                Some(info) => self@.entry(platform) == Some(info@),
                None => self@.entry(platform) is None,
            },
    {
        match platform {
            Platform::Mixcloud => self.mixcloud.as_ref(),
            Platform::Soundcloud => self.soundcloud.as_ref(),
        }
    }

    /// Stores `token_info` as Mixcloud's record.
    pub fn set_mixcloud_tokens(&mut self, token_info: TokenInfo)
        ensures
            final(self)@ == old(self)@.with_entry(Platform::Mixcloud, token_info@),
    {
        self.set_tokens(Platform::Mixcloud, token_info);
    }

    /// Mixcloud's record, or an error when the application is not authorized
    /// with Mixcloud.
    pub fn get_mixcloud_token(&self) -> (r: Result<&TokenInfo, AuthError>)
        ensures
            match r {
                Ok(info) => self@.mixcloud == Some(info@),
                Err(e) => self@.mixcloud is None && e@ == (AuthErrorView::NotAuthorized {
                    platform: Platform::Mixcloud,
                }),
            },
    {
        match self.get_token(Platform::Mixcloud) {
            Some(info) => Ok(info),
            None => Err(AuthError::NotAuthorized { platform: Platform::Mixcloud }),
        }
    }
}

/// The values of a sequence of strings.
pub open spec fn texts(v: Seq<String>) -> Seq<Seq<char>> {
    Seq::new(v.len(), |i: int| v[i]@)
}

/// The components of the token file's path: the configuration root, which is
/// the override if there is one and `.config` under the home directory
/// otherwise, then the application's directory and the file's name.
pub open spec fn token_path_parts(xdg_config_home: Option<Seq<char>>, home_dir: Option<
    Seq<char>,
>) -> Option<Seq<Seq<char>>> {
    match xdg_config_home {
        Some(root) => Some(seq![root, "dj-uploader"@, "tokens.json"@]),
        None => match home_dir {
            Some(home) => Some(seq![home, ".config"@, "dj-uploader"@, "tokens.json"@]),
            None => None,
        },
    }
}

/// A token that is expired at one instant is expired at every later one.
pub proof fn lemma_is_expired_monotonic(token: TokenInfoView, earlier: Timestamp, later: Timestamp)
    requires
        token.is_expired_at(earlier),
        earlier.as_nanos() <= later.as_nanos(),
    ensures
        token.is_expired_at(later),
{
}

/// With a known lifetime, a token is expired exactly from five minutes before
/// the end of that lifetime on.
pub proof fn lemma_expiry_boundary(token: TokenInfoView, now: Timestamp)
    requires
        token.expires_in is Some,
    ensures
        token.is_expired_at(now) <==> now.as_nanos() - token.created_at.as_nanos() >= (
        token.expires_in->0 - 300) * 1_000_000_000,
{
}

} // verus!
