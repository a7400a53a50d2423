//! One authorization attempt as a state machine. The program around the
//! library performs each action and reports what happened as the next event.

use vstd::prelude::*;
use crate::callback::{
    callback_of, callback_result_view, extract_code_from_request, Callback, CallbackView,
};
use crate::cli::Platform;
use crate::clock::Timestamp;
use crate::config::{option_text, TokenInfo, TokenInfoView, TokenStorage};
use crate::error::{AuthError, AuthErrorView};
use crate::exchange::{
    exchange_params, exchanged_token, read_outcome, Grant, HttpOutcome, HttpOutcomeView,
};
use crate::pkce::{
    challenge_of, generate_code_challenge, generate_code_verifier, generate_state, is_state_value,
    is_verifier,
};
use crate::provider::{authorize_url, ProviderConfig, ProviderConfigView};
use crate::text::{pairs_view, same_text};

verus! {

/// How far an attempt has come.
#[derive(Clone, Copy, Debug, PartialEq, Eq, Structural)]
pub enum FlowPhase {
    /// The browser was sent off; the redirect has not arrived.
    AwaitingCallback,
    /// The code was sent to the token endpoint; its answer has not arrived.
    AwaitingToken,
    /// The attempt gave a token.
    Finished,
    /// The attempt was aborted.
    Failed,
}

/// One authorization attempt.
#[derive(Debug, PartialEq, Eq)]
pub struct AuthorizationFlow {
    pub config: ProviderConfig,
    /// The state value of this attempt.
    pub state: String,
    /// The code verifier of this attempt, when proof of key exchange is used.
    pub verifier: Option<String>,
    pub phase: FlowPhase,
}

/// The mathematical value of an `AuthorizationFlow`.
pub struct AuthorizationFlowView {
    pub config: ProviderConfigView,
    pub state: Seq<char>,
    pub verifier: Option<Seq<char>>,
    pub phase: FlowPhase,
}

impl View for AuthorizationFlow {
    type V = AuthorizationFlowView;

    open spec fn view(&self) -> AuthorizationFlowView {
        AuthorizationFlowView {
            config: self.config@,
            state: self.state@,
            verifier: option_text(self.verifier),
            phase: self.phase,
        }
    }
}

/// What happened outside the library.
#[derive(Debug, PartialEq, Eq)]
pub enum AuthEvent {
    /// The loopback port could not be bound.
    ListenerUnavailable,
    /// The listener received its one request; this is the request's first line.
    Callback { request_line: String },
    /// The request to the token endpoint ended.
    Token(HttpOutcome),
}

/// The mathematical value of an `AuthEvent`.
pub enum AuthEventView {
    ListenerUnavailable,
    Callback { request_line: Seq<char> },
    Token(HttpOutcomeView),
}

impl View for AuthEvent {
    type V = AuthEventView;

    open spec fn view(&self) -> AuthEventView {
        match self {
            AuthEvent::ListenerUnavailable => AuthEventView::ListenerUnavailable,
            AuthEvent::Callback { request_line } => AuthEventView::Callback {
                request_line: request_line@,
            },
            AuthEvent::Token(outcome) => AuthEventView::Token(outcome@),
        }
    }
}

/// What the program is to do next.
#[derive(Debug, PartialEq, Eq)]
pub enum AuthAction {
    /// Show `url` to the user and open it in the browser, then accept one
    /// connection on `port` and report the first line of its request.
    Listen { url: String, port: u16 },
    /// Answer the browser with the confirmation page, then post `params` as a
    /// form to `token_url` and report the outcome.
    Exchange { token_url: String, params: Vec<(String, String)> },
    /// Store `token` as `platform`'s record. The attempt is over.
    Store { platform: Platform, token: TokenInfo },
    /// Give up with this error. Nothing is stored.
    Abort(AuthError),
}

/// The mathematical value of an `AuthAction`.
pub enum AuthActionView {
    Listen { url: Seq<char>, port: u16 },
    Exchange { token_url: Seq<char>, params: Seq<(Seq<char>, Seq<char>)> },
    Store { platform: Platform, token: TokenInfoView },
    Abort(AuthErrorView),
}

impl View for AuthAction {
    type V = AuthActionView;

    open spec fn view(&self) -> AuthActionView {
        match self {
            AuthAction::Listen { url, port } => AuthActionView::Listen { url: url@, port: *port },
            AuthAction::Exchange { token_url, params } => AuthActionView::Exchange {
                token_url: token_url@,
                params: pairs_view(params@),
            },
            AuthAction::Store { platform, token } => AuthActionView::Store {
                platform: *platform,
                token: token@,
            },
            AuthAction::Abort(e) => AuthActionView::Abort(e@),
        }
    }
}

impl AuthorizationFlowView {
    /// The attempt in another phase.
    pub open spec fn in_phase(self, phase: FlowPhase) -> Self {
        AuthorizationFlowView { phase, ..self }
    }

    /// Whether the attempt has ended.
    pub open spec fn is_over(self) -> bool {
        self.phase is Finished || self.phase is Failed
    }

    /// Whether a redirect passes the state check: with proof of key exchange
    /// the echoed state must be this attempt's state, letter for letter.
    pub open spec fn accepts_state(self, echoed: Option<Seq<char>>) -> bool {
        self.verifier is Some ==> echoed == Some(self.state)
    }

    /// The attempt and the action after the redirect was read as `parsed`.
    pub open spec fn after_callback(self, parsed: Result<CallbackView, AuthErrorView>) -> (
        AuthorizationFlowView,
        AuthActionView,
    ) {
        match parsed {
            Ok(callback) => if self.accepts_state(callback.state) {
                (
                    self.in_phase(FlowPhase::AwaitingToken),
                    AuthActionView::Exchange {
                        token_url: self.config.token_url,
                        params: exchange_params(self.config, callback.code, self.verifier),
                    },
                )
            } else {
                (
                    self.in_phase(FlowPhase::Failed),
                    AuthActionView::Abort(AuthErrorView::CsrfMismatch),
                )
            },
            Err(e) => (self.in_phase(FlowPhase::Failed), AuthActionView::Abort(e)),
        }
    }

    /// The attempt and the action after the token endpoint's answer at `now`.
    pub open spec fn after_token(self, outcome: HttpOutcomeView, now: Timestamp) -> (
        AuthorizationFlowView,
        AuthActionView,
    ) {
        match read_outcome(outcome, Grant::AuthorizationCode) {
            Ok(response) => (
                self.in_phase(FlowPhase::Finished),
                AuthActionView::Store {
                    platform: self.config.platform,
                    token: exchanged_token(response, now),
                },
            ),
            Err(e) => (self.in_phase(FlowPhase::Failed), AuthActionView::Abort(e)),
        }
    }

    /// The attempt and the action after an event that it was not waiting for:
    /// a running attempt fails, an ended one stays as it is.
    pub open spec fn after_unexpected(self) -> (AuthorizationFlowView, AuthActionView) {
        (
            if self.is_over() {
                self
            } else {
                self.in_phase(FlowPhase::Failed)
            },
            AuthActionView::Abort(AuthErrorView::UnexpectedEvent),
        )
    }

    /// The attempt and the action after `event`, which arrived at `now`.
    pub open spec fn step(self, event: AuthEventView, now: Timestamp) -> (
        AuthorizationFlowView,
        AuthActionView,
    ) {
        match (self.phase, event) {
            (FlowPhase::AwaitingCallback, AuthEventView::ListenerUnavailable) => (
                self.in_phase(FlowPhase::Failed),
                AuthActionView::Abort(AuthErrorView::ListenerUnavailable),
            ),
            (
                FlowPhase::AwaitingCallback,
                AuthEventView::Callback { request_line },
            ) => self.after_callback(callback_of(request_line)),
            (FlowPhase::AwaitingToken, AuthEventView::Token(outcome)) => self.after_token(
                outcome,
                now,
            ),
            _ => self.after_unexpected(),
        }
    }
}

/// The attempt and the first action for a provider, a verifier (when proof of
/// key exchange is used) and a state value.
pub open spec fn begin(config: ProviderConfigView, verifier: Option<Seq<char>>, state: Seq<char>) -> (
    AuthorizationFlowView,
    AuthActionView,
) {
    let challenge = match verifier {
        Some(value) => Some(challenge_of(value)),
        None => None,
    };
    match authorize_url(config, challenge, state) {
        Some(url) => (
            AuthorizationFlowView { config, state, verifier, phase: FlowPhase::AwaitingCallback },
            AuthActionView::Listen { url, port: config.port },
        ),
        None => (
            AuthorizationFlowView { config, state, verifier, phase: FlowPhase::Failed },
            AuthActionView::Abort(AuthErrorView::InvalidAuthorizeUrl),
        ),
    }
}

impl AuthorizationFlow {
    /// Starts an attempt with fresh secrets: a new state value, and a new
    /// verifier exactly when the provider requires proof of key exchange.
    pub fn start(config: ProviderConfig) -> (r: (AuthorizationFlow, AuthAction))
        ensures
            is_state_value(r.0@.state),
            r.0@.verifier is Some <==> config@.requires_pkce,
            r.0@.verifier is Some ==> is_verifier(r.0@.verifier->0),
            (r.0@, r.1@) == begin(config@, r.0@.verifier, r.0@.state),
    {
        let verifier = if config.requires_pkce {
            Some(generate_code_verifier())
        } else {
            None
        };
        let state = generate_state();
        Self::start_with(config, verifier, state)
    }

    /// Starts an attempt with the given secrets. Proof of key exchange is used
    /// when a verifier is given.
    pub fn start_with(config: ProviderConfig, verifier: Option<String>, state: String) -> (r: (
        AuthorizationFlow,
        AuthAction,
    ))
        ensures
            (r.0@, r.1@) == begin(config@, option_text(verifier), state@),
    {
        let built = match &verifier {
            Some(value) => {
                let challenge = generate_code_challenge(value.as_str());
                config.authorize_url(Some(challenge.as_str()), state.as_str())
            },
            None => config.authorize_url(None, state.as_str()),
        };
        match built {
            Ok(url) => {
                let port = config.port;
                (
                    AuthorizationFlow { config, state, verifier, phase: FlowPhase::AwaitingCallback },
                    AuthAction::Listen { url, port },
                )
            },
            Err(e) => (
                AuthorizationFlow { config, state, verifier, phase: FlowPhase::Failed },
                AuthAction::Abort(e),
            ),
        }
    }

    /// Whether a redirect passes the state check.
    pub fn accepts_state(&self, echoed: &Option<String>) -> (r: bool)
        ensures
            r == self@.accepts_state(option_text(*echoed)),
    {
        match &self.verifier {
            Some(_) => match echoed {
                Some(value) => same_text(value.as_str(), self.state.as_str()),
                None => false,
            },
            None => true,
        }
    }

    /// The attempt in another phase.
    fn into_phase(self, phase: FlowPhase) -> (r: AuthorizationFlow)
        ensures
            r@ == self@.in_phase(phase),
    {
        AuthorizationFlow {
            config: self.config,
            state: self.state,
            verifier: self.verifier,
            phase,
        }
    }

    /// Goes on after the redirect was read: checks the state and asks for the
    /// code exchange, or aborts.
    pub fn on_callback(self, parsed: Result<Callback, AuthError>) -> (r: (
        AuthorizationFlow,
        AuthAction,
    ))
        ensures
            (r.0@, r.1@) == self@.after_callback(callback_result_view(parsed)),
    {
        match parsed {
            Ok(callback) => {
                if self.accepts_state(&callback.state) {
                    let params = match &self.verifier {
                        Some(value) => self.config.exchange_code_params(
                            callback.code.as_str(),
                            Some(value.as_str()),
                        ),
                        None => self.config.exchange_code_params(callback.code.as_str(), None),
                    };
                    let token_url = self.config.token_url.clone();
                    (
                        self.into_phase(FlowPhase::AwaitingToken),
                        AuthAction::Exchange { token_url, params },
                    )
                } else {
                    (self.into_phase(FlowPhase::Failed), AuthAction::Abort(AuthError::CsrfMismatch))
                }
            },
            Err(e) => (self.into_phase(FlowPhase::Failed), AuthAction::Abort(e)),
        }
    }

    /// Goes on after the token endpoint's answer: asks for the token to be
    /// stored, or aborts.
    pub fn on_token(self, outcome: HttpOutcome, now: Timestamp) -> (r: (
        AuthorizationFlow,
        AuthAction,
    ))
        ensures
            (r.0@, r.1@) == self@.after_token(outcome@, now),
    {
        match outcome.read(Grant::AuthorizationCode) {
            Ok(response) => {
                let platform = self.config.platform;
                (
                    self.into_phase(FlowPhase::Finished),
                    AuthAction::Store { platform, token: response.into_token(now) },
                )
            },
            Err(e) => (self.into_phase(FlowPhase::Failed), AuthAction::Abort(e)),
        }
    }

    /// Takes one event, which arrived at `now`, and says what to do next.
    pub fn step(self, event: AuthEvent, now: Timestamp) -> (r: (AuthorizationFlow, AuthAction))
        ensures
            (r.0@, r.1@) == self@.step(event@, now),
    {
        match self.phase {
            FlowPhase::AwaitingCallback => match event {
                AuthEvent::ListenerUnavailable => (
                    self.into_phase(FlowPhase::Failed),
                    AuthAction::Abort(AuthError::ListenerUnavailable),
                ),
                AuthEvent::Callback { request_line } => {
                    let parsed = extract_code_from_request(request_line.as_str());
                    self.on_callback(parsed)
                },
                AuthEvent::Token(_) => (
                    self.into_phase(FlowPhase::Failed),
                    AuthAction::Abort(AuthError::UnexpectedEvent),
                ),
            },
            FlowPhase::AwaitingToken => match event {
                AuthEvent::Token(outcome) => self.on_token(outcome, now),
                _ => (
                    self.into_phase(FlowPhase::Failed),
                    AuthAction::Abort(AuthError::UnexpectedEvent),
                ),
            },
            _ => (self, AuthAction::Abort(AuthError::UnexpectedEvent)),
        }
    }
}

/// The storage after a finished attempt: what was stored before, or nothing
/// if that could not be read, with the platform's entry replaced.
pub fn store_token(existing: Option<TokenStorage>, platform: Platform, token: TokenInfo) -> (s:
    TokenStorage)
    ensures
        s@ == (match existing {
            Some(storage) => storage@,
            None => crate::config::TokenStorageView { mixcloud: None, soundcloud: None },
        }).with_entry(platform, token@),
{
    let mut storage = match existing {
        Some(storage) => storage,
        None => TokenStorage::empty(),
    };
    storage.set_tokens(platform, token);
    storage
}

/// The verifier and the challenge travel apart: the authorization request
/// carries the challenge that belongs to the attempt's verifier and never the
/// verifier itself, and the code exchange of the same attempt carries that
/// verifier and no challenge.
pub proof fn lemma_verifier_and_challenge_travel_apart(
    config: ProviderConfigView,
    verifier: Seq<char>,
    state: Seq<char>,
    code: Seq<char>,
)
    ensures
        ({
            let sent = crate::provider::authorize_params(
                config,
                Some(challenge_of(verifier)),
                state,
            );
            &&& sent.contains(("code_challenge"@, challenge_of(verifier)))
            &&& forall|i: int| 0 <= i < sent.len() ==> (#[trigger] sent[i]).0 != "code_verifier"@
        }),
        ({
            let posted = exchange_params(config, code, Some(verifier));
            &&& posted.contains(("code_verifier"@, verifier))
            &&& forall|i: int|
                0 <= i < posted.len() ==> (#[trigger] posted[i]).0 != "code_challenge"@
        }),
{
    reveal_strlit("client_id");
    reveal_strlit("client_secret");
    reveal_strlit("redirect_uri");
    reveal_strlit("response_type");
    reveal_strlit("code_challenge");
    reveal_strlit("code_challenge_method");
    reveal_strlit("state");
    reveal_strlit("scope");
    reveal_strlit("grant_type");
    reveal_strlit("code");
    reveal_strlit("code_verifier");
    let sent = crate::provider::authorize_params(config, Some(challenge_of(verifier)), state);
    let fixed = seq![("client_id"@, config.client_id), ("redirect_uri"@, config.redirect_uri)]
        + seq![
        ("response_type"@, "code"@),
        ("code_challenge"@, challenge_of(verifier)),
        ("code_challenge_method"@, "S256"@),
    ] + seq![("state"@, state)];
    assert(fixed.len() == 6);
    assert(sent =~= fixed + (match config.scope {
        Some(scope) => seq![("scope"@, scope)],
        None => seq![],
    }));
    assert(sent[3] == ("code_challenge"@, challenge_of(verifier)));
    assert("response_type"@[0] != "code_verifier"@[0]);
    assert forall|i: int| 0 <= i < sent.len() implies (#[trigger] sent[i]).0 != "code_verifier"@ by {
        if i == 0 {
            assert(sent[i].0.len() == 9);
        } else if i == 1 {
            assert(sent[i].0.len() == 12);
        } else if i == 2 {
            assert(sent[i].0 == "response_type"@);
        } else if i == 3 {
            assert(sent[i].0.len() == 14);
        } else if i == 4 {
            assert(sent[i].0.len() == 21);
        } else if i == 5 {
            assert(sent[i].0.len() == 5);
        } else {
            assert(sent[i].0 == "scope"@);
            assert(sent[i].0.len() == 5);
        }
    }
    let posted = exchange_params(config, code, Some(verifier));
    assert(posted.len() == 6);
    assert(posted[5] == ("code_verifier"@, verifier));
    assert forall|i: int| 0 <= i < posted.len() implies (#[trigger] posted[i]).0
        != "code_challenge"@ by {
        if i == 0 {
            assert(posted[i].0.len() == 10);
        } else if i == 1 {
            assert(posted[i].0.len() == 9);
        } else if i == 2 {
            assert(posted[i].0.len() == 13);
        } else if i == 3 {
            assert(posted[i].0.len() == 12);
        } else if i == 4 {
            assert(posted[i].0.len() == 4);
        } else {
            assert(posted[i].0.len() == 13);
        }
    }
}

/// With proof of key exchange, a redirect whose state is not the attempt's
/// own state aborts the attempt with a forgery error: no exchange is asked
/// for and nothing is stored.
pub proof fn lemma_state_mismatch_aborts(flow: AuthorizationFlowView, callback: CallbackView)
    requires
        flow.verifier is Some,
        callback.state != Some(flow.state),
    ensures
        flow.after_callback(Ok(callback)).1 == AuthActionView::Abort(AuthErrorView::CsrfMismatch),
        flow.after_callback(Ok(callback)).0.phase is Failed,
{
}

/// A token is stored only in answer to a successful reply of the token
/// endpoint, to an attempt that was waiting for it; every other step leaves
/// the storage alone.
pub proof fn lemma_only_a_token_reply_stores(
    flow: AuthorizationFlowView,
    event: AuthEventView,
    now: Timestamp,
)
    requires
        flow.step(event, now).1 is Store,
    ensures
        flow.phase is AwaitingToken,
        event is Token,
        read_outcome(event->Token_0, Grant::AuthorizationCode) is Ok,
        flow.step(event, now).0.phase is Finished,
{
}

/// The listener is single-shot: once an event was taken, the attempt never
/// waits for a redirect again, and an attempt that is over stays over.
pub proof fn lemma_single_shot(flow: AuthorizationFlowView, event: AuthEventView, now: Timestamp)
    ensures
        !(flow.step(event, now).0.phase is AwaitingCallback),
        flow.is_over() ==> flow.step(event, now).0 == flow,
        flow.is_over() ==> flow.step(event, now).1 is Abort,
{
}

} // verus!
