//! The state machine that authorizes one request.
//!
//! A unit starts out awaiting its dispatch. The host sends the authorization
//! call that the unit describes and reports how that went; later it reports
//! the backend's reply. Each report moves the unit at most once, and every
//! anomaly ends in a rejection.

use crate::config::{FilterConfig, FilterConfigView};
use crate::headers::{last_value, Header, HeaderMap};
use vstd::prelude::*;

verus! {

/// Where a request stands.
#[derive(Clone, Copy, PartialEq, Eq, Structural, Debug)]
pub enum RequestAuthState {
    /// No authorization call has been recorded yet.
    AwaitingDispatch,
    /// The call was accepted under this token and its reply is outstanding.
    Pending(u32),
    /// The backend confirmed the request; it has been released.
    Allowed,
    /// The request has been answered with the rejection.
    Denied,
}

/// What the host does with the stream that a handler was called for.
#[derive(Clone, Copy, PartialEq, Eq, Structural, Debug)]
pub enum Action {
    Continue,
    Pause,
}

/// How the attempt to send the authorization call went.
#[derive(Clone, Copy, PartialEq, Eq, Structural, Debug)]
pub enum DispatchOutcome {
    /// The host accepted the call and names it by this token.
    Accepted(u32),
    /// The call could not be issued.
    Failed,
}

/// Why a request is rejected. The rejection itself is the same for all.
#[derive(Clone, Copy, PartialEq, Eq, Structural, Debug)]
pub enum AuthError {
    /// The authorization call could not be issued.
    DispatchError,
    /// The reply was reported with no headers at all.
    EmptyAuthResponse,
    /// The reply's status is missing or is not exactly `200`.
    AuthDenied,
}

/// The authorization call that the host is asked to send.
#[derive(PartialEq, Eq, Debug)]
pub struct DispatchRequest {
    pub upstream: String,
    pub headers: HeaderMap,
    pub body: Option<Vec<u8>>,
    pub trailers: HeaderMap,
    pub timeout_secs: u64,
}

/// A [`DispatchRequest`] as a mathematical value.
pub struct DispatchRequestView {
    pub upstream: Seq<char>,
    pub headers: Seq<Header>,
    pub body: Option<Seq<u8>>,
    pub trailers: Seq<Header>,
    pub timeout_secs: nat,
}

impl View for DispatchRequest {
    type V = DispatchRequestView;

    open spec fn view(&self) -> DispatchRequestView {
        DispatchRequestView {
            upstream: self.upstream@,
            headers: self.headers@,
            body: match self.body {
                Some(bytes) => Some(bytes@),
                None => None,
            },
            trailers: self.trailers@,
            timeout_secs: self.timeout_secs as nat,
        }
    }
}

/// The response that answers a rejected request.
#[derive(PartialEq, Eq, Debug)]
pub struct DenyResponse {
    pub status: u32,
    pub headers: HeaderMap,
    pub body: String,
}

/// A [`DenyResponse`] as a mathematical value.
pub struct DenyResponseView {
    pub status: nat,
    pub headers: Seq<Header>,
    pub body: Seq<char>,
}

impl View for DenyResponse {
    type V = DenyResponseView;

    open spec fn view(&self) -> DenyResponseView {
        DenyResponseView {
            status: self.status as nat,
            headers: self.headers@,
            body: self.body@,
        }
    }
}

/// What the host has to carry out after a handler returns.
#[derive(PartialEq, Eq, Debug)]
pub enum Effect {
    /// Nothing.
    Nothing,
    /// Answer the request with `response` and never forward it. `reason` is
    /// for the log only.
    Deny { response: DenyResponse, reason: AuthError },
    /// Release the request towards its destination, as it came in.
    Resume,
}

/// An [`Effect`] as a mathematical value.
pub enum EffectView {
    Nothing,
    Deny { response: DenyResponseView, reason: AuthError },
    Resume,
}

impl View for Effect {
    type V = EffectView;

    open spec fn view(&self) -> EffectView {
        match self {
            Effect::Nothing => EffectView::Nothing,
            Effect::Deny { response, reason } => EffectView::Deny {
                response: response@,
                reason: *reason,
            },
            Effect::Resume => EffectView::Resume,
        }
    }
}

/// A handler's answer: what happens to the stream, and what the host has to
/// carry out.
#[derive(PartialEq, Eq, Debug)]
pub struct Directive {
    pub action: Action,
    pub effect: Effect,
}

/// A [`Directive`] as a mathematical value.
pub struct DirectiveView {
    pub action: Action,
    pub effect: EffectView,
}

impl View for Directive {
    type V = DirectiveView;

    open spec fn view(&self) -> DirectiveView {
        DirectiveView { action: self.action, effect: self.effect@ }
    }
}

/// The unit that authorizes one request. It owns its own copy of the
/// configuration.
#[derive(Debug)]
pub struct RequestAuth {
    config: FilterConfig,
    state: RequestAuthState,
}

/// A [`RequestAuth`] as a mathematical value.
pub struct RequestAuthView {
    pub config: FilterConfigView,
    pub state: RequestAuthState,
}

impl View for RequestAuth {
    type V = RequestAuthView;

    closed spec fn view(&self) -> RequestAuthView {
        RequestAuthView { config: self.config@, state: self.state }
    }
}

/// The name of the header that carries the reply's status.
pub open spec fn status_header() -> Seq<char> {
    ":status"@
}

/// The one status that confirms a request.
pub open spec fn success_status() -> Seq<char> {
    "200"@
}

/// The header that is added to the response of a confirmed request.
pub open spec fn added_header() -> Header {
    ("Hello"@, "world"@)
}

/// The headers of every authorization call.
pub open spec fn call_headers() -> Seq<Header> {
    seq![(":method"@, "GET"@), (":path"@, "/"@), (":authority"@, "www.google.com"@)]
}

/// The authorization call for the backend `cluster`: the fixed headers, no
/// body, no trailers, and a budget of one second.
pub open spec fn authorization_call(cluster: Seq<char>) -> DispatchRequestView {
    DispatchRequestView {
        upstream: cluster,
        headers: call_headers(),
        body: None,
        trailers: Seq::empty(),
        timeout_secs: 1,
    }
}

/// The rejection: status 403, no headers, body `not authorized`.
pub open spec fn deny_response() -> DenyResponseView {
    DenyResponseView { status: 403, headers: Seq::empty(), body: "not authorized"@ }
}

/// Whether a state is final: no report moves the unit out of it.
pub open spec fn is_terminal(state: RequestAuthState) -> bool {
    state is Allowed || state is Denied
}

/// What a reply decides. `num_headers` is the count that the host reported,
/// `headers` the reply's headers read last write wins.
pub open spec fn reply_verdict(num_headers: nat, headers: Seq<Header>) -> Result<(), AuthError> {
    if num_headers == 0 {
        Err(AuthError::EmptyAuthResponse)
    } else if last_value(headers, status_header()) == Some(success_status()) {
        Ok(())
    } else {
        Err(AuthError::AuthDenied)
    }
}

/// The state after the deny path was taken.
pub open spec fn state_after_fail(state: RequestAuthState) -> RequestAuthState {
    if is_terminal(state) {
        state
    } else {
        RequestAuthState::Denied
    }
}

/// What the deny path emits: the rejection, unless the request has been
/// answered or released before.
pub open spec fn effect_of_fail(state: RequestAuthState, reason: AuthError) -> EffectView {
    if is_terminal(state) {
        EffectView::Nothing
    } else {
        EffectView::Deny { response: deny_response(), reason }
    }
}

/// The state after the outcome of the dispatch was recorded.
pub open spec fn state_after_dispatch(
    state: RequestAuthState,
    outcome: DispatchOutcome,
) -> RequestAuthState {
    match (state, outcome) {
        (RequestAuthState::AwaitingDispatch, DispatchOutcome::Accepted(token)) => {
            RequestAuthState::Pending(token)
        },
        (RequestAuthState::AwaitingDispatch, DispatchOutcome::Failed) => RequestAuthState::Denied,
        _ => state,
    }
}

/// What recording the outcome of the dispatch emits.
pub open spec fn effect_of_dispatch(state: RequestAuthState, outcome: DispatchOutcome) -> EffectView {
    match (state, outcome) {
        (RequestAuthState::AwaitingDispatch, DispatchOutcome::Failed) => effect_of_fail(
            state,
            AuthError::DispatchError,
        ),
        _ => EffectView::Nothing,
    }
}

/// What the host does with the request stream while the unit is in `state`:
/// the request goes on only once it is confirmed.
pub open spec fn request_action(state: RequestAuthState) -> Action {
    if state is Allowed {
        Action::Continue
    } else {
        Action::Pause
    }
}

/// The state after a reply was recorded.
pub open spec fn state_after_reply(
    state: RequestAuthState,
    num_headers: nat,
    headers: Seq<Header>,
) -> RequestAuthState {
    if state is Pending {
        if reply_verdict(num_headers, headers) is Ok {
            RequestAuthState::Allowed
        } else {
            RequestAuthState::Denied
        }
    } else {
        state
    }
}

/// What recording a reply emits.
pub open spec fn effect_of_reply(
    state: RequestAuthState,
    num_headers: nat,
    headers: Seq<Header>,
) -> EffectView {
    if state is Pending {
        match reply_verdict(num_headers, headers) {
            Ok(_) => EffectView::Resume,
            Err(reason) => effect_of_fail(state, reason),
        }
    } else {
        EffectView::Nothing
    }
}

/// The response headers that leave the filter: those from upstream, and
/// behind them the added header where the request was confirmed.
pub open spec fn response_headers(state: RequestAuthState, upstream: Seq<Header>) -> Seq<Header> {
    if state is Allowed {
        upstream.push(added_header())
    } else {
        upstream
    }
}

/// The headers of every authorization call.
pub fn fixed_call_headers() -> (headers: HeaderMap)
    ensures
        headers@ == call_headers(),
{
    let mut headers = HeaderMap::new();
    headers.push(":method".to_owned(), "GET".to_owned());
    headers.push(":path".to_owned(), "/".to_owned());
    headers.push(":authority".to_owned(), "www.google.com".to_owned());
    assert(headers@ =~= call_headers());
    headers
}

/// The rejection that answers every denied request.
pub fn not_authorized() -> (response: DenyResponse)
    ensures
        response@ == deny_response(),
{
    DenyResponse { status: 403, headers: HeaderMap::new(), body: "not authorized".to_owned() }
}

/// Decides a reply: `Ok` exactly where at least one header was reported and
/// the last `:status` header is exactly `200`.
pub fn auth_verdict(num_headers: usize, headers: &HeaderMap) -> (verdict: Result<(), AuthError>)
    ensures
        verdict == reply_verdict(num_headers as nat, headers@),
{
    if num_headers == 0 {
        return Err(AuthError::EmptyAuthResponse);
    }
    let confirmed = "200".to_owned();
    match headers.get(":status") {
        Some(status) => {
            if *status == confirmed {
                Ok(())
            } else {
                Err(AuthError::AuthDenied)
            }
        },
        None => Err(AuthError::AuthDenied),
    }
}

impl RequestAuth {
    /// A unit for a new request, which owns `config`.
    pub fn new(config: FilterConfig) -> (unit: RequestAuth)
        ensures
            unit@ == (RequestAuthView {
                config: config@,
                state: RequestAuthState::AwaitingDispatch,
            }),
    {
        RequestAuth { config, state: RequestAuthState::AwaitingDispatch }
    }

    /// Where the request stands.
    pub fn state(&self) -> (state: RequestAuthState)
        ensures
            state == self@.state,
    {
        self.state
    }

    /// The unit's own copy of the configuration.
    pub fn config(&self) -> (config: &FilterConfig)
        ensures
            config@ == self@.config,
    {
        &self.config
    }

    /// The token of the outstanding authorization call, while there is one.
    pub fn pending_token(&self) -> (token: Option<u32>)
        ensures
            token == match self@.state {
                RequestAuthState::Pending(t) => Some(t),
                _ => None,
            },
    {
        match self.state {
            RequestAuthState::Pending(t) => Some(t),
            _ => None,
        }
    }

    /// The authorization call to send for this request: there is one exactly
    /// while the unit awaits its dispatch, and it goes to the configured
    /// cluster.
    pub fn dispatch_request(&self) -> (call: Option<DispatchRequest>)
        ensures
            match call {
                Some(request) => self@.state is AwaitingDispatch && request@ == authorization_call(
                    self@.config.auth_cluster,
                ),
                None => !(self@.state is AwaitingDispatch),
            },
    {
        match self.state {
            RequestAuthState::AwaitingDispatch => Some(
                DispatchRequest {
                    upstream: self.config.auth_cluster.clone(),
                    headers: fixed_call_headers(),
                    body: None,
                    trailers: HeaderMap::new(),
                    timeout_secs: 1,
                },
            ),
            _ => None,
        }
    }

    /// The deny path. The first call on a request that is neither answered
    /// nor released yields the rejection and ends the request; every later
    /// call yields nothing and changes nothing.
    pub fn fail(&mut self, reason: AuthError) -> (effect: Effect)
        ensures
            final(self)@.config == old(self)@.config,
            final(self)@.state == state_after_fail(old(self)@.state),
            effect@ == effect_of_fail(old(self)@.state, reason),
    {
        match self.state {
            RequestAuthState::Allowed => Effect::Nothing,
            RequestAuthState::Denied => Effect::Nothing,
            _ => {
                self.state = RequestAuthState::Denied;
                Effect::Deny { response: not_authorized(), reason }
            },
        }
    }

    /// Request headers have arrived and the authorization call had the given
    /// outcome. An accepted call leaves the request suspended under its
    /// token; a failed one rejects it at once. On a unit that has recorded an
    /// outcome before, nothing changes.
    pub fn on_http_request_headers(&mut self, outcome: DispatchOutcome) -> (directive: Directive)
        ensures
            final(self)@.config == old(self)@.config,
            final(self)@.state == state_after_dispatch(old(self)@.state, outcome),
            directive@.effect == effect_of_dispatch(old(self)@.state, outcome),
            directive@.action == request_action(final(self)@.state),
    {
        let effect = match self.state {
            RequestAuthState::AwaitingDispatch => match outcome {
                DispatchOutcome::Accepted(token) => {
                    self.state = RequestAuthState::Pending(token);
                    Effect::Nothing
                },
                DispatchOutcome::Failed => self.fail(AuthError::DispatchError),
            },
            _ => Effect::Nothing,
        };
        let action = match self.state {
            RequestAuthState::Allowed => Action::Continue,
            _ => Action::Pause,
        };
        Directive { action, effect }
    }

    /// The backend's reply has arrived. A pending request is released where
    /// the reply confirms it and rejected otherwise; a unit that is not
    /// pending stays as it is.
    pub fn on_http_call_response(&mut self, num_headers: usize, headers: &HeaderMap) -> (effect:
        Effect)
        ensures
            final(self)@.config == old(self)@.config,
            final(self)@.state == state_after_reply(
                old(self)@.state,
                num_headers as nat,
                headers@,
            ),
            effect@ == effect_of_reply(old(self)@.state, num_headers as nat, headers@),
    {
        match self.state {
            RequestAuthState::Pending(_) => match auth_verdict(num_headers, headers) {
                Ok(_) => {
                    self.state = RequestAuthState::Allowed;
                    Effect::Resume
                },
                Err(reason) => self.fail(reason),
            },
            _ => Effect::Nothing,
        }
    }

    /// Response headers have arrived. For a confirmed request the added
    /// header is put behind the upstream headers, which all stay; any other
    /// response passes unchanged. The response always goes on.
    pub fn on_http_response_headers(&self, headers: &mut HeaderMap) -> (action: Action)
        ensures
            action == Action::Continue,
            final(headers)@ == response_headers(self@.state, old(headers)@),
    {
        match self.state {
            RequestAuthState::Allowed => {
                headers.push("Hello".to_owned(), "world".to_owned());
            },
            _ => {},
        }
        Action::Continue
    }
}

} // verus!
