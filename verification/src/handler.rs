//! One login request, from the code to the response.
//!
//! The network is not reached from here. `step` takes the state of a request
//! and what has just happened, and returns the next state with what is to be
//! done: a request to send to the provider, or the response to give.
use vstd::prelude::*;
use crate::config::ProviderConfig;
use crate::exchange::{
    bundle_matches, exchange_document, exchange_form, exchange_form_of, form_view,
    read_exchange_reply, ExchangeError, FormField, TokenBundle,
};
use crate::keyset::{key_set_in, read_key_set_reply, FetchError, KeySet};
use crate::session::{issue, SessionCookie, SessionCookies};
use crate::upstream::UpstreamReply;
use crate::validate::{validate, validation, ValidationFailure};

verus! {

/// Why a token that was handed out by the provider did not open a session.
#[derive(Clone, Copy, Debug, PartialEq, Eq, Structural)]
pub enum ValidationFault {
    /// The provider's keys could not be had.
    KeySetUnavailable(FetchError),
    /// The keys were had and the token was turned down.
    TokenRejected(ValidationFailure),
}

/// The response to the client.
#[derive(Clone, Debug)]
pub struct HttpReply {
    pub status: u16,
    pub body: String,
    pub cookies: Vec<SessionCookie>,
}

/// Where a request stands. A request passes from `Received` through
/// `Exchanging` and `Validating` to `SessionIssued`, or ends in one of the two
/// failed states on the way; an exchange that gave tokens is validated at
/// once, and a token found valid has its session issued at once, so neither
/// is a state to rest in. The reasons held by the two failed states are for
/// the server's own records: the response does not show them.
#[derive(Clone, Debug)]
pub enum AuthState {
    /// Nothing has been done yet.
    Received,
    /// The code was sent to the provider; its answer is awaited.
    Exchanging,
    /// The exchange gave no tokens. Final.
    ExchangeFailed(ExchangeError),
    /// The exchange gave tokens; the provider's keys are awaited.
    Validating(TokenBundle),
    /// The identity token did not pass. Final.
    ValidationFailed(ValidationFault),
    /// The session cookies were issued. Final.
    SessionIssued(SessionCookies),
}

/// What has just happened to a request.
#[derive(Clone, Debug)]
pub enum AuthEvent {
    /// The client handed in an authorization code.
    CodeReceived(String),
    /// The token endpoint answered, or failed to.
    ExchangeReplied(UpstreamReply),
    /// The key set endpoint answered, or failed to.
    KeySetReplied(UpstreamReply),
}

/// What is to be done next for a request.
#[derive(Clone, Debug)]
pub enum AuthAction {
    /// Post the form to the address and report the answer.
    PostForm { url: String, fields: Vec<FormField> },
    /// Get the key set from the address and report the answer.
    FetchKeySet { url: String },
    /// Answer the client. The request is over.
    Respond(HttpReply),
    /// The event does not belong to this state: nothing is done.
    Ignore,
}

/// Whether `reply` is the one response to every failure: status 401, the
/// same words whatever went wrong, and no cookie.
pub open spec fn is_failure_reply(reply: HttpReply) -> bool {
    &&& reply.status == 401
    &&& reply.body@ == "Authentication failed"@
    &&& reply.cookies@.len() == 0
}

/// Whether `reply` is the response that opens the session of `bundle`:
/// status 200 and exactly the two session cookies, the access token first.
pub open spec fn is_success_reply(reply: HttpReply, bundle: TokenBundle) -> bool {
    &&& reply.status == 200
    &&& reply.body@ == "Logged in successfully!"@
    &&& reply.cookies@.len() == 2
    &&& reply.cookies@[0].is_session_cookie("access_token"@, bundle.access_token@)
    &&& reply.cookies@[1].is_session_cookie("id_token"@, bundle.id_token@)
}

/// Whether `next` starts the exchange of `code`: the exchange form goes to
/// the token endpoint.
pub open spec fn is_begun(next: (AuthState, AuthAction), code: Seq<char>, config: ProviderConfig) -> bool {
    &&& next.0 is Exchanging
    &&& next.1 matches AuthAction::PostForm { url, fields } && url@ == config.token_endpoint@
        && form_view(fields@) == exchange_form_of(code, config)
}

/// Whether `next` is what the token endpoint's answer leads to: with a
/// bundle, the key set is asked for; without one, the request has failed for
/// the reason that `exchange_document` gives, and the failure response goes
/// out.
pub open spec fn is_exchanged(
    next: (AuthState, AuthAction),
    reply: UpstreamReply,
    config: ProviderConfig,
) -> bool {
    match exchange_document(reply) {
        Ok(doc) => {
            &&& next.0 matches AuthState::Validating(bundle) && bundle_matches(bundle, doc)
            &&& next.1 matches AuthAction::FetchKeySet { url } && url@ == config.jwks_endpoint@
        },
        Err(error) => {
            &&& next.0 == AuthState::ExchangeFailed(error)
            &&& next.1 matches AuthAction::Respond(answer) && is_failure_reply(answer)
        },
    }
}

/// Whether `next` ends a request in failure for the reason `fault`.
pub open spec fn is_rejection(next: (AuthState, AuthAction), fault: ValidationFault) -> bool {
    &&& next.0 == AuthState::ValidationFailed(fault)
    &&& next.1 matches AuthAction::Respond(reply) && is_failure_reply(reply)
}

/// Whether `next` ends a request with the session of `bundle` issued.
pub open spec fn is_session(next: (AuthState, AuthAction), bundle: TokenBundle) -> bool {
    &&& next.0 matches AuthState::SessionIssued(cookies) && cookies.is_session_of(bundle)
    &&& next.1 matches AuthAction::Respond(reply) && is_success_reply(reply, bundle)
}

/// Whether `next` is how a validation with the given fault (`None`: the token
/// is valid) ends the request of `bundle`.
pub open spec fn is_settled(
    next: (AuthState, AuthAction),
    bundle: TokenBundle,
    fault: Option<ValidationFault>,
) -> bool {
    match fault {
        Some(fault) => is_rejection(next, fault),
        None => is_session(next, bundle),
    }
}

/// The fault in an identity token, held against a key set under the
/// provider's issuer and client identifier at time `now`; `None` for a valid
/// token.
pub open spec fn token_fault(
    id_token: Seq<char>,
    key_set: KeySet,
    config: ProviderConfig,
    now: u64,
) -> Option<ValidationFault> {
    match validation(id_token, key_set, config.domain@, config.client_id@, now) {
        Ok(_) => None,
        Err(error) => Some(ValidationFault::TokenRejected(error)),
    }
}

/// The fault that the key set endpoint's answer leaves a token with: that
/// the keys could not be had, or the token's fault against them.
pub open spec fn fault_after(
    id_token: Seq<char>,
    reply: UpstreamReply,
    config: ProviderConfig,
    now: u64,
) -> Option<ValidationFault> {
    match key_set_in(reply) {
        Ok(key_set) => token_fault(id_token, key_set, config, now),
        Err(error) => Some(ValidationFault::KeySetUnavailable(error)),
    }
}

/// Whether `next` is the step that `event` takes a request in `state` to.
pub open spec fn is_step(
    state: AuthState,
    event: AuthEvent,
    config: ProviderConfig,
    now: u64,
    next: (AuthState, AuthAction),
) -> bool {
    match (state, event) {
        (AuthState::Received, AuthEvent::CodeReceived(code)) => is_begun(next, code@, config),
        (AuthState::Exchanging, AuthEvent::ExchangeReplied(reply)) => is_exchanged(
            next,
            reply,
            config,
        ),
        (AuthState::Validating(bundle), AuthEvent::KeySetReplied(reply)) => is_settled(
            next,
            bundle,
            fault_after(bundle.id_token@, reply, config, now),
        ),
        _ => next.0 == state && next.1 is Ignore,
    }
}

/// Whether an action leaves cookies with the client.
pub open spec fn sets_cookies(action: AuthAction) -> bool {
    action matches AuthAction::Respond(reply) && reply.cookies@.len() > 0
}

/// The response to a failed request.
pub fn failure_reply() -> (reply: HttpReply)
    ensures
        is_failure_reply(reply),
{
    HttpReply { status: 401, body: "Authentication failed".to_owned(), cookies: Vec::new() }
}

/// The response that hands the session cookies to the client.
pub fn success_reply(cookies: SessionCookies) -> (reply: HttpReply)
    ensures
        reply.status == 200,
        reply.body@ == "Logged in successfully!"@,
        reply.cookies@ == seq![cookies.access_token, cookies.identity_token],
{
    let mut list: Vec<SessionCookie> = Vec::new();
    list.push(cookies.access_token);
    list.push(cookies.identity_token);
    assert(list@ =~= seq![cookies.access_token, cookies.identity_token]);
    HttpReply { status: 200, body: "Logged in successfully!".to_owned(), cookies: list }
}

/// Starts a request: the code goes to the token endpoint in the exchange
/// form.
pub fn begin(code: &str, config: &ProviderConfig) -> (next: (AuthState, AuthAction))
    ensures
        is_begun(next, code@, *config),
{
    let fields = exchange_form(code, config);
    (AuthState::Exchanging, AuthAction::PostForm { url: config.token_endpoint.clone(), fields })
}

/// Takes the token endpoint's answer. Without a success answer the request
/// fails as `NetworkOrRejected`; with a body that is no token bundle it fails
/// as `MalformedResponse`; else the key set is asked for. A failure is
/// answered with the failure response, so with no cookie.
pub fn on_exchange_reply(reply: &UpstreamReply, config: &ProviderConfig) -> (next: (
    AuthState,
    AuthAction,
))
    ensures
        is_exchanged(next, *reply, *config),
{
    match read_exchange_reply(reply) {
        Ok(bundle) => (
            AuthState::Validating(bundle),
            AuthAction::FetchKeySet { url: config.jwks_endpoint.clone() },
        ),
        Err(error) => (AuthState::ExchangeFailed(error), AuthAction::Respond(failure_reply())),
    }
}

/// Ends the request of `bundle` once validation is over: a fault gives the
/// failure response and no cookie; no fault gives the success response with
/// both session cookies.
pub fn settle(bundle: &TokenBundle, fault: Option<ValidationFault>) -> (next: (
    AuthState,
    AuthAction,
))
    ensures
        is_settled(next, *bundle, fault),
{
    match fault {
        Some(fault) => (AuthState::ValidationFailed(fault), AuthAction::Respond(failure_reply())),
        None => {
            let reply = success_reply(issue(bundle));
            (AuthState::SessionIssued(issue(bundle)), AuthAction::Respond(reply))
        },
    }
}

/// Validates the identity token of `bundle` against a fetched key set at time
/// `now` and ends the request: with the session issued where the token is
/// valid, else rejected with the token's fault.
pub fn authenticate(bundle: &TokenBundle, key_set: &KeySet, config: &ProviderConfig, now: u64) -> (next:
    (AuthState, AuthAction))
    ensures
        is_settled(next, *bundle, token_fault(bundle.id_token@, *key_set, *config, now)),
{
    let ctx = config.validation_context();
    let fault = match validate(bundle.id_token.as_str(), key_set, &ctx, now) {
        Ok(_) => None,
        Err(error) => Some(ValidationFault::TokenRejected(error)),
    };
    settle(bundle, fault)
}

/// Takes the key set endpoint's answer for the request of `bundle`. Without a
/// success answer, or with a body that is no key set, the request is rejected
/// for want of keys; else the token is validated against the keys.
pub fn on_key_set_reply(
    bundle: &TokenBundle,
    reply: &UpstreamReply,
    config: &ProviderConfig,
    now: u64,
) -> (next: (AuthState, AuthAction))
    ensures
        is_settled(next, *bundle, fault_after(bundle.id_token@, *reply, *config, now)),
{
    match read_key_set_reply(reply) {
        Ok(key_set) => authenticate(bundle, &key_set, config, now),
        Err(error) => settle(bundle, Some(ValidationFault::KeySetUnavailable(error))),
    }
}

/// Advances a request by one event at time `now` (seconds since the epoch).
///
/// A code starts the exchange; the exchange's answer fails the request or
/// asks for the keys; the keys' answer fails the request or issues the
/// session. No step is tried twice. An event that the state does not await
/// changes nothing. Cookies leave only with an issued session, and then both.
pub fn step(state: AuthState, event: AuthEvent, config: &ProviderConfig, now: u64) -> (next: (
    AuthState,
    AuthAction,
))
    ensures
        is_step(state, event, *config, now, next),
        sets_cookies(next.1) ==> (next.0 is SessionIssued && (next.1 matches AuthAction::Respond(
            answer,
        ) && answer.status == 200 && answer.cookies@.len() == 2
            && answer.cookies@[0].is_hardened() && answer.cookies@[1].is_hardened())),
{
    match (state, event) {
        (AuthState::Received, AuthEvent::CodeReceived(code)) => begin(code.as_str(), config),
        (AuthState::Exchanging, AuthEvent::ExchangeReplied(reply)) => on_exchange_reply(
            &reply,
            config,
        ),
        (AuthState::Validating(bundle), AuthEvent::KeySetReplied(reply)) => on_key_set_reply(
            &bundle,
            &reply,
            config,
            now,
        ),
        (state, _) => (state, AuthAction::Ignore),
    }
}

} // verus!
