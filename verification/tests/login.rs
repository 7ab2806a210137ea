use base64::Engine;
use oidc_login::config::ProviderConfig;
use oidc_login::exchange::ExchangeError;
use oidc_login::handler::{
    authenticate, begin, failure_reply, on_exchange_reply, on_key_set_reply, settle, step,
    success_reply, AuthAction, AuthEvent, AuthState, HttpReply, ValidationFault,
};
use oidc_login::keyset::{FetchError, KeySet};
use oidc_login::session::{issue, set_cookie_headers, SameSite};
use oidc_login::upstream::UpstreamReply;
use oidc_login::validate::ValidationFailure;
use openssl::hash::MessageDigest;
use openssl::pkey::{PKey, Private};
use openssl::rsa::Rsa;
use openssl::sign::Signer;

const NOW: u64 = 1_700_000_000;

fn provider() -> ProviderConfig {
    ProviderConfig {
        domain: "https://issuer.example/".to_string(),
        client_id: "client123".to_string(),
        client_secret: "s3cret".to_string(),
        redirect_uri: "https://app.example/callback".to_string(),
        token_endpoint: "https://issuer.example/oauth/token".to_string(),
        jwks_endpoint: "https://issuer.example/.well-known/jwks.json".to_string(),
    }
}

fn b64(bytes: &[u8]) -> String {
    base64::engine::general_purpose::URL_SAFE_NO_PAD.encode(bytes)
}

fn new_key() -> PKey<Private> {
    PKey::from_rsa(Rsa::generate(2048).unwrap()).unwrap()
}

fn key_set_text(kid: &str, key: &PKey<Private>) -> String {
    let rsa = key.rsa().unwrap();
    format!(
        "{{\"keys\":[{{\"kty\":\"RSA\",\"alg\":\"RS256\",\"use\":\"sig\",\"kid\":\"{}\",\"n\":\"{}\",\"e\":\"{}\"}}]}}",
        kid,
        b64(&rsa.n().to_vec()),
        b64(&rsa.e().to_vec())
    )
}

fn sign(key: &PKey<Private>, header: &str, claims: &str) -> String {
    let input = format!("{}.{}", b64(header.as_bytes()), b64(claims.as_bytes()));
    let mut signer = Signer::new(MessageDigest::sha256(), key).unwrap();
    signer.update(input.as_bytes()).unwrap();
    format!("{}.{}", input, b64(&signer.sign_to_vec().unwrap()))
}

fn id_token(key: &PKey<Private>, kid: &str, iss: &str, aud: &str, exp: u64) -> String {
    sign(
        key,
        &format!("{{\"alg\":\"RS256\",\"typ\":\"JWT\",\"kid\":\"{}\"}}", kid),
        &format!("{{\"iss\":\"{}\",\"aud\":\"{}\",\"sub\":\"user-1\",\"exp\":{}}}", iss, aud, exp),
    )
}

fn bundle_text(id_token: &str) -> String {
    format!(
        "{{\"access_token\":\"AT1\",\"id_token\":\"{}\",\"scope\":\"openid\",\"expires_in\":86400,\"token_type\":\"Bearer\"}}",
        id_token
    )
}

fn answered(success: bool, body: &str) -> UpstreamReply {
    UpstreamReply::Answered { success, body: body.to_string() }
}

fn assert_failure(reply: &HttpReply) {
    assert_eq!(reply.status, 401);
    assert_eq!(reply.body, "Authentication failed");
    assert!(reply.cookies.is_empty());
    assert!(set_cookie_headers(&reply.cookies).is_empty());
}

fn assert_session(reply: &HttpReply, access_token: &str, id_token: &str) {
    assert_eq!(reply.status, 200);
    assert_eq!(reply.body, "Logged in successfully!");
    assert_eq!(reply.cookies.len(), 2);
    assert_eq!(reply.cookies[0].name, "access_token");
    assert_eq!(reply.cookies[0].value, access_token);
    assert_eq!(reply.cookies[1].name, "id_token");
    assert_eq!(reply.cookies[1].value, id_token);
    for cookie in &reply.cookies {
        assert!(cookie.http_only);
        assert!(cookie.secure);
        assert_eq!(cookie.same_site, SameSite::Strict);
        assert_eq!(cookie.max_age_secs, 86400);
    }
}

/// Runs a whole request: the code, then the two answers.
fn run(code: &str, exchange: UpstreamReply, keys: UpstreamReply) -> (AuthState, AuthAction) {
    let config = provider();
    let (state, action) =
        step(AuthState::Received, AuthEvent::CodeReceived(code.to_string()), &config, NOW);
    assert!(matches!(state, AuthState::Exchanging));
    assert!(matches!(action, AuthAction::PostForm { .. }));
    let (state, action) = step(state, AuthEvent::ExchangeReplied(exchange), &config, NOW);
    if !matches!(state, AuthState::Validating(_)) {
        return (state, action);
    }
    match &action {
        AuthAction::FetchKeySet { url } => assert_eq!(url, &config.jwks_endpoint),
        other => panic!("unexpected action {:?}", other),
    }
    step(state, AuthEvent::KeySetReplied(keys), &config, NOW)
}

#[test]
fn login_with_a_valid_token_sets_both_cookies() {
    let key = new_key();
    let token = id_token(&key, "key1", "https://issuer.example/", "client123", NOW + 3600);
    let (state, action) = run(
        "abc123",
        answered(true, &bundle_text(&token)),
        answered(true, &key_set_text("key1", &key)),
    );
    match state {
        AuthState::SessionIssued(cookies) => {
            assert_eq!(cookies.access_token.value, "AT1");
            assert_eq!(cookies.identity_token.value, token);
        }
        other => panic!("unexpected state {:?}", other),
    }
    match action {
        AuthAction::Respond(reply) => {
            assert_session(&reply, "AT1", &token);
            assert_eq!(
                set_cookie_headers(&reply.cookies),
                vec![
                    "access_token=AT1; HttpOnly; SameSite=Strict; Secure; Max-Age=86400"
                        .to_string(),
                    format!("id_token={}; HttpOnly; SameSite=Strict; Secure; Max-Age=86400", token),
                ]
            );
        }
        other => panic!("unexpected action {:?}", other),
    }
}

#[test]
fn login_with_an_unknown_key_is_refused() {
    let key = new_key();
    let token = id_token(&key, "key1", "https://issuer.example/", "client123", NOW + 3600);
    let (state, action) = run(
        "abc123",
        answered(true, &bundle_text(&token)),
        answered(true, &key_set_text("key2", &key)),
    );
    assert!(matches!(
        state,
        AuthState::ValidationFailed(ValidationFault::TokenRejected(ValidationFailure::UnknownKey))
    ));
    match action {
        AuthAction::Respond(reply) => assert_failure(&reply),
        other => panic!("unexpected action {:?}", other),
    }
}

#[test]
fn login_with_a_token_signed_by_another_key_is_refused() {
    let key = new_key();
    let other = new_key();
    let token = id_token(&other, "key1", "https://issuer.example/", "client123", NOW + 3600);
    let (state, action) = run(
        "abc123",
        answered(true, &bundle_text(&token)),
        answered(true, &key_set_text("key1", &key)),
    );
    assert!(matches!(
        state,
        AuthState::ValidationFailed(ValidationFault::TokenRejected(
            ValidationFailure::BadSignature
        ))
    ));
    match action {
        AuthAction::Respond(reply) => assert_failure(&reply),
        other => panic!("unexpected action {:?}", other),
    }
}

#[test]
fn login_with_wrong_claims_or_expiry_is_refused() {
    let key = new_key();
    let keys = key_set_text("key1", &key);
    let cases = [
        (id_token(&key, "key1", "https://evil.example/", "client123", NOW + 3600), ValidationFailure::ClaimMismatch),
        (id_token(&key, "key1", "https://issuer.example/", "client999", NOW + 3600), ValidationFailure::ClaimMismatch),
        (id_token(&key, "key1", "https://issuer.example/", "client123", NOW), ValidationFailure::Expired),
        (id_token(&key, "key1", "https://issuer.example/", "client123", NOW - 1), ValidationFailure::Expired),
        (
            sign(&key, "{\"alg\":\"RS256\",\"kid\":\"key1\"}", "{\"iss\":\"https://issuer.example/\",\"aud\":\"client123\"}"),
            ValidationFailure::Expired,
        ),
        (
            sign(&key, "{\"alg\":\"ES256\",\"kid\":\"key1\"}", "{\"iss\":\"https://issuer.example/\",\"aud\":\"client123\",\"exp\":1700003600}"),
            ValidationFailure::AlgorithmMismatch,
        ),
        (
            sign(&key, "{\"alg\":\"RS256\"}", "{\"iss\":\"https://issuer.example/\",\"aud\":\"client123\",\"exp\":1700003600}"),
            ValidationFailure::MissingKeyId,
        ),
    ];
    for (token, expected) in cases {
        let (state, action) =
            run("abc123", answered(true, &bundle_text(&token)), answered(true, &keys));
        match state {
            AuthState::ValidationFailed(ValidationFault::TokenRejected(error)) => {
                assert_eq!(error, expected)
            }
            other => panic!("unexpected state {:?}", other),
        }
        match action {
            AuthAction::Respond(reply) => assert_failure(&reply),
            other => panic!("unexpected action {:?}", other),
        }
    }
}

#[test]
fn login_accepts_an_audience_list() {
    let key = new_key();
    let token = sign(
        &key,
        "{\"alg\":\"RS256\",\"kid\":\"key1\"}",
        "{\"iss\":\"https://issuer.example/\",\"aud\":[\"other\",\"client123\"],\"exp\":1700003600}",
    );
    let (state, _) = run(
        "abc123",
        answered(true, &bundle_text(&token)),
        answered(true, &key_set_text("key1", &key)),
    );
    assert!(matches!(state, AuthState::SessionIssued(_)));
}

#[test]
fn login_fails_when_the_exchange_is_not_a_success() {
    let key = new_key();
    let token = id_token(&key, "key1", "https://issuer.example/", "client123", NOW + 3600);
    let keys = key_set_text("key1", &key);
    for exchange in [UpstreamReply::Unreachable, answered(false, &bundle_text(&token)), answered(false, "")] {
        let (state, action) = run("abc123", exchange, answered(true, &keys));
        assert!(matches!(state, AuthState::ExchangeFailed(ExchangeError::NetworkOrRejected)));
        match action {
            AuthAction::Respond(reply) => assert_failure(&reply),
            other => panic!("unexpected action {:?}", other),
        }
    }
}

#[test]
fn login_fails_on_a_malformed_exchange_body() {
    let (state, action) = run("abc123", answered(true, "oops"), UpstreamReply::Unreachable);
    assert!(matches!(state, AuthState::ExchangeFailed(ExchangeError::MalformedResponse)));
    match action {
        AuthAction::Respond(reply) => assert_failure(&reply),
        other => panic!("unexpected action {:?}", other),
    }
}

#[test]
fn login_fails_when_the_keys_cannot_be_had() {
    let key = new_key();
    let token = id_token(&key, "key1", "https://issuer.example/", "client123", NOW + 3600);
    let cases = [
        (UpstreamReply::Unreachable, FetchError::Unreachable),
        (answered(false, &key_set_text("key1", &key)), FetchError::Unreachable),
        (answered(true, "oops"), FetchError::MalformedKeySet),
    ];
    for (keys, expected) in cases {
        let (state, action) = run("abc123", answered(true, &bundle_text(&token)), keys);
        match state {
            AuthState::ValidationFailed(ValidationFault::KeySetUnavailable(error)) => {
                assert_eq!(error, expected)
            }
            other => panic!("unexpected state {:?}", other),
        }
        match action {
            AuthAction::Respond(reply) => assert_failure(&reply),
            other => panic!("unexpected action {:?}", other),
        }
    }
}

#[test]
fn begin_posts_the_form_to_the_token_endpoint() {
    let config = provider();
    let (state, action) = begin("abc123", &config);
    assert!(matches!(state, AuthState::Exchanging));
    match action {
        AuthAction::PostForm { url, fields } => {
            assert_eq!(url, "https://issuer.example/oauth/token");
            assert_eq!(fields.len(), 5);
            assert_eq!(fields[0].name, "grant_type");
            assert_eq!(fields[0].value, "authorization_code");
            assert_eq!(fields[4].name, "code");
            assert_eq!(fields[4].value, "abc123");
        }
        other => panic!("unexpected action {:?}", other),
    }
}

#[test]
fn step_ignores_an_event_that_the_state_does_not_await() {
    let config = provider();
    let (state, action) =
        step(AuthState::Received, AuthEvent::KeySetReplied(UpstreamReply::Unreachable), &config, NOW);
    assert!(matches!(state, AuthState::Received));
    assert!(matches!(action, AuthAction::Ignore));
    let (state, action) =
        step(AuthState::Exchanging, AuthEvent::CodeReceived("again".to_string()), &config, NOW);
    assert!(matches!(state, AuthState::Exchanging));
    assert!(matches!(action, AuthAction::Ignore));
    let (state, action) = step(
        AuthState::ExchangeFailed(ExchangeError::NetworkOrRejected),
        AuthEvent::ExchangeReplied(answered(true, "{}")),
        &config,
        NOW,
    );
    assert!(matches!(state, AuthState::ExchangeFailed(ExchangeError::NetworkOrRejected)));
    assert!(matches!(action, AuthAction::Ignore));
}

#[test]
fn on_exchange_reply_asks_for_the_keys() {
    let config = provider();
    let (state, action) = on_exchange_reply(&answered(true, &bundle_text("a.b.c")), &config);
    match state {
        AuthState::Validating(bundle) => assert_eq!(bundle.id_token, "a.b.c"),
        other => panic!("unexpected state {:?}", other),
    }
    match action {
        AuthAction::FetchKeySet { url } => {
            assert_eq!(url, "https://issuer.example/.well-known/jwks.json")
        }
        other => panic!("unexpected action {:?}", other),
    }
}

#[test]
fn settle_issues_cookies_only_without_a_fault() {
    let config = provider();
    let bundle = match on_exchange_reply(&answered(true, &bundle_text("a.b.c")), &config).0 {
        AuthState::Validating(bundle) => bundle,
        other => panic!("unexpected state {:?}", other),
    };
    let (state, action) = settle(&bundle, None);
    assert!(matches!(state, AuthState::SessionIssued(_)));
    match action {
        AuthAction::Respond(reply) => assert_session(&reply, "AT1", "a.b.c"),
        other => panic!("unexpected action {:?}", other),
    }
    let fault = ValidationFault::TokenRejected(ValidationFailure::Expired);
    let (state, action) = settle(&bundle, Some(fault));
    assert!(matches!(state, AuthState::ValidationFailed(f) if f == fault));
    match action {
        AuthAction::Respond(reply) => assert_failure(&reply),
        other => panic!("unexpected action {:?}", other),
    }
    assert_failure(&failure_reply());
    assert_session(&success_reply(issue(&bundle)), "AT1", "a.b.c");
}

#[test]
fn authenticate_and_key_set_reply_agree() {
    let config = provider();
    let key = new_key();
    let token = id_token(&key, "key1", "https://issuer.example/", "client123", NOW + 3600);
    let bundle = match on_exchange_reply(&answered(true, &bundle_text(&token)), &config).0 {
        AuthState::Validating(bundle) => bundle,
        other => panic!("unexpected state {:?}", other),
    };
    let text = key_set_text("key1", &key);
    let set = KeySet::parse(&text).ok().unwrap();
    assert!(matches!(authenticate(&bundle, &set, &config, NOW).0, AuthState::SessionIssued(_)));
    assert!(matches!(
        authenticate(&bundle, &set, &config, NOW + 3600).0,
        AuthState::ValidationFailed(ValidationFault::TokenRejected(ValidationFailure::Expired))
    ));
    assert!(matches!(
        on_key_set_reply(&bundle, &answered(true, &text), &config, NOW).0,
        AuthState::SessionIssued(_)
    ));
}
