//! What holds of every request, stated over the library's spec functions.
use vstd::prelude::*;
use crate::config::ProviderConfig;
use crate::exchange::{ExchangeError, TokenBundle};
use crate::handler::{
    fault_after, is_exchanged, is_failure_reply, is_rejection, is_session, is_settled, is_step,
    sets_cookies, token_fault, AuthAction, AuthEvent, AuthState, ValidationFault,
};
use crate::jose::{
    is_first_with_id, jwt_checked, jwt_claims, jwt_fault_of, token_key_id, JwtFault,
};
use crate::json::json_number_members;
use crate::keyset::{key_set_in, lemma_first_is_unique, KeySet};
use crate::session::SameSite;
use crate::upstream::UpstreamReply;
use crate::validate::{
    algorithm_of, conclusion, evidence_on, validation, verdict, CheckView, EvidenceView,
    ValidationFailure,
};

verus! {

/// Whether the evidence is that of a sound token at time `now`: the header
/// declares the algorithm of the matched key, the signature verified with the
/// expected issuer and audience, and the expiry lies after `now`.
pub open spec fn is_sound(evidence: EvidenceView, now: u64) -> bool {
    &&& evidence.declared_algorithm == Some(algorithm_of(evidence.family))
    &&& evidence.check matches CheckView::Verified { expires_at: Some(at), .. } && at > now
}

/// Evidence yields claims exactly if it is sound, and then those of the
/// token under the expected issuer and audience.
pub proof fn law_valid_iff_sound(
    evidence: EvidenceView,
    issuer: Seq<char>,
    audience: Seq<char>,
    now: u64,
)
    ensures
        conclusion(evidence, issuer, audience, now) is Ok <==> is_sound(evidence, now),
        verdict(evidence, now) is None <==> is_sound(evidence, now),
        conclusion(evidence, issuer, audience, now) matches Ok(claims) ==> claims.issuer == issuer
            && claims.audience == audience && claims.expires_at > now,
{
}

/// A valid login opens a session. Where the keys were had, the token's
/// header names a key of the set and the evidence on the token and that key
/// is sound, the request ends with status 200 and exactly two cookies, the
/// access token's and the identity token's, each hidden from scripts, HTTPS
/// only, strictly same-site and 24 hours long.
pub proof fn law_valid_login_sets_both_cookies(
    bundle: TokenBundle,
    reply: UpstreamReply,
    config: ProviderConfig,
    now: u64,
    kid: Seq<char>,
    next: (AuthState, AuthAction),
)
    requires
        is_step(AuthState::Validating(bundle), AuthEvent::KeySetReplied(reply), config, now, next),
        key_set_in(reply) is Ok,
        token_key_id(bundle.id_token@) == Some(Some(kid)),
        key_set_in(reply)->Ok_0.has_key(kid),
        is_sound(
            evidence_on(
                bundle.id_token@,
                key_set_in(reply)->Ok_0.key_for(kid),
                config.domain@,
                config.client_id@,
            ),
            now,
        ),
    ensures
        next.0 is SessionIssued,
        next.1 matches AuthAction::Respond(answer) && {
            &&& answer.status == 200
            &&& answer.cookies@.len() == 2
            &&& answer.cookies@[0].name@ == "access_token"@
            &&& answer.cookies@[0].value@ == bundle.access_token@
            &&& answer.cookies@[1].name@ == "id_token"@
            &&& answer.cookies@[1].value@ == bundle.id_token@
            &&& forall|i: int|
                0 <= i < 2 ==> {
                    &&& (#[trigger] answer.cookies@[i]).http_only
                    &&& answer.cookies@[i].secure
                    &&& answer.cookies@[i].same_site == SameSite::Strict
                    &&& answer.cookies@[i].max_age_secs == 86400
                }
        },
{
    assert(fault_after(bundle.id_token@, reply, config, now) is None);
    assert(is_session(next, bundle));
}

/// An exchange that was not answered with a success status fails the
/// request, whatever the body holds and whatever the keys would have said:
/// the failure response goes out, with no cookie.
pub proof fn law_failed_exchange_sets_no_cookie(
    reply: UpstreamReply,
    config: ProviderConfig,
    now: u64,
    next: (AuthState, AuthAction),
)
    requires
        !reply.is_success(),
        is_step(AuthState::Exchanging, AuthEvent::ExchangeReplied(reply), config, now, next),
    ensures
        next.0 == AuthState::ExchangeFailed(ExchangeError::NetworkOrRejected),
        next.1 matches AuthAction::Respond(answer) && is_failure_reply(answer),
        !sets_cookies(next.1),
{
    assert(is_exchanged(next, reply, config));
}

/// A token whose header names a key that the fetched set does not hold fails
/// validation as `UnknownKey`, and the request is rejected.
pub proof fn law_unknown_key_fails(
    bundle: TokenBundle,
    key_set: KeySet,
    config: ProviderConfig,
    now: u64,
    kid: Seq<char>,
    next: (AuthState, AuthAction),
)
    requires
        token_key_id(bundle.id_token@) == Some(Some(kid)),
        !key_set.has_key(kid),
        is_settled(next, bundle, token_fault(bundle.id_token@, key_set, config, now)),
    ensures
        validation(bundle.id_token@, key_set, config.domain@, config.client_id@, now) == Err::<
            crate::validate::ClaimsView,
            ValidationFailure,
        >(ValidationFailure::UnknownKey),
        is_rejection(next, ValidationFault::TokenRejected(ValidationFailure::UnknownKey)),
        !sets_cookies(next.1),
{
}

/// A token whose signature does not verify under the matched key fails
/// validation: as `BadSignature`, or as `AlgorithmMismatch` where its header
/// does not even declare the key's algorithm.
pub proof fn law_bad_signature_fails(
    token: Seq<char>,
    key_set: KeySet,
    issuer: Seq<char>,
    audience: Seq<char>,
    now: u64,
    kid: Seq<char>,
)
    requires
        token_key_id(token) == Some(Some(kid)),
        key_set.has_key(kid),
        jwt_checked(token, key_set.key_for(kid), issuer, audience) matches Err(error)
            && jwt_fault_of(error) == JwtFault::InvalidSignature,
    ensures
        validation(token, key_set, issuer, audience, now) matches Err(error) && (error
            == ValidationFailure::BadSignature || error == ValidationFailure::AlgorithmMismatch),
{
}

/// A token whose issuer or audience is not the expected one fails
/// validation: as `ClaimMismatch`, or as `AlgorithmMismatch` where its header
/// does not even declare the key's algorithm.
pub proof fn law_claim_mismatch_fails(
    token: Seq<char>,
    key_set: KeySet,
    issuer: Seq<char>,
    audience: Seq<char>,
    now: u64,
    kid: Seq<char>,
)
    requires
        token_key_id(token) == Some(Some(kid)),
        key_set.has_key(kid),
        jwt_checked(token, key_set.key_for(kid), issuer, audience) matches Err(error)
            && jwt_fault_of(error) == JwtFault::InvalidClaims,
    ensures
        validation(token, key_set, issuer, audience, now) matches Err(error) && (error
            == ValidationFailure::ClaimMismatch || error == ValidationFailure::AlgorithmMismatch),
{
}

/// A verified token whose expiry is not after `now`, or that carries none,
/// fails validation: as `Expired`, or as `AlgorithmMismatch` where its header
/// does not even declare the key's algorithm.
pub proof fn law_expired_token_fails(
    token: Seq<char>,
    key_set: KeySet,
    issuer: Seq<char>,
    audience: Seq<char>,
    now: u64,
    kid: Seq<char>,
)
    requires
        token_key_id(token) == Some(Some(kid)),
        key_set.has_key(kid),
        jwt_checked(token, key_set.key_for(kid), issuer, audience) matches Ok(verified) && (
        json_number_members(jwt_claims(verified)).contains_key("exp"@) ==> json_number_members(
            jwt_claims(verified),
        )["exp"@] <= now),
    ensures
        validation(token, key_set, issuer, audience, now) matches Err(error) && (error
            == ValidationFailure::Expired || error == ValidationFailure::AlgorithmMismatch),
{
}

/// No validation succeeds without every check: claims come back only for a
/// token whose header names a key of the set and on which the evidence is
/// sound.
pub proof fn law_success_needs_every_check(
    token: Seq<char>,
    key_set: KeySet,
    issuer: Seq<char>,
    audience: Seq<char>,
    now: u64,
)
    requires
        validation(token, key_set, issuer, audience, now) is Ok,
    ensures
        token_key_id(token) matches Some(Some(kid)) && key_set.has_key(kid) && is_sound(
            evidence_on(token, key_set.key_for(kid), issuer, audience),
            now,
        ),
{
}

/// The first-seen key wins: where several keys of a set carry one
/// identifier, the key of that identifier is the earliest of them.
pub proof fn law_first_seen_key_wins(key_set: KeySet, kid: Seq<char>, first: int)
    requires
        is_first_with_id(key_set.keys(), kid, first),
    ensures
        key_set.has_key(kid),
        key_set.key_for(kid) == key_set.keys()[first],
{
    lemma_first_is_unique(key_set.keys(), kid, first);
}

/// Every failure is answered alike: two rejections differ in nothing that the
/// client sees, neither in status nor in text nor in cookies.
pub proof fn law_rejections_look_alike(
    first: (AuthState, AuthAction),
    second: (AuthState, AuthAction),
    one: ValidationFault,
    other: ValidationFault,
)
    requires
        is_rejection(first, one),
        is_rejection(second, other),
    ensures
        first.1 matches AuthAction::Respond(a) && second.1 matches AuthAction::Respond(b) && {
            &&& a.status == b.status
            &&& a.body@ == b.body@
            &&& a.cookies@.len() == b.cookies@.len()
        },
{
}

/// Cookies are issued together or not at all, and only at the very end: a
/// step hands out either no cookie or the two of an issued session.
pub proof fn law_cookies_are_atomic(
    state: AuthState,
    event: AuthEvent,
    config: ProviderConfig,
    now: u64,
    next: (AuthState, AuthAction),
)
    requires
        is_step(state, event, config, now, next),
    ensures
        next.1 matches AuthAction::Respond(answer) ==> answer.cookies@.len() == 0
            || answer.cookies@.len() == 2,
        sets_cookies(next.1) ==> next.0 is SessionIssued && (state matches AuthState::Validating(
            bundle,
        ) && event matches AuthEvent::KeySetReplied(reply) && fault_after(
            bundle.id_token@,
            reply,
            config,
            now,
        ) is None),
{
    match (state, event) {
        (AuthState::Received, AuthEvent::CodeReceived(code)) => {},
        (AuthState::Exchanging, AuthEvent::ExchangeReplied(reply)) => {
            assert(is_exchanged(next, reply, config));
        },
        (AuthState::Validating(bundle), AuthEvent::KeySetReplied(reply)) => {
            let fault = fault_after(bundle.id_token@, reply, config, now);
            assert(is_settled(next, bundle, fault));
            match fault {
                Some(f) => assert(is_rejection(next, f)),
                None => assert(is_session(next, bundle)),
            }
        },
        _ => {},
    }
}

} // verus!
