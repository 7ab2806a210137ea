//! Signed tokens and signing keys, handled by `alcoholic_jwt` and `base64`.
//!
//! Keys, key sets and verified tokens are opaque to the verifier. This file
//! declares them, names what the library reads from them, and wraps the calls.
use vstd::prelude::*;

verus! {

#[verifier::external_type_specification]
#[verifier::external_body]
pub struct ExJwks(alcoholic_jwt::JWKS);

#[verifier::external_type_specification]
#[verifier::external_body]
pub struct ExJwk(alcoholic_jwt::JWK);

#[verifier::external_type_specification]
#[verifier::external_body]
pub struct ExValidJwt(alcoholic_jwt::ValidJWT);

#[verifier::external_type_specification]
#[verifier::external_body]
pub struct ExJwtError(alcoholic_jwt::ValidationError);

/// The two kinds of signing key that a published key set can hold.
#[derive(Clone, Copy, Debug, PartialEq, Eq, Structural)]
pub enum KeyFamily {
    Rsa,
    Ec,
}

/// Why the signature library turned a token down.
#[derive(Clone, Copy, Debug, PartialEq, Eq, Structural)]
pub enum JwtFault {
    InvalidComponents,
    InvalidBase64,
    InvalidKey,
    InvalidSignature,
    Crypto,
    Json,
    InvalidClaims,
}

/// The keys of a key set, in the order of the published document.
pub uninterp spec fn jwks_keys(set: alcoholic_jwt::JWKS) -> Seq<alcoholic_jwt::JWK>;

/// The key identifier that a key carries, if it carries one.
pub uninterp spec fn jwk_key_id(key: alcoholic_jwt::JWK) -> Option<Seq<char>>;

/// Whether a key is an RSA key (otherwise it is an elliptic-curve key).
pub uninterp spec fn jwk_is_rsa(key: alcoholic_jwt::JWK) -> bool;

/// What the header of a compact token says of its key: `None` where the text
/// before the first dot is missing or does not decode to a JSON object,
/// `Some(None)` where the header names no key, else the key identifier.
pub uninterp spec fn token_key_id(token: Seq<char>) -> Option<Option<Seq<char>>>;

/// The bytes that URL-safe base64 text stands for, with or without padding;
/// `None` where the text is not base64.
pub uninterp spec fn base64url_decoded(text: Seq<u8>) -> Option<Seq<u8>>;

/// The key set that a key set document stands for; `None` where the text is
/// not such a document.
pub uninterp spec fn jwks_document(text: Seq<char>) -> Option<alcoholic_jwt::JWKS>;

/// What the signature library makes of a token under a key, with an issuer
/// and an audience to hold its claims against.
pub uninterp spec fn jwt_checked(
    token: Seq<char>,
    key: alcoholic_jwt::JWK,
    issuer: Seq<char>,
    audience: Seq<char>,
) -> Result<alcoholic_jwt::ValidJWT, alcoholic_jwt::ValidationError>;

/// The claims of a verified token, as a JSON document.
pub uninterp spec fn jwt_claims(token: alcoholic_jwt::ValidJWT) -> serde_json::Value;

/// The kind of a refusal of the signature library.
pub uninterp spec fn jwt_fault_of(error: alcoholic_jwt::ValidationError) -> JwtFault;

/// Calls `serde_json::from_str` for an `alcoholic_jwt::JWKS`, the only way to
/// make one. The outcome depends on the text alone and is `jwks_document` of
/// it: an error where that is `None`, else the key set.
#[verifier::external_body]
pub(crate) fn jwks_from_text(text: &str) -> (set: Result<alcoholic_jwt::JWKS, serde_json::Error>)
    ensures
        set is Ok <==> jwks_document(text@) is Some,
        set is Ok ==> jwks_document(text@) == Some(set->Ok_0),
{
    serde_json::from_str::<alcoholic_jwt::JWKS>(text)
}

/// Calls `alcoholic_jwt::JWKS::find`, which walks the keys in order and
/// returns the first whose identifier equals `kid`. The contract says so: a key
/// comes back exactly if one carries `kid`, and it is the earliest such key.
#[verifier::external_body]
pub(crate) fn jwks_find<'a>(set: &'a alcoholic_jwt::JWKS, kid: &str) -> (found: Option<
    &'a alcoholic_jwt::JWK,
>)
    ensures
        match found {
            Some(key) => exists|i: int|
                0 <= i < jwks_keys(*set).len() && #[trigger] jwks_keys(*set)[i] == *key
                    && is_first_with_id(jwks_keys(*set), kid@, i),
            None => forall|i: int|
                0 <= i < jwks_keys(*set).len() ==> jwk_key_id(#[trigger] jwks_keys(*set)[i])
                    != Some(kid@),
        },
{
    set.find(kid)
}

/// Tells the two variants of `alcoholic_jwt::JWK` apart.
#[verifier::external_body]
pub(crate) fn jwk_family(key: &alcoholic_jwt::JWK) -> (family: KeyFamily)
    ensures
        family == (if jwk_is_rsa(*key) {
            KeyFamily::Rsa
        } else {
            KeyFamily::Ec
        }),
{
    match key {
        alcoholic_jwt::JWK::Rsa(_) => KeyFamily::Rsa,
        alcoholic_jwt::JWK::Ec(_) => KeyFamily::Ec,
    }
}

/// Calls `alcoholic_jwt::token_kid`, which decodes the text before the first
/// dot as base64 and JSON and reads the member `kid`. It depends on the token
/// alone, so the outcome is `token_key_id` of the token: an error where that
/// is `None`, else its value.
#[verifier::external_body]
pub(crate) fn read_token_key_id(token: &str) -> (kid: Result<
    Option<String>,
    alcoholic_jwt::ValidationError,
>)
    ensures
        kid is Ok <==> token_key_id(token@) is Some,
        kid is Ok ==> match kid->Ok_0 {
            Some(id) => token_key_id(token@) == Some(Some(id@)),
            None => token_key_id(token@) == Some(None::<Seq<char>>),
        },
{
    alcoholic_jwt::token_kid(token)
}

/// Calls `alcoholic_jwt::validate` with the issuer and the audience checks
/// and no other, so without a look at the clock. It verifies the signature
/// under `key` first and the two claims after. The outcome depends on the
/// arguments alone and is `jwt_checked` of them.
#[verifier::external_body]
pub(crate) fn check_token(token: &str, key: &alcoholic_jwt::JWK, issuer: &str, audience: &str) -> (checked: Result<
    alcoholic_jwt::ValidJWT,
    alcoholic_jwt::ValidationError,
>)
    ensures
        checked == jwt_checked(token@, *key, issuer@, audience@),
{
    let checks = vec![
        alcoholic_jwt::Validation::Issuer(issuer.to_string()),
        alcoholic_jwt::Validation::Audience(audience.to_string()),
    ];
    alcoholic_jwt::validate(token, key, checks)
}

/// Hands out the field `claims` of an `alcoholic_jwt::ValidJWT`, which the
/// contract calls `jwt_claims` of the token.
#[verifier::external_body]
pub(crate) fn claims_of(token: alcoholic_jwt::ValidJWT) -> (claims: serde_json::Value)
    ensures
        claims == jwt_claims(token),
{
    token.claims
}

/// Tells the variants of `alcoholic_jwt::ValidationError` apart. The
/// contract calls the variant's kind `jwt_fault_of` the error.
#[verifier::external_body]
pub(crate) fn jwt_fault(error: &alcoholic_jwt::ValidationError) -> (fault: JwtFault)
    ensures
        fault == jwt_fault_of(*error),
{
    match error {
        alcoholic_jwt::ValidationError::InvalidComponents => JwtFault::InvalidComponents,
        alcoholic_jwt::ValidationError::InvalidBase64(_) => JwtFault::InvalidBase64,
        alcoholic_jwt::ValidationError::InvalidJWK => JwtFault::InvalidKey,
        alcoholic_jwt::ValidationError::InvalidSignature => JwtFault::InvalidSignature,
        alcoholic_jwt::ValidationError::OpenSSL(_) => JwtFault::Crypto,
        alcoholic_jwt::ValidationError::JSON(_) => JwtFault::Json,
        alcoholic_jwt::ValidationError::InvalidClaims(_) => JwtFault::InvalidClaims,
    }
}

/// Calls `base64::Engine::decode` on the engine that `alcoholic_jwt` reads
/// tokens with: the URL-safe alphabet, padding optional, trailing bits
/// allowed. The outcome depends on the text alone and is `base64url_decoded`
/// of it.
#[verifier::external_body]
pub(crate) fn base64url_decode(text: &[u8]) -> (bytes: Option<Vec<u8>>)
    ensures
        bytes is Some <==> base64url_decoded(text@) is Some,
        bytes is Some ==> bytes->0@ == base64url_decoded(text@)->0,
{
    let forgiving = base64::engine::general_purpose::NO_PAD_INDIFFERENT
        .with_decode_allow_trailing_bits(true);
    let engine = base64::engine::GeneralPurpose::new(&base64::alphabet::URL_SAFE, forgiving);
    base64::Engine::decode(&engine, text).ok()
}

/// Whether `i` is the position of the earliest key of `keys` that carries the
/// identifier `kid`.
pub open spec fn is_first_with_id(keys: Seq<alcoholic_jwt::JWK>, kid: Seq<char>, i: int) -> bool {
    &&& 0 <= i < keys.len()
    &&& jwk_key_id(keys[i]) == Some(kid)
    &&& forall|j: int| 0 <= j < i ==> jwk_key_id(#[trigger] keys[j]) != Some(kid)
}

} // verus!
