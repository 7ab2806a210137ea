//! Validation of an identity token against a key set and a context.
//!
//! The cryptography and the decoding are the work of outside libraries. What
//! they report about one token is gathered as `TokenEvidence`; `conclude`
//! decides from the evidence, and `validate` runs the whole.
use vstd::prelude::*;
use vstd::string::StringSliceAdditionalSpecFns;
use vstd::utf8::encode_utf8;
use crate::config::ValidationContext;
use crate::jose::{
    base64url_decode, base64url_decoded, check_token, claims_of, jwk_family, jwk_is_rsa,
    jwt_checked, jwt_claims, jwt_fault, jwt_fault_of, read_token_key_id, token_key_id, JwtFault,
    KeyFamily,
};
use crate::json::{
    json_document, json_from_bytes, json_number_member, json_number_members, json_text_member,
    json_text_members,
};
use crate::keyset::KeySet;

verus! {

/// Why an identity token was turned down.
#[derive(Clone, Copy, Debug, PartialEq, Eq, Structural)]
pub enum ValidationFailure {
    /// The header names no key, or there is no readable header to name one.
    MissingKeyId,
    /// The key set holds no key of the identifier that the header names.
    UnknownKey,
    /// The header declares another algorithm than the matched key signs with.
    AlgorithmMismatch,
    /// The signature does not verify under the matched key.
    BadSignature,
    /// The issuer or the audience is not the expected one.
    ClaimMismatch,
    /// The token carries no expiry, or its expiry is not in the future.
    Expired,
}

/// The claims of a token that passed every check.
#[derive(Clone, Debug)]
pub struct Claims {
    /// The issuer, which is the expected one.
    pub issuer: String,
    /// The audience that the token was checked for.
    pub audience: String,
    /// The subject, where the token names one.
    pub subject: Option<String>,
    /// The expiry, in seconds since the epoch.
    pub expires_at: u64,
}

/// What the signature library found: the token verified under the key and
/// names the expected issuer and audience, or it was turned down.
#[derive(Clone, Debug)]
pub enum SignatureCheck {
    Verified { subject: Option<String>, expires_at: Option<u64> },
    Rejected(JwtFault),
}

/// All that validation reads of one token and its matched key.
#[derive(Clone, Debug)]
pub struct TokenEvidence {
    /// The family of the matched key.
    pub family: KeyFamily,
    /// The algorithm that the token's header declares, if it declares one.
    pub declared_algorithm: Option<String>,
    /// The outcome of the signature and claims check.
    pub check: SignatureCheck,
}

/// `SignatureCheck` as a mathematical value.
pub enum CheckView {
    Verified { subject: Option<Seq<char>>, expires_at: Option<u64> },
    Rejected(JwtFault),
}

/// `TokenEvidence` as a mathematical value.
pub struct EvidenceView {
    pub family: KeyFamily,
    pub declared_algorithm: Option<Seq<char>>,
    pub check: CheckView,
}

/// `Claims` as a mathematical value.
pub struct ClaimsView {
    pub issuer: Seq<char>,
    pub audience: Seq<char>,
    pub subject: Option<Seq<char>>,
    pub expires_at: u64,
}

/// The view of an optional string.
pub open spec fn text_of(text: Option<String>) -> Option<Seq<char>> {
    match text {
        Some(t) => Some(t@),
        None => None,
    }
}

impl View for SignatureCheck {
    type V = CheckView;

    open spec fn view(&self) -> CheckView {
        match *self {
            SignatureCheck::Verified { subject, expires_at } => CheckView::Verified {
                subject: text_of(subject),
                expires_at,
            },
            SignatureCheck::Rejected(fault) => CheckView::Rejected(fault),
        }
    }
}

impl View for TokenEvidence {
    type V = EvidenceView;

    open spec fn view(&self) -> EvidenceView {
        EvidenceView {
            family: self.family,
            declared_algorithm: text_of(self.declared_algorithm),
            check: self.check@,
        }
    }
}

impl View for Claims {
    type V = ClaimsView;

    open spec fn view(&self) -> ClaimsView {
        ClaimsView {
            issuer: self.issuer@,
            audience: self.audience@,
            subject: text_of(self.subject),
            expires_at: self.expires_at,
        }
    }
}

/// The one algorithm that keys of a family sign with.
pub open spec fn algorithm_of(family: KeyFamily) -> Seq<char> {
    match family {
        KeyFamily::Rsa => "RS256"@,
        KeyFamily::Ec => "ES256"@,
    }
}

/// The error that a refusal of the signature library stands for: a claims
/// refusal is a claim mismatch, every other one a bad signature.
pub open spec fn fault_error(fault: JwtFault) -> ValidationFailure {
    if fault == JwtFault::InvalidClaims {
        ValidationFailure::ClaimMismatch
    } else {
        ValidationFailure::BadSignature
    }
}

/// What the evidence amounts to at time `now`: the claims of a valid token,
/// or the error. The algorithm is judged first, then signature and claims,
/// then the expiry, which must lie after `now`.
pub open spec fn conclusion(
    evidence: EvidenceView,
    issuer: Seq<char>,
    audience: Seq<char>,
    now: u64,
) -> Result<ClaimsView, ValidationFailure> {
    if evidence.declared_algorithm != Some(algorithm_of(evidence.family)) {
        Err(ValidationFailure::AlgorithmMismatch)
    } else {
        match evidence.check {
            CheckView::Rejected(fault) => Err(fault_error(fault)),
            CheckView::Verified { subject, expires_at } => match expires_at {
                Some(at) => if at > now {
                    Ok(ClaimsView { issuer, audience, subject, expires_at: at })
                } else {
                    Err(ValidationFailure::Expired)
                },
                None => Err(ValidationFailure::Expired),
            },
        }
    }
}

/// The error that the evidence amounts to at time `now`, `None` for a valid
/// token.
pub open spec fn verdict(evidence: EvidenceView, now: u64) -> Option<ValidationFailure> {
    match conclusion(evidence, Seq::empty(), Seq::empty(), now) {
        Ok(_) => None,
        Err(error) => Some(error),
    }
}

/// Whether `n` is where the header of a compact token ends: at the first dot,
/// or at the end where there is no dot.
pub open spec fn is_header_end(token: Seq<u8>, n: int) -> bool {
    &&& 0 <= n <= token.len()
    &&& n < token.len() ==> token[n] == 46u8
    &&& forall|j: int| 0 <= j < n ==> token[j] != 46u8
}

/// The length of a compact token's header: the number of bytes before the
/// first dot.
pub open spec fn header_len(token: Seq<u8>) -> int
    decreases token.len(),
{
    if token.len() == 0 || token[0] == 46u8 {
        0
    } else {
        1 + header_len(token.drop_first())
    }
}

/// The header of a compact token: its bytes before the first dot.
pub open spec fn header_of(token: Seq<u8>) -> Seq<u8> {
    token.take(header_len(token))
}

/// The algorithm that a token's header declares: the text member `alg` of the
/// JSON object that the header decodes to.
pub open spec fn declared_algorithm_of(token: Seq<u8>) -> Option<Seq<char>> {
    match base64url_decoded(header_of(token)) {
        Some(raw) => match json_document(raw) {
            Some(document) => if json_text_members(document).contains_key("alg"@) {
                Some(json_text_members(document)["alg"@])
            } else {
                None
            },
            None => None,
        },
        None => None,
    }
}

/// What the signature library's finding reads as: for a verified token its
/// subject and expiry, taken from its claims; else the kind of refusal.
pub open spec fn check_of(
    checked: Result<alcoholic_jwt::ValidJWT, alcoholic_jwt::ValidationError>,
) -> CheckView {
    match checked {
        Ok(verified) => CheckView::Verified {
            subject: if json_text_members(jwt_claims(verified)).contains_key("sub"@) {
                Some(json_text_members(jwt_claims(verified))["sub"@])
            } else {
                None
            },
            expires_at: if json_number_members(jwt_claims(verified)).contains_key("exp"@) {
                Some(json_number_members(jwt_claims(verified))["exp"@])
            } else {
                None
            },
        },
        Err(error) => CheckView::Rejected(jwt_fault_of(error)),
    }
}

/// The evidence on a token and the key matched to it.
pub open spec fn evidence_on(
    token: Seq<char>,
    key: alcoholic_jwt::JWK,
    issuer: Seq<char>,
    audience: Seq<char>,
) -> EvidenceView {
    EvidenceView {
        family: if jwk_is_rsa(key) {
            KeyFamily::Rsa
        } else {
            KeyFamily::Ec
        },
        declared_algorithm: declared_algorithm_of(encode_utf8(token)),
        check: check_of(jwt_checked(token, key, issuer, audience)),
    }
}

/// What validation makes of a token: `MissingKeyId` where its header names
/// no key, `UnknownKey` where the key set holds no key of that name, else
/// what the evidence on the token and that key amounts to.
pub open spec fn validation(
    token: Seq<char>,
    key_set: KeySet,
    issuer: Seq<char>,
    audience: Seq<char>,
    now: u64,
) -> Result<ClaimsView, ValidationFailure> {
    match token_key_id(token) {
        Some(Some(kid)) => if key_set.has_key(kid) {
            conclusion(evidence_on(token, key_set.key_for(kid), issuer, audience), issuer, audience, now)
        } else {
            Err(ValidationFailure::UnknownKey)
        },
        _ => Err(ValidationFailure::MissingKeyId),
    }
}

/// Whether an outcome is the given one, claims taken by their view.
pub open spec fn is_outcome(
    outcome: Result<Claims, ValidationFailure>,
    expected: Result<ClaimsView, ValidationFailure>,
) -> bool {
    match expected {
        Ok(claims) => outcome is Ok && outcome->Ok_0@ == claims,
        Err(error) => outcome == Err::<Claims, ValidationFailure>(error),
    }
}

/// The header ends where `is_header_end` says, and nowhere else.
pub proof fn lemma_header_len(token: Seq<u8>, n: int)
    requires
        is_header_end(token, n),
    ensures
        header_len(token) == n,
    decreases token.len(),
{
    if token.len() == 0 || token[0] == 46u8 {
        if n > 0 {
            assert(token[0] != 46u8);
        }
    } else {
        let rest = token.drop_first();
        assert(n > 0);
        assert forall|j: int| 0 <= j < n - 1 implies rest[j] != 46u8 by {
            assert(rest[j] == token[j + 1]);
        }
        if n - 1 < rest.len() {
            assert(rest[n - 1] == token[n]);
        }
        lemma_header_len(rest, n - 1);
    }
}

/// The error for a refusal of the signature library.
pub fn error_for_fault(fault: JwtFault) -> (error: ValidationFailure)
    ensures
        error == fault_error(fault),
{
    match fault {
        JwtFault::InvalidClaims => ValidationFailure::ClaimMismatch,
        _ => ValidationFailure::BadSignature,
    }
}

/// Whether a header's declared algorithm is the one that keys of `family`
/// sign with.
pub fn algorithm_matches(family: KeyFamily, declared: &Option<String>) -> (matches: bool)
    ensures
        matches == (text_of(*declared) == Some(algorithm_of(family))),
{
    match declared {
        Some(name) => {
            let expected = match family {
                KeyFamily::Rsa => "RS256".to_owned(),
                KeyFamily::Ec => "ES256".to_owned(),
            };
            *name == expected
        },
        None => false,
    }
}

/// The header of a compact token: its bytes before the first dot, or all of
/// them where there is no dot.
pub fn header_segment(token: &[u8]) -> (header: Vec<u8>)
    ensures
        header@ == header_of(token@),
        is_header_end(token@, header@.len() as int),
{
    let mut header: Vec<u8> = Vec::new();
    let mut i: usize = 0;
    while i < token.len() && token[i] != 46u8
        invariant
            0 <= i <= token@.len(),
            header@ == token@.take(i as int),
            forall|j: int| 0 <= j < i ==> token@[j] != 46u8,
        decreases token@.len() - i,
    {
        header.push(token[i]);
        i = i + 1;
        assert(header@ =~= token@.take(i as int));
    }
    proof {
        lemma_header_len(token@, i as int);
    }
    header
}

/// The algorithm that the token's header declares. `None` where the header
/// is not base64, does not decode to JSON, or has no text member `alg`.
pub fn declared_algorithm(token: &str) -> (declared: Option<String>)
    ensures
        text_of(declared) == declared_algorithm_of(encode_utf8(token@)),
{
    let header = header_segment(token.as_bytes());
    match base64url_decode(header.as_slice()) {
        Some(raw) => match json_from_bytes(raw.as_slice()) {
            Ok(document) => json_text_member(&document, "alg"),
            Err(_) => None,
        },
        None => None,
    }
}

/// Decides from the evidence at time `now`: the claims where the algorithm
/// matches, signature and claims were verified and the expiry lies after
/// `now`; else the first error in that order.
pub fn conclude(evidence: TokenEvidence, ctx: &ValidationContext, now: u64) -> (outcome: Result<
    Claims,
    ValidationFailure,
>)
    ensures
        is_outcome(outcome, conclusion(evidence@, ctx.issuer@, ctx.audience@, now)),
{
    if !algorithm_matches(evidence.family, &evidence.declared_algorithm) {
        return Err(ValidationFailure::AlgorithmMismatch);
    }
    match evidence.check {
        SignatureCheck::Rejected(fault) => Err(error_for_fault(fault)),
        SignatureCheck::Verified { subject, expires_at } => match expires_at {
            Some(at) => {
                if at > now {
                    Ok(
                        Claims {
                            issuer: ctx.issuer.clone(),
                            audience: ctx.audience.clone(),
                            subject,
                            expires_at: at,
                        },
                    )
                } else {
                    Err(ValidationFailure::Expired)
                }
            },
            None => Err(ValidationFailure::Expired),
        },
    }
}

/// Gathers the evidence on a token and the key matched to it: the key's
/// family, the header's declared algorithm, and the signature library's
/// finding on signature, issuer and audience.
pub fn gather_evidence(id_token: &str, key: &alcoholic_jwt::JWK, ctx: &ValidationContext) -> (evidence:
    TokenEvidence)
    ensures
        evidence@ == evidence_on(id_token@, *key, ctx.issuer@, ctx.audience@),
{
    let family = jwk_family(key);
    let declared_algorithm = declared_algorithm(id_token);
    let check = match check_token(id_token, key, ctx.issuer.as_str(), ctx.audience.as_str()) {
        Ok(verified) => {
            let claims = claims_of(verified);
            SignatureCheck::Verified {
                subject: json_text_member(&claims, "sub"),
                expires_at: json_number_member(&claims, "exp"),
            }
        },
        Err(error) => SignatureCheck::Rejected(jwt_fault(&error)),
    };
    TokenEvidence { family, declared_algorithm, check }
}

/// Validates an identity token at time `now` (seconds since the epoch).
///
/// The header must name a key, else `MissingKeyId`; the key set must hold a
/// key of that name, else `UnknownKey`; the header must declare the
/// algorithm of that key, else `AlgorithmMismatch`; the signature must verify
/// under it, else `BadSignature`; issuer and audience must be those of `ctx`,
/// else `ClaimMismatch`; and the expiry must lie after `now`, else `Expired`.
/// The claims come back only where all of that holds.
pub fn validate(id_token: &str, key_set: &KeySet, ctx: &ValidationContext, now: u64) -> (outcome:
    Result<Claims, ValidationFailure>)
    ensures
        is_outcome(outcome, validation(id_token@, *key_set, ctx.issuer@, ctx.audience@, now)),
{
    let kid = match read_token_key_id(id_token) {
        Ok(Some(kid)) => kid,
        _ => { return Err(ValidationFailure::MissingKeyId); },
    };
    let key = match key_set.find(kid.as_str()) {
        Some(key) => key,
        None => { return Err(ValidationFailure::UnknownKey); },
    };
    let evidence = gather_evidence(id_token, key, ctx);
    conclude(evidence, ctx, now)
}

} // verus!
