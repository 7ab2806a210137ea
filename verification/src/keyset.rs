//! The provider's published signing keys.
use vstd::prelude::*;
use crate::jose::{
    is_first_with_id, jwk_key_id, jwks_document, jwks_find, jwks_from_text, jwks_keys,
};
use crate::upstream::UpstreamReply;

verus! {

/// Why no key set could be had.
#[derive(Clone, Copy, Debug, PartialEq, Eq, Structural)]
pub enum FetchError {
    /// The endpoint did not answer, timed out, or answered with a failure.
    Unreachable,
    /// The answer is not a key set document.
    MalformedKeySet,
}

/// A fetched key set. Keys are found by identifier; where two keys carry the
/// same identifier, the one that stands first in the document is the key of
/// that identifier.
pub struct KeySet {
    keys: alcoholic_jwt::JWKS,
}

impl KeySet {
    /// The key set of a parsed document.
    pub closed spec fn of_document(document: alcoholic_jwt::JWKS) -> KeySet {
        KeySet { keys: document }
    }

    /// The keys, in document order.
    pub closed spec fn keys(&self) -> Seq<alcoholic_jwt::JWK> {
        jwks_keys(self.keys)
    }

    /// What a key set document reads as: its key set, or `MalformedKeySet`
    /// where the text is no such document.
    pub open spec fn parsed(body: Seq<char>) -> Result<KeySet, FetchError> {
        match jwks_document(body) {
            Some(document) => Ok(KeySet::of_document(document)),
            None => Err(FetchError::MalformedKeySet),
        }
    }

    /// Whether some key carries the identifier `kid`.
    pub open spec fn has_key(&self, kid: Seq<char>) -> bool {
        exists|i: int| 0 <= i < self.keys().len() && jwk_key_id(#[trigger] self.keys()[i]) == Some(kid)
    }

    /// The key of identifier `kid`: the first in document order that carries
    /// it.
    pub open spec fn key_for(&self, kid: Seq<char>) -> alcoholic_jwt::JWK
        recommends
            self.has_key(kid),
    {
        self.keys()[choose|i: int| is_first_with_id(self.keys(), kid, i)]
    }

    /// Reads a key set document. Fails with `MalformedKeySet`, and with
    /// nothing else, exactly where the text is not one.
    pub fn parse(body: &str) -> (parsed: Result<KeySet, FetchError>)
        ensures
            parsed == KeySet::parsed(body@),
    {
        match jwks_from_text(body) {
            Ok(keys) => Ok(KeySet { keys }),
            Err(_) => Err(FetchError::MalformedKeySet),
        }
    }

    /// Looks a key up by its identifier: `Some` exactly where a key carries
    /// it, and then the first such key.
    pub fn find(&self, kid: &str) -> (found: Option<&alcoholic_jwt::JWK>)
        ensures
            found is Some <==> self.has_key(kid@),
            found is Some ==> *found->0 == self.key_for(kid@),
    {
        let found = jwks_find(&self.keys, kid);
        proof {
            let keys = self.keys();
            if let Some(key) = found {
                let i = choose|i: int|
                    0 <= i < keys.len() && #[trigger] keys[i] == *key && is_first_with_id(
                        keys,
                        kid@,
                        i,
                    );
                lemma_first_is_unique(keys, kid@, i);
            }
        }
        found
    }
}

/// At most one position is the first to carry an identifier.
pub proof fn lemma_first_is_unique(keys: Seq<alcoholic_jwt::JWK>, kid: Seq<char>, i: int)
    requires
        is_first_with_id(keys, kid, i),
    ensures
        forall|j: int| is_first_with_id(keys, kid, j) ==> j == i,
        (choose|j: int| is_first_with_id(keys, kid, j)) == i,
{
    assert forall|j: int| is_first_with_id(keys, kid, j) implies j == i by {
        if j < i {
            assert(jwk_key_id(keys[j]) != Some(kid));
        } else if i < j {
            assert(jwk_key_id(keys[i]) != Some(kid));
        }
    }
}

/// What the key set endpoint's answer amounts to: `Unreachable` where the
/// request failed, timed out or was answered with a failure status; else
/// what the body reads as.
pub open spec fn key_set_in(reply: UpstreamReply) -> Result<KeySet, FetchError> {
    match reply {
        UpstreamReply::Answered { success: true, body } => KeySet::parsed(body@),
        _ => Err(FetchError::Unreachable),
    }
}

/// Reads the key set endpoint's answer: `Unreachable` where the request
/// failed, timed out or was answered with a failure status; else the parsed
/// document, or `MalformedKeySet`.
pub fn read_key_set_reply(reply: &UpstreamReply) -> (fetched: Result<KeySet, FetchError>)
    ensures
        fetched == key_set_in(*reply),
{
    match reply {
        UpstreamReply::Answered { success: true, body } => KeySet::parse(body.as_str()),
        _ => Err(FetchError::Unreachable),
    }
}

} // verus!
