//! What the identity provider is configured as. Loaded once, then read only.
use vstd::prelude::*;

verus! {

/// The provider's settings. Nothing in the library holds a default for any of
/// them: the embedding program supplies every field.
#[derive(Clone, Debug)]
pub struct ProviderConfig {
    /// The issuer that identity tokens must name.
    pub domain: String,
    pub client_id: String,
    pub client_secret: String,
    pub redirect_uri: String,
    pub token_endpoint: String,
    pub jwks_endpoint: String,
}

/// The issuer and the audience that an identity token is held against. They
/// come from the configuration, never from the token.
#[derive(Clone, Debug)]
pub struct ValidationContext {
    pub issuer: String,
    pub audience: String,
}

impl ProviderConfig {
    /// The context that this provider's tokens are validated in: its domain
    /// as issuer, its client identifier as audience.
    pub fn validation_context(&self) -> (ctx: ValidationContext)
        ensures
            ctx.issuer@ == self.domain@,
            ctx.audience@ == self.client_id@,
    {
        ValidationContext { issuer: self.domain.clone(), audience: self.client_id.clone() }
    }
}

} // verus!
