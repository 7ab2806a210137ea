//! Server side of an OAuth2 / OpenID Connect authorization-code login: the
//! code is exchanged for tokens, the identity token is checked against the
//! provider's published keys, and only then are session cookies issued.

pub mod config;
pub mod exchange;
pub mod handler;
pub mod jose;
pub mod json;
pub mod keyset;
pub mod laws;
pub mod session;
pub mod upstream;
pub mod validate;
