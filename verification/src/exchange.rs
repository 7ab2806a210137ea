//! The exchange of an authorization code for tokens: the form that is sent
//! and the reading of what comes back.
use vstd::prelude::*;
use vstd::string::StringSliceAdditionalSpecFns;
use vstd::utf8::encode_utf8;
use crate::config::ProviderConfig;
use crate::json::{
    json_document, json_from_bytes, json_number_member, json_number_members, json_text_member,
    json_text_members,
};
use crate::upstream::UpstreamReply;

verus! {

/// Why an exchange gave no tokens.
#[derive(Clone, Copy, Debug, PartialEq, Eq, Structural)]
pub enum ExchangeError {
    /// No answer, a timeout, or an answer with a failure status.
    NetworkOrRejected,
    /// A success answer whose body is not a token bundle.
    MalformedResponse,
}

/// What a successful exchange returns.
#[derive(Clone, Debug)]
pub struct TokenBundle {
    pub access_token: String,
    pub id_token: String,
    pub scope: String,
    pub expires_in: u64,
    pub token_type: String,
}

/// One field of a form-encoded request body.
#[derive(Clone, Debug)]
pub struct FormField {
    pub name: String,
    pub value: String,
}

/// A form as pairs of name and value.
pub open spec fn form_view(fields: Seq<FormField>) -> Seq<(Seq<char>, Seq<char>)> {
    Seq::new(fields.len(), |i: int| (fields[i].name@, fields[i].value@))
}

/// The form that exchanges `code` at the provider, field by field.
pub open spec fn exchange_form_of(code: Seq<char>, config: ProviderConfig) -> Seq<
    (Seq<char>, Seq<char>),
> {
    seq![
        ("grant_type"@, "authorization_code"@),
        ("client_id"@, config.client_id@),
        ("client_secret"@, config.client_secret@),
        ("redirect_uri"@, config.redirect_uri@),
        ("code"@, code),
    ]
}

/// Whether a JSON document has every member of a token bundle, each of its
/// type: four texts and the number of seconds.
pub open spec fn is_bundle_document(doc: serde_json::Value) -> bool {
    &&& json_text_members(doc).contains_key("access_token"@)
    &&& json_text_members(doc).contains_key("id_token"@)
    &&& json_text_members(doc).contains_key("scope"@)
    &&& json_number_members(doc).contains_key("expires_in"@)
    &&& json_text_members(doc).contains_key("token_type"@)
}

/// Whether `bundle` holds what the members of `doc` say.
pub open spec fn bundle_matches(bundle: TokenBundle, doc: serde_json::Value) -> bool {
    &&& bundle.access_token@ == json_text_members(doc)["access_token"@]
    &&& bundle.id_token@ == json_text_members(doc)["id_token"@]
    &&& bundle.scope@ == json_text_members(doc)["scope"@]
    &&& bundle.expires_in == json_number_members(doc)["expires_in"@]
    &&& bundle.token_type@ == json_text_members(doc)["token_type"@]
}

fn form_field(name: &str, value: &str) -> (field: FormField)
    ensures
        field.name@ == name@,
        field.value@ == value@,
{
    FormField { name: name.to_owned(), value: value.to_owned() }
}

/// Builds the form for the token endpoint: the grant type, the client's
/// identifier and secret, the redirect address and the code, in that order.
pub fn exchange_form(code: &str, config: &ProviderConfig) -> (fields: Vec<FormField>)
    ensures
        form_view(fields@) == exchange_form_of(code@, *config),
{
    let mut fields: Vec<FormField> = Vec::new();
    fields.push(form_field("grant_type", "authorization_code"));
    fields.push(form_field("client_id", config.client_id.as_str()));
    fields.push(form_field("client_secret", config.client_secret.as_str()));
    fields.push(form_field("redirect_uri", config.redirect_uri.as_str()));
    fields.push(form_field("code", code));
    assert(form_view(fields@) =~= exchange_form_of(code@, *config));
    fields
}

/// Reads a token bundle out of a parsed response body. Succeeds exactly on a
/// document that has all five members, and then with their values; any other
/// document is a malformed response.
pub fn bundle_from_json(doc: &serde_json::Value) -> (outcome: Result<TokenBundle, ExchangeError>)
    ensures
        is_bundle_document(*doc) ==> outcome is Ok && bundle_matches(outcome->Ok_0, *doc),
        !is_bundle_document(*doc) ==> outcome == Err::<TokenBundle, ExchangeError>(
            ExchangeError::MalformedResponse,
        ),
{
    let access_token = json_text_member(doc, "access_token");
    let id_token = json_text_member(doc, "id_token");
    let scope = json_text_member(doc, "scope");
    let expires_in = json_number_member(doc, "expires_in");
    let token_type = json_text_member(doc, "token_type");
    match (access_token, id_token, scope, expires_in, token_type) {
        (Some(access_token), Some(id_token), Some(scope), Some(expires_in), Some(token_type)) => Ok(
            TokenBundle { access_token, id_token, scope, expires_in, token_type },
        ),
        _ => Err(ExchangeError::MalformedResponse),
    }
}

/// What the token endpoint's answer amounts to. No answer, a timeout or a
/// failure status is `NetworkOrRejected`, whatever the body holds. A success
/// answer gives the document that its body states, where that is a bundle
/// document, else `MalformedResponse`.
pub open spec fn exchange_document(reply: UpstreamReply) -> Result<
    serde_json::Value,
    ExchangeError,
> {
    match reply {
        UpstreamReply::Answered { success: true, body } => match json_document(
            encode_utf8(body@),
        ) {
            Some(doc) => if is_bundle_document(doc) {
                Ok(doc)
            } else {
                Err(ExchangeError::MalformedResponse)
            },
            None => Err(ExchangeError::MalformedResponse),
        },
        _ => Err(ExchangeError::NetworkOrRejected),
    }
}

/// Reads the token endpoint's answer: the bundle that the body of a success
/// answer states, `MalformedResponse` where it states none, and
/// `NetworkOrRejected` where there is no success answer.
pub fn read_exchange_reply(reply: &UpstreamReply) -> (outcome: Result<TokenBundle, ExchangeError>)
    ensures
        match exchange_document(*reply) {
            Ok(doc) => outcome is Ok && bundle_matches(outcome->Ok_0, doc),
            Err(error) => outcome == Err::<TokenBundle, ExchangeError>(error),
        },
{
    match reply {
        UpstreamReply::Answered { success: true, body } => {
            match json_from_bytes(body.as_str().as_bytes()) {
                Ok(doc) => bundle_from_json(&doc),
                Err(_) => Err(ExchangeError::MalformedResponse),
            }
        },
        _ => Err(ExchangeError::NetworkOrRejected),
    }
}

} // verus!
