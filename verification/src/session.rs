//! The cookies that stand for an authenticated session.
use vstd::prelude::*;
use crate::exchange::TokenBundle;

verus! {

/// How long a session cookie lives: 24 hours, in seconds.
pub const SESSION_MAX_AGE_SECS: u32 = 86400;

/// When a browser sends a cookie along with cross-site requests.
#[derive(Clone, Copy, Debug, PartialEq, Eq, Structural)]
pub enum SameSite {
    Strict,
    Lax,
    Unrestricted,
}

/// One cookie directive.
#[derive(Clone, Debug)]
pub struct SessionCookie {
    pub name: String,
    pub value: String,
    pub http_only: bool,
    pub secure: bool,
    pub same_site: SameSite,
    pub max_age_secs: u32,
}

/// The two cookies of a session. They exist only together.
#[derive(Clone, Debug)]
pub struct SessionCookies {
    pub access_token: SessionCookie,
    pub identity_token: SessionCookie,
}

/// The value of the `Set-Cookie` header that hands over a cookie of the given
/// name, value and attributes.
pub uninterp spec fn set_cookie_text(
    name: Seq<char>,
    value: Seq<char>,
    http_only: bool,
    secure: bool,
    same_site: SameSite,
    max_age_secs: u32,
) -> Seq<char>;

/// Builds the cookie with `actix_web::cookie::Cookie::build` and renders it
/// with its `Display`: name and value as they are, then the attributes. The
/// text depends on the cookie's fields alone and is `set_cookie_text` of
/// them.
#[verifier::external_body]
fn render_cookie(cookie: &SessionCookie) -> (text: String)
    ensures
        text@ == set_cookie_text(
            cookie.name@,
            cookie.value@,
            cookie.http_only,
            cookie.secure,
            cookie.same_site,
            cookie.max_age_secs,
        ),
{
    let same_site = match cookie.same_site {
        SameSite::Strict => actix_web::cookie::SameSite::Strict,
        SameSite::Lax => actix_web::cookie::SameSite::Lax,
        SameSite::Unrestricted => actix_web::cookie::SameSite::None,
    };
    actix_web::cookie::Cookie::build(cookie.name.clone(), cookie.value.clone())
        .http_only(cookie.http_only)
        .secure(cookie.secure)
        .same_site(same_site)
        .max_age(actix_web::cookie::time::Duration::seconds(i64::from(cookie.max_age_secs)))
        .finish()
        .to_string()
}

impl SessionCookie {
    /// The value of the `Set-Cookie` header for this cookie.
    pub open spec fn header_text(&self) -> Seq<char> {
        set_cookie_text(
            self.name@,
            self.value@,
            self.http_only,
            self.secure,
            self.same_site,
            self.max_age_secs,
        )
    }

    /// Whether the cookie carries the flags of a session cookie: hidden from
    /// scripts, sent over HTTPS only, never sent across sites, and gone
    /// after 24 hours.
    pub open spec fn is_hardened(&self) -> bool {
        &&& self.http_only
        &&& self.secure
        &&& self.same_site == SameSite::Strict
        &&& self.max_age_secs == 86400
    }

    /// Whether this is the session cookie of the given name and value.
    pub open spec fn is_session_cookie(&self, name: Seq<char>, value: Seq<char>) -> bool {
        &&& self.name@ == name
        &&& self.value@ == value
        &&& self.is_hardened()
    }

    /// A session cookie of the given name and value.
    pub fn new(name: &str, value: &str) -> (cookie: SessionCookie)
        ensures
            cookie.is_session_cookie(name@, value@),
    {
        SessionCookie {
            name: name.to_owned(),
            value: value.to_owned(),
            http_only: true,
            secure: true,
            same_site: SameSite::Strict,
            max_age_secs: SESSION_MAX_AGE_SECS,
        }
    }
}

impl SessionCookies {
    /// Whether these are the cookies of the session that `bundle` opens.
    pub open spec fn is_session_of(&self, bundle: TokenBundle) -> bool {
        &&& self.access_token.is_session_cookie("access_token"@, bundle.access_token@)
        &&& self.identity_token.is_session_cookie("id_token"@, bundle.id_token@)
    }
}

/// Issues the cookies of a session: `access_token` with the raw access token
/// and `id_token` with the raw identity token, both hardened.
pub fn issue(bundle: &TokenBundle) -> (cookies: SessionCookies)
    ensures
        cookies.is_session_of(*bundle),
{
    SessionCookies {
        access_token: SessionCookie::new("access_token", bundle.access_token.as_str()),
        identity_token: SessionCookie::new("id_token", bundle.id_token.as_str()),
    }
}

/// The `Set-Cookie` header values for a list of cookies, one for each and in
/// the same order.
pub fn set_cookie_headers(cookies: &Vec<SessionCookie>) -> (headers: Vec<String>)
    ensures
        headers@.len() == cookies@.len(),
        forall|i: int|
            0 <= i < cookies@.len() ==> (#[trigger] headers@[i])@ == cookies@[i].header_text(),
{
    let mut headers: Vec<String> = Vec::new();
    let mut i: usize = 0;
    while i < cookies.len()
        invariant
            0 <= i <= cookies@.len(),
            headers@.len() == i,
            forall|j: int| 0 <= j < i ==> (#[trigger] headers@[j])@ == cookies@[j].header_text(),
        decreases cookies@.len() - i,
    {
        headers.push(render_cookie(&cookies[i]));
        i = i + 1;
    }
    headers
}

} // verus!
