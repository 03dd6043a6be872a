use vstd::prelude::*;
use actix_web::cookie::{Cookie, SameSite};

verus! {

/// The cookies that carry the authentication state of a browser.
pub enum AuthCookies {
    AccessToken,
    IdToken,
    RefreshToken,
    UserInfo,
    Nonce,
}

impl AuthCookies {
    pub open spec fn spec_name(self) -> Seq<char> {
        match self {
            AuthCookies::AccessToken => "access_token"@,
            AuthCookies::IdToken => "id_token"@,
            AuthCookies::RefreshToken => "refresh_token"@,
            AuthCookies::UserInfo => "user_info"@,
            AuthCookies::Nonce => "nonce"@,
        }
    }

    /// The name under which the cookie is stored.
    pub fn name(&self) -> (r: String)
        ensures
            r@ == self.spec_name(),
    {
        match self {
            AuthCookies::AccessToken => String::from_str("access_token"),
            AuthCookies::IdToken => String::from_str("id_token"),
            AuthCookies::RefreshToken => String::from_str("refresh_token"),
            AuthCookies::UserInfo => String::from_str("user_info"),
            AuthCookies::Nonce => String::from_str("nonce"),
        }
    }
}

/// The `Set-Cookie` value of a session cookie: `SameSite=Lax`, and `Secure`
/// when `secure` holds.
pub open spec fn session_cookie_text(name: Seq<char>, value: Seq<char>, secure: bool) -> Seq<char> {
    name + "="@ + value + "; SameSite=Lax"@ + if secure {
        "; Secure"@
    } else {
        Seq::<char>::empty()
    }
}

/// The `Set-Cookie` value of a cookie scoped to `path`, with no other attribute.
pub open spec fn path_cookie_text(name: Seq<char>, value: Seq<char>, path: Seq<char>) -> Seq<char> {
    name + "="@ + value + "; Path="@ + path
}

/// Relies on `Display` of the cookie crate's `Cookie` (re-exported by actix-web):
/// it writes `name=value`, then `; SameSite=Lax`, then `; Secure` when the secure
/// flag is `Some(true)`, and nothing for the attributes left unset.
#[verifier::external_body]
pub(crate) fn render_session_cookie(name: &str, value: &str, secure: bool) -> (r: String)
    ensures
        r@ == session_cookie_text(name@, value@, secure),
{
    Cookie::build(name, value).same_site(SameSite::Lax).secure(secure).finish().to_string()
}

/// Relies on `Display` of the cookie crate's `Cookie` (re-exported by actix-web):
/// a cookie with only a path set is written `name=value; Path=path`.
#[verifier::external_body]
pub(crate) fn render_path_cookie(name: &str, value: &str, path: &str) -> (r: String)
    ensures
        r@ == path_cookie_text(name@, value@, path@),
{
    Cookie::build(name, value).path(path).finish().to_string()
}

/// The `Set-Cookie` value of the cookie `kind` holding `value`.
pub fn session_cookie(kind: AuthCookies, value: &str, secure: bool) -> (r: String)
    ensures
        r@ == session_cookie_text(kind.spec_name(), value@, secure),
{
    let name = kind.name();
    render_session_cookie(name.as_str(), value, secure)
}

/// The `Set-Cookie` value of the nonce cookie, scoped to the whole site.
pub fn nonce_cookie(nonce: &str) -> (r: String)
    ensures
        r@ == path_cookie_text("nonce"@, nonce@, "/"@),
{
    let name = AuthCookies::Nonce.name();
    render_path_cookie(name.as_str(), nonce, "/")
}

} // verus!
