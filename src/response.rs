use vstd::prelude::*;
use actix_web::http::header::HeaderValue;

verus! {

/// The response the library asks the host server to send.
pub struct AuthResponse {
    pub status: u16,
    pub location: Option<String>,
    pub set_cookies: Vec<String>,
    pub body: String,
}

/// The mathematical model of an [`AuthResponse`].
pub struct ResponseModel {
    pub status: u16,
    pub location: Option<Seq<char>>,
    pub set_cookies: Seq<Seq<char>>,
    pub body: Seq<char>,
}

pub open spec fn opt_text(o: Option<String>) -> Option<Seq<char>> {
    match o {
        Some(s) => Some(s@),
        None => None,
    }
}

pub open spec fn texts(v: Seq<String>) -> Seq<Seq<char>> {
    v.map_values(|s: String| s@)
}

impl View for AuthResponse {
    type V = ResponseModel;

    open spec fn view(&self) -> ResponseModel {
        ResponseModel {
            status: self.status,
            location: opt_text(self.location),
            set_cookies: texts(self.set_cookies@),
            body: self.body@,
        }
    }
}

pub open spec fn header_char_ok(c: char) -> bool {
    (32 <= c as u32 && c as u32 != 127) || c == '\t'
}

/// Whether a string may stand as the value of an HTTP header.
pub open spec fn is_header_text(s: Seq<char>) -> bool {
    forall|i: int| 0 <= i < s.len() ==> header_char_ok(#[trigger] s[i])
}

/// Relies on `HeaderValue::from_str` of the http crate (re-exported by actix-web):
/// it accepts a string exactly when every byte is a tab or lies in 32..=255 but is
/// not 127. Each character below 128 is one such byte and every byte of a longer
/// UTF-8 encoding is at least 128.
#[verifier::external_body]
fn is_header_value(s: &str) -> (r: bool)
    ensures
        r == is_header_text(s@),
{
    HeaderValue::from_str(s).is_ok()
}

pub open spec fn plain_model(status: u16, body: Seq<char>) -> ResponseModel {
    ResponseModel { status, location: None, set_cookies: Seq::empty(), body }
}

/// What the server answers when a redirect target cannot be written as a header.
pub open spec fn invalid_location_model() -> ResponseModel {
    plain_model(500, "failed to parse header value"@)
}

/// A `302 Found` response to `location` that sets `cookies`, provided the
/// location can stand in a header.
pub open spec fn redirect_model(
    location: Seq<char>,
    cookies: Seq<Seq<char>>,
    body: Seq<char>,
) -> ResponseModel {
    if is_header_text(location) {
        ResponseModel { status: 302, location: Some(location), set_cookies: cookies, body }
    } else {
        invalid_location_model()
    }
}

impl AuthResponse {
    /// A response without a redirect and without cookies.
    pub fn plain(status: u16, body: String) -> (r: AuthResponse)
        ensures
            r@ == plain_model(status, body@),
    {
        let r = AuthResponse { status, location: None, set_cookies: Vec::new(), body };
        assert(r@.set_cookies =~= Seq::<Seq<char>>::empty());
        r
    }

    /// A redirect to `location` setting `set_cookies`; a location that is not a
    /// valid header value gives an internal server error instead.
    pub fn redirect(location: String, set_cookies: Vec<String>, body: String) -> (r: AuthResponse)
        ensures
            r@ == redirect_model(location@, texts(set_cookies@), body@),
    {
        if is_header_value(location.as_str()) {
            AuthResponse { status: 302, location: Some(location), set_cookies, body }
        } else {
            AuthResponse::plain(500, String::from_str("failed to parse header value"))
        }
    }

    pub fn is_redirect(&self) -> (r: bool)
        ensures
            r == (self.status == 302 && self.location is Some),
    {
        self.status == 302 && self.location.is_some()
    }
}

} // verus!
