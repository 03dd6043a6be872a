use vstd::prelude::*;
use crate::cookies::{AuthCookies, session_cookie, session_cookie_text};
use crate::error::{AuthError, ErrorModel};
use crate::response::{AuthResponse, ResponseModel, opt_text, plain_model, redirect_model, texts};

verus! {

/// The query of the provider's redirect back to the callback endpoint.
pub struct AuthQuery {
    pub code: String,
    /// The path to return to once authenticated.
    pub state: String,
}

/// The tokens the provider issued in exchange for an authorization code.
pub struct TokenSet {
    pub access_token: String,
    pub id_token: String,
    pub refresh_token: Option<String>,
}

pub struct TokenModel {
    pub access_token: Seq<char>,
    pub id_token: Seq<char>,
    pub refresh_token: Option<Seq<char>>,
}

impl View for TokenSet {
    type V = TokenModel;

    open spec fn view(&self) -> TokenModel {
        TokenModel {
            access_token: self.access_token@,
            id_token: self.id_token@,
            refresh_token: opt_text(self.refresh_token),
        }
    }
}

/// What the host must do next for a callback request.
pub enum CallbackStep {
    /// Exchange the authorization code for tokens.
    ExchangeCode { code: String },
    /// Verify the ID token against the nonce bound to the challenge.
    VerifyIdToken { id_token: String, nonce: String },
    /// Answer with this response.
    Respond(AuthResponse),
}

pub enum CallbackModel {
    ExchangeCode { code: Seq<char> },
    VerifyIdToken { id_token: Seq<char>, nonce: Seq<char> },
    Respond(ResponseModel),
}

impl View for CallbackStep {
    type V = CallbackModel;

    open spec fn view(&self) -> CallbackModel {
        match self {
            CallbackStep::ExchangeCode { code } => CallbackModel::ExchangeCode { code: code@ },
            CallbackStep::VerifyIdToken { id_token, nonce } => CallbackModel::VerifyIdToken {
                id_token: id_token@,
                nonce: nonce@,
            },
            CallbackStep::Respond(r) => CallbackModel::Respond(r@),
        }
    }
}

/// The first step of a callback, given the nonce cookie and the query.
pub open spec fn callback_start(nonce: Option<Seq<char>>, code: Seq<char>) -> CallbackModel {
    match nonce {
        Some(_) => CallbackModel::ExchangeCode { code },
        None => CallbackModel::Respond(plain_model(400, "No nonce"@)),
    }
}

/// The step after the token exchange: its tokens, or the provider's error text.
pub open spec fn callback_exchanged(
    nonce: Seq<char>,
    exchange: Result<TokenModel, Seq<char>>,
) -> CallbackModel {
    match exchange {
        Ok(t) => CallbackModel::VerifyIdToken { id_token: t.id_token, nonce },
        Err(msg) => CallbackModel::Respond(plain_model(400, msg)),
    }
}

/// The session cookies set by a successful callback, in the order they are set.
/// The user-info cookie is not marked `Secure`, unlike the credential cookies:
/// it holds claims rather than a credential, but a deployment that wants it
/// kept off plain HTTP must change this.
pub open spec fn session_cookies(t: TokenModel, claims: Seq<char>) -> Seq<Seq<char>> {
    seq![
        session_cookie_text("access_token"@, t.access_token, true),
        session_cookie_text("user_info"@, claims, false),
        session_cookie_text("id_token"@, t.id_token, true),
    ] + match t.refresh_token {
        Some(r) => seq![session_cookie_text("refresh_token"@, r, true)],
        None => Seq::<Seq<char>>::empty(),
    }
}

/// The answer of a callback once the ID token was checked: the claims as JSON,
/// or the verifier's error.
pub open spec fn callback_finished(
    state: Seq<char>,
    t: TokenModel,
    verified: Result<Seq<char>, Seq<char>>,
) -> ResponseModel {
    match verified {
        Ok(claims) => redirect_model(state, session_cookies(t, claims), Seq::empty()),
        Err(_) => plain_model(500, "invalid id token"@),
    }
}

/// Starts a callback: without a nonce cookie the request is refused and no
/// code is exchanged.
pub fn auth_endpoint(nonce_cookie: &Option<String>, query: &AuthQuery) -> (r: CallbackStep)
    ensures
        r@ == callback_start(opt_text(*nonce_cookie), query.code@),
{
    match nonce_cookie {
        Some(_) => CallbackStep::ExchangeCode { code: query.code.clone() },
        None => {
            let e = AuthError::BadRequest { message: String::from_str("No nonce") };
            CallbackStep::Respond(e.error_response())
        },
    }
}

/// Goes on after the token exchange; a refused code is reported to the caller
/// with the provider's error text.
pub fn after_token_exchange(nonce: &String, exchange: &Result<TokenSet, String>) -> (r: CallbackStep)
    ensures
        r@ == callback_exchanged(
            nonce@,
            match exchange {
                Ok(t) => Ok::<TokenModel, Seq<char>>(t@),
                Err(m) => Err::<TokenModel, Seq<char>>(m@),
            },
        ),
{
    match exchange {
        Ok(t) => CallbackStep::VerifyIdToken { id_token: t.id_token.clone(), nonce: nonce.clone() },
        Err(msg) => {
            let e = AuthError::BadRequest { message: msg.clone() };
            CallbackStep::Respond(e.error_response())
        },
    }
}

/// Finishes a callback: on a verified ID token, a redirect to the path in
/// `state` that sets all session cookies at once.
pub fn finish_callback(
    query: &AuthQuery,
    tokens: &TokenSet,
    verified: &Result<String, String>,
) -> (r: AuthResponse)
    ensures
        r@ == callback_finished(
            query.state@,
            tokens@,
            match verified {
                Ok(c) => Ok::<Seq<char>, Seq<char>>(c@),
                Err(m) => Err::<Seq<char>, Seq<char>>(m@),
            },
        ),
{
    match verified {
        Ok(claims) => {
            let mut cookies: Vec<String> = Vec::new();
            cookies.push(session_cookie(AuthCookies::AccessToken, tokens.access_token.as_str(), true));
            cookies.push(session_cookie(AuthCookies::UserInfo, claims.as_str(), false));
            cookies.push(session_cookie(AuthCookies::IdToken, tokens.id_token.as_str(), true));
            match &tokens.refresh_token {
                Some(refresh) => {
                    cookies.push(session_cookie(AuthCookies::RefreshToken, refresh.as_str(), true));
                },
                None => {},
            }
            assert(texts(cookies@) =~= session_cookies(tokens@, claims@));
            AuthResponse::redirect(query.state.clone(), cookies, String::new())
        },
        Err(_) => {
            let e = AuthError::Integrity { message: String::from_str("invalid id token") };
            e.error_response()
        },
    }
}

/// Starts a logout: the ID token to build the provider's logout URI from, or
/// a refusal when the `id_token` cookie is missing.
pub fn logout_endpoint(id_token_cookie: Option<String>) -> (r: Result<String, AuthError>)
    ensures
        match id_token_cookie {
            Some(t) => r == Ok::<String, AuthError>(t),
            None => r is Err && r->Err_0@ == (ErrorModel::BadRequest { message: "missing id token"@ }),
        },
{
    match id_token_cookie {
        Some(t) => Ok(t),
        None => Err(AuthError::BadRequest { message: String::from_str("missing id token") }),
    }
}

/// Finishes a logout with a redirect to the provider's logout URI.
pub fn logout_redirect(logout_uri: String) -> (r: AuthResponse)
    ensures
        r@ == redirect_model(logout_uri@, Seq::empty(), Seq::empty()),
{
    let cookies: Vec<String> = Vec::new();
    assert(texts(cookies@) =~= Seq::<Seq<char>>::empty());
    let body = String::new();
    assert(body@ =~= Seq::<char>::empty());
    AuthResponse::redirect(logout_uri, cookies, body)
}

} // verus!
