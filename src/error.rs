use vstd::prelude::*;
use crate::cookies::{nonce_cookie, path_cookie_text};
use crate::response::{AuthResponse, ResponseModel, plain_model, redirect_model};

verus! {

/// Why a request could not be served as it stands.
#[derive(Clone, Debug)]
pub enum AuthError {
    /// The caller must authenticate with the provider first: a redirect to
    /// `issuer_url`, bound to `nonce`.
    NotAuthenticated { issuer_url: String, nonce: String },
    /// A malformed or out-of-band callback or logout request.
    BadRequest { message: String },
    /// The provider's answer does not match what the protocol expects.
    Integrity { message: String },
    /// An identity was asked for where no authentication outcome was computed.
    Unauthorized,
}

/// The mathematical model of an [`AuthError`].
pub enum ErrorModel {
    NotAuthenticated { issuer_url: Seq<char>, nonce: Seq<char> },
    BadRequest { message: Seq<char> },
    Integrity { message: Seq<char> },
    Unauthorized,
}

impl View for AuthError {
    type V = ErrorModel;

    open spec fn view(&self) -> ErrorModel {
        match self {
            AuthError::NotAuthenticated { issuer_url, nonce } => ErrorModel::NotAuthenticated {
                issuer_url: issuer_url@,
                nonce: nonce@,
            },
            AuthError::BadRequest { message } => ErrorModel::BadRequest { message: message@ },
            AuthError::Integrity { message } => ErrorModel::Integrity { message: message@ },
            AuthError::Unauthorized => ErrorModel::Unauthorized,
        }
    }
}

/// The challenge: a redirect to the authorization URL that sets the nonce
/// cookie on the whole site.
pub open spec fn challenge_model(issuer_url: Seq<char>, nonce: Seq<char>) -> ResponseModel {
    redirect_model(
        issuer_url,
        seq![path_cookie_text("nonce"@, nonce, "/"@)],
        "Not authenticated"@,
    )
}

impl ErrorModel {
    pub open spec fn status(self) -> u16 {
        match self {
            ErrorModel::NotAuthenticated { .. } => 302,
            ErrorModel::BadRequest { .. } => 400,
            ErrorModel::Integrity { .. } => 500,
            ErrorModel::Unauthorized => 401,
        }
    }

    pub open spec fn response(self) -> ResponseModel {
        match self {
            ErrorModel::NotAuthenticated { issuer_url, nonce } => challenge_model(issuer_url, nonce),
            ErrorModel::BadRequest { message } => plain_model(400, message),
            ErrorModel::Integrity { message } => plain_model(500, message),
            ErrorModel::Unauthorized => plain_model(401, "Unauthorized"@),
        }
    }
}

impl AuthError {
    /// The status code of the error kind.
    pub fn status_code(&self) -> (r: u16)
        ensures
            r == self@.status(),
    {
        match self {
            AuthError::NotAuthenticated { .. } => 302,
            AuthError::BadRequest { .. } => 400,
            AuthError::Integrity { .. } => 500,
            AuthError::Unauthorized => 401,
        }
    }

    /// The response that reports the error to the caller.
    pub fn error_response(&self) -> (r: AuthResponse)
        ensures
            r@ == self@.response(),
    {
        match self {
            AuthError::NotAuthenticated { issuer_url, nonce } => {
                let mut cookies: Vec<String> = Vec::new();
                cookies.push(nonce_cookie(nonce.as_str()));
                let r = AuthResponse::redirect(
                    issuer_url.clone(),
                    cookies,
                    String::from_str("Not authenticated"),
                );
                assert(crate::response::texts(cookies@) =~= seq![
                    path_cookie_text("nonce"@, nonce@, "/"@),
                ]);
                r
            },
            AuthError::BadRequest { message } => AuthResponse::plain(400, message.clone()),
            AuthError::Integrity { message } => AuthResponse::plain(500, message.clone()),
            AuthError::Unauthorized => AuthResponse::plain(401, String::from_str("Unauthorized")),
        }
    }
}

} // verus!
