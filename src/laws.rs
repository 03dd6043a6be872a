//! Properties of the authentication flow, proved over the models that the
//! executable functions' contracts use.
use vstd::prelude::*;
use crate::cookies::path_cookie_text;
use crate::error::ErrorModel;
use crate::handlers::{CallbackModel, TokenModel, callback_exchanged, callback_finished, callback_start, session_cookies};
use crate::middleware::{OpenIdMiddleware, StepModel};
use crate::outcome::{OutcomeModel, UserModel, identity_of, mandatory_access};
use crate::response::{ResponseModel, is_header_text, plain_model};

verus! {

/// On a route that requires authentication, a request without an access-token
/// cookie is answered by a redirect to the authorization URL that sets a fresh
/// nonce cookie on path `/`; the inner handler is never called.
pub proof fn lemma_required_route_without_token_is_challenged(
    m: OpenIdMiddleware,
    issuer_url: Seq<char>,
    nonce: Seq<char>,
)
    requires
        m.requires_auth,
        is_header_text(issuer_url),
    ensures
        m.step_on_request(None) == StepModel::BuildChallenge,
        m.step_on_challenge(issuer_url, nonce) == StepModel::Respond(
            ResponseModel {
                status: 302,
                location: Some(issuer_url),
                set_cookies: seq![path_cookie_text("nonce"@, nonce, "/"@)],
                body: "Not authenticated"@,
            },
        ),
        !(m.step_on_challenge(issuer_url, nonce) is CallInner),
{
}

/// On a route where authentication is optional, a request without an
/// access-token cookie reaches the inner handler, and the optional accessor
/// finds no identity there.
pub proof fn lemma_optional_route_without_token_passes(
    m: OpenIdMiddleware,
    issuer_url: Seq<char>,
    nonce: Seq<char>,
)
    requires
        !m.requires_auth,
    ensures
        m.step_on_request(None) == StepModel::BuildChallenge,
        m.step_on_challenge(issuer_url, nonce) is CallInner,
        identity_of(m.step_on_challenge(issuer_url, nonce)->CallInner_0) is None,
        mandatory_access(Some(m.step_on_challenge(issuer_url, nonce)->CallInner_0)) == Err::<
            UserModel,
            ErrorModel,
        >(ErrorModel::NotAuthenticated { issuer_url, nonce }),
{
}

/// An identity confirmed by the provider reaches the inner handler as
/// authenticated, whether or not the route requires it; a failed lookup asks
/// for a challenge, as a missing access token does.
pub proof fn lemma_user_info_decides(m: OpenIdMiddleware, user: UserModel)
    ensures
        m.step_on_user_info(Some(user)) == StepModel::CallInner(OutcomeModel::Authenticated(user)),
        m.step_on_user_info(None) == StepModel::BuildChallenge,
{
}

/// A callback without a nonce cookie is refused with status 400 and asks for
/// no code exchange.
pub proof fn lemma_callback_without_nonce_is_refused(code: Seq<char>)
    ensures
        callback_start(None, code) == CallbackModel::Respond(plain_model(400, "No nonce"@)),
        !(callback_start(None, code) is ExchangeCode),
{
}

/// A successful callback redirects to exactly the `state` it was given and
/// sets the access-token, user-info and ID-token cookies, and the
/// refresh-token cookie exactly when the exchange issued a refresh token.
pub proof fn lemma_successful_callback(state: Seq<char>, t: TokenModel, claims: Seq<char>)
    requires
        is_header_text(state),
    ensures
        callback_finished(state, t, Ok(claims)).status == 302,
        callback_finished(state, t, Ok(claims)).location == Some(state),
        callback_finished(state, t, Ok(claims)).set_cookies == session_cookies(t, claims),
        session_cookies(t, claims).len() == if t.refresh_token is Some {
            4int
        } else {
            3int
        },
        t.refresh_token is Some ==> session_cookies(t, claims)[3] == crate::cookies::session_cookie_text(
            "refresh_token"@,
            t.refresh_token->Some_0,
            true,
        ),
{
}

/// The nonce set in the challenge's cookie is the nonce that the callback
/// presenting that cookie hands to ID-token verification.
pub proof fn lemma_nonce_round_trip(
    m: OpenIdMiddleware,
    issuer_url: Seq<char>,
    nonce: Seq<char>,
    code: Seq<char>,
    t: TokenModel,
)
    requires
        m.requires_auth,
        is_header_text(issuer_url),
    ensures
        (m.step_on_challenge(issuer_url, nonce)->Respond_0.set_cookies == seq![
            path_cookie_text("nonce"@, nonce, "/"@),
        ]),
        callback_start(Some(nonce), code) == (CallbackModel::ExchangeCode { code }),
        callback_exchanged(nonce, Ok(t)) == (CallbackModel::VerifyIdToken {
            id_token: t.id_token,
            nonce,
        }),
{
}

/// Every request bearing an access token asks the provider about it: nothing
/// earlier requests learned is reused.
pub proof fn lemma_no_caching(m1: OpenIdMiddleware, m2: OpenIdMiddleware, token: Seq<char>)
    ensures
        m1.step_on_request(Some(token)) == (StepModel::LookUpUserInfo { access_token: token }),
        m2.step_on_request(Some(token)) == (StepModel::LookUpUserInfo { access_token: token }),
{
}

} // verus!
