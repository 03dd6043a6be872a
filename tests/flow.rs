use openid_middleware::accessors::{Authenticated, MaybeAuthenticated};
use openid_middleware::cookies::{nonce_cookie, session_cookie, AuthCookies};
use openid_middleware::error::AuthError;
use openid_middleware::handlers::{
    after_token_exchange, auth_endpoint, finish_callback, logout_endpoint, logout_redirect,
    AuthQuery, CallbackStep, TokenSet,
};
use openid_middleware::middleware::{MiddlewareStep, OpenIdMiddleware};
use openid_middleware::outcome::{AuthOutcome, AuthenticatedUser};
use openid_middleware::response::AuthResponse;

const ISSUER: &str = "https://issuer.example.com/authorize?client_id=app&nonce=n-123";

fn challenge(m: &OpenIdMiddleware) -> MiddlewareStep {
    m.on_challenge(ISSUER.to_string(), "n-123".to_string())
}

fn host_of(url: &str) -> &str {
    let rest = url.split("://").nth(1).unwrap();
    rest.split('/').next().unwrap()
}

fn tokens(refresh: Option<&str>) -> TokenSet {
    TokenSet {
        access_token: "at-1".to_string(),
        id_token: "it-1".to_string(),
        refresh_token: refresh.map(|r| r.to_string()),
    }
}

fn query() -> AuthQuery {
    AuthQuery { code: "C".to_string(), state: "/dashboard".to_string() }
}

#[test]
fn required_route_without_cookie_redirects_to_issuer() {
    let m = OpenIdMiddleware::new(true);
    assert!(matches!(m.on_request(None), MiddlewareStep::BuildChallenge));
    match challenge(&m) {
        MiddlewareStep::Respond(r) => {
            assert_eq!(r.status, 302);
            let loc = r.location.clone().unwrap();
            assert_eq!(host_of(&loc), "issuer.example.com");
            assert_eq!(r.set_cookies, vec!["nonce=n-123; Path=/".to_string()]);
            assert_eq!(r.body, "Not authenticated");
            assert!(r.is_redirect());
        }
        _ => panic!("the inner handler must not be called"),
    }
}

#[test]
fn optional_route_without_cookie_calls_inner_without_identity() {
    let m = OpenIdMiddleware::new(false);
    assert!(matches!(m.on_request(None), MiddlewareStep::BuildChallenge));
    match challenge(&m) {
        MiddlewareStep::CallInner(o) => {
            let maybe = MaybeAuthenticated::from_request(Some(o)).ok().unwrap();
            assert!(maybe.user().is_none());
            match maybe.try_user() {
                Err(AuthError::NotAuthenticated { issuer_url, nonce }) => {
                    assert_eq!(issuer_url, ISSUER);
                    assert_eq!(nonce, "n-123");
                }
                _ => panic!("expected the challenge"),
            }
        }
        _ => panic!("the inner handler must be called"),
    }
}

#[test]
fn valid_token_yields_identity_and_calls_inner_once() {
    let m = OpenIdMiddleware::new(true);
    let mut inner_calls = 0;
    let step = match m.on_request(Some("tok".to_string())) {
        MiddlewareStep::LookUpUserInfo { access_token } => {
            assert_eq!(access_token, "tok");
            m.on_user_info(Some(AuthenticatedUser::new(
                "u1".to_string(),
                "{\"sub\":\"u1\"}".to_string(),
            )))
        }
        _ => panic!("expected a user-info lookup"),
    };
    if let MiddlewareStep::CallInner(o) = step {
        inner_calls += 1;
        let a = Authenticated::from_request(Some(o)).ok().unwrap();
        assert_eq!(a.user().subject, "u1");
    }
    assert_eq!(inner_calls, 1);
}

#[test]
fn failed_lookup_on_required_route_challenges_again() {
    let m = OpenIdMiddleware::new(true);
    assert!(matches!(m.on_user_info(None), MiddlewareStep::BuildChallenge));
    assert!(matches!(challenge(&m), MiddlewareStep::Respond(_)));
}

#[test]
fn same_token_is_looked_up_on_every_request() {
    let m = OpenIdMiddleware::new(true);
    for _ in 0..2 {
        match m.on_request(Some("same".to_string())) {
            MiddlewareStep::LookUpUserInfo { access_token } => assert_eq!(access_token, "same"),
            _ => panic!("expected a user-info lookup"),
        }
    }
}

#[test]
fn mandatory_accessor_without_middleware_is_unauthorized() {
    match Authenticated::from_request(None) {
        Err(e) => {
            assert!(matches!(e, AuthError::Unauthorized));
            assert_eq!(e.status_code(), 401);
            let r = e.error_response();
            assert_eq!(r.status, 401);
            assert_eq!(r.body, "Unauthorized");
        }
        Ok(_) => panic!("no outcome was attached"),
    }
    assert!(matches!(MaybeAuthenticated::from_request(None), Err(AuthError::Unauthorized)));
}

#[test]
fn mandatory_accessor_on_challenge_gives_the_redirect() {
    let o = AuthOutcome::ChallengeRequired { issuer_url: ISSUER.to_string(), nonce: "n-9".to_string() };
    match Authenticated::from_request(Some(o)) {
        Err(e) => {
            assert_eq!(e.status_code(), 302);
            let r = e.error_response();
            assert_eq!(r.location.as_deref(), Some(ISSUER));
            assert_eq!(r.set_cookies, vec!["nonce=n-9; Path=/".to_string()]);
        }
        Ok(_) => panic!("expected the challenge"),
    }
}

#[test]
fn callback_without_nonce_is_bad_request() {
    match auth_endpoint(&None, &query()) {
        CallbackStep::Respond(r) => {
            assert_eq!(r.status, 400);
            assert_eq!(r.body, "No nonce");
            assert!(r.location.is_none());
        }
        _ => panic!("no code exchange may be asked for"),
    }
}

#[test]
fn callback_with_nonce_exchanges_the_code() {
    match auth_endpoint(&Some("n-1".to_string()), &query()) {
        CallbackStep::ExchangeCode { code } => assert_eq!(code, "C"),
        _ => panic!("expected a code exchange"),
    }
}

#[test]
fn rejected_code_reports_provider_text() {
    let ex: Result<TokenSet, String> = Err("invalid_grant".to_string());
    match after_token_exchange(&"n-1".to_string(), &ex) {
        CallbackStep::Respond(r) => {
            assert_eq!(r.status, 400);
            assert_eq!(r.body, "invalid_grant");
        }
        _ => panic!("expected a refusal"),
    }
}

#[test]
fn verification_uses_the_cookie_nonce() {
    let m = OpenIdMiddleware::new(true);
    let cookie = match challenge(&m) {
        MiddlewareStep::Respond(r) => r.set_cookies[0].clone(),
        _ => panic!("expected a redirect"),
    };
    let value = cookie.strip_prefix("nonce=").unwrap().split(';').next().unwrap().to_string();
    assert_eq!(value, "n-123");
    let ex: Result<TokenSet, String> = Ok(tokens(None));
    match after_token_exchange(&value, &ex) {
        CallbackStep::VerifyIdToken { id_token, nonce } => {
            assert_eq!(id_token, "it-1");
            assert_eq!(nonce, "n-123");
        }
        _ => panic!("expected verification"),
    }
}

#[test]
fn successful_callback_sets_session_cookies() {
    let r = finish_callback(&query(), &tokens(None), &Ok("{\"sub\":\"u1\"}".to_string()));
    assert_eq!(r.status, 302);
    assert_eq!(r.location.as_deref(), Some("/dashboard"));
    assert_eq!(
        r.set_cookies,
        vec![
            "access_token=at-1; SameSite=Lax; Secure".to_string(),
            "user_info={\"sub\":\"u1\"}; SameSite=Lax".to_string(),
            "id_token=it-1; SameSite=Lax; Secure".to_string(),
        ]
    );
}

#[test]
fn successful_callback_with_refresh_token() {
    let r = finish_callback(&query(), &tokens(Some("rt-1")), &Ok("{}".to_string()));
    assert_eq!(r.set_cookies.len(), 4);
    assert_eq!(r.set_cookies[3], "refresh_token=rt-1; SameSite=Lax; Secure");
}

#[test]
fn failed_verification_is_internal_error() {
    let r = finish_callback(&query(), &tokens(None), &Err("nonce mismatch".to_string()));
    assert_eq!(r.status, 500);
    assert_eq!(r.body, "invalid id token");
    assert!(r.set_cookies.is_empty());
    assert!(r.location.is_none());
}

#[test]
fn callback_state_that_is_no_header_is_internal_error() {
    let q = AuthQuery { code: "C".to_string(), state: "/a\nb".to_string() };
    let r = finish_callback(&q, &tokens(None), &Ok("{}".to_string()));
    assert_eq!(r.status, 500);
    assert!(r.set_cookies.is_empty());
}

#[test]
fn logout_without_id_token_is_bad_request() {
    match logout_endpoint(None) {
        Err(e) => {
            let r = e.error_response();
            assert_eq!(r.status, 400);
            assert_eq!(r.body, "missing id token");
            assert!(r.location.is_none());
        }
        Ok(_) => panic!("expected a refusal"),
    }
}

#[test]
fn logout_redirects_to_provider() {
    let t = logout_endpoint(Some("it-1".to_string())).ok().unwrap();
    assert_eq!(t, "it-1");
    let r = logout_redirect("https://issuer.example.com/logout?id_token_hint=it-1".to_string());
    assert_eq!(r.status, 302);
    assert_eq!(r.location.as_deref(), Some("https://issuer.example.com/logout?id_token_hint=it-1"));
}

#[test]
fn error_status_codes() {
    assert_eq!(AuthError::BadRequest { message: "x".to_string() }.status_code(), 400);
    assert_eq!(AuthError::Integrity { message: "x".to_string() }.status_code(), 500);
    assert_eq!(AuthError::Unauthorized.status_code(), 401);
    let e = AuthError::NotAuthenticated { issuer_url: ISSUER.to_string(), nonce: "n".to_string() };
    assert_eq!(e.status_code(), 302);
    assert!(matches!(e.clone(), AuthError::NotAuthenticated { .. }));
}

#[test]
fn cookie_names_and_texts() {
    assert_eq!(AuthCookies::AccessToken.name(), "access_token");
    assert_eq!(AuthCookies::IdToken.name(), "id_token");
    assert_eq!(AuthCookies::RefreshToken.name(), "refresh_token");
    assert_eq!(AuthCookies::UserInfo.name(), "user_info");
    assert_eq!(AuthCookies::Nonce.name(), "nonce");
    assert_eq!(nonce_cookie("abc"), "nonce=abc; Path=/");
    assert_eq!(session_cookie(AuthCookies::UserInfo, "v", false), "user_info=v; SameSite=Lax");
}

#[test]
fn plain_and_invalid_redirects() {
    let p = AuthResponse::plain(418, "teapot".to_string());
    assert_eq!(p.status, 418);
    assert!(!p.is_redirect());
    let r = AuthResponse::redirect("bad\u{7f}".to_string(), vec![], String::new());
    assert_eq!(r.status, 500);
    assert_eq!(r.body, "failed to parse header value");
    let ok = AuthResponse::redirect("/caf\u{e9}\tx".to_string(), vec![], String::new());
    assert_eq!(ok.status, 302);
}
