use vstd::prelude::*;
use crate::error::{AuthError, challenge_model};
use crate::outcome::{AuthOutcome, AuthenticatedUser, OutcomeModel, UserModel};
use crate::response::{AuthResponse, ResponseModel};

verus! {

/// What the host must do next for a request passing through the middleware.
pub enum MiddlewareStep {
    /// Ask the provider's user-info endpoint about this access token.
    LookUpUserInfo { access_token: String },
    /// Build an authorization challenge (URL and fresh nonce) for the request path.
    BuildChallenge,
    /// Answer with this response; the inner handler is not called.
    Respond(AuthResponse),
    /// Attach the outcome to the request and call the inner handler.
    CallInner(AuthOutcome),
}

pub enum StepModel {
    LookUpUserInfo { access_token: Seq<char> },
    BuildChallenge,
    Respond(ResponseModel),
    CallInner(OutcomeModel),
}

impl View for MiddlewareStep {
    type V = StepModel;

    open spec fn view(&self) -> StepModel {
        match self {
            MiddlewareStep::LookUpUserInfo { access_token } => StepModel::LookUpUserInfo {
                access_token: access_token@,
            },
            MiddlewareStep::BuildChallenge => StepModel::BuildChallenge,
            MiddlewareStep::Respond(r) => StepModel::Respond(r@),
            MiddlewareStep::CallInner(o) => StepModel::CallInner(o@),
        }
    }
}

/// The authentication decision for one request.
pub struct OpenIdMiddleware {
    /// Whether the route refuses requests that are not authenticated.
    pub requires_auth: bool,
}

impl OpenIdMiddleware {
    /// The step once the access-token cookie has been looked up.
    pub open spec fn step_on_request(self, access_token: Option<Seq<char>>) -> StepModel {
        match access_token {
            Some(t) => StepModel::LookUpUserInfo { access_token: t },
            None => StepModel::BuildChallenge,
        }
    }

    /// The step once the provider answered the user-info lookup.
    pub open spec fn step_on_user_info(self, user: Option<UserModel>) -> StepModel {
        match user {
            Some(u) => StepModel::CallInner(OutcomeModel::Authenticated(u)),
            None => StepModel::BuildChallenge,
        }
    }

    /// The step once a challenge has been built.
    pub open spec fn step_on_challenge(self, issuer_url: Seq<char>, nonce: Seq<char>) -> StepModel {
        if self.requires_auth {
            StepModel::Respond(challenge_model(issuer_url, nonce))
        } else {
            StepModel::CallInner(OutcomeModel::ChallengeRequired { issuer_url, nonce })
        }
    }

    pub fn new(requires_auth: bool) -> (r: OpenIdMiddleware)
        ensures
            r.requires_auth == requires_auth,
    {
        OpenIdMiddleware { requires_auth }
    }

    /// Starts on a request, given the value of its access-token cookie.
    pub fn on_request(&self, access_token: Option<String>) -> (r: MiddlewareStep)
        ensures
            r@ == self.step_on_request(crate::response::opt_text(access_token)),
    {
        match access_token {
            Some(t) => MiddlewareStep::LookUpUserInfo { access_token: t },
            None => MiddlewareStep::BuildChallenge,
        }
    }

    /// Goes on with the provider's answer: the identity, or `None` if the
    /// lookup failed.
    pub fn on_user_info(&self, user: Option<AuthenticatedUser>) -> (r: MiddlewareStep)
        ensures
            r@ == self.step_on_user_info(
                match user {
                    Some(u) => Some(u@),
                    None => None,
                },
            ),
    {
        match user {
            Some(u) => MiddlewareStep::CallInner(AuthOutcome::Authenticated(u)),
            None => MiddlewareStep::BuildChallenge,
        }
    }

    /// Finishes with the challenge built for the request.
    pub fn on_challenge(&self, issuer_url: String, nonce: String) -> (r: MiddlewareStep)
        ensures
            r@ == self.step_on_challenge(issuer_url@, nonce@),
    {
        if self.requires_auth {
            let e = AuthError::NotAuthenticated { issuer_url, nonce };
            MiddlewareStep::Respond(e.error_response())
        } else {
            MiddlewareStep::CallInner(AuthOutcome::ChallengeRequired { issuer_url, nonce })
        }
    }
}

} // verus!
