use vstd::prelude::*;
use crate::error::{AuthError, ErrorModel};
use crate::outcome::{AuthOutcome, AuthenticatedUser, OutcomeModel, UserModel, identity_of, mandatory_access, opt_outcome};

verus! {

/// The identity of a request that must be authenticated.
pub struct Authenticated(AuthenticatedUser);

impl View for Authenticated {
    type V = UserModel;

    closed spec fn view(&self) -> UserModel {
        self.0@
    }
}

impl Authenticated {
    /// Reads the outcome attached to the request: the identity when it is
    /// authenticated, the challenge when it is not, and `Unauthorized` when the
    /// middleware attached none.
    pub fn from_request(ctx: Option<AuthOutcome>) -> (r: Result<Authenticated, AuthError>)
        ensures
            match r {
                Ok(a) => mandatory_access(opt_outcome(ctx)) == Ok::<UserModel, ErrorModel>(a@),
                Err(e) => mandatory_access(opt_outcome(ctx)) == Err::<UserModel, ErrorModel>(e@),
            },
    {
        match ctx {
            Some(AuthOutcome::Authenticated(u)) => Ok(Authenticated(u)),
            Some(AuthOutcome::ChallengeRequired { issuer_url, nonce }) => Err(
                AuthError::NotAuthenticated { issuer_url, nonce },
            ),
            None => Err(AuthError::Unauthorized),
        }
    }

    /// The identity.
    pub fn user(&self) -> (r: &AuthenticatedUser)
        ensures
            r@ == self@,
    {
        &self.0
    }
}

/// The outcome of a request that may or may not be authenticated.
pub struct MaybeAuthenticated(AuthOutcome);

impl View for MaybeAuthenticated {
    type V = OutcomeModel;

    closed spec fn view(&self) -> OutcomeModel {
        self.0@
    }
}

impl MaybeAuthenticated {
    /// Reads the outcome attached to the request; fails with `Unauthorized`
    /// only when the middleware attached none.
    pub fn from_request(ctx: Option<AuthOutcome>) -> (r: Result<MaybeAuthenticated, AuthError>)
        ensures
            match ctx {
                Some(o) => r is Ok && r->Ok_0@ == o@,
                None => r is Err && r->Err_0@ == ErrorModel::Unauthorized,
            },
    {
        match ctx {
            Some(o) => Ok(MaybeAuthenticated(o)),
            None => Err(AuthError::Unauthorized),
        }
    }

    /// The identity, or nothing.
    pub fn user(&self) -> (r: Option<&AuthenticatedUser>)
        ensures
            match r {
                Some(u) => identity_of(self@) == Some(u@),
                None => identity_of(self@) is None,
            },
    {
        match &self.0 {
            AuthOutcome::Authenticated(u) => Some(u),
            AuthOutcome::ChallengeRequired { .. } => None,
        }
    }

    /// The identity, or the challenge as an error.
    pub fn try_user(&self) -> (r: Result<&AuthenticatedUser, AuthError>)
        ensures
            match r {
                Ok(u) => mandatory_access(Some(self@)) == Ok::<UserModel, ErrorModel>(u@),
                Err(e) => mandatory_access(Some(self@)) == Err::<UserModel, ErrorModel>(e@),
            },
    {
        match &self.0 {
            AuthOutcome::Authenticated(u) => Ok(u),
            AuthOutcome::ChallengeRequired { issuer_url, nonce } => Err(
                AuthError::NotAuthenticated { issuer_url: issuer_url.clone(), nonce: nonce.clone() },
            ),
        }
    }
}

} // verus!
