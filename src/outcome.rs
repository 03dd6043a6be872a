use vstd::prelude::*;
use crate::error::ErrorModel;

verus! {

/// The identity the provider's user-info endpoint returned for this request.
#[derive(Clone, Debug)]
pub struct AuthenticatedUser {
    /// The `sub` claim.
    pub subject: String,
    /// All claims, as JSON.
    pub claims: String,
}

pub struct UserModel {
    pub subject: Seq<char>,
    pub claims: Seq<char>,
}

impl View for AuthenticatedUser {
    type V = UserModel;

    open spec fn view(&self) -> UserModel {
        UserModel { subject: self.subject@, claims: self.claims@ }
    }
}

impl AuthenticatedUser {
    pub fn new(subject: String, claims: String) -> (r: AuthenticatedUser)
        ensures
            r.subject == subject,
            r.claims == claims,
    {
        AuthenticatedUser { subject, claims }
    }
}

/// The result of authentication for one request.
#[derive(Clone, Debug)]
pub enum AuthOutcome {
    Authenticated(AuthenticatedUser),
    ChallengeRequired { issuer_url: String, nonce: String },
}

pub enum OutcomeModel {
    Authenticated(UserModel),
    ChallengeRequired { issuer_url: Seq<char>, nonce: Seq<char> },
}

impl View for AuthOutcome {
    type V = OutcomeModel;

    open spec fn view(&self) -> OutcomeModel {
        match self {
            AuthOutcome::Authenticated(u) => OutcomeModel::Authenticated(u@),
            AuthOutcome::ChallengeRequired { issuer_url, nonce } => OutcomeModel::ChallengeRequired {
                issuer_url: issuer_url@,
                nonce: nonce@,
            },
        }
    }
}

pub open spec fn opt_outcome(o: Option<AuthOutcome>) -> Option<OutcomeModel> {
    match o {
        Some(v) => Some(v@),
        None => None,
    }
}

/// What the mandatory accessor yields for the outcome attached to a request.
pub open spec fn mandatory_access(ctx: Option<OutcomeModel>) -> Result<UserModel, ErrorModel> {
    match ctx {
        Some(OutcomeModel::Authenticated(u)) => Ok(u),
        Some(OutcomeModel::ChallengeRequired { issuer_url, nonce }) => Err(
            ErrorModel::NotAuthenticated { issuer_url, nonce },
        ),
        None => Err(ErrorModel::Unauthorized),
    }
}

/// The identity, if any, that an outcome holds.
pub open spec fn identity_of(o: OutcomeModel) -> Option<UserModel> {
    match o {
        OutcomeModel::Authenticated(u) => Some(u),
        OutcomeModel::ChallengeRequired { .. } => None,
    }
}

} // verus!
