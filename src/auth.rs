use vstd::prelude::*;

use crate::messages::{
    FORBIDDEN_REQUEST_RESPONSE, NOT_INITIALISED_WITH_AUTHTOKEN_RESPONSE,
    UNAUTHORIZED_REQUEST_RESPONSE,
};

verus! {

/// Where a request stands against the configured shared secret.
#[derive(Debug, Clone, Copy, PartialEq, Eq, Structural)]
pub enum AuthorizationState {
    /// The request carries the configured secret.
    Authorized,
    /// The request carries another value.
    Unauthorized,
    /// The request carries no credential.
    NoAuthorizationSent,
    /// No secret is configured: every authenticated request is refused.
    InternalNoTokenSet,
}

/// Where a request carrying `header` stands when the configured secret is
/// `token`. An empty secret refuses everything, whatever was sent.
pub open spec fn authorization(token: Seq<char>, header: Option<Seq<char>>) -> AuthorizationState {
    if token.len() == 0 {
        AuthorizationState::InternalNoTokenSet
    } else {
        match header {
            None => AuthorizationState::NoAuthorizationSent,
            Some(sent) => if sent == token {
                AuthorizationState::Authorized
            } else {
                AuthorizationState::Unauthorized
            },
        }
    }
}

/// Compares the credential a request sent (`None` when it sent none) with
/// the configured secret `token`.
pub fn is_request_authorized(token: &String, header: &Option<String>) -> (r: AuthorizationState)
    ensures
        r == authorization(token@, header.deep_view()),
{
    if token.as_str().is_empty() {
        return AuthorizationState::InternalNoTokenSet;
    }
    match header {
        None => AuthorizationState::NoAuthorizationSent,
        Some(sent) => {
            if sent.eq(token) {
                AuthorizationState::Authorized
            } else {
                AuthorizationState::Unauthorized
            }
        },
    }
}

/// Whether a request that sent `header` may perform an authenticated
/// operation: a secret is configured and the request sent exactly it.
pub fn is_authorized(token: &String, header: &Option<String>) -> (r: bool)
    ensures
        r == (token@.len() > 0 && header.deep_view() == Some(token@)),
{
    match is_request_authorized(token, header) {
        AuthorizationState::Authorized => true,
        _ => false,
    }
}

/// Why an authenticated request is refused.
#[derive(Debug, Clone, Copy, PartialEq, Eq, Structural)]
pub enum AuthFailure {
    /// The request sent a wrong credential.
    Forbidden,
    /// The request sent no credential.
    Unauthorized,
    /// No secret is configured.
    Misconfigured,
}

impl AuthFailure {
    /// The HTTP status that answers the refusal.
    pub fn status(&self) -> (r: u16)
        ensures
            *self is Forbidden ==> r == 403,
            *self is Unauthorized ==> r == 401,
            *self is Misconfigured ==> r == 500,
    {
        match self {
            AuthFailure::Forbidden => 403,
            AuthFailure::Unauthorized => 401,
            AuthFailure::Misconfigured => 500,
        }
    }

    /// The message that answers the refusal.
    pub fn message(&self) -> (r: &'static str)
        ensures
            *self is Forbidden ==> r@ == FORBIDDEN_REQUEST_RESPONSE@,
            *self is Unauthorized ==> r@ == UNAUTHORIZED_REQUEST_RESPONSE@,
            *self is Misconfigured ==> r@ == NOT_INITIALISED_WITH_AUTHTOKEN_RESPONSE@,
    {
        match self {
            AuthFailure::Forbidden => FORBIDDEN_REQUEST_RESPONSE,
            AuthFailure::Unauthorized => UNAUTHORIZED_REQUEST_RESPONSE,
            AuthFailure::Misconfigured => NOT_INITIALISED_WITH_AUTHTOKEN_RESPONSE,
        }
    }
}

/// Guards an authenticated operation: `Ok` when the request is authorized,
/// else the refusal to answer with.
pub fn authorized_guard(token: &String, header: &Option<String>) -> (r: Result<(), AuthFailure>)
    ensures
        match authorization(token@, header.deep_view()) {
            AuthorizationState::Authorized => r is Ok,
            AuthorizationState::Unauthorized => r == Err::<(), AuthFailure>(AuthFailure::Forbidden),
            AuthorizationState::NoAuthorizationSent => r == Err::<(), AuthFailure>(
                AuthFailure::Unauthorized,
            ),
            AuthorizationState::InternalNoTokenSet => r == Err::<(), AuthFailure>(
                AuthFailure::Misconfigured,
            ),
        },
{
    match is_request_authorized(token, header) {
        AuthorizationState::Authorized => Ok(()),
        AuthorizationState::Unauthorized => Err(AuthFailure::Forbidden),
        AuthorizationState::NoAuthorizationSent => Err(AuthFailure::Unauthorized),
        AuthorizationState::InternalNoTokenSet => Err(AuthFailure::Misconfigured),
    }
}

} // verus!
