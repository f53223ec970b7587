use vstd::prelude::*;

use crate::error::{result_view, ApiError, ApiErrorType, CredentialError, ErrorView, UserError};

verus! {

/// The user id, as a 128-bit number, that `uuid::Uuid::parse_str` reads from a
/// text, or `None` where it refuses the text.
pub uninterp spec fn uuid_from_text(text: Seq<char>) -> Option<u128>;

/// Calls `uuid::Uuid::parse_str` and hands the UUID out as its 128-bit value
/// (`Uuid::as_u128`). Claimed: the outcome is a function of the text alone,
/// named `uuid_from_text`; which texts it accepts and which value it reads is
/// left to the uuid crate and not stated here.
#[verifier::external_body]
fn parse_uuid(text: &str) -> (parsed: Result<u128, uuid::Error>)
    ensures
        match parsed {
            Ok(id) => uuid_from_text(text@) == Some(id),
            Err(_) => uuid_from_text(text@) is None,
        },
{
    match uuid::Uuid::parse_str(text) {
        Ok(id) => Ok(id.as_u128()),
        Err(failure) => Err(failure),
    }
}

/// What the request carries about who sends it: no identity, an identity
/// whose id could not be read from the session, or the id it holds.
pub enum IdentityState {
    Anonymous,
    Unreadable,
    Known(String),
}

/// The answer for a request that carries an identity, shared by both
/// extractors: refused where the database is not reachable, where the
/// identity's id cannot be read, or where the id is not a UUID; else the
/// UUID's value.
pub open spec fn identified(identity: IdentityState, pool_available: bool) -> Result<u128, ErrorView>
    recommends
        !(identity is Anonymous),
{
    if !pool_available {
        Err(ErrorView::ApiUnknown("Something went wrong!"@))
    } else {
        match identity {
            IdentityState::Known(id) => match uuid_from_text(id@) {
                Some(uid) => Ok(uid),
                None => Err(ErrorView::UserNotFound),
            },
            _ => Err(ErrorView::ApiUnknown("Failed to authenticate!"@)),
        }
    }
}

fn identify_present(identity: IdentityState, pool_available: bool) -> (r: Result<u128, ApiErrorType>)
    requires
        !(identity is Anonymous),
    ensures
        result_view(r) == identified(identity, pool_available),
{
    if !pool_available {
        return Err(ApiErrorType::Api(ApiError::Unknown("Something went wrong!".to_owned())));
    }
    match identity {
        IdentityState::Known(id) => match parse_uuid(id.as_str()) {
            Ok(uid) => Ok(uid),
            Err(failure) => Err(ApiErrorType::from_uuid_error(failure)),
        },
        _ => Err(ApiErrorType::Api(ApiError::Unknown("Failed to authenticate!".to_owned()))),
    }
}

/// Wraps the services of the application; it attaches the session identity,
/// where there is one, to each request.
pub struct AuthenticationMiddleware {}

impl AuthenticationMiddleware {
    pub fn new() -> (middleware: Self) {
        AuthenticationMiddleware {  }
    }
}

/// The answer of [`AllowAuthenticated::identify`]: none for an anonymous
/// request, else the user id the identity holds.
pub open spec fn allow_answer(identity: IdentityState, pool_available: bool) -> Result<Option<u128>, ErrorView> {
    if identity is Anonymous {
        Ok(None)
    } else {
        match identified(identity, pool_available) {
            Ok(uid) => Ok(Some(uid)),
            Err(e) => Err(e),
        }
    }
}

/// The answer of [`RequireAuthenticated::identify`]: an anonymous request is
/// refused with `CredentialIncorrect`.
pub open spec fn require_answer(identity: IdentityState, pool_available: bool) -> Result<u128, ErrorView> {
    if identity is Anonymous {
        Err(ErrorView::CredentialIncorrect)
    } else {
        identified(identity, pool_available)
    }
}

/// The signed-in user, where there is one.
pub struct AllowAuthenticated<U>(pub Option<U>);

impl<U> AllowAuthenticated<U> {
    /// Which user to look up for the request: none for an anonymous request,
    /// else the user id the identity holds. Fails where the database is not
    /// reachable, the identity cannot be read, or its id is not a UUID.
    pub fn identify(identity: IdentityState, pool_available: bool) -> (r: Result<Option<u128>, ApiErrorType>)
        ensures
            result_view(r) == allow_answer(identity, pool_available),
    {
        match identity {
            IdentityState::Anonymous => Ok(None),
            _ => match identify_present(identity, pool_available) {
                Ok(uid) => Ok(Some(uid)),
                Err(e) => Err(e),
            },
        }
    }
}

/// A signed-in user; requests without one are refused.
pub struct RequireAuthenticated<U>(U);

impl<U> RequireAuthenticated<U> {
    /// Which user to look up for the request. An anonymous request is refused
    /// with `CredentialIncorrect`; the other failures are those of
    /// [`AllowAuthenticated::identify`].
    pub fn identify(identity: IdentityState, pool_available: bool) -> (r: Result<u128, ApiErrorType>)
        ensures
            result_view(r) == require_answer(identity, pool_available),
    {
        match identity {
            IdentityState::Anonymous => Err(ApiErrorType::Credential(CredentialError::CredentialIncorrect)),
            _ => identify_present(identity, pool_available),
        }
    }

    /// The extractor for the user that was looked up.
    pub fn from_user(user: U) -> (r: Self)
        ensures
            r.user_spec() == user,
    {
        RequireAuthenticated(user)
    }

    /// The user the extractor holds.
    pub closed spec fn user_spec(&self) -> U {
        self.0
    }

    /// The signed-in user.
    pub fn user(&self) -> (user: &U)
        ensures
            *user == self.user_spec(),
    {
        &self.0
    }
}

/// Admits only requests that carry no identity.
pub struct DenyAuthenticated {}

impl DenyAuthenticated {
    /// Refuses a request that carries an identity with `UserAuthenticated`.
    pub fn check(identity_present: bool) -> (r: Result<DenyAuthenticated, ApiErrorType>)
        ensures
            r is Ok <==> !identity_present,
            r matches Err(e) ==> e@ == ErrorView::UserAuthenticated,
    {
        if identity_present {
            Err(ApiErrorType::User(UserError::UserAuthenticated))
        } else {
            Ok(DenyAuthenticated {  })
        }
    }
}

/// The two extractors agree: a request admitted with a user by one is admitted
/// with the same user by the other, both refuse it with the same error, and
/// only an anonymous request is told apart (admitted without a user, or
/// refused with `CredentialIncorrect`). An identity that holds a UUID, with the
/// database reachable, is looked up by that UUID.
pub proof fn lemma_extractors_agree(identity: IdentityState, pool_available: bool)
    ensures
        require_answer(identity, pool_available) == match allow_answer(identity, pool_available) {
            Ok(Some(uid)) => Ok(uid),
            Ok(None) => Err(ErrorView::CredentialIncorrect),
            Err(e) => Err(e),
        },
        allow_answer(identity, pool_available) == Ok::<Option<u128>, ErrorView>(None) <==> identity is Anonymous,
        (identity matches IdentityState::Known(id) && pool_available && uuid_from_text(id@) is Some)
            ==> allow_answer(identity, pool_available) == Ok::<Option<u128>, ErrorView>(
                Some(uuid_from_text(identity->Known_0@).unwrap()),
            ),
{
}

} // verus!
