//! The account routes: requests and answers, and the session tokens that
//! authorize them. The user, token and MFA code types belong to the user
//! store; here they are type parameters.

use vstd::prelude::*;

use crate::error::{ApiError, ApiErrorType, ErrorView};

pub mod add;
pub mod authenticate;
pub mod disable;
pub mod link;
pub mod register;
pub mod remove;
pub mod unlink;
pub mod update;

verus! {

/// The session key of the access token.
pub const ACCESS_TOKEN_KEY: &'static str = "access_token";
/// The session key of the refresh token.
pub const REFRESH_TOKEN_KEY: &'static str = "refresh_token";

/// The token the session holds under a key; a session without one is refused
/// with `TokenInvalid`.
pub fn require_token<T>(stored: Option<T>) -> (r: Result<T, ApiErrorType>)
    ensures
        stored matches Some(t) ==> r == Ok::<T, ApiErrorType>(t),
        stored is None ==> (r matches Err(e) && e@ == ErrorView::TokenInvalid),
{
    match stored {
        Some(token) => Ok(token),
        None => Err(ApiErrorType::Api(ApiError::TokenInvalid)),
    }
}

/// The access and refresh tokens a refresh needs; a session that lacks either
/// is refused with `TokenInvalid`.
pub fn require_token_pair<T>(access: Option<T>, refresh: Option<T>) -> (r: Result<(T, T), ApiErrorType>)
    ensures
        (access is Some && refresh is Some) ==> r == Ok::<(T, T), ApiErrorType>((access->0, refresh->0)),
        (access is None || refresh is None) ==> (r matches Err(e) && e@ == ErrorView::TokenInvalid),
{
    let access = match require_token(access) {
        Ok(t) => t,
        Err(e) => return Err(e),
    };
    let refresh = match require_token(refresh) {
        Ok(t) => t,
        Err(e) => return Err(e),
    };
    Ok((access, refresh))
}

/// The second factors a user can hold.
pub enum MfaMethodType {
    Totp,
}

/// The secret every new TOTP method is created with, and that the answer hands
/// back to the user.
pub const TOTP_SECRET: &'static str = "salkdjaskljd";

/// The secret a new MFA method of the given type is created with.
pub fn mfa_secret(method: &MfaMethodType) -> (secret: String)
    ensures
        secret@ == TOTP_SECRET@,
{
    match method {
        MfaMethodType::Totp => TOTP_SECRET.to_owned(),
    }
}

} // verus!
