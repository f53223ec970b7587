use vstd::prelude::*;

verus! {

/// Removes the email and password of the user the access token names.
pub struct RemoveEmailPasswordRequest<T> {
    pub email: String,
    pub password: String,
    pub access_token: T,
}

/// Removes the TOTP method of the user the access token names.
pub struct RemoveTotpRequest<T> {
    pub access_token: T,
}

/// The user after a method was removed.
pub struct RemoveMethodResponse<U> {
    pub user: U,
}

} // verus!
