use vstd::prelude::*;

verus! {

/// Adds an email and password to the user the access token names.
pub struct AddEmailPasswordRequest<T> {
    pub email: String,
    pub password: String,
    pub access_token: T,
}

/// Adds a TOTP method to the user the access token names.
pub struct AddTotpRequest<T> {
    pub access_token: T,
}

/// The user after an authentication method was added.
pub struct AddAuthMethodResponse<U> {
    pub user: U,
}

/// The user after an MFA method was added, and the method's secret.
pub struct AddMfaMethodResponse<U> {
    pub user: U,
    pub data: String,
}

} // verus!
