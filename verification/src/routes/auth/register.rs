use vstd::prelude::*;

verus! {

/// Registers a user with an email and password.
pub struct EmailPasswordRequest {
    pub email: String,
    pub password: String,
}

/// The user who registered.
pub struct RegistrationResponse<U> {
    pub user: U,
}

} // verus!
