use vstd::prelude::*;

verus! {

/// Signs in with an email and password, and the second factor where the user holds one.
pub struct EmailPasswordRequest<C> {
    pub email: String,
    pub password: String,
    pub mfa_code: Option<C>,
}

/// The user who signed in.
pub struct AuthenticationResponse<U> {
    pub user: U,
}

} // verus!
