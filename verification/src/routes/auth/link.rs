use vstd::prelude::*;

use crate::routes::auth::MfaMethodType;

verus! {

/// Links an email and password to the signed-in user.
pub struct LinkEmailPasswordRequest {
    pub email: String,
    pub password: String,
}

/// Links an MFA method of the given type to the signed-in user.
pub struct LinkMfaRequest {
    mfa_method: MfaMethodType,
}

impl LinkMfaRequest {
    pub fn new(mfa_method: MfaMethodType) -> (r: Self)
        ensures
            r.method() == mfa_method,
    {
        LinkMfaRequest { mfa_method }
    }

    /// The type of MFA method to link.
    pub closed spec fn method(&self) -> MfaMethodType {
        self.mfa_method
    }

    /// The type of MFA method to link.
    pub fn mfa_method(&self) -> (m: &MfaMethodType)
        ensures
            *m == self.method(),
    {
        &self.mfa_method
    }
}

/// The user after an authentication method was linked.
pub struct LinkAuthMethodResponse<U> {
    pub user: U,
}

/// The user after an MFA method was linked, and the method's secret.
pub struct LinkMfaMethodResponse<U> {
    pub user: U,
    pub data: String,
}

} // verus!
