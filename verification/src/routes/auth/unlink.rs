use vstd::prelude::*;

use crate::routes::auth::MfaMethodType;

verus! {

/// Unlinks an authentication method of the given type from the signed-in user.
pub struct UnlinkAuthMethodRequest<M> {
    pub auth_method: M,
}

/// Unlinks the MFA method of the given type from the signed-in user.
pub struct UnlinkMfaMethodRequest {
    pub mfa_method: MfaMethodType,
}

/// The user after a method was unlinked.
pub struct UnlinkMethodResponse<U> {
    pub user: U,
}

} // verus!
