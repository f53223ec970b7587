use vstd::prelude::*;

verus! {

/// Disables the signed-in user, for the reasons given.
pub struct DisableRequest {
    pub reasons: Vec<String>,
}

/// Whether the user was disabled.
pub struct DisableResponse {
    pub success: bool,
}

} // verus!
