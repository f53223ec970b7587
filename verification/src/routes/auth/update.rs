use vstd::prelude::*;

verus! {

/// The user after its attributes were updated.
pub struct UpdateResponse<U> {
    user: U,
}

impl<U> UpdateResponse<U> {
    pub fn new(user: U) -> (r: Self)
        ensures
            r.updated_user() == user,
    {
        UpdateResponse { user }
    }

    /// The updated user.
    pub closed spec fn updated_user(&self) -> U {
        self.user
    }

    /// The updated user.
    pub fn user(&self) -> (u: &U)
        ensures
            *u == self.updated_user(),
    {
        &self.user
    }
}

} // verus!
