use vstd::prelude::*;

verus! {

/// A universally unique identifier, carried through as it is.
#[verifier::external_type_specification]
#[verifier::external_body]
pub struct ExUuid(uuid::Uuid);

/// A lightweight identity record of the user-sync context: an external
/// user's id and the score accumulated for it.
#[derive(Debug, Clone, Copy)]
pub struct ShadowUser {
    pub user_id: uuid::Uuid,
    pub total_score: i32,
}

impl ShadowUser {
    /// A shadow user is created once per external identity, with no score.
    pub fn new(user_id: uuid::Uuid) -> (r: Self)
        ensures
            r.user_id == user_id,
            r.total_score == 0,
    {
        Self { user_id, total_score: 0 }
    }
}

} // verus!
