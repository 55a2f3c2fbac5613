use vstd::prelude::*;

verus! {

/// The authenticated user and the names of the permissions of their role.
pub struct UserWithPermissions {
    pub user_id: String,
    pub permissions: Vec<String>,
}

/// Why a request was refused.
#[derive(Clone, Copy, Debug, PartialEq, Eq, Structural)]
pub enum PermissionError {
    Unauthorized,
    Forbidden,
}

} // verus!
