use vstd::prelude::*;

verus! {

/// A named permission.
pub struct Permission {
    pub id: i32,
    pub permissions_name: String,
}

/// Every permission.
pub struct PermissionListResponse {
    pub status: String,
    pub data: Vec<Permission>,
}

/// A permission granted to a role.
pub struct RolePermission {
    pub id: i32,
    pub name: String,
}

/// A role and its permissions.
pub struct RoleWithPermissions {
    pub id: i32,
    pub role_name: String,
    pub permissions: Vec<RolePermission>,
}

/// Every role with its permissions.
pub struct RolePermissionResponse {
    pub status: String,
    pub data: Vec<RoleWithPermissions>,
}

/// A request to grant or withdraw a permission of a role.
pub struct RolePermissionRequest {
    pub role_id: i32,
    pub permissions_name: String,
}

/// A role.
pub struct Role {
    pub id: i32,
    pub role_name: String,
}

/// Every role.
pub struct RoleResponse {
    pub role: Vec<Role>,
}

} // verus!
