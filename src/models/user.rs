use vstd::prelude::*;

verus! {

/// A role of a user.
pub struct Role {
    pub id: i32,
    pub role_name: String,
}

/// A permission of a user.
pub struct Permission {
    pub id: i32,
    pub permissions_name: String,
}

/// A request to create a user.
pub struct RegisterRequest {
    pub username: String,
    pub password: String,
    pub voice_attachment: bool,
    pub role_id: String,
}

/// A login attempt with its captcha answer.
#[allow(non_snake_case)]
pub struct LoginRequest {
    pub username: String,
    pub password: String,
    pub captcha: String,
    pub captchaId: String,
}

/// A request to mark a user deleted.
#[allow(non_snake_case)]
pub struct DeleteUserRequest {
    pub Uid: String,
}

/// A request to change the password of a user.
#[allow(non_snake_case)]
pub struct EditRequest {
    pub Uid: String,
    pub newPassword: String,
}

} // verus!
