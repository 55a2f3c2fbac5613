use vstd::prelude::*;

verus! {

/// A status and a message.
pub struct GenericResponse {
    pub status: String,
    pub message: String,
}

/// A captcha image, its identifier and its lifetime in seconds.
pub struct CaptchaResponse {
    pub captcha_image: String,
    pub captcha_id: String,
    pub expires_in: i64,
}

/// The answer to a logout.
pub struct LogoutResponse {
    pub status: String,
}

/// A user's name, role and permissions.
pub struct UserInfoResponse {
    pub username: String,
    pub role: String,
    pub permissions: Vec<String>,
}

/// The answer to a login, with the issued token on success.
pub struct LoginResponse {
    pub status: String,
    pub message: String,
    pub token: Option<String>,
}

} // verus!
