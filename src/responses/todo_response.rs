use vstd::prelude::*;

verus! {

/// A status and a message.
pub struct GenericResponse {
    pub status: String,
    pub message: String,
}

/// A captcha image, its identifier and its lifetime in seconds.
pub struct CaptchaResponse {
    pub captcha_image: String,
    pub captcha_id: String,
    pub expires_in: i64,
}

} // verus!
