use vstd::prelude::*;

verus! {

/// A captcha awaiting its answer, and when it expires (seconds since the Unix epoch).
pub struct CaptchaInfo {
    pub captcha: String,
    pub expires: u64,
}

} // verus!
