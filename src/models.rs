//! Records of the user, role and permission store, and the worklist connection settings.

pub mod captcha;
pub mod permission;
pub mod user;
pub mod worklist;
