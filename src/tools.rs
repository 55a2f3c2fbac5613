//! Token claims and permission checks.

pub mod jwt;
pub mod permission_control;
