//! State shared by the request handlers.

pub mod user_controller;
