//! Response bodies of the service.

pub mod response;
pub mod todo_response;
