//! What stands between a request and a protected route.

pub mod auth;

pub use auth::{auth_middleware, Gate};
