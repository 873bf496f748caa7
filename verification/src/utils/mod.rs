//! Text handling and password hashing.

pub mod passwords;
pub mod text;

pub use passwords::{hash_password, verify_password, HashingError};
