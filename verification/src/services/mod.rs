//! The service's decisions.
//!
//! A request is handled in steps. Each step either asks the repository a
//! question, and says what the service is waiting for, or is the answer to
//! the request. The caller carries the question to the repository and hands
//! the answer to `resume`, until the request is answered.

pub mod notes;
pub mod users;

pub use notes::NoteService;
pub use users::UserService;
