//! The boundary between the service and the tables that hold its records.
//!
//! The service does not reach a database. It states what it wants to know or
//! to change as a query, and continues once the query's answer is handed to
//! it. This module defines the queries and answers, and says, over a table
//! seen as a sequence of rows, which answers a repository may give.

pub mod notes;
pub mod users;

pub use notes::{NoteAnswer, NoteQuery};
pub use users::{UserAnswer, UserQuery};
