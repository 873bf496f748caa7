//! The routes' handlers, as far as they decide anything: each turns a
//! request into the first step of the service.

pub mod notes;
pub mod routes;
pub mod users;
