//! Session-authenticated notes service: the rules, with their proofs.
//!
//! The crate holds the decisions of the service (who may register, who is
//! logged in, which note belongs to whom, which configuration is sound) as
//! verified functions on plain values. Talking to the database, the session
//! store and the network is left to the program that embeds it.

pub mod config;
pub mod controllers;
pub mod middleware;
pub mod models;
pub mod repositories;
pub mod services;
pub mod session;
pub mod utils;
