//! A minimal CRUD service for a single `users` table, spoken over a small
//! HTTP-like wire protocol.
//!
//! The library holds everything that can be checked: request classification,
//! path and body parsing, the SQL statements with their bound parameters, and
//! the mapping from database outcomes to responses. The surrounding program
//! performs the socket reads and writes and the database round-trips, handing
//! plain values in and out.

pub mod db;
pub mod json;
pub mod parse;
pub mod protocol;
pub mod text;
