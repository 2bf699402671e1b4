//! Server-side cursor sessions that hand out the rows of a query in batches.
//!
//! The library decides what a cursor session says to the database and how it
//! reacts to each answer; the surrounding application performs the round trips.
pub mod laws;
pub mod session;
pub mod statement;
