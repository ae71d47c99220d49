//! An account repository: creation, lookup, password updates and deletion of
//! user records held in an in-memory store, with a fixed default-avatar
//! policy, generated identifiers and creation/update timestamps.

pub mod avatars;
pub mod store;
pub mod users;
