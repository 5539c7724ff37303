//! A verified core for a small task service: a single `task` table reached
//! through a pooled SQLite connection, four query operations over it, and the
//! pieces of the HTTP layer that compute rather than talk to the network.

pub mod db;
pub mod store;
pub mod task;
