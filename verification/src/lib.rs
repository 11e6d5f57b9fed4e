//! A credential-and-session backend: it registers users with a hashed
//! password, authenticates login attempts, and issues opaque session tokens
//! with sliding expiry.
//!
//! The record store is held in memory as a pair of collections (user records
//! and token records linked by key); timestamps are milliseconds since the
//! Unix epoch and are rendered as UTC strings at the boundary.

pub mod clock;
pub mod database;
pub mod token;
pub mod users;
