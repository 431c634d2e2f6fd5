//! The cache store: its rows, its operations and an in-memory store.

pub mod local_db;
pub mod memory;
pub mod ordering;
pub mod source;
pub mod template;
