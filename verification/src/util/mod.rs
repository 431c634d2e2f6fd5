//! Small helpers shared by the rest of the crate.

pub mod crypto;
pub mod file;
pub mod map;
pub mod markdown;
pub mod string;
pub mod time;
