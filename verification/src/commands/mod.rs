//! The commands: what each of them decides, step by step.

pub mod install;
pub mod list;
pub mod new;
pub mod remove;
pub mod search;
pub mod sources;
pub mod update;

pub use install::{install, Install};
pub use list::{list, List};
pub use new::{new, New};
pub use remove::{remove, Remove};
pub use search::{search, Search};
pub use sources::Sources;
pub use update::{update, Update};
