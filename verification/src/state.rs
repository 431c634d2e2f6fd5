//! What every command is handed: the configuration and the store.

use crate::config::SysConfig;
use crate::db::local_db::TemplateDb;
use vstd::prelude::*;

verus! {

/// The state of the program: how much it logs, its configuration and its
/// cache store.
pub struct AppState<D: TemplateDb> {
    pub log_level: u8,
    pub sys_config: SysConfig,
    pub local_db: D,
}

} // verus!
