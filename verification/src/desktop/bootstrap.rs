//! Where the desktop application keeps its state.

use vstd::prelude::*;
use crate::bridge::paths::sqlite_url;
use crate::trusted::{path_join, spec_join};

verus! {

/// How to open the application database.
#[derive(Debug, Clone)]
pub struct DbConfig {
    pub url: String,
    pub max_connections: u32,
}

/// The database of the desktop application: `state.db` in the data
/// directory, created when missing, with at most five connections.
pub fn app_pool_config(data_dir: &str) -> (r: DbConfig)
    ensures
        r.url@ == "sqlite:"@ + spec_join(data_dir@, "state.db"@) + "?mode=rwc"@,
        r.max_connections == 5,
{
    let file = path_join(data_dir, "state.db");
    DbConfig { url: sqlite_url(file.as_str()), max_connections: 5 }
}

/// The settings file in the data directory.
pub fn settings_path(data_dir: &str) -> (r: String)
    ensures
        r@ == spec_join(data_dir@, "settings.json"@),
{
    path_join(data_dir, "settings.json")
}

/// The directory of the managed yt-dlp sidecar in the data directory.
pub fn managed_sidecar_dir(data_dir: &str) -> (r: String)
    ensures
        r@ == spec_join(data_dir@, "sidecar"@),
{
    path_join(data_dir, "sidecar")
}

} // verus!
