//! Where the bridge keeps its data and puts downloads.

use vstd::prelude::*;
use crate::text::cat3;
use crate::trusted::{path_join, spec_join};

verus! {

/// The SQLite connection URL for a database file (created if missing).
pub fn sqlite_url(path: &str) -> (r: String)
    ensures
        r@ == "sqlite:"@ + path@ + "?mode=rwc"@,
{
    cat3("sqlite:", path, "?mode=rwc")
}

/// The downloads directory: `Downloads` under the user profile (Windows) or
/// home directory (elsewhere), else `khukri-downloads` in the temporary
/// directory. `profile_or_home` is `USERPROFILE` on Windows, `HOME` elsewhere.
pub fn downloads_dir(profile_or_home: Option<&str>, temp_dir: &str) -> (r: String)
    ensures
        r@ == match profile_or_home {
            Some(h) => spec_join(h@, "Downloads"@),
            None => spec_join(temp_dir@, "khukri-downloads"@),
        },
{
    match profile_or_home {
        Some(h) => path_join(h, "Downloads"),
        None => path_join(temp_dir, "khukri-downloads"),
    }
}

/// The environment the data directory is chosen from.
pub struct DataDirEnv {
    pub explicit: Option<String>,
    pub local_app_data: Option<String>,
    pub xdg_data_home: Option<String>,
    pub home: Option<String>,
    pub temp_dir: String,
    pub windows: bool,
}

pub open spec fn data_dir_for(env: DataDirEnv) -> Seq<char> {
    if env.explicit.is_some() {
        env.explicit.unwrap()@
    } else if env.windows && env.local_app_data.is_some() {
        spec_join(env.local_app_data.unwrap()@, "Khukri"@)
    } else if !env.windows && env.xdg_data_home.is_some() {
        spec_join(env.xdg_data_home.unwrap()@, "khukri"@)
    } else if !env.windows && env.home.is_some() {
        spec_join(spec_join(spec_join(env.home.unwrap()@, ".local"@), "share"@), "khukri"@)
    } else {
        spec_join(env.temp_dir@, "khukri-data"@)
    }
}

/// The application data directory: `KHUKRI_DATA_DIR` when set, else the
/// platform's per-user data directory, else `khukri-data` in the temporary
/// directory.
pub fn app_data_dir(env: &DataDirEnv) -> (r: String)
    ensures
        r@ == data_dir_for(*env),
{
    if let Some(explicit) = &env.explicit {
        return explicit.clone();
    }
    if env.windows {
        if let Some(local) = &env.local_app_data {
            return path_join(local.as_str(), "Khukri");
        }
    } else {
        if let Some(data_home) = &env.xdg_data_home {
            return path_join(data_home.as_str(), "khukri");
        }
        if let Some(home) = &env.home {
            let a = path_join(home.as_str(), ".local");
            let b = path_join(a.as_str(), "share");
            return path_join(b.as_str(), "khukri");
        }
    }
    path_join(env.temp_dir.as_str(), "khukri-data")
}

} // verus!
