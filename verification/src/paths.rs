//! Well-known file locations inside the application directory.
//!
//! Finding the application directory itself needs the process environment, so
//! callers resolve it and pass it in as plain text.

use vstd::prelude::*;

verus! {

/// The configuration file path inside the application directory.
pub fn get_config_path(app_dir: &str) -> (r: String)
    ensures
        r@ == app_dir@ + "/config.toml"@,
{
    let mut s = String::from_str(app_dir);
    s.append("/config.toml");
    s
}

/// The log directory path inside the application directory.
pub fn get_log_dir(app_dir: &str) -> (r: String)
    ensures
        r@ == app_dir@ + "/logs"@,
{
    let mut s = String::from_str(app_dir);
    s.append("/logs");
    s
}

} // verus!
