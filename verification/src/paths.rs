//! Paths of the library's own configuration artifacts, relative to the
//! user's home directory. Resolving the home directory itself is the
//! application's business.

use vstd::prelude::*;
use vstd::string::*;

verus! {

/// The configuration directory under `home`.
pub fn apm_config_dir(home: &str) -> (r: String)
    ensures
        r@ == home@ + "/.apm"@,
{
    let mut r = home.to_owned();
    r.append("/.apm");
    r
}

/// The settings file under `home`.
pub fn apm_config_path(home: &str) -> (r: String)
    ensures
        r@ == home@ + "/.apm/config.toml"@,
{
    let mut r = home.to_owned();
    r.append("/.apm/config.toml");
    r
}

} // verus!
