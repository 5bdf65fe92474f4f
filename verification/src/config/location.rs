//! Where the configuration file is looked for.

use vstd::prelude::*;
use crate::paths::{join, spec_join};
use crate::text::owned;

verus! {

/// The default configuration file path, from `XDG_CONFIG_HOME` and `HOME`
/// (as the environment gives them): under the XDG directory where it is set,
/// else under `~/.config`, else `config.toml` in the current directory.
pub fn config_path_from(xdg_config_home: Option<String>, home: Option<String>) -> (p: String)
    ensures
        match xdg_config_home {
            Some(x) => p@ == spec_join(x@, "rustaria/config.toml"@),
            None => match home {
                Some(h) => p@ == spec_join(h@, ".config/rustaria/config.toml"@),
                None => p@ == "config.toml"@,
            },
        },
{
    match xdg_config_home {
        Some(x) => join(x.as_str(), "rustaria/config.toml"),
        None => match home {
            Some(h) => join(h.as_str(), ".config/rustaria/config.toml"),
            None => owned("config.toml"),
        },
    }
}

/// The database file under the data directory: `<data_dir>/rustaria.db`.
pub fn database_path(data_dir: &str) -> (p: String)
    ensures
        p@ == data_dir@ + "/rustaria.db"@,
{
    crate::text::str_concat(data_dir, "/rustaria.db")
}

} // verus!
