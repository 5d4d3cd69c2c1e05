//! Connection settings.

use crate::paths::{join_path, path_join};
use vstd::prelude::*;

verus! {

/// The settings read from a configuration file.
#[derive(Clone, Debug, PartialEq, Eq)]
pub struct Config {
    pub api_key: String,
    pub endpoint: String,
}

impl Config {
    /// The places, relative to the home directory `home`, where a
    /// configuration file is looked for, in order.
    pub fn default_paths(home: &str) -> (r: Vec<String>)
        ensures
            r@.len() == 2,
            r@[0]@ == path_join(home@, ".sciobjsdb/config.yaml"@),
            r@[1]@ == path_join(home@, ".config/sciobjsdb/config.yaml"@),
    {
        let mut r: Vec<String> = Vec::new();
        r.push(join_path(home, ".sciobjsdb/config.yaml"));
        r.push(join_path(home, ".config/sciobjsdb/config.yaml"));
        r
    }
}

} // verus!
