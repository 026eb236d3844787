//! Runtime configuration: where the settings live. Reading and parsing the
//! settings file is the boundary layer's work; the core only carries the
//! path.

use vstd::prelude::*;

verus! {

/// The location of the settings file this process was configured from.
#[derive(Clone, Debug)]
pub struct LoadConfig {
    /// Path of the settings file.
    pub path: String,
}

impl Default for LoadConfig {
    /// The conventional settings location.
    fn default() -> (r: Self)
        ensures
            r.path@ == "./settings.toml"@,
    {
        LoadConfig { path: "./settings.toml".to_owned() }
    }
}

impl LoadConfig {
    /// A configuration rooted at the given source path.
    pub fn new(source: &str) -> (r: Self)
        ensures
            r.path@ == source@,
    {
        LoadConfig { path: source.to_owned() }
    }
}

} // verus!
