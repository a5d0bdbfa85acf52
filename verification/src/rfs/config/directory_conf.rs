use vstd::prelude::*;
use super::config_entry::ConfigEntry;

verus! {

/// A directory named `name` that holds the entries of `content`.
#[derive(Debug, PartialEq, Eq)]
pub struct DirectoryConf {
    /// The name of the directory that is created.
    pub name: String,
    /// The entries created inside the directory, in configuration order.
    pub content: Vec<ConfigEntry>,
}

} // verus!
