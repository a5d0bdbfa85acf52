use vstd::prelude::*;

verus! {

/// A directory named `name` whose content is a recursive copy of the
/// existing directory `source`.
#[derive(Debug, PartialEq, Eq)]
pub struct CloneDirectoryConf {
    /// The name of the directory that is created.
    pub name: String,
    /// The path of the directory whose content is copied.
    pub source: String,
}

} // verus!
