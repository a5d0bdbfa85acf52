use vstd::prelude::*;
use super::clone_directory_conf::CloneDirectoryConf;
use super::directory_conf::DirectoryConf;
use super::file_conf::FileConf;
use super::link_conf::LinkConf;

verus! {

/// One item of a configuration.
#[derive(Debug, PartialEq, Eq)]
pub enum ConfigEntry {
    /// A directory with nested entries.
    Directory(DirectoryConf),
    /// A directory filled with a copy of an existing directory.
    CloneDirectory(CloneDirectoryConf),
    /// A file with configured content.
    File(FileConf),
    /// A hard link to an existing file.
    Link(LinkConf),
}

} // verus!
