use vstd::prelude::*;
use super::config_entry::ConfigEntry;
use crate::rfs::fs_tester_error::{ErrorCode, FsTesterError};

verus! {

/// The top level of a sandbox description: an ordered list of entries.
///
/// A configuration can be built only when it holds exactly one entry and
/// that entry is a directory or a cloned directory.
#[derive(Debug, PartialEq, Eq)]
pub struct Configuration(pub Vec<ConfigEntry>);

impl Configuration {
    /// Whether a sandbox can be built from this configuration: it holds
    /// exactly one entry, and that entry is a directory or a cloned directory.
    pub open spec fn buildable(&self) -> bool {
        &&& self.0.len() == 1
        &&& (self.0[0] is Directory || self.0[0] is CloneDirectory)
    }

    /// The single root entry of a buildable configuration. A configuration
    /// with no entry, with more than one, or with a file or a link at its top
    /// is refused.
    pub fn root(&self) -> (found: Result<&ConfigEntry, FsTesterError>)
        ensures
            self.buildable() ==> found is Ok && *found->Ok_0 == self.0[0],
            !self.buildable() ==> found is Err && found->Err_0.is_bare(
                ErrorCode::ShouldStartFromDirectory,
            ),
    {
        if self.0.len() != 1 {
            return Err(FsTesterError::should_start_from_directory());
        }
        let entry = &self.0[0];
        match entry {
            ConfigEntry::Directory(_) | ConfigEntry::CloneDirectory(_) => Ok(entry),
            _ => Err(FsTesterError::should_start_from_directory()),
        }
    }
}

} // verus!
