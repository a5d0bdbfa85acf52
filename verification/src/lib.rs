//! Disposable directory trees for tests.
//!
//! A declarative [`config::Configuration`] describes one root directory with
//! nested directories, files, hard links and cloned subtrees. This crate holds
//! the rules that turn such a description into an ordered list of filesystem
//! actions, the naming of the sandbox root, the failure and rollback protocol
//! and the error taxonomy; every rule carries a machine-checked contract.
//! Touching the disk is left to the caller, who performs the actions and
//! reports their outcomes back.

pub mod rfs;

pub use rfs::config;
pub use rfs::file_content::FileContent;
pub use rfs::fs_tester::FsTester;
pub use rfs::fs_tester_error::{Category, ErrorCode, FsTesterError};
