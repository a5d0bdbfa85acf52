//! Configuration, planning, lifecycle and error handling of a sandbox.

pub mod action;
pub mod builder;
pub mod cloner;
pub mod config;
pub mod file_content;
pub mod fs_tester;
pub mod fs_tester_error;
pub mod naming;
pub mod permissions;
