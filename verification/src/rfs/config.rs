//! The declarative description of a sandbox: directories, cloned
//! directories, files and links.

pub mod clone_directory_conf;
pub mod config_entry;
pub mod configuration;
pub mod directory_conf;
pub mod file_conf;
pub mod link_conf;

pub use clone_directory_conf::CloneDirectoryConf;
pub use config_entry::ConfigEntry;
pub use configuration::Configuration;
pub use directory_conf::DirectoryConf;
pub use file_conf::FileConf;
pub use link_conf::LinkConf;
