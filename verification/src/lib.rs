//! Control logic of a map add-on daemon for a dedicated game server: name and
//! path sanitizers, the URL guard, package metadata, the registry of installed
//! maps, and the decision steps of the install, download and reconciliation
//! loops.

pub mod api;
pub mod archive;
pub mod checksum;
pub mod clock;
pub mod config;
pub mod detect;
pub mod download;
pub mod error;
pub mod installer;
pub mod installer_laws;
pub mod models;
pub mod paths;
pub mod registry;
pub mod registry_laws;
pub mod rows;
pub mod sanitize;
pub mod steam;
pub mod sync;
pub mod text;
pub mod uninstall;
pub mod url_validator;
pub mod vpk;
pub mod watcher;
