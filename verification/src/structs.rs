//! The data model: dotfiles, the manifest that lists them, the sync policy,
//! and the metadata recorded about each installed dotfile.

pub mod config;
pub mod dotfile;
pub mod manifest;
pub mod metadata;

pub use config::Config;
pub use dotfile::Dotfile;
pub use manifest::Manifest;
pub use metadata::{AggregatedDotfileMetadata, DotfileMetadata};
