//! Build and packaging library for Minecraft add-on projects.
//!
//! The library holds the decisions of a build: which packs are staged, the
//! identifiers each pack carries, the manifest generated for it, the language
//! lines appended for it, and the policy that runs the plugins.

pub mod config;
pub mod diagnostic;
pub mod error;
pub mod health;
pub mod localization;
pub mod manifest;
pub mod pack;
pub mod paths;
pub mod plugin;
pub mod project;
pub mod uuid;
pub mod version;

pub use error::Error;
pub use pack::Pack;
