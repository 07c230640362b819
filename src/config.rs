//! The configuration of a project, as the configuration loader hands it over.

use crate::localization::{Language, LanguageGroups};
use crate::manifest::Capabilities;
use crate::version::BaseGameVersion;
use vstd::prelude::*;

verus! {

/// A value given once for all languages, or per language.
#[derive(Clone, Debug)]
pub enum OptionallyLocalized<T> {
    Localized(Vec<(Language, T)>),
    Unlocalized(T),
}

/// The overall configuration of a project.
#[derive(Clone, Debug)]
pub struct Config {
    /// Optional reference to a JSON schema.
    pub schema: Option<String>,
    /// Whether to build in debug mode.
    pub debug: bool,
    /// Metadata of the project.
    pub project: Project,
    /// Localization options.
    pub localization: Localization,
    /// Environment variables handed to plugins, in the order they are declared.
    pub env: Vec<(String, String)>,
    /// Options of the build process.
    pub build: Build,
    /// Plugins, run in the order in which they are declared.
    pub plugin: Vec<Plugin>,
    pub bp: BP,
    pub rp: RP,
    pub sp: SP,
    pub wt: WT,
    /// Optional features that can be enabled in Minecraft.
    pub capabilities: Option<Capabilities>,
}

#[derive(Clone, Debug, Default)]
pub struct Build {
    /// Directories to watch besides `src`.
    pub extra_watch_dirs: Vec<String>,
}

/// Metadata of the project.
#[derive(Clone, Debug)]
pub struct Project {
    pub name: OptionallyLocalized<String>,
    pub description: OptionallyLocalized<String>,
    /// The version of the project (`major.minor.patch`).
    pub version: String,
    pub authors: Option<Vec<String>>,
    /// SPDX license identifier of the project.
    pub license: Option<String>,
    /// URL to the homepage of the project.
    pub url: Option<String>,
    /// Minimum version of the game the pack is written for.
    pub min_engine_version: String,
}

#[derive(Clone, Debug)]
pub struct Localization {
    /// The general fallback for unspecified translations.
    pub primary_language: Language,
    pub groups: LanguageGroups,
}

/// A plugin that transforms the packs.
#[derive(Clone, Debug)]
pub struct Plugin {
    /// An optional name used to identify the plugin.
    pub name: Option<String>,
    /// The executable, or the first argument when combined with `with`.
    pub run: String,
    /// An executable usually combined with `run`, such as an interpreter.
    pub with: Option<String>,
    /// Arguments passed to the executable.
    pub args: PluginArgs,
    /// A filter which decides whether the plugin should be run.
    pub when: Option<String>,
    /// Aborts the build when the plugin runs unsuccessfully.
    pub panic: bool,
}

/// Arguments passed to a plugin's executable.
#[derive(Clone, Debug)]
pub enum PluginArgs {
    /// Options passed as one JSON object (its text).
    Options(String),
    /// Arguments passed as they are.
    Args(Vec<String>),
}

impl Default for PluginArgs {
    fn default() -> (r: PluginArgs)
        ensures
            r matches PluginArgs::Args(a) && a@.len() == 0,
    {
        PluginArgs::Args(Vec::new())
    }
}

#[derive(Clone, Copy, Debug, PartialEq, Eq, Structural)]
pub enum BehaviorPackType {
    Data,
    Script,
}

/// A pack another pack depends on.
#[derive(Clone, Debug)]
pub struct Dependency {
    pub id: Identifier,
    /// The version of the dependency.
    pub version: String,
}

#[derive(Clone, Debug)]
pub enum Identifier {
    /// The name of the dependency (e.g. `@minecraft/server`).
    ModuleName(String),
    /// The UUID of the dependency.
    Uuid(String),
}

/// Behavior pack options.
#[derive(Clone, Debug)]
pub struct BP {
    /// Whether to use the manifest the pack brings instead of generating one.
    pub custom_manifest: bool,
    /// Whether to use the pack's own `pack_icon.png` instead of the project's.
    pub custom_pack_icon: bool,
    pub name: Option<OptionallyLocalized<String>>,
    pub description: Option<OptionallyLocalized<String>>,
    pub kind: BehaviorPackType,
    /// Extra dependencies.
    pub dependencies: Vec<Dependency>,
}

/// Resource pack options.
#[derive(Clone, Debug)]
pub struct RP {
    pub custom_manifest: bool,
    pub custom_pack_icon: bool,
    pub name: Option<OptionallyLocalized<String>>,
    pub description: Option<OptionallyLocalized<String>>,
    pub dependencies: Vec<Dependency>,
}

/// Skin pack options.
#[derive(Clone, Debug)]
pub struct SP {
    pub custom_manifest: bool,
    pub custom_pack_icon: bool,
    pub name: Option<OptionallyLocalized<String>>,
    pub description: Option<OptionallyLocalized<String>>,
    pub dependencies: Vec<Dependency>,
}

/// World template options.
#[derive(Clone, Debug)]
pub struct WT {
    pub custom_manifest: bool,
    /// Whether to leave the resource pack out of the world template.
    pub exclude_rp: bool,
    /// Whether to leave the behavior pack out of the world template.
    pub exclude_bp: bool,
    pub allow_random_seed: bool,
    /// The version of the game the template is made for; required to build one.
    pub base_game_version: Option<BaseGameVersion>,
    pub name: Option<OptionallyLocalized<String>>,
    pub description: Option<OptionallyLocalized<String>>,
}

} // verus!
