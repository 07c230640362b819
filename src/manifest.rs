//! The manifest of a pack, as Minecraft reads it.

use crate::config;
use crate::config::BehaviorPackType;
use crate::error::Error;
use crate::pack::Pack;
use crate::project::Project;
use crate::uuid::{text_of, uuid_text, Slot};
use crate::version::{triple_of, version_as_array, BaseGameVersion};
use vstd::prelude::*;

verus! {

/// A version as `[major, minor, patch]`.
pub type Version = (usize, usize, usize);

/// The manifest format version of skin packs.
pub const SKIN_PACK_FORMAT_VERSION: u8 = 1;

/// The manifest format version of behavior packs, resource packs and world templates.
pub const FORMAT_VERSION: u8 = 2;

/// The name under which the manifest records the tool that generated it.
pub const GENERATOR_NAME: &'static str = "allay";

/// The manifest format used to package Minecraft add-ons.
#[derive(Debug)]
pub struct Manifest {
    /// The syntax version of the manifest.
    pub format_version: u8,
    pub header: Header,
    pub modules: Option<Vec<Module>>,
    /// Packs that are required for this one to work.
    pub dependencies: Option<Vec<Dependency>>,
    pub capabilities: Option<Capabilities>,
    pub metadata: Option<Metadata>,
}

#[derive(Debug)]
pub struct Header {
    /// Only for world templates: whether a random seed is generated each time.
    pub allow_random_seed: Option<bool>,
    /// Only for world templates: the version of the game it requires.
    pub base_game_version: Option<BaseGameVersion>,
    pub description: String,
    /// Only for world templates: whether the world options are locked.
    pub lock_template_options: Option<bool>,
    pub min_engine_version: Option<Version>,
    pub name: String,
    /// The UUID of the pack.
    pub uuid: String,
    pub version: Version,
}

#[derive(Debug)]
pub struct Module {
    pub description: String,
    /// The type of the module.
    pub kind: ModuleType,
    /// Only for script modules: the language of the scripts.
    pub language: Option<Language>,
    /// The UUID of the module.
    pub uuid: String,
    pub version: Version,
}

/// A reference to an add-on by its UUID and version.
#[derive(Debug)]
pub struct Dependency {
    pub uuid: String,
    pub version: Version,
}

#[derive(Clone, Copy, Debug, PartialEq, Eq, Structural)]
pub enum Language {
    JavaScript,
}

/// Optional features that can be enabled in Minecraft.
#[derive(Clone, Copy, Debug, PartialEq, Eq, Structural)]
pub struct Capabilities {
    pub chemistry: bool,
    pub editor_extension: bool,
    pub experimental_custom_ui: bool,
    pub raytraced: bool,
}

#[derive(Clone, Debug)]
pub struct Metadata {
    pub authors: Option<Vec<String>>,
    pub license: Option<String>,
    /// The tools that generated the manifest, each with its versions.
    pub generated_with: Option<Vec<(String, Vec<String>)>>,
    pub url: Option<String>,
}

#[derive(Clone, Copy, Debug, PartialEq, Eq, Structural)]
pub enum ModuleType {
    Resources,
    Data,
    ClientData,
    Interface,
    WorldTemplate,
    Script,
    SkinPack,
}

impl ModuleType {
    pub open spec fn of_kind(kind: BehaviorPackType) -> ModuleType {
        match kind {
            BehaviorPackType::Data => ModuleType::Data,
            BehaviorPackType::Script => ModuleType::Script,
        }
    }

    /// The module type of a behavior pack of the given type.
    pub fn from_behavior(kind: BehaviorPackType) -> (r: ModuleType)
        ensures
            r == ModuleType::of_kind(kind),
    {
        match kind {
            BehaviorPackType::Data => ModuleType::Data,
            BehaviorPackType::Script => ModuleType::Script,
        }
    }
}

pub type DependencyModel = (Seq<char>, Version);

pub struct ModuleModel {
    pub description: Seq<char>,
    pub kind: ModuleType,
    pub language: Option<Language>,
    pub uuid: Seq<char>,
    pub version: Version,
}

pub struct HeaderModel {
    pub allow_random_seed: Option<bool>,
    pub base_game_version: Option<BaseGameVersion>,
    pub description: Seq<char>,
    pub lock_template_options: Option<bool>,
    pub min_engine_version: Option<Version>,
    pub name: Seq<char>,
    pub uuid: Seq<char>,
    pub version: Version,
}

pub struct MetadataModel {
    pub authors: Option<Seq<Seq<char>>>,
    pub license: Option<Seq<char>>,
    pub generated_with: Option<Seq<(Seq<char>, Seq<Seq<char>>)>>,
    pub url: Option<Seq<char>>,
}

/// A manifest as plain values.
pub struct ManifestModel {
    pub format_version: u8,
    pub header: HeaderModel,
    pub modules: Option<Seq<ModuleModel>>,
    pub dependencies: Option<Seq<DependencyModel>>,
    pub capabilities: Option<Capabilities>,
    pub metadata: Option<MetadataModel>,
}

pub open spec fn strings_view(v: Seq<String>) -> Seq<Seq<char>> {
    v.map_values(|s: String| s@)
}

pub open spec fn opt_string_view(o: Option<String>) -> Option<Seq<char>> {
    match o {
        Some(s) => Some(s@),
        None => None,
    }
}

pub open spec fn opt_strings_view(o: Option<Vec<String>>) -> Option<Seq<Seq<char>>> {
    match o {
        Some(v) => Some(strings_view(v@)),
        None => None,
    }
}

impl Dependency {
    pub open spec fn view(self) -> DependencyModel {
        (self.uuid@, self.version)
    }
}

pub open spec fn deps_view(v: Seq<Dependency>) -> Seq<DependencyModel> {
    v.map_values(|d: Dependency| d.view())
}

impl Module {
    pub open spec fn view(self) -> ModuleModel {
        ModuleModel {
            description: self.description@,
            kind: self.kind,
            language: self.language,
            uuid: self.uuid@,
            version: self.version,
        }
    }
}

impl Header {
    pub open spec fn view(self) -> HeaderModel {
        HeaderModel {
            allow_random_seed: self.allow_random_seed,
            base_game_version: self.base_game_version,
            description: self.description@,
            lock_template_options: self.lock_template_options,
            min_engine_version: self.min_engine_version,
            name: self.name@,
            uuid: self.uuid@,
            version: self.version,
        }
    }
}

impl Metadata {
    pub open spec fn view(self) -> MetadataModel {
        MetadataModel {
            authors: opt_strings_view(self.authors),
            license: opt_string_view(self.license),
            generated_with: match self.generated_with {
                Some(g) => Some(
                    g@.map_values(|e: (String, Vec<String>)| (e.0@, strings_view(e.1@))),
                ),
                None => None,
            },
            url: opt_string_view(self.url),
        }
    }
}

impl Manifest {
    pub open spec fn view(self) -> ManifestModel {
        ManifestModel {
            format_version: self.format_version,
            header: self.header.view(),
            modules: match self.modules {
                Some(m) => Some(m@.map_values(|x: Module| x.view())),
                None => None,
            },
            dependencies: match self.dependencies {
                Some(d) => Some(deps_view(d@)),
                None => None,
            },
            capabilities: self.capabilities,
            metadata: match self.metadata {
                Some(m) => Some(m.view()),
                None => None,
            },
        }
    }
}

/// The manifest entry of a configured dependency.
pub open spec fn dependency_model(d: config::Dependency) -> Result<DependencyModel, Error> {
    match d.id {
        config::Identifier::ModuleName(_) => Err(Error::ModuleNameDependency),
        config::Identifier::Uuid(u) => match triple_of(d.version@) {
            Ok(v) => Ok((u@, v)),
            Err(e) => Err(e),
        },
    }
}

/// The manifest entries of the first `upto` configured dependencies, or the
/// error of the first that has none.
pub open spec fn dependency_models(ds: Seq<config::Dependency>, upto: int) -> Result<Seq<DependencyModel>, Error>
    decreases upto,
{
    if upto <= 0 {
        Ok(Seq::empty())
    } else {
        match dependency_models(ds, upto - 1) {
            Err(e) => Err(e),
            Ok(s) => match dependency_model(ds[upto - 1]) {
                Ok(d) => Ok(s.push(d)),
                Err(e) => Err(e),
            },
        }
    }
}

/// The dependencies configured for a pack.
pub open spec fn configured_deps(pack: Pack, c: config::Config) -> Seq<config::Dependency> {
    match pack {
        Pack::Behavior => c.bp.dependencies@,
        Pack::Resource => c.rp.dependencies@,
        Pack::Skin => c.sp.dependencies@,
        Pack::WorldTemplate => Seq::empty(),
    }
}

pub open spec fn format_version_of(pack: Pack) -> u8 {
    if pack == Pack::Skin {
        SKIN_PACK_FORMAT_VERSION
    } else {
        FORMAT_VERSION
    }
}

pub open spec fn module_type_of(pack: Pack, c: config::Config) -> ModuleType {
    match pack {
        Pack::Behavior => ModuleType::of_kind(c.bp.kind),
        Pack::Resource => ModuleType::Resources,
        Pack::Skin => ModuleType::SkinPack,
        Pack::WorldTemplate => ModuleType::WorldTemplate,
    }
}

/// The dependency section of a pack's manifest, given that the dependencies
/// it configures convert to `configured`.
pub open spec fn dependencies_of(
    pack: Pack,
    p: Project,
    resource_pack_present: bool,
    configured: Seq<DependencyModel>,
    version: Version,
) -> Option<Seq<DependencyModel>> {
    match pack {
        Pack::Behavior => if resource_pack_present {
            Some(configured.push((uuid_text(p.uuids.slot(Pack::Resource, Slot::Header).unwrap()), version)))
        } else {
            Some(configured)
        },
        Pack::Resource => Some(configured),
        _ => None,
    }
}

/// The manifest of `pack` in project `p`, or the error that prevents it.
///
/// The errors are checked in this order: a world template without a base
/// game version; the minimum engine version; the pack's header UUID; the
/// project version; the pack's module UUID; the configured dependencies; and,
/// for a behavior pack next to a resource pack, the resource pack's header UUID.
pub open spec fn manifest_of(pack: Pack, p: Project, resource_pack_present: bool, tool_version: Seq<char>) -> Result<ManifestModel, Error> {
    let c = p.config;
    let deps = if pack == Pack::Behavior || pack == Pack::Resource {
        dependency_models(configured_deps(pack, c), configured_deps(pack, c).len() as int)
    } else {
        Ok(Seq::empty())
    };
    if pack == Pack::WorldTemplate && c.wt.base_game_version is None {
        Err(Error::MissingBaseGameVersion)
    } else if triple_of(c.project.min_engine_version@) is Err {
        Err(triple_of(c.project.min_engine_version@)->Err_0)
    } else if p.uuids.slot(pack, Slot::Header) is None {
        Err(Error::MissingUuid(pack))
    } else if triple_of(c.project.version@) is Err {
        Err(triple_of(c.project.version@)->Err_0)
    } else if p.uuids.slot(pack, Slot::Module) is None {
        Err(Error::MissingUuid(pack))
    } else if deps is Err {
        Err(deps->Err_0)
    } else if pack == Pack::Behavior && resource_pack_present && p.uuids.slot(Pack::Resource, Slot::Header) is None {
        Err(Error::MissingUuid(Pack::Resource))
    } else {
        let version = triple_of(c.project.version@)->Ok_0;
        let is_wt = pack == Pack::WorldTemplate;
        Ok(
            ManifestModel {
                format_version: format_version_of(pack),
                header: HeaderModel {
                    allow_random_seed: if is_wt {
                        Some(c.wt.allow_random_seed)
                    } else {
                        None
                    },
                    base_game_version: if is_wt {
                        c.wt.base_game_version
                    } else {
                        None
                    },
                    description: "pack.description"@,
                    lock_template_options: None,
                    min_engine_version: Some(triple_of(c.project.min_engine_version@)->Ok_0),
                    name: "pack.name"@,
                    uuid: uuid_text(p.uuids.slot(pack, Slot::Header).unwrap()),
                    version: version,
                },
                modules: Some(
                    seq![
                        ModuleModel {
                            description: "pack.description"@,
                            kind: module_type_of(pack, c),
                            language: if pack == Pack::Behavior && c.bp.kind == BehaviorPackType::Script {
                                Some(Language::JavaScript)
                            } else {
                                None
                            },
                            uuid: uuid_text(p.uuids.slot(pack, Slot::Module).unwrap()),
                            version: version,
                        },
                    ],
                ),
                dependencies: dependencies_of(pack, p, resource_pack_present, deps->Ok_0, version),
                capabilities: if pack == Pack::Behavior || pack == Pack::Resource {
                    c.capabilities
                } else {
                    None
                },
                metadata: Some(
                    MetadataModel {
                        authors: opt_strings_view(c.project.authors),
                        license: opt_string_view(c.project.license),
                        generated_with: Some(seq![(GENERATOR_NAME@, seq![tool_version])]),
                        url: opt_string_view(c.project.url),
                    },
                ),
            },
        )
    }
}

/// A copy of a list of strings.
fn clone_strings(v: &Vec<String>) -> (r: Vec<String>)
    ensures
        r@ == v@,
{
    let mut r: Vec<String> = Vec::new();
    let mut i: usize = 0;
    while i < v.len()
        invariant
            i <= v@.len(),
            r@ == v@.subrange(0, i as int),
        decreases v@.len() - i,
    {
        r.push(v[i].clone());
        assert(r@ =~= v@.subrange(0, i + 1));
        i = i + 1;
    }
    assert(v@.subrange(0, i as int) =~= v@);
    r
}

fn clone_opt_string(o: &Option<String>) -> (r: Option<String>)
    ensures
        r == *o,
{
    match o {
        Some(s) => Some(s.clone()),
        None => None,
    }
}

fn clone_opt_strings(o: &Option<Vec<String>>) -> (r: Option<Vec<String>>)
    ensures
        opt_strings_view(r) == opt_strings_view(*o),
{
    match o {
        Some(v) => Some(clone_strings(v)),
        None => None,
    }
}

impl Dependency {
    /// The manifest entry of a configured dependency.
    pub fn from_config(value: &config::Dependency) -> (r: Result<Dependency, Error>)
        ensures
            match dependency_model(*value) {
                Ok(m) => r matches Ok(d) && d.view() == m,
                Err(e) => r == Err::<Dependency, Error>(e),
            },
    {
        match &value.id {
            config::Identifier::ModuleName(_) => Err(Error::ModuleNameDependency),
            config::Identifier::Uuid(id) => {
                let version = version_as_array(value.version.as_str())?;
                Ok(Dependency { uuid: id.clone(), version })
            },
        }
    }
}

/// Converts the configured dependencies, in order; stops at the first that
/// cannot be converted.
fn convert_dependencies(ds: &Vec<config::Dependency>) -> (r: Result<Vec<Dependency>, Error>)
    ensures
        match dependency_models(ds@, ds@.len() as int) {
            Ok(m) => r matches Ok(v) && deps_view(v@) == m,
            Err(e) => r == Err::<Vec<Dependency>, Error>(e),
        },
{
    let mut out: Vec<Dependency> = Vec::new();
    let mut i: usize = 0;
    assert(deps_view(out@) =~= Seq::<DependencyModel>::empty());
    while i < ds.len()
        invariant
            i <= ds@.len(),
            dependency_models(ds@, i as int) == Ok::<Seq<DependencyModel>, Error>(deps_view(out@)),
        decreases ds@.len() - i,
    {
        let d = Dependency::from_config(&ds[i]);
        match d {
            Ok(d) => {
                let ghost before = out@;
                out.push(d);
                assert(deps_view(out@) =~= deps_view(before).push(d.view()));
            },
            Err(e) => {
                proof {
                    lemma_dependency_models_err(ds@, i as int + 1, ds@.len() as int);
                }
                return Err(e);
            },
        }
        i = i + 1;
    }
    Ok(out)
}

proof fn lemma_dependency_models_err(ds: Seq<config::Dependency>, i: int, n: int)
    requires
        0 <= i <= n,
        dependency_models(ds, i) is Err,
    ensures
        dependency_models(ds, n) == dependency_models(ds, i),
    decreases n - i,
{
    if i < n {
        lemma_dependency_models_err(ds, i + 1, n);
    }
}

/// Whether `r` is what building the manifest of `pack` gives.
pub open spec fn built(pack: Pack, project: Project, resource_pack_present: bool, tool_version: Seq<char>, r: Result<Manifest, Error>) -> bool {
    match manifest_of(pack, project, resource_pack_present, tool_version) {
        Ok(m) => r matches Ok(x) && x.view() == m,
        Err(e) => r == Err::<Manifest, Error>(e),
    }
}

/// Building a manifest twice from the same pack, project and tool version
/// gives the same manifest, or the same error.
pub proof fn lemma_build_deterministic(
    pack: Pack,
    project: Project,
    resource_pack_present: bool,
    tool_version: Seq<char>,
    r1: Result<Manifest, Error>,
    r2: Result<Manifest, Error>,
)
    requires
        built(pack, project, resource_pack_present, tool_version, r1),
        built(pack, project, resource_pack_present, tool_version, r2),
    ensures
        match (r1, r2) {
            (Ok(a), Ok(b)) => a.view() == b.view(),
            (Err(a), Err(b)) => a == b,
            _ => false,
        },
{
}

/// When a resource pack is present, the behavior pack's manifest depends on
/// it: its dependencies are the configured ones followed by the resource
/// pack's header UUID at the project version. When none is present, they
/// are the configured ones alone. The resource pack's manifest gets no entry
/// for the behavior pack: the link is declared on the behavior pack's side.
pub proof fn lemma_resource_pack_dependency(project: Project, tool_version: Seq<char>)
    ensures
        manifest_of(Pack::Behavior, project, true, tool_version) matches Ok(m) ==> {
            let configured = dependency_models(
                project.config.bp.dependencies@,
                project.config.bp.dependencies@.len() as int,
            );
            &&& project.uuids.slot(Pack::Resource, Slot::Header) is Some
            &&& m.dependencies == Some(configured->Ok_0.push(
                (
                    uuid_text(project.uuids.slot(Pack::Resource, Slot::Header).unwrap()),
                    triple_of(project.config.project.version@)->Ok_0,
                ),
            ))
        },
        manifest_of(Pack::Behavior, project, false, tool_version) matches Ok(m) ==> m.dependencies
            == Some(
            dependency_models(
                project.config.bp.dependencies@,
                project.config.bp.dependencies@.len() as int,
            )->Ok_0,
        ),
        forall|present: bool|
            #[trigger] manifest_of(Pack::Resource, project, present, tool_version) matches Ok(m)
                ==> m.dependencies == Some(
                dependency_models(
                    project.config.rp.dependencies@,
                    project.config.rp.dependencies@.len() as int,
                )->Ok_0,
            ),
{
}

/// Skin pack manifests have format version 1, all others format version 2.
pub proof fn lemma_format_version(pack: Pack, project: Project, resource_pack_present: bool, tool_version: Seq<char>)
    ensures
        manifest_of(pack, project, resource_pack_present, tool_version) matches Ok(m) ==> m.format_version
            == if pack == Pack::Skin {
            1u8
        } else {
            2u8
        },
{
}

impl Manifest {
    /// Builds the manifest of `pack` in `project`; `resource_pack_present`
    /// tells whether the project has a resource pack with content, and
    /// `tool_version` is the version of the running tool.
    pub fn build(pack: Pack, project: &Project, resource_pack_present: bool, tool_version: &str) -> (r: Result<Manifest, Error>)
        ensures
            built(pack, *project, resource_pack_present, tool_version@, r),
    {
        let c = &project.config;
        let is_wt = match pack {
            Pack::WorldTemplate => true,
            _ => false,
        };
        let base_game_version = if is_wt {
            match c.wt.base_game_version {
                Some(v) => Some(v),
                None => return Err(Error::MissingBaseGameVersion),
            }
        } else {
            None
        };
        let min_engine_version = version_as_array(c.project.min_engine_version.as_str())?;
        let header_uuid = match project.uuids.get(pack, Slot::Header) {
            Some(u) => text_of(u),
            None => return Err(Error::MissingUuid(pack)),
        };
        let version = version_as_array(c.project.version.as_str())?;
        let module_uuid = match project.uuids.get(pack, Slot::Module) {
            Some(u) => text_of(u),
            None => return Err(Error::MissingUuid(pack)),
        };
        let dependencies = match pack {
            Pack::Behavior => {
                let mut deps = convert_dependencies(&c.bp.dependencies)?;
                if resource_pack_present {
                    let rp = match project.uuids.get(Pack::Resource, Slot::Header) {
                        Some(u) => text_of(u),
                        None => return Err(Error::MissingUuid(Pack::Resource)),
                    };
                    let ghost before = deps@;
                    let d = Dependency { uuid: rp, version };
                    deps.push(d);
                    assert(deps_view(deps@) =~= deps_view(before).push(d.view()));
                }
                Some(deps)
            },
            Pack::Resource => Some(convert_dependencies(&c.rp.dependencies)?),
            _ => None,
        };
        let kind = match pack {
            Pack::Behavior => ModuleType::from_behavior(c.bp.kind),
            Pack::Resource => ModuleType::Resources,
            Pack::Skin => ModuleType::SkinPack,
            Pack::WorldTemplate => ModuleType::WorldTemplate,
        };
        let language = match (pack, c.bp.kind) {
            (Pack::Behavior, BehaviorPackType::Script) => Some(Language::JavaScript),
            _ => None,
        };
        let module = Module {
            description: String::from_str("pack.description"),
            kind,
            language,
            uuid: module_uuid,
            version,
        };
        let modules = vec![module];
        let mut versions: Vec<String> = Vec::new();
        versions.push(String::from_str(tool_version));
        let mut generated_with: Vec<(String, Vec<String>)> = Vec::new();
        generated_with.push((String::from_str(GENERATOR_NAME), versions));
        assert(strings_view(generated_with@[0].1@) =~= seq![tool_version@]);
        assert(generated_with@.map_values(|e: (String, Vec<String>)| (e.0@, strings_view(e.1@)))
            =~= seq![(GENERATOR_NAME@, seq![tool_version@])]);
        let m = Manifest {
            format_version: match pack {
                Pack::Skin => SKIN_PACK_FORMAT_VERSION,
                _ => FORMAT_VERSION,
            },
            header: Header {
                allow_random_seed: if is_wt {
                    Some(c.wt.allow_random_seed)
                } else {
                    None
                },
                base_game_version,
                description: String::from_str("pack.description"),
                lock_template_options: None,
                min_engine_version: Some(min_engine_version),
                name: String::from_str("pack.name"),
                uuid: header_uuid,
                version,
            },
            modules: Some(modules),
            dependencies,
            capabilities: match pack {
                Pack::Behavior | Pack::Resource => c.capabilities,
                _ => None,
            },
            metadata: Some(
                Metadata {
                    authors: clone_opt_strings(&c.project.authors),
                    license: clone_opt_string(&c.project.license),
                    generated_with: Some(generated_with),
                    url: clone_opt_string(&c.project.url),
                },
            ),
        };
        assert(m.view().modules =~= manifest_of(pack, *project, resource_pack_present, tool_version@)->Ok_0.modules);
        assert(m.view().metadata =~= manifest_of(pack, *project, resource_pack_present, tool_version@)->Ok_0.metadata);
        Ok(m)
    }
}

} // verus!
