//! A project and the plan of its build.
//!
//! A build stages every pack with content, in build order, into a fresh
//! staging directory; writes a fingerprint, a generated manifest, the pack
//! icon and the language lines into each; runs the plugins; embeds the
//! behavior and resource packs into the world template; bundles each pack;
//! and bundles the staging directory into the add-on. The decisions of each
//! step are taken here; the file operations are left to the caller.

use crate::config::{Config, OptionallyLocalized};
use crate::error::Error;
use crate::localization::{
    copy_languages, group_index, langs_of, lines_view, update_language_files, Language, LanguageGroups,
    LanguageLine, LineView, Translation,
};
use crate::manifest::{built, manifest_of, Manifest};
use crate::pack::{bundle_extension_of, pack_order, short_name_of, Pack, PackContents};
use crate::uuid::{text_of, uuid_text, Uuids};
use vstd::prelude::*;

verus! {

/// A loaded project: its configuration, its identity store and its ID.
#[derive(Clone, Debug)]
pub struct Project {
    pub config: Config,
    pub uuids: Uuids,
    /// The unique ID of the project.
    pub id: u128,
}

/// Initial options of a new project.
#[derive(Clone, Copy, Debug)]
pub struct ProjectInitConfig {
    /// Whether to generate a `.gitignore` file.
    pub with_gitignore: bool,
}

/// What initializing a project creates.
#[derive(Debug)]
pub struct InitLayout {
    /// The directories to create, in order, relative to the project root.
    pub dirs: Vec<String>,
    /// The files to write, relative to the project root, besides the
    /// configuration and the pack icon: the identity store, the version
    /// file and the project ID file.
    pub store: String,
    pub version_file: String,
    pub id_file: String,
    /// The `.gitignore` to write, if one is asked for.
    pub gitignore: Option<String>,
    /// The ID of the new project.
    pub id: u128,
    /// The identity store of the new project: empty.
    pub uuids: Uuids,
}

/// One pack as it is staged.
#[derive(Debug)]
pub struct StagedPack {
    pub pack: Pack,
    /// The directory of the pack in the staging directory.
    pub dir: String,
    /// The manifest to write, unless the pack brings its own.
    pub manifest: Option<Manifest>,
    /// Whether to copy the project's icon into the pack.
    pub copy_icon: bool,
}

/// The decisions of a build.
#[derive(Debug)]
pub struct BuildPlan {
    /// The packs with content, in build order.
    pub packs: Vec<StagedPack>,
    /// The text of the fingerprint file written into every staged pack.
    pub fingerprint: String,
    /// The language groups, with the languages of the name and description added.
    pub groups: LanguageGroups,
    /// The translations of the pack name and description.
    pub translations: Vec<Translation>,
    /// The lines appended to the language files of every staged pack.
    pub language_lines: Vec<LanguageLine>,
    /// Whether to copy the staged behavior pack into the world template.
    pub embed_behavior_pack: bool,
    /// Whether to copy the staged resource pack into the world template.
    pub embed_resource_pack: bool,
    /// The file names of the bundles, one per staged pack, in the same order.
    pub bundles: Vec<String>,
}

/// What a build comes to.
#[derive(Debug)]
pub enum BuildOutcome {
    /// No pack has content: nothing is bundled, and the build succeeds.
    EmptyAddOn,
    Planned(BuildPlan),
}

pub open spec fn custom_manifest(pack: Pack, c: Config) -> bool {
    match pack {
        Pack::Behavior => c.bp.custom_manifest,
        Pack::Resource => c.rp.custom_manifest,
        Pack::Skin => c.sp.custom_manifest,
        Pack::WorldTemplate => c.wt.custom_manifest,
    }
}

/// Whether the pack brings its own icon (world templates never do).
pub open spec fn custom_icon(pack: Pack, c: Config) -> bool {
    match pack {
        Pack::Behavior => c.bp.custom_pack_icon,
        Pack::Resource => c.rp.custom_pack_icon,
        Pack::Skin => c.sp.custom_pack_icon,
        Pack::WorldTemplate => false,
    }
}

/// The packs with content among the first `n` in build order.
pub open spec fn present_upto(contents: PackContents, n: int) -> Seq<Pack>
    decreases n,
{
    if n <= 0 {
        Seq::empty()
    } else if contents.has(pack_order()[n - 1]) {
        present_upto(contents, n - 1).push(pack_order()[n - 1])
    } else {
        present_upto(contents, n - 1)
    }
}

/// The packs with content, in build order.
pub open spec fn present_packs(contents: PackContents) -> Seq<Pack> {
    present_upto(contents, 4)
}

/// The error of the first manifest, among the first `n` packs in build
/// order, that cannot be built.
pub open spec fn manifest_error_upto(p: Project, contents: PackContents, tool_version: Seq<char>, n: int) -> Option<Error>
    decreases n,
{
    if n <= 0 {
        None
    } else {
        match manifest_error_upto(p, contents, tool_version, n - 1) {
            Some(e) => Some(e),
            None => {
                let pack = pack_order()[n - 1];
                if contents.has(pack) && !custom_manifest(pack, p.config) && manifest_of(
                    pack,
                    p,
                    contents.has(Pack::Resource),
                    tool_version,
                ) is Err {
                    Some(manifest_of(pack, p, contents.has(Pack::Resource), tool_version)->Err_0)
                } else {
                    None
                }
            },
        }
    }
}

pub open spec fn bundle_name(pack: Pack) -> Seq<char> {
    short_name_of(pack) + "."@ + bundle_extension_of(pack)
}

/// Whether `sp` is `pack` staged as project `p` asks.
pub open spec fn staged_as(sp: StagedPack, pack: Pack, p: Project, contents: PackContents, tool_version: Seq<char>) -> bool {
    &&& sp.pack == pack
    &&& sp.dir@ == short_name_of(pack)
    &&& sp.copy_icon == !custom_icon(pack, p.config)
    &&& if custom_manifest(pack, p.config) {
        sp.manifest is None
    } else {
        sp.manifest matches Some(m) && built(pack, p, contents.has(Pack::Resource), tool_version, Ok(m))
    }
}

pub open spec fn values_view(v: Seq<(Language, String)>) -> Seq<(Language, Seq<char>)> {
    v.map_values(|e: (Language, String)| (e.0, e.1@))
}

/// The texts of a localized value: as given per language, or the one text
/// in the primary language.
pub open spec fn localized_view(o: OptionallyLocalized<String>, primary: Language) -> Seq<(Language, Seq<char>)> {
    match o {
        OptionallyLocalized::Localized(m) => values_view(m@),
        OptionallyLocalized::Unlocalized(s) => seq![(primary, s@)],
    }
}

/// The groups `gs` after adding, in order, each of the first `n` languages
/// of `langs` that no group holds yet as a group of its own.
pub open spec fn groups_with(gs: Seq<Seq<Language>>, langs: Seq<Language>, n: int) -> Seq<Seq<Language>>
    decreases n,
{
    if n <= 0 {
        gs
    } else {
        let g = groups_with(gs, langs, n - 1);
        if group_index(g, langs[n - 1].id()) is Some {
            g
        } else {
            g.push(seq![langs[n - 1]])
        }
    }
}

pub open spec fn translation_view(t: Translation) -> (Seq<char>, Seq<(Language, Seq<char>)>) {
    (t.key@, values_view(t.values@))
}

/// The translations of a build: the pack name, then the pack description.
pub open spec fn translations_of(c: Config) -> Seq<(Seq<char>, Seq<(Language, Seq<char>)>)> {
    seq![
        ("pack.name"@, localized_view(c.project.name, c.localization.primary_language)),
        ("pack.description"@, localized_view(c.project.description, c.localization.primary_language)),
    ]
}

/// The languages of the pack name, then those of the pack description.
pub open spec fn translated_languages(c: Config) -> Seq<Language> {
    value_langs(localized_view(c.project.name, c.localization.primary_language)) + value_langs(
        localized_view(c.project.description, c.localization.primary_language),
    )
}

/// The languages of a list of texts.
pub open spec fn value_langs(v: Seq<(Language, Seq<char>)>) -> Seq<Language> {
    v.map_values(|e: (Language, Seq<char>)| e.0)
}

/// Whether `plan` is the plan of building project `p`.
pub open spec fn planned(plan: BuildPlan, p: Project, contents: PackContents, tool_version: Seq<char>) -> bool {
    let present = present_packs(contents);
    let c = p.config;
    &&& plan.packs@.len() == present.len()
    &&& forall|k: int| 0 <= k < present.len() ==> staged_as(#[trigger] plan.packs@[k], present[k], p, contents, tool_version)
    &&& plan.bundles@.len() == present.len()
    &&& forall|k: int| 0 <= k < present.len() ==> (#[trigger] plan.bundles@[k])@ == bundle_name(present[k])
    &&& plan.fingerprint@ == uuid_text(p.id)
    &&& plan.groups.groups() == groups_with(
        c.localization.groups.groups(),
        translated_languages(c),
        translated_languages(c).len() as int,
    )
    &&& plan.translations@.map_values(|t: Translation| translation_view(t)) == translations_of(c)
    &&& lines_view(plan.language_lines@) == crate::localization::all_lines(
        plan.groups.groups(),
        c.localization.primary_language,
        plan.translations@,
        2,
    )
    &&& plan.embed_behavior_pack == (contents.has(Pack::WorldTemplate) && !c.wt.exclude_bp && contents.has(Pack::Behavior))
    &&& plan.embed_resource_pack == (contents.has(Pack::WorldTemplate) && !c.wt.exclude_rp && contents.has(Pack::Resource))
}

proof fn lemma_error_persists(p: Project, contents: PackContents, tool_version: Seq<char>, i: int, n: int)
    requires
        0 <= i <= n,
        manifest_error_upto(p, contents, tool_version, i) is Some,
    ensures
        manifest_error_upto(p, contents, tool_version, n) == manifest_error_upto(p, contents, tool_version, i),
    decreases n - i,
{
    if i < n {
        lemma_error_persists(p, contents, tool_version, i + 1, n);
    }
}

/// A project none of whose packs has content is an empty add-on: no pack is
/// staged, and no manifest can make its build fail.
pub proof fn lemma_empty_project(p: Project, contents: PackContents, tool_version: Seq<char>)
    requires
        forall|pack: Pack| !#[trigger] contents.has(pack),
    ensures
        present_packs(contents).len() == 0,
        manifest_error_upto(p, contents, tool_version, 4) is None,
{
    assert(!contents.has(pack_order()[0]));
    assert(!contents.has(pack_order()[1]));
    assert(!contents.has(pack_order()[2]));
    assert(!contents.has(pack_order()[3]));
    reveal_with_fuel(present_upto, 5);
    reveal_with_fuel(manifest_error_upto, 5);
}

/// The texts of a localized value, as pairs of a language and its text.
fn localized(o: &OptionallyLocalized<String>, primary: &Language) -> (r: Vec<(Language, String)>)
    ensures
        values_view(r@) == localized_view(*o, *primary),
{
    match o {
        OptionallyLocalized::Localized(m) => {
            let mut r: Vec<(Language, String)> = Vec::new();
            let mut i: usize = 0;
            while i < m.len()
                invariant
                    i <= m@.len(),
                    values_view(r@) == values_view(m@.subrange(0, i as int)),
                decreases m@.len() - i,
            {
                let ghost before = r@;
                let (l, s) = &m[i];
                r.push((l.copy(), s.clone()));
                assert(values_view(r@) =~= values_view(m@.subrange(0, i + 1))) by {
                    assert(m@.subrange(0, i + 1) =~= m@.subrange(0, i as int).push(m@[i as int]));
                    assert(values_view(r@) =~= values_view(before).push((*l, s@)));
                }
                i = i + 1;
            }
            assert(m@.subrange(0, i as int) =~= m@);
            r
        },
        OptionallyLocalized::Unlocalized(s) => {
            let mut r: Vec<(Language, String)> = Vec::new();
            r.push((primary.copy(), s.clone()));
            assert(values_view(r@) =~= seq![(*primary, s@)]);
            r
        },
    }
}

impl Project {
    /// Decides what initializing a project in a directory with `entries`
    /// entries creates; a directory that is not empty is refused unless
    /// `force` is set.
    pub fn new(entries: usize, force: bool, config: ProjectInitConfig) -> (r: Result<InitLayout, Error>)
        ensures
            entries > 0 && !force ==> r == Err::<InitLayout, Error>(Error::DirectoryNotEmpty),
            !(entries > 0 && !force) ==> (r matches Ok(l) && {
                &&& l.dirs@.map_values(|d: String| d@) == seq![
                    ".allay"@,
                    "src"@,
                    "src/BP"@,
                    "src/RP"@,
                    "src/SP"@,
                    "src/WT"@,
                ]
                &&& l.store@ == ".allay/uuids.toml"@
                &&& l.version_file@ == ".allay/version.txt"@
                &&& l.id_file@ == ".allay/project_id.txt"@
                &&& (config.with_gitignore ==> (l.gitignore matches Some(g) && g@ == ".gitignore"@))
                &&& (!config.with_gitignore ==> l.gitignore is None)
                &&& crate::uuid::is_v4(l.id)
                &&& forall|p: Pack, s: crate::uuid::Slot| #[trigger] l.uuids.slot(p, s) is None
                &&& forall|p: Pack| (#[trigger] l.uuids.data(p)).deps@.len() == 0
            }),
    {
        if entries > 0 && !force {
            return Err(Error::DirectoryNotEmpty);
        }
        let mut dirs: Vec<String> = Vec::new();
        dirs.push(crate::paths::internal());
        dirs.push(crate::paths::src());
        dirs.push(crate::paths::src_bp());
        dirs.push(crate::paths::src_rp());
        dirs.push(crate::paths::src_sp());
        dirs.push(crate::paths::src_wt());
        assert(dirs@.map_values(|d: String| d@) =~= seq![
            ".allay"@,
            "src"@,
            "src/BP"@,
            "src/RP"@,
            "src/SP"@,
            "src/WT"@,
        ]);
        let empty = crate::uuid::Data { header: None, module: None, deps: Vec::new() };
        let uuids = Uuids {
            bp: empty,
            rp: crate::uuid::Data { header: None, module: None, deps: Vec::new() },
            sp: crate::uuid::Data { header: None, module: None, deps: Vec::new() },
            wt: crate::uuid::Data { header: None, module: None, deps: Vec::new() },
        };
        Ok(
            InitLayout {
                dirs,
                store: crate::paths::uuids(),
                version_file: crate::paths::version(),
                id_file: crate::paths::project_id(),
                gitignore: if config.with_gitignore {
                    Some(crate::paths::gitignore())
                } else {
                    None
                },
                id: crate::uuid::new_project_id(),
                uuids,
            },
        )
    }

    /// The name of the staging directory of the project.
    pub fn prebuild_dir_name(&self) -> (r: String)
        ensures
            r@ == "allay-"@ + uuid_text(self.id),
    {
        let mut r = String::from_str("allay-");
        let id = text_of(self.id);
        r.append(id.as_str());
        r
    }

    /// The environment handed to every plugin: the build mode, the staging
    /// directory, the project root and the tool version, then the variables
    /// the configuration declares.
    pub fn plugin_env(&self, prebuild: &str, root: &str, tool_version: &str) -> (r: Vec<(String, String)>)
        ensures
            r@.map_values(|e: (String, String)| (e.0@, e.1@)) == seq![
                ("ALLAY_DEBUG"@, if self.config.debug {
                    "1"@
                } else {
                    "0"@
                }),
                ("ALLAY_PREBUILD"@, prebuild@),
                ("ALLAY_PROJECT_ROOT"@, root@),
                ("ALLAY_VERSION"@, tool_version@),
            ] + self.config.env@.map_values(|e: (String, String)| (e.0@, e.1@)),
    {
        let mut r: Vec<(String, String)> = Vec::new();
        r.push(
            (
                String::from_str("ALLAY_DEBUG"),
                String::from_str(
                    if self.config.debug {
                        "1"
                    } else {
                        "0"
                    },
                ),
            ),
        );
        r.push((String::from_str("ALLAY_PREBUILD"), String::from_str(prebuild)));
        r.push((String::from_str("ALLAY_PROJECT_ROOT"), String::from_str(root)));
        r.push((String::from_str("ALLAY_VERSION"), String::from_str(tool_version)));
        let ghost head = r@.map_values(|e: (String, String)| (e.0@, e.1@));
        let env = &self.config.env;
        let mut i: usize = 0;
        while i < env.len()
            invariant
                i <= env@.len(),
                r@.map_values(|e: (String, String)| (e.0@, e.1@)) == head + env@.subrange(0, i as int).map_values(
                    |e: (String, String)| (e.0@, e.1@),
                ),
            decreases env@.len() - i,
        {
            let ghost before = r@;
            let (k, v) = &env[i];
            r.push((k.clone(), v.clone()));
            assert(env@.subrange(0, i + 1) =~= env@.subrange(0, i as int).push(env@[i as int]));
            assert(r@.map_values(|e: (String, String)| (e.0@, e.1@)) =~= before.map_values(
                |e: (String, String)| (e.0@, e.1@),
            ).push((k@, v@)));
            assert(r@.map_values(|e: (String, String)| (e.0@, e.1@)) =~= head + env@.subrange(
                0,
                i + 1,
            ).map_values(|e: (String, String)| (e.0@, e.1@)));
            i = i + 1;
        }
        assert(env@.subrange(0, i as int) =~= env@);
        r
    }

    /// Stages the packs with content, in build order: each with its
    /// generated manifest, unless it brings its own, and its bundle name.
    fn stage(&self, contents: &PackContents, tool_version: &str) -> (r: Result<(Vec<StagedPack>, Vec<String>), Error>)
        ensures
            match manifest_error_upto(*self, *contents, tool_version@, 4) {
                Some(e) => r == Err::<(Vec<StagedPack>, Vec<String>), Error>(e),
                None => r matches Ok(res) && {
                    let present = present_packs(*contents);
                    &&& res.0@.len() == present.len()
                    &&& forall|k: int| 0 <= k < present.len() ==> staged_as(#[trigger] res.0@[k], present[k], *self, *contents, tool_version@)
                    &&& res.1@.len() == present.len()
                    &&& forall|k: int| 0 <= k < present.len() ==> (#[trigger] res.1@[k])@ == bundle_name(present[k])
                },
            },
    {
        let c = &self.config;
        let resource_pack_present = Pack::Resource.present(contents);
        let packs = Pack::values();
        let mut staged: Vec<StagedPack> = Vec::new();
        let mut bundles: Vec<String> = Vec::new();
        let mut i: usize = 0;
        while i < packs.len()
            invariant
                packs@ == pack_order(),
                i <= packs@.len(),
                c == &self.config,
                resource_pack_present == contents.has(Pack::Resource),
                manifest_error_upto(*self, *contents, tool_version@, i as int) is None,
                staged@.len() == present_upto(*contents, i as int).len(),
                forall|k: int| 0 <= k < staged@.len() ==> staged_as(#[trigger] staged@[k], present_upto(*contents, i as int)[k], *self, *contents, tool_version@),
                bundles@.len() == present_upto(*contents, i as int).len(),
                forall|k: int| 0 <= k < bundles@.len() ==> (#[trigger] bundles@[k])@ == bundle_name(present_upto(*contents, i as int)[k]),
            decreases packs@.len() - i,
        {
            let pack = packs[i];
            if pack.present(contents) {
                let custom = match pack {
                    Pack::Behavior => c.bp.custom_manifest,
                    Pack::Resource => c.rp.custom_manifest,
                    Pack::Skin => c.sp.custom_manifest,
                    Pack::WorldTemplate => c.wt.custom_manifest,
                };
                let manifest = if custom {
                    None
                } else {
                    match Manifest::build(pack, self, resource_pack_present, tool_version) {
                        Ok(m) => Some(m),
                        Err(e) => {
                            proof {
                                lemma_error_persists(*self, *contents, tool_version@, i as int + 1, 4);
                            }
                            return Err(e);
                        },
                    }
                };
                let copy_icon = !match pack {
                    Pack::Behavior => c.bp.custom_pack_icon,
                    Pack::Resource => c.rp.custom_pack_icon,
                    Pack::Skin => c.sp.custom_pack_icon,
                    Pack::WorldTemplate => false,
                };
                let sp = StagedPack { pack, dir: String::from_str(pack.short_name()), manifest, copy_icon };
                let ghost s0 = staged@;
                let ghost b0 = bundles@;
                staged.push(sp);
                let mut b = String::from_str(pack.short_name());
                b.append(".");
                b.append(pack.bundle_file_extension());
                bundles.push(b);
                proof {
                    let pre = present_upto(*contents, i as int);
                    assert(present_upto(*contents, i + 1) == pre.push(pack));
                    assert forall|k: int| 0 <= k < staged@.len() implies staged_as(#[trigger] staged@[k], present_upto(*contents, i + 1)[k], *self, *contents, tool_version@) by {
                        if k < s0.len() {
                            assert(staged@[k] == s0[k]);
                        }
                    }
                    assert forall|k: int| 0 <= k < bundles@.len() implies (#[trigger] bundles@[k])@ == bundle_name(present_upto(*contents, i + 1)[k]) by {
                        if k < b0.len() {
                            assert(bundles@[k] == b0[k]);
                        }
                    }
                }
            }
            i = i + 1;
        }
        Ok((staged, bundles))
    }

    /// Plans the build of the project, after making sure that every pack
    /// with content has both of its UUIDs.
    ///
    /// `healthy` is the verdict of the health check; `contents` tells which
    /// packs have content; `tool_version` is the version of the running tool.
    /// A build with no pack with content succeeds with nothing to bundle.
    pub fn build(&mut self, healthy: bool, contents: &PackContents, tool_version: &str) -> (r: Result<BuildOutcome, Error>)
        ensures
            !healthy ==> r == Err::<BuildOutcome, Error>(Error::InvalidProjectSetup) && *final(self) == *old(self),
            healthy ==> {
                &&& final(self).config == old(self).config
                &&& final(self).id == old(self).id
                &&& final(self).uuids.complete_for(*contents)
                &&& Uuids::filled_from(old(self).uuids, final(self).uuids, *contents)
            },
            healthy ==> match manifest_error_upto(*final(self), *contents, tool_version@, 4) {
                Some(e) => r == Err::<BuildOutcome, Error>(e),
                None => if present_packs(*contents).len() == 0 {
                    r matches Ok(BuildOutcome::EmptyAddOn)
                } else {
                    r matches Ok(BuildOutcome::Planned(plan)) && planned(plan, *final(self), *contents, tool_version@)
                },
            },
    {
        if !healthy {
            return Err(Error::InvalidProjectSetup);
        }
        self.uuids.ensure_present(contents);
        let (packs, bundles) = self.stage(contents, tool_version)?;
        if packs.len() == 0 {
            return Ok(BuildOutcome::EmptyAddOn);
        }
        let (groups, translations) = self.translations();
        assert(translations@.len() == translations@.map_values(|t: Translation| translation_view(t)).len());
        let language_lines = update_language_files(&groups, &self.config.localization.primary_language, &translations);
        let has_wt = Pack::WorldTemplate.present(contents);
        let plan = BuildPlan {
            packs,
            fingerprint: text_of(self.id),
            groups,
            translations,
            language_lines,
            embed_behavior_pack: has_wt && !self.config.wt.exclude_bp && Pack::Behavior.present(contents),
            embed_resource_pack: has_wt && !self.config.wt.exclude_rp && Pack::Resource.present(contents),
            bundles,
        };
        Ok(BuildOutcome::Planned(plan))
    }

    /// The translations of a build, and the language groups with their languages added.
    fn translations(&self) -> (r: (LanguageGroups, Vec<Translation>))
        ensures
            r.0.groups() == groups_with(
                self.config.localization.groups.groups(),
                translated_languages(self.config),
                translated_languages(self.config).len() as int,
            ),
            r.1@.map_values(|t: Translation| translation_view(t)) == translations_of(self.config),
    {
        let c = &self.config;
        let primary = &c.localization.primary_language;
        let name = localized(&c.project.name, primary);
        let desc = localized(&c.project.description, primary);
        let ghost base = c.localization.groups.groups();
        let ghost langs = translated_languages(*c);
        let ghost nv = localized_view(c.project.name, *primary);
        let ghost dv = localized_view(c.project.description, *primary);
        assert(langs =~= value_langs(nv) + value_langs(dv));
        assert(langs.len() == name@.len() + desc@.len());
        let mut groups = c.localization.groups.copy();
        let mut j: usize = 0;
        while j < name.len()
            invariant
                j <= name@.len(),
                langs == value_langs(nv) + value_langs(dv),
                values_view(name@) == nv,
                langs.len() == name@.len() + desc@.len(),
                groups.groups() == groups_with(base, langs, j as int),
            decreases name@.len() - j,
        {
            assert(langs[j as int] == name@[j as int].0) by {
                assert(values_view(name@)[j as int] == (name@[j as int].0, name@[j as int].1@));
                assert(value_langs(nv)[j as int] == nv[j as int].0);
            }
            groups.with_language(name[j].0.copy());
            j = j + 1;
        }
        let mut k: usize = 0;
        while k < desc.len()
            invariant
                k <= desc@.len(),
                langs == value_langs(nv) + value_langs(dv),
                values_view(name@) == nv,
                values_view(desc@) == dv,
                langs.len() == name@.len() + desc@.len(),
                groups.groups() == groups_with(base, langs, name@.len() + k),
            decreases desc@.len() - k,
        {
            assert(langs[name@.len() + k] == desc@[k as int].0) by {
                assert(values_view(desc@)[k as int] == (desc@[k as int].0, desc@[k as int].1@));
                assert(value_langs(dv)[k as int] == dv[k as int].0);
                assert(value_langs(nv).len() == name@.len());
            }
            groups.with_language(desc[k].0.copy());
            k = k + 1;
        }
        let mut ts: Vec<Translation> = Vec::new();
        ts.push(Translation { key: String::from_str("pack.name"), values: name });
        ts.push(Translation { key: String::from_str("pack.description"), values: desc });
        assert(ts@.map_values(|t: Translation| translation_view(t)) =~= translations_of(*c));
        (groups, ts)
    }
}

} // verus!
