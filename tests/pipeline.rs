use allay::config::{
    BehaviorPackType, Build, Config, Dependency, Identifier, Localization, OptionallyLocalized,
    Plugin, PluginArgs, BP, RP, SP, WT,
};
use allay::error::Error;
use allay::localization::{Language, LanguageGroups};
use allay::manifest::{Manifest, ModuleType};
use allay::pack::{Pack, PackContents};
use allay::plugin::{plugin_step, ExecutablePlugin, PluginEvent, PluginPhase, PluginStep};
use allay::project::{BuildOutcome, Project};
use allay::uuid::{Data, Slot, Uuids};
use allay::version::BaseGameVersion;

fn config() -> Config {
    Config {
        schema: None,
        debug: false,
        project: allay::config::Project {
            name: OptionallyLocalized::Unlocalized("My Pack".to_string()),
            description: OptionallyLocalized::Localized(vec![
                (Language::NorthAmericaEnglish, "A pack".to_string()),
                (Language::GermanyGerman, "Ein Paket".to_string()),
            ]),
            version: "1.2.3".to_string(),
            authors: Some(vec!["Ann".to_string()]),
            license: Some("MIT".to_string()),
            url: None,
            min_engine_version: "1.20.0".to_string(),
        },
        localization: Localization {
            primary_language: Language::NorthAmericaEnglish,
            groups: LanguageGroups(vec![vec![
                Language::GreatBritainEnglish,
                Language::NorthAmericaEnglish,
            ]]),
        },
        env: vec![("KEY".to_string(), "VALUE".to_string())],
        build: Build::default(),
        plugin: vec![],
        bp: BP {
            custom_manifest: false,
            custom_pack_icon: false,
            name: None,
            description: None,
            kind: BehaviorPackType::Script,
            dependencies: vec![],
        },
        rp: RP {
            custom_manifest: false,
            custom_pack_icon: true,
            name: None,
            description: None,
            dependencies: vec![],
        },
        sp: SP {
            custom_manifest: false,
            custom_pack_icon: false,
            name: None,
            description: None,
            dependencies: vec![],
        },
        wt: WT {
            custom_manifest: false,
            exclude_rp: false,
            exclude_bp: true,
            allow_random_seed: true,
            base_game_version: Some(BaseGameVersion::Wild),
            name: None,
            description: None,
        },
        capabilities: None,
    }
}

fn full_uuids() -> Uuids {
    let d = |h: u128, m: u128| Data { header: Some(h), module: Some(m), deps: vec![] };
    Uuids { bp: d(1, 2), rp: d(3, 4), sp: d(5, 6), wt: d(7, 8) }
}

fn project() -> Project {
    Project { config: config(), uuids: full_uuids(), id: 0x1234 }
}

fn contents(bp: usize, rp: usize, sp: usize, wt: usize) -> PackContents {
    PackContents { behavior: bp, resource: rp, skin: sp, world_template: wt }
}

#[test]
fn manifest_injects_resource_pack_dependency() {
    let p = project();
    let m = Manifest::build(Pack::Behavior, &p, true, "0.1.0").unwrap();
    let deps = m.dependencies.unwrap();
    assert_eq!(deps.len(), 1);
    assert_eq!(deps[0].uuid, "00000000-0000-0000-0000-000000000003");
    assert_eq!(deps[0].version, (1, 2, 3));
    assert_eq!(m.header.uuid, "00000000-0000-0000-0000-000000000001");
    let module = &m.modules.unwrap()[0];
    assert_eq!(module.uuid, "00000000-0000-0000-0000-000000000002");
    assert_eq!(module.kind, ModuleType::Script);
    assert!(module.language.is_some());
}

#[test]
fn manifest_without_resource_pack_has_no_injected_dependency() {
    let p = project();
    let m = Manifest::build(Pack::Behavior, &p, false, "0.1.0").unwrap();
    assert_eq!(m.dependencies.unwrap().len(), 0);
    let r = Manifest::build(Pack::Resource, &p, true, "0.1.0").unwrap();
    assert_eq!(r.dependencies.unwrap().len(), 0);
}

#[test]
fn manifest_format_version_skin_and_others() {
    let p = project();
    assert_eq!(Manifest::build(Pack::Skin, &p, true, "0.1.0").unwrap().format_version, 1);
    assert_eq!(Manifest::build(Pack::Behavior, &p, true, "0.1.0").unwrap().format_version, 2);
    assert_eq!(Manifest::build(Pack::Resource, &p, true, "0.1.0").unwrap().format_version, 2);
    assert_eq!(Manifest::build(Pack::WorldTemplate, &p, true, "0.1.0").unwrap().format_version, 2);
}

#[test]
fn manifest_world_template_fields() {
    let p = project();
    let m = Manifest::build(Pack::WorldTemplate, &p, true, "0.1.0").unwrap();
    assert_eq!(m.header.allow_random_seed, Some(true));
    assert_eq!(m.header.base_game_version, Some(BaseGameVersion::Wild));
    assert!(m.dependencies.is_none());
    let b = Manifest::build(Pack::Behavior, &p, true, "0.1.0").unwrap();
    assert!(b.header.allow_random_seed.is_none());
    assert!(b.header.base_game_version.is_none());
    let mut q = project();
    q.config.wt.base_game_version = None;
    assert_eq!(Manifest::build(Pack::WorldTemplate, &q, true, "0.1.0").err(), Some(Error::MissingBaseGameVersion));
}

#[test]
fn manifest_metadata_and_versions() {
    let p = project();
    let m = Manifest::build(Pack::Resource, &p, false, "9.9.9").unwrap();
    assert_eq!(m.header.version, (1, 2, 3));
    assert_eq!(m.header.min_engine_version, Some((1, 20, 0)));
    assert_eq!(m.header.name, "pack.name");
    assert_eq!(m.header.description, "pack.description");
    let meta = m.metadata.unwrap();
    assert_eq!(meta.authors, Some(vec!["Ann".to_string()]));
    assert_eq!(meta.license, Some("MIT".to_string()));
    assert_eq!(meta.generated_with, Some(vec![("allay".to_string(), vec!["9.9.9".to_string()])]));
}

#[test]
fn manifest_errors() {
    let mut p = project();
    p.uuids.sp.header = None;
    assert_eq!(Manifest::build(Pack::Skin, &p, false, "0").err(), Some(Error::MissingUuid(Pack::Skin)));
    let mut p = project();
    p.config.project.version = "1.2".to_string();
    assert_eq!(Manifest::build(Pack::Skin, &p, false, "0").err(), Some(Error::VersionMissingNumber));
    let mut p = project();
    p.config.rp.dependencies = vec![Dependency { id: Identifier::ModuleName("@minecraft/server".to_string()), version: "1.0.0".to_string() }];
    assert_eq!(Manifest::build(Pack::Resource, &p, false, "0").err(), Some(Error::ModuleNameDependency));
    let mut p = project();
    p.config.bp.dependencies = vec![Dependency { id: Identifier::Uuid("abc".to_string()), version: "2.0.1".to_string() }];
    let deps = Manifest::build(Pack::Behavior, &p, true, "0").unwrap().dependencies.unwrap();
    assert_eq!(deps[0].uuid, "abc");
    assert_eq!(deps[0].version, (2, 0, 1));
    assert_eq!(deps.len(), 2);
}

#[test]
fn manifest_is_deterministic() {
    let p = project();
    let a = Manifest::build(Pack::Behavior, &p, true, "0.1.0").unwrap();
    let b = Manifest::build(Pack::Behavior, &p, true, "0.1.0").unwrap();
    assert_eq!(format!("{:?}", a), format!("{:?}", b));
}

#[test]
fn ensure_is_stable() {
    let mut u = Uuids::default();
    let a = u.ensure(Pack::Resource, Slot::Header);
    let b = u.ensure(Pack::Resource, Slot::Header);
    assert_eq!(a, b);
    assert_eq!((a >> 76) & 0xf, 4);
    assert!(u.get(Pack::Resource, Slot::Module).is_none());
    let c = u.refresh(Pack::Resource, Slot::Header, Some(42));
    assert_eq!(c, 42);
    assert_eq!(u.ensure(Pack::Resource, Slot::Header), 42);
}

#[test]
fn ensure_present_fills_only_packs_with_content() {
    let mut u = Uuids::default();
    u.ensure_present(&contents(1, 0, 3, 0));
    assert!(u.bp.header.is_some() && u.bp.module.is_some());
    assert!(u.sp.header.is_some() && u.sp.module.is_some());
    assert!(u.rp.header.is_none() && u.wt.module.is_none());
    let before = u.bp.header;
    u.ensure_present(&contents(1, 0, 3, 0));
    assert_eq!(u.bp.header, before);
}

#[test]
fn empty_project_is_empty_add_on() {
    let mut p = project();
    let r = p.build(true, &contents(0, 0, 0, 0), "0.1.0");
    assert!(matches!(r, Ok(BuildOutcome::EmptyAddOn)));
}

#[test]
fn unhealthy_project_is_refused() {
    let mut p = project();
    let r = p.build(false, &contents(1, 1, 1, 1), "0.1.0");
    assert!(matches!(r, Err(Error::InvalidProjectSetup)));
}

#[test]
fn build_plans_present_packs_in_order() {
    let mut p = project();
    p.uuids = Uuids::default();
    let r = p.build(true, &contents(2, 0, 0, 5), "0.1.0");
    let plan = match r {
        Ok(BuildOutcome::Planned(plan)) => plan,
        _ => panic!("expected a plan"),
    };
    assert_eq!(plan.packs.len(), 2);
    assert_eq!(plan.packs[0].pack, Pack::Behavior);
    assert_eq!(plan.packs[0].dir, "BP");
    assert_eq!(plan.packs[1].pack, Pack::WorldTemplate);
    assert!(plan.packs[1].copy_icon);
    assert_eq!(plan.bundles, vec!["BP.mcpack".to_string(), "WT.mctemplate".to_string()]);
    assert!(!plan.embed_behavior_pack);
    assert!(!plan.embed_resource_pack);
    assert!(p.uuids.bp.header.is_some() && p.uuids.wt.module.is_some());
    assert!(p.uuids.rp.header.is_none());
    assert_eq!(plan.fingerprint, "00000000-0000-0000-0000-000000001234");
    // en-us and de-de given for the description, en-gb filled from en-us.
    let desc: Vec<(String, String)> = plan
        .language_lines
        .iter()
        .filter(|l| l.key == "pack.description")
        .map(|l| (l.language.id_string(), l.value.clone()))
        .collect();
    assert_eq!(
        desc,
        vec![
            ("en-us".to_string(), "A pack".to_string()),
            ("de-de".to_string(), "Ein Paket".to_string()),
            ("en-gb".to_string(), "A pack".to_string()),
        ]
    );
    assert_eq!(plan.groups.0.len(), 2);
}

#[test]
fn build_embeds_packs_into_world_template() {
    let mut p = project();
    p.config.wt.exclude_bp = false;
    let r = p.build(true, &contents(1, 1, 0, 1), "0.1.0");
    match r {
        Ok(BuildOutcome::Planned(plan)) => {
            assert!(plan.embed_behavior_pack);
            assert!(plan.embed_resource_pack);
            assert!(!plan.packs[1].copy_icon);
        },
        _ => panic!("expected a plan"),
    }
}

#[test]
fn build_reports_manifest_error() {
    let mut p = project();
    p.config.project.min_engine_version = "x".to_string();
    let r = p.build(true, &contents(0, 1, 0, 0), "0.1.0");
    assert!(matches!(r, Err(Error::VersionNotANumber)));
    p.config.rp.custom_manifest = true;
    let r = p.build(true, &contents(0, 1, 0, 0), "0.1.0");
    assert!(matches!(r, Ok(BuildOutcome::Planned(_))));
}

#[test]
fn plugin_environment() {
    let p = project();
    let env = p.plugin_env("/tmp/x", "/root", "0.1.0");
    let want: Vec<(String, String)> = vec![
        ("ALLAY_DEBUG", "0"),
        ("ALLAY_PREBUILD", "/tmp/x"),
        ("ALLAY_PROJECT_ROOT", "/root"),
        ("ALLAY_VERSION", "0.1.0"),
        ("KEY", "VALUE"),
    ]
    .into_iter()
    .map(|(a, b)| (a.to_string(), b.to_string()))
    .collect();
    assert_eq!(env, want);
    assert_eq!(p.prebuild_dir_name(), "allay-00000000-0000-0000-0000-000000001234");
}

#[test]
fn plugin_from_config() {
    let plugin = Plugin {
        name: None,
        run: "script.py".to_string(),
        with: Some("python3".to_string()),
        args: PluginArgs::Options("{\"a\":1}".to_string()),
        when: None,
        panic: true,
    };
    let e = ExecutablePlugin::from_config(&plugin);
    assert_eq!(e.program, "python3");
    assert_eq!(e.args, vec!["script.py".to_string(), "{\"a\":1}".to_string()]);
    assert!(e.panic());
    assert_eq!(e.display_name(), "<unnamed>");
    let plugin = Plugin { with: None, args: PluginArgs::Args(vec!["-w".to_string()]), ..plugin };
    let e = ExecutablePlugin::from_config(&plugin);
    assert_eq!(e.program, "script.py");
    assert_eq!(e.args, vec!["-w".to_string()]);
}

#[test]
fn plugin_abort_policy() {
    assert_eq!(plugin_step(true, PluginEvent::Failed), PluginStep::Abort);
    assert_eq!(plugin_step(false, PluginEvent::Failed), PluginStep::Next);
    assert_eq!(plugin_step(false, PluginEvent::FilterError), PluginStep::Abort);
    assert_eq!(plugin_step(true, PluginEvent::Skipped), PluginStep::Next);

    let mut phase = PluginPhase::new(3);
    assert_eq!(phase.current(), Some(0));
    phase.advance(false, PluginEvent::Failed);
    assert_eq!(phase.current(), Some(1));
    phase.advance(true, PluginEvent::Failed);
    assert_eq!(phase.current(), None);
}
