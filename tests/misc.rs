use allay::diagnostic::{Kind, Notification};
use allay::health::{has_content, Check, Health};
use allay::pack::{Pack, PackContents};
use allay::paths;
use allay::error::Error;
use allay::project::{Project, ProjectInitConfig};
use allay::uuid::{fingerprint_matches, Slot, Uuids};

#[test]
fn pack_names() {
    assert_eq!(Pack::Behavior.short_name(), "BP");
    assert_eq!(Pack::WorldTemplate.long_name(), "World Template");
    assert_eq!(Pack::Skin.bundle_file_extension(), "mcpack");
    assert_eq!(Pack::WorldTemplate.bundle_file_extension(), "mctemplate");
    assert_eq!(Pack::Resource.path_src(), "src/RP");
    let c = PackContents { behavior: 0, resource: 2, skin: 0, world_template: 0 };
    assert!(Pack::Resource.present(&c));
    assert!(!Pack::Behavior.present(&c));
    assert_eq!(Pack::values(), vec![Pack::Behavior, Pack::Resource, Pack::Skin, Pack::WorldTemplate]);
}

#[test]
fn project_paths() {
    assert_eq!(paths::uuids(), ".allay/uuids.toml");
    assert_eq!(paths::project_id(), ".allay/project_id.txt");
    assert_eq!(paths::src_wt(), "src/WT");
    assert_eq!(paths::logs("/home/a/.config/allay"), "/home/a/.config/allay/logs");
    assert_eq!(paths::build(), "build.mcaddon");
}

#[test]
fn notifications() {
    assert_eq!(Notification::RedundantManifest.id(), "W001");
    assert_eq!(Notification::ComMojangWindows.id(), "E005");
    assert_eq!(Notification::EmptyAddOn.kind(), Kind::Warning);
    assert_eq!(Notification::from_code(3), Some(Notification::EmptyAddOn));
    assert_eq!(Notification::from_code(0), None);
    assert_eq!(Notification::EmptyAddOn.brief_description(), "Add-On contains no packs");
}

#[test]
fn health_checks() {
    let h = Health { root: ".".to_string(), fix: false };
    assert_eq!(h.check_internal(true), Check::Passed);
    assert_eq!(h.check_internal(false), Check::Failed);
    let f = Health { root: ".".to_string(), fix: true };
    assert_eq!(f.check_uuids(true, false), Check::Repair);
    assert!(has_content(Some(1)));
    assert!(!has_content(Some(0)));
    assert!(!has_content(None));

    let c = PackContents { behavior: 1, resource: 0, skin: 0, world_template: 0 };
    let mut u = Uuids::default();
    let r = h.check_uuids_presence(&mut u, &c);
    assert!(!r.ok && !r.modified);
    assert!(u.bp.header.is_none());
    let r = f.check_uuids_presence(&mut u, &c);
    assert!(r.ok && r.modified);
    assert!(u.bp.header.is_some() && u.bp.module.is_some());
    assert!(u.rp.header.is_none());
    let r = f.check_uuids_presence(&mut u, &c);
    assert!(r.ok && !r.modified);
    assert!(h.check_all_except_uuids(Check::Passed, Check::Repair));
}

#[test]
fn notification_message() {
    assert_eq!(Notification::EmptyAddOn.message(), "[W003] Add-On contains no packs");
    assert_eq!(
        Notification::RedundantPackIcon.message(),
        "[W002] Found `pack_icon.png` but ignoring it as `custom-pack-icon` is not set to `true`. Use `allay explain WW002` to gather further information"
    );
}

#[test]
fn watcher_keeps_all_paths() {
    let v = vec!["a".to_string(), "b/c".to_string()];
    assert_eq!(paths::remove_ignored_files(&v), v);
    assert!(paths::remove_ignored_files(&vec![]).is_empty());
}

#[test]
fn refresh_selected_packs_and_slots() {
    let mut u = Uuids::default();
    u.refresh_selected(&vec![Pack::Skin], &vec![Slot::Module], Some(7));
    assert_eq!(u.sp.module, Some(7));
    assert!(u.sp.header.is_none());
    assert!(u.bp.module.is_none());
    u.refresh_selected(&vec![Pack::Behavior, Pack::Skin], &vec![Slot::Header, Slot::Module], None);
    assert!(u.bp.header.is_some() && u.bp.module.is_some());
    assert_ne!(u.sp.module, Some(7));
    assert!(u.rp.header.is_none());
}

#[test]
fn fingerprints() {
    assert!(fingerprint_matches("00000000-0000-0000-0000-000000001234", 0x1234));
    assert!(!fingerprint_matches("00000000-0000-0000-0000-000000001235", 0x1234));
    assert!(!fingerprint_matches("not a uuid", 0x1234));
}

#[test]
fn project_initialization() {
    let r = Project::new(3, false, ProjectInitConfig { with_gitignore: true });
    assert!(matches!(r, Err(Error::DirectoryNotEmpty)));
    let l = Project::new(3, true, ProjectInitConfig { with_gitignore: true }).unwrap();
    assert_eq!(l.dirs, vec![".allay", "src", "src/BP", "src/RP", "src/SP", "src/WT"]);
    assert_eq!(l.gitignore, Some(".gitignore".to_string()));
    assert_eq!((l.id >> 76) & 0xf, 4);
    let l = Project::new(0, false, ProjectInitConfig { with_gitignore: false }).unwrap();
    assert!(l.gitignore.is_none());
    assert!(l.uuids.bp.header.is_none());
    assert_eq!(l.store, ".allay/uuids.toml");
}
