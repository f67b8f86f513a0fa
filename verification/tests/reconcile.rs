use kether_daemon::detect::{Detect, DetectAction, DetectPhase, Detection};
use kether_daemon::error::ErrorKind;
use kether_daemon::models::{MapEntry, SourceKind, Timestamp};
use kether_daemon::registry::{Registry, RegistryError};
use kether_daemon::sanitize::{strip_base, DiskState, NameError, PathError};
use kether_daemon::sync::{
    bearer_header, command_for, cycle_step, endpoint_url, is_success_status, plan_updates,
    sync_path, updates_path, CycleAction, CycleEvent, CyclePhase, MapUpdate, SyncCommand,
    BACKEND_TIMEOUT_SECS,
};
use kether_daemon::uninstall::{Uninstall, UninstallAction, UninstallError, UninstallPhase};
use kether_daemon::vpk::VpkMetadata;
use kether_daemon::watcher::{
    admits_event, react_to, translate_change, ChangeKind, Reaction, WatcherEvent,
    EVENT_QUEUE_CAPACITY,
};

const ADDONS: &str = "/srv/l4d2/left4dead2/addons";

fn at() -> Timestamp {
    Timestamp { secs: 1_700_000_000, nanos: 0 }
}

fn entry(name: &str, path: &str) -> MapEntry {
    MapEntry::new(0, name.to_string(), "https://example.com/map.zip".to_string(), path.to_string(), at())
}

fn inside(path: &str) -> DiskState {
    DiskState::Resolved { path: path.to_string(), base: ADDONS.to_string() }
}

#[test]
fn test_uninstall_map_exists() {
    let mut registry = Registry::new();
    let id = registry.add_map(entry("Test Map", "test_map.vpk")).unwrap();

    let (mut u, a) = Uninstall::begin(&registry, id, ADDONS.to_string());
    match a {
        UninstallAction::Inspect { path, base } => {
            assert_eq!(path, format!("{}/test_map.vpk", ADDONS));
            assert_eq!(base, ADDONS);
        }
        other => panic!("unexpected {:?}", other),
    }
    // Uninstall succeeds even if nothing exists at the path.
    let a = u.on_inspected(&DiskState::Absent, &mut registry);
    assert!(matches!(a, UninstallAction::Finish(Ok(()))));
    assert!(registry.get_map(id).is_none());
    assert_eq!(u.phase(), UninstallPhase::Done);
}

#[test]
fn uninstall_roundtrip() {
    let mut registry = Registry::new();
    let id = registry.add_map(entry("test_map", "test_map.vpk")).unwrap();
    let file = format!("{}/test_map.vpk", ADDONS);

    let (mut u, _) = Uninstall::begin(&registry, id, ADDONS.to_string());
    match u.on_inspected(&inside(&file), &mut registry) {
        UninstallAction::Remove { path } => assert_eq!(path, file),
        other => panic!("unexpected {:?}", other),
    }
    assert!(registry.get_map(id).is_some());
    assert!(matches!(u.on_removed(true, &mut registry), UninstallAction::Finish(Ok(()))));
    assert!(registry.get_map(id).is_none());

    // The record is gone: a second removal finds nothing.
    let (u, a) = Uninstall::begin(&registry, id, ADDONS.to_string());
    assert!(matches!(a, UninstallAction::Finish(Err(UninstallError::NotFound))));
    assert_eq!(u.phase(), UninstallPhase::Done);
    assert_eq!(UninstallError::NotFound.kind().status(), 404);
    // The identifier is not handed out again.
    assert_eq!(registry.add_map(entry("again", "again.vpk")), Ok(id + 1));
}

#[test]
fn uninstalling_an_unknown_map_finds_nothing() {
    let registry = Registry::new();
    let (_, a) = Uninstall::begin(&registry, 42, ADDONS.to_string());
    assert!(matches!(a, UninstallAction::Finish(Err(UninstallError::NotFound))));
}

#[test]
fn uninstall_refuses_paths_outside_the_addons_directory() {
    let mut registry = Registry::new();
    let id = registry.add_map(entry("m", "m.vpk")).unwrap();
    let (mut u, _) = Uninstall::begin(&registry, id, ADDONS.to_string());
    let elsewhere = DiskState::Resolved { path: "/etc/m.vpk".to_string(), base: ADDONS.to_string() };
    let a = u.on_inspected(&elsewhere, &mut registry);
    assert!(matches!(
        a,
        UninstallAction::Finish(Err(UninstallError::Containment(PathError::OutsideBase)))
    ));
    assert!(registry.get_map(id).is_some());
    assert_eq!(
        UninstallError::Containment(PathError::OutsideBase).kind(),
        ErrorKind::ContainmentViolation
    );

    let (mut u, _) = Uninstall::begin(&registry, id, ADDONS.to_string());
    let a = u.on_inspected(&DiskState::Unresolved, &mut registry);
    assert!(matches!(
        a,
        UninstallAction::Finish(Err(UninstallError::Containment(PathError::Unresolved)))
    ));
}

#[test]
fn a_file_that_cannot_be_removed_keeps_its_record() {
    let mut registry = Registry::new();
    let id = registry.add_map(entry("m", "m.vpk")).unwrap();
    let (mut u, _) = Uninstall::begin(&registry, id, ADDONS.to_string());
    u.on_inspected(&inside(&format!("{}/m.vpk", ADDONS)), &mut registry);
    let a = u.on_removed(false, &mut registry);
    assert!(matches!(a, UninstallAction::Finish(Err(UninstallError::RemovalFailed))));
    assert!(registry.get_map(id).is_some());
    let a = u.on_removed(true, &mut registry);
    assert!(matches!(a, UninstallAction::Finish(Err(UninstallError::OutOfOrder))));
    assert!(registry.get_map(id).is_some());
}

#[test]
fn strip_base_is_by_component() {
    assert_eq!(strip_base("/a/b/c.vpk", "/a/b"), Some("c.vpk".to_string()));
    assert_eq!(strip_base("/a/b/c/d.vpk", "/a/b/"), Some("c/d.vpk".to_string()));
    assert_eq!(strip_base("/a/bc/d.vpk", "/a/b"), None);
    assert_eq!(strip_base("a/b", "/a"), None);
    assert_eq!(strip_base("/a/b", "/a/b"), Some(String::new()));
    assert_eq!(strip_base("/a//b/./c", "/a/b"), Some("c".to_string()));
}

fn detect(path: &str, registry: &Registry) -> (Detect, DetectAction) {
    Detect::begin(path.to_string(), ADDONS, registry)
}

#[test]
fn a_created_package_gets_a_record() {
    let mut registry = Registry::new();
    let file = format!("{}/manual.vpk", ADDONS);
    let (mut d, a) = detect(&file, &registry);
    match a {
        DetectAction::ReadMetadata { path } => assert_eq!(path, file),
        other => panic!("unexpected {:?}", other),
    }
    assert_eq!(d.phase(), DetectPhase::ReadingMetadata);
    let meta = VpkMetadata { title: "Manual Map".to_string(), version: "3".to_string() };
    match d.on_metadata(Some(meta)) {
        DetectAction::Hash { path } => assert_eq!(path, file),
        other => panic!("unexpected {:?}", other),
    }
    let a = d.register(Some("0123456789abcdef0123456789abcdef".to_string()), at(), &mut registry);
    assert!(matches!(&a, DetectAction::Store { entry } if entry.id == 1));
    assert_eq!(d.phase(), DetectPhase::Storing);
    let e = match d.on_stored(true, &mut registry) {
        DetectAction::Finish(Detection::Added(e)) => e,
        other => panic!("unexpected {:?}", other),
    };
    assert_eq!(e.id, 1);
    assert_eq!(e.name, "manual_map");
    assert_eq!(e.source_kind, SourceKind::Other);
    assert_eq!(e.workshop_id, None);
    assert_eq!(e.source_url, format!("detected:{}", file));
    assert_eq!(e.installed_path, "manual.vpk");
    assert_eq!(e.version, Some("3".to_string()));
    assert_eq!(e.checksum_kind, Some("md5".to_string()));
    assert_eq!(e.installed_at, at());

    // The second look finds the record and adds nothing.
    let (_, a) = detect(&file, &registry);
    match a {
        DetectAction::Finish(Detection::Known(k)) => assert_eq!(k.id, 1),
        other => panic!("unexpected {:?}", other),
    }
    assert_eq!(registry.len(), 1);
}

#[test]
fn a_detection_whose_record_cannot_be_stored_leaves_the_registry_as_it_was() {
    let mut registry = Registry::new();
    let (mut d, _) = detect(&format!("{}/manual.vpk", ADDONS), &registry);
    d.on_metadata(Some(VpkMetadata { title: "Manual".to_string(), version: "1".to_string() }));
    assert!(matches!(d.on_hashed(None, &mut registry), DetectAction::Store { .. }));
    assert_eq!(registry.len(), 1);
    assert!(matches!(
        d.on_stored(false, &mut registry),
        DetectAction::Finish(Detection::StoreFailed)
    ));
    assert_eq!(registry.len(), 0);
    assert_eq!(registry.next_id(), 1);
    assert!(matches!(
        d.on_stored(true, &mut registry),
        DetectAction::Finish(Detection::OutOfOrder)
    ));
}

#[test]
fn detection_ignores_what_is_not_a_package_below_addons() {
    let registry = Registry::new();
    for path in [
        "/elsewhere/manual.vpk".to_string(),
        format!("{}/readme.txt", ADDONS),
        format!("{}/manual.VPK", ADDONS),
        format!("{}/manual", ADDONS),
        ADDONS.to_string(),
    ] {
        let (d, a) = detect(&path, &registry);
        assert!(matches!(a, DetectAction::Finish(Detection::Ignored)), "{}", path);
        assert_eq!(d.phase(), DetectPhase::Done);
    }
    let (mut d, _) = detect(&format!("{}/sub/x.vpk", ADDONS), &registry);
    assert!(matches!(d.on_metadata(None), DetectAction::Finish(Detection::Ignored)));
}

#[test]
fn detection_reports_bad_names_and_refusals() {
    let mut registry = Registry::new();
    registry.add_map(entry("taken", "other.vpk")).unwrap();
    let file = format!("{}/a.vpk", ADDONS);

    let (mut d, _) = detect(&file, &registry);
    d.on_metadata(Some(VpkMetadata { title: "!!!".to_string(), version: "1".to_string() }));
    let a = d.on_hashed(None, &mut registry);
    assert!(matches!(a, DetectAction::Finish(Detection::BadName(NameError::Empty))));

    let (mut d, _) = detect(&file, &registry);
    d.on_metadata(Some(VpkMetadata { title: "Taken".to_string(), version: "1".to_string() }));
    let a = d.on_hashed(None, &mut registry);
    assert!(matches!(a, DetectAction::Finish(Detection::Refused(RegistryError::NameConflict))));
    assert!(matches!(
        d.on_hashed(None, &mut registry),
        DetectAction::Finish(Detection::OutOfOrder)
    ));
    assert_eq!(registry.len(), 1);
}

fn update(action: &str, map_id: u64, map_entry: Option<MapEntry>) -> MapUpdate {
    MapUpdate { action: action.to_string(), map_id, map_entry }
}

#[test]
fn updates_become_commands() {
    let mut workshop = entry("W", "w.vpk");
    workshop.workshop_id = Some(77);
    assert!(matches!(
        command_for(&update("install", 1, Some(workshop))),
        SyncCommand::InstallWorkshop(77)
    ));
    match command_for(&update("install", 2, Some(entry("Display", "d.vpk")))) {
        SyncCommand::InstallUrl { url, name } => {
            assert_eq!(url, "https://example.com/map.zip");
            assert_eq!(name, "Display");
        }
        other => panic!("unexpected {:?}", other),
    }
    assert!(matches!(command_for(&update("install", 3, None)), SyncCommand::SkipMissingDetails));
    assert!(matches!(command_for(&update("uninstall", 4, None)), SyncCommand::Uninstall(4)));
    assert!(matches!(command_for(&update("update", 5, None)), SyncCommand::SkipUnknownAction));
    assert!(matches!(command_for(&update("INSTALL", 6, None)), SyncCommand::SkipUnknownAction));
}

#[test]
fn a_skipped_update_does_not_stop_the_batch() {
    let batch = vec![update("bogus", 1, None), update("uninstall", 2, None), update("install", 3, None)];
    let plan = plan_updates(&batch);
    assert_eq!(plan.len(), 3);
    assert!(matches!(plan[0], SyncCommand::SkipUnknownAction));
    assert!(matches!(plan[1], SyncCommand::Uninstall(2)));
    assert!(matches!(plan[2], SyncCommand::SkipMissingDetails));
    assert!(plan_updates(&vec![]).is_empty());
}

#[test]
fn a_cycle_pulls_then_applies_then_pushes() {
    let (p, a) = cycle_step(CyclePhase::Waiting, CycleEvent::Tick);
    assert_eq!((p, a), (CyclePhase::Pulling, CycleAction::Pull));
    let (p, a) = cycle_step(p, CycleEvent::Pulled);
    assert_eq!((p, a), (CyclePhase::Applying, CycleAction::Apply));
    let (p, a) = cycle_step(p, CycleEvent::Applied);
    assert_eq!((p, a), (CyclePhase::Pushing, CycleAction::Push));
    let (p, a) = cycle_step(p, CycleEvent::Pushed);
    assert_eq!((p, a), (CyclePhase::Waiting, CycleAction::Wait));
    assert_eq!(cycle_step(CyclePhase::Pulling, CycleEvent::Tick), (CyclePhase::Pulling, CycleAction::Wait));
    assert_eq!(cycle_step(CyclePhase::Waiting, CycleEvent::Pushed), (CyclePhase::Waiting, CycleAction::Wait));
}

#[test]
fn backend_requests() {
    assert_eq!(endpoint_url("http://b.test/api/", updates_path()), "http://b.test/api/api/registry/updates");
    assert_eq!(endpoint_url("http://b.test", sync_path()), "http://b.test/api/registry/sync");
    assert_eq!(endpoint_url("http://b.test///", "x"), "http://b.test/x");
    assert_eq!(endpoint_url("", "x"), "/x");
    assert_eq!(bearer_header("s3cr3t"), "Bearer s3cr3t");
    assert_eq!(BACKEND_TIMEOUT_SECS, 30);
    assert!(is_success_status(200));
    assert!(is_success_status(299));
    assert!(!is_success_status(199));
    assert!(!is_success_status(300));
    assert!(!is_success_status(404));
}

#[test]
fn platform_changes_become_events() {
    let paths = vec!["/a/x.vpk".to_string(), "/a/y.vpk".to_string()];
    let events = translate_change(ChangeKind::Create, &paths);
    assert_eq!(events.len(), 2);
    assert!(matches!(&events[0], WatcherEvent::Create(p) if p == "/a/x.vpk"));
    assert!(matches!(&events[1], WatcherEvent::Create(p) if p == "/a/y.vpk"));
    let events = translate_change(ChangeKind::Remove, &paths);
    assert!(matches!(&events[1], WatcherEvent::Remove(p) if p == "/a/y.vpk"));
    let events = translate_change(ChangeKind::Modify, &paths);
    assert!(matches!(&events[0], WatcherEvent::Modify(p) if p == "/a/x.vpk"));
    assert!(translate_change(ChangeKind::Other, &paths).is_empty());
    assert!(translate_change(ChangeKind::Create, &vec![]).is_empty());
}

#[test]
fn only_creations_are_looked_at() {
    assert!(matches!(react_to(&WatcherEvent::Create("/a".to_string())), Reaction::Detect(p) if p == "/a"));
    assert!(matches!(react_to(&WatcherEvent::Remove("/a".to_string())), Reaction::LogOnly));
    assert!(matches!(react_to(&WatcherEvent::Modify("/a".to_string())), Reaction::LogOnly));
}

#[test]
fn a_full_queue_drops_events() {
    assert_eq!(EVENT_QUEUE_CAPACITY, 1024);
    assert!(admits_event(0));
    assert!(admits_event(1023));
    assert!(!admits_event(1024));
}
