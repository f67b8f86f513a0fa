use kether_daemon::api::{InstallMapRequest, RequestError, SourceSpec};
use kether_daemon::error::{ErrorKind, SteamError};
use kether_daemon::installer::{Action, Install, InstallError, Phase};
use kether_daemon::models::{MapEntry, SourceKind, Timestamp};
use kether_daemon::registry::{Registry, RegistryError};
use kether_daemon::sanitize::NameError;
use kether_daemon::steam::UgcDetails;
use kether_daemon::url_validator::UrlError;
use kether_daemon::vpk::VpkMetadata;

const ADDONS: &str = "/srv/l4d2/left4dead2/addons";
const TEMP: &str = "/tmp/kether-downloads";
const T1: &str = "11111111-1111-4111-8111-111111111111";
const T2: &str = "22222222-2222-4222-8222-222222222222";

fn begin(source: SourceSpec, name: Option<&str>, registry: &Registry) -> (Install, Action) {
    Install::begin_with(
        source,
        name.map(|n| n.to_string()),
        ADDONS.to_string(),
        TEMP.to_string(),
        registry,
        T1.to_string(),
        T2.to_string(),
    )
}

fn meta(title: &str, version: &str) -> Option<VpkMetadata> {
    Some(VpkMetadata { title: title.to_string(), version: version.to_string() })
}

fn at() -> Timestamp {
    Timestamp { secs: 1_700_000_000, nanos: 5 }
}

fn stored(a: Action) -> MapEntry {
    match a {
        Action::Store { entry } => entry,
        other => panic!("expected the record to store, got {:?}", other),
    }
}

fn finished(a: Action) -> (Result<MapEntry, InstallError>, Option<String>, Option<String>, Option<String>) {
    match a {
        Action::Finish { result, remove_placed, remove_download, remove_scratch } => {
            (result, remove_placed, remove_download, remove_scratch)
        }
        other => panic!("expected the end of the installation, got {:?}", other),
    }
}

/// Runs a direct ZIP install up to the copy and returns the installation.
fn zip_install_up_to_placing(registry: &Registry, name: Option<&str>) -> Install {
    let (mut s, a) = begin(SourceSpec::Url("https://example.test/map.zip".to_string()), name, registry);
    let download = format!("{}/{}-map.zip", TEMP, T1);
    match a {
        Action::Download { url, dest } => {
            assert_eq!(url, "https://example.test/map.zip");
            assert_eq!(dest, download);
        }
        other => panic!("unexpected {:?}", other),
    }
    assert_eq!(s.phase(), Phase::Fetching);
    match s.on_downloaded(true) {
        Action::ListArchive { path } => assert_eq!(path, download),
        other => panic!("unexpected {:?}", other),
    }
    let scratch = format!("{}/extract-{}", TEMP, T2);
    match s.on_archive_listed(&Some(vec!["test_map.vpk".to_string()])) {
        Action::Extract { archive, dest } => {
            assert_eq!(archive, download);
            assert_eq!(dest, scratch);
        }
        other => panic!("unexpected {:?}", other),
    }
    match s.on_extracted(true) {
        Action::FindFiles { dir } => assert_eq!(dir, scratch),
        other => panic!("unexpected {:?}", other),
    }
    let found = format!("{}/test_map.vpk", scratch);
    match s.on_files_found(&Some(vec![format!("{}/readme.txt", scratch), found.clone()])) {
        Action::ReadMetadata { path } => assert_eq!(path, found),
        other => panic!("unexpected {:?}", other),
    }
    match s.on_metadata(meta("Example", "1.0"), registry) {
        Action::Place { from, to } => {
            assert_eq!(from, found);
            assert_eq!(to, format!("{}/test_map.vpk", ADDONS));
        }
        other => panic!("unexpected {:?}", other),
    }
    assert_eq!(s.phase(), Phase::Placing);
    s
}

#[test]
fn direct_zip_with_embedded_vpk() {
    let mut registry = Registry::new();
    let mut s = zip_install_up_to_placing(&registry, Some("Test Map"));
    match s.on_placed(true) {
        Action::Hash { path } => assert_eq!(path, format!("{}/test_map.vpk", ADDONS)),
        other => panic!("unexpected {:?}", other),
    }
    let sum = "900150983cd24fb0d6963f7d28e17f72".to_string();
    let pending = stored(s.register(Some(sum.clone()), at(), &mut registry));
    assert_eq!(pending.id, 1);
    assert_eq!(s.phase(), Phase::Storing);
    assert_eq!(registry.get_map(1).unwrap().name, "test_map");
    let (result, placed, download, scratch) = finished(s.on_stored(true, &mut registry));
    let entry = result.unwrap();
    assert_eq!(entry.id, 1);
    assert_eq!(entry.name, "test_map");
    assert_eq!(entry.installed_path, "test_map.vpk");
    assert_eq!(entry.source_kind, SourceKind::Other);
    assert_eq!(entry.workshop_id, None);
    assert_eq!(entry.version, Some("1.0".to_string()));
    assert_eq!(entry.checksum, Some(sum));
    assert_eq!(entry.checksum_kind, Some("md5".to_string()));
    assert_eq!(entry.source_url, format!("zip:{}-map.zip", T1));
    assert_eq!(entry.installed_at, at());
    assert_eq!(placed, None);
    assert_eq!(download, Some(format!("{}/{}-map.zip", TEMP, T1)));
    assert_eq!(scratch, Some(format!("{}/extract-{}", TEMP, T2)));
    assert_eq!(s.phase(), Phase::Done);
    let stored = registry.get_map(1).unwrap();
    assert_eq!(stored.name, "test_map");
    assert_eq!(stored.installed_path, "test_map.vpk");
}

#[test]
fn workshop_id_install() {
    let mut registry = Registry::new();
    let (mut s, a) = begin(SourceSpec::Workshop(123456789), None, &registry);
    assert!(matches!(a, Action::OpenSession));
    match s.on_session(Ok(())) {
        Action::GetDetails { workshop_id, appid } => {
            assert_eq!(workshop_id, 123456789);
            assert_eq!(appid, 550);
        }
        other => panic!("unexpected {:?}", other),
    }
    match s.on_details(&Some(vec![987654321])) {
        Action::GetDownloadUrl { hcontent } => assert_eq!(hcontent, 987654321),
        other => panic!("unexpected {:?}", other),
    }
    let answer = UgcDetails {
        eresult: 1,
        url: Some("https://cdn.steam.test/ugc/42/my_campaign.vpk?token=abc/def".to_string()),
    };
    let download = format!("{}/{}-my_campaign.vpk", TEMP, T1);
    match s.on_download_url(&Some(answer)) {
        Action::Download { url, dest } => {
            assert_eq!(url, "https://cdn.steam.test/ugc/42/my_campaign.vpk?token=abc/def");
            assert_eq!(dest, download);
        }
        other => panic!("unexpected {:?}", other),
    }
    match s.on_downloaded(true) {
        Action::ReadMetadata { path } => assert_eq!(path, download),
        other => panic!("unexpected {:?}", other),
    }
    assert_eq!(s.phase(), Phase::ReadingMetadata);
    match s.on_metadata(meta("My Campaign", "2"), &registry) {
        Action::Place { from, to } => {
            assert_eq!(from, download);
            assert_eq!(to, format!("{}/{}-my_campaign.vpk", ADDONS, T1));
        }
        other => panic!("unexpected {:?}", other),
    }
    assert!(matches!(s.on_placed(true), Action::Hash { .. }));
    let pending = stored(s.on_hashed(None, &mut registry));
    assert_eq!(pending.source_url, "workshop:123456789");
    let (result, placed, removed_download, scratch) = finished(s.on_stored(true, &mut registry));
    let entry = result.unwrap();
    assert_eq!(entry.source_kind, SourceKind::Workshop);
    assert_eq!(entry.workshop_id, Some(123456789));
    assert_eq!(entry.source_url, "workshop:123456789");
    assert_eq!(entry.name, "my_campaign");
    assert_eq!(entry.checksum, None);
    assert_eq!(entry.checksum_kind, None);
    assert!(entry.installed_at.secs > 1_600_000_000);
    assert_eq!(placed, None);
    assert_eq!(removed_download, Some(download));
    assert_eq!(scratch, None);
}

#[test]
fn workshop_file_name_drops_the_query() {
    let registry = Registry::new();
    let (mut s, _) = begin(SourceSpec::Workshop(5), None, &registry);
    s.on_session(Ok(()));
    s.on_details(&Some(vec![9]));
    let answer =
        UgcDetails { eresult: 1, url: Some("https://cdn.steam.test/ugc/a.vpk?sig=1".to_string()) };
    match s.on_download_url(&Some(answer)) {
        Action::Download { dest, .. } => assert_eq!(dest, format!("{}/{}-a.vpk", TEMP, T1)),
        other => panic!("unexpected {:?}", other),
    }
    assert!(matches!(s.on_downloaded(true), Action::ReadMetadata { .. }));
    assert_eq!(s.phase(), Phase::ReadingMetadata);
}

#[test]
fn both_fields_rejected() {
    let request = InstallMapRequest {
        url: Some("https://x/a.zip".to_string()),
        workshop_id: Some(1),
        name: None,
    };
    let refusal = request.validate().unwrap_err();
    assert_eq!(refusal, RequestError::BothSources);
    assert_eq!(refusal.kind().status(), 400);
}

#[test]
fn ssrf_attempt_is_refused_before_any_download() {
    let registry = Registry::new();
    let (s, a) = begin(SourceSpec::Url("http://127.0.0.1:8080/m.zip".to_string()), None, &registry);
    let (result, placed, download, scratch) = finished(a);
    let refusal = result.unwrap_err();
    assert_eq!(refusal, InstallError::InvalidUrl(UrlError::Localhost));
    assert_eq!(refusal.kind().status(), 400);
    assert_eq!((placed, download, scratch), (None, None, None));
    assert_eq!(s.phase(), Phase::Done);
    assert_eq!(registry.len(), 0);
}

#[test]
fn test_install_from_url_rejects_invalid_url() {
    let registry = Registry::new();
    let (_, a) = begin(SourceSpec::Url("123456789".to_string()), None, &registry);
    let (result, _, _, _) = finished(a);
    assert_eq!(result.unwrap_err(), InstallError::InvalidUrl(UrlError::Malformed));
}

#[test]
fn zip_with_no_vpk() {
    let registry = Registry::new();
    let (mut s, _) = begin(SourceSpec::Url("https://example.test/nope.zip".to_string()), None, &registry);
    assert!(matches!(s.on_downloaded(true), Action::ListArchive { .. }));
    let (result, placed, download, scratch) =
        finished(s.on_archive_listed(&Some(vec!["readme.txt".to_string()])));
    assert_eq!(result.unwrap_err(), InstallError::NoPackageInArchive);
    assert_eq!(placed, None);
    assert_eq!(download, Some(format!("{}/{}-nope.zip", TEMP, T1)));
    assert_eq!(scratch, None);
    assert_eq!(registry.len(), 0);
}

#[test]
fn zip_whose_listing_lied_has_its_scratch_directory_removed() {
    let registry = Registry::new();
    let (mut s, _) = begin(SourceSpec::Url("https://example.test/a.ZIP".to_string()), None, &registry);
    s.on_downloaded(true);
    assert!(matches!(s.on_archive_listed(&Some(vec!["Maps/A.VPK".to_string()])), Action::Extract { .. }));
    s.on_extracted(true);
    let (result, placed, download, scratch) =
        finished(s.on_files_found(&Some(vec!["/x/readme.txt".to_string()])));
    assert_eq!(result.unwrap_err(), InstallError::NoPackageInArchive);
    assert_eq!(placed, None);
    assert!(download.is_some());
    assert_eq!(scratch, Some(format!("{}/extract-{}", TEMP, T2)));
}

#[test]
fn a_taken_display_name_ends_the_installation_before_any_download() {
    let mut registry = Registry::new();
    let mut e = MapEntry::new(0, "test_map".to_string(), "x".to_string(), "x.vpk".to_string(), at());
    e.id = 0;
    registry.add_map(e).unwrap();
    let (_, a) = begin(SourceSpec::Url("https://example.test/map.zip".to_string()), Some("Test Map"), &registry);
    let (result, placed, download, scratch) = finished(a);
    assert_eq!(result.unwrap_err(), InstallError::NameConflict);
    assert_eq!((placed, download, scratch), (None, None, None));
    assert_eq!(registry.len(), 1);
}

#[test]
fn a_taken_title_ends_the_installation_after_the_metadata() {
    let mut registry = Registry::new();
    registry
        .add_map(MapEntry::new(0, "example".to_string(), "x".to_string(), "x.vpk".to_string(), at()))
        .unwrap();
    let (mut s, _) = begin(SourceSpec::Url("https://example.test/pack.vpk".to_string()), None, &registry);
    assert!(matches!(s.on_downloaded(true), Action::ReadMetadata { .. }));
    let (result, placed, download, _) = finished(s.on_metadata(meta("Example", "1"), &registry));
    assert_eq!(result.unwrap_err(), InstallError::NameConflict);
    assert_eq!(placed, None);
    assert_eq!(download, Some(format!("{}/{}-pack.vpk", TEMP, T1)));
}

#[test]
fn a_refused_record_removes_the_placed_file() {
    let mut registry = Registry::new();
    let mut s = zip_install_up_to_placing(&registry, None);
    assert!(matches!(s.on_placed(true), Action::Hash { .. }));
    // Another installation takes the name in the meantime.
    registry
        .add_map(MapEntry::new(0, "example".to_string(), "x".to_string(), "x.vpk".to_string(), at()))
        .unwrap();
    let (result, placed, download, scratch) = finished(s.register(None, at(), &mut registry));
    assert_eq!(result.unwrap_err(), InstallError::Registry(RegistryError::NameConflict));
    assert_eq!(placed, Some(format!("{}/test_map.vpk", ADDONS)));
    assert!(download.is_some());
    assert!(scratch.is_some());
    assert_eq!(registry.len(), 1);
    assert_eq!(registry.next_id(), 2);
}

#[test]
fn a_failed_store_takes_the_record_back_and_removes_the_placed_file() {
    let mut registry = Registry::new();
    registry
        .add_map(MapEntry::new(0, "kept".to_string(), "x".to_string(), "kept.vpk".to_string(), at()))
        .unwrap();
    let mut s = zip_install_up_to_placing(&registry, None);
    s.on_placed(true);
    let pending = stored(s.register(None, at(), &mut registry));
    assert_eq!(pending.id, 2);
    assert_eq!(registry.len(), 2);
    let (result, placed, download, scratch) = finished(s.on_stored(false, &mut registry));
    let refusal = result.unwrap_err();
    assert_eq!(refusal, InstallError::StorageFailed);
    assert_eq!(refusal.kind(), ErrorKind::StorageError);
    assert_eq!(placed, Some(format!("{}/test_map.vpk", ADDONS)));
    assert!(download.is_some());
    assert!(scratch.is_some());
    // The registry is as it was before the insert.
    assert_eq!(registry.len(), 1);
    assert_eq!(registry.next_id(), 2);
    assert!(registry.get_map(2).is_none());
    assert_eq!(finished(s.on_stored(true, &mut registry)).0.unwrap_err(), InstallError::OutOfOrder);
}

#[test]
fn a_failed_copy_is_removed() {
    let registry = Registry::new();
    let mut s = zip_install_up_to_placing(&registry, None);
    let (result, placed, _, _) = finished(s.on_placed(false));
    assert_eq!(result.unwrap_err(), InstallError::PlacementFailed);
    assert_eq!(placed, Some(format!("{}/test_map.vpk", ADDONS)));
}

#[test]
fn every_failure_has_its_error() {
    let registry = Registry::new();
    let url = || SourceSpec::Url("https://example.test/map.zip".to_string());

    let (mut s, _) = begin(url(), None, &registry);
    assert_eq!(finished(s.on_downloaded(false)).0.unwrap_err(), InstallError::DownloadFailed);

    let (mut s, _) = begin(SourceSpec::Url("https://example.test/map.tar".to_string()), None, &registry);
    assert!(matches!(s.on_downloaded(true), Action::ReadMetadata { .. }));
    assert_eq!(s.phase(), Phase::Probing);
    assert_eq!(finished(s.on_metadata(None, &registry)).0.unwrap_err(), InstallError::UnsupportedType);
    assert_eq!(InstallError::UnsupportedType.kind(), ErrorKind::UnsupportedType);

    let (mut s, _) = begin(SourceSpec::Url("https://example.test/blob".to_string()), None, &registry);
    assert!(matches!(s.on_downloaded(true), Action::ReadMetadata { .. }));
    assert_eq!(finished(s.on_metadata(None, &registry)).0.unwrap_err(), InstallError::UnsupportedType);

    let (mut s, _) = begin(SourceSpec::Url("https://example.test/a.vpk".to_string()), None, &registry);
    s.on_downloaded(true);
    assert_eq!(finished(s.on_metadata(None, &registry)).0.unwrap_err(), InstallError::MetadataUnreadable);

    let (mut s, _) = begin(SourceSpec::Url("https://example.test/a.vpk".to_string()), None, &registry);
    s.on_downloaded(true);
    assert_eq!(
        finished(s.on_metadata(meta("???", "1"), &registry)).0.unwrap_err(),
        InstallError::InvalidName(NameError::Empty)
    );

    let (mut s, _) = begin(url(), None, &registry);
    s.on_downloaded(true);
    assert_eq!(finished(s.on_archive_listed(&None)).0.unwrap_err(), InstallError::NoPackageInArchive);

    let (mut s, _) = begin(url(), None, &registry);
    s.on_downloaded(true);
    s.on_archive_listed(&Some(vec!["a.vpk".to_string()]));
    assert_eq!(finished(s.on_extracted(false)).0.unwrap_err(), InstallError::ExtractionFailed);

    let (mut s, _) = begin(url(), None, &registry);
    s.on_downloaded(true);
    s.on_archive_listed(&Some(vec!["a.vpk".to_string()]));
    s.on_extracted(true);
    assert_eq!(finished(s.on_files_found(&None)).0.unwrap_err(), InstallError::ExtractionFailed);

    let (mut s, _) = begin(SourceSpec::Workshop(7), None, &registry);
    assert_eq!(
        finished(s.on_session(Err(SteamError::Connection))).0.unwrap_err(),
        InstallError::Steam(SteamError::Connection)
    );

    let (mut s, _) = begin(SourceSpec::Workshop(7), None, &registry);
    s.on_session(Ok(()));
    assert_eq!(
        finished(s.on_details(&Some(vec![]))).0.unwrap_err(),
        InstallError::Steam(SteamError::WorkshopIdNotFound(7))
    );

    let (mut s, _) = begin(SourceSpec::Workshop(7), None, &registry);
    s.on_session(Ok(()));
    s.on_details(&Some(vec![3]));
    assert_eq!(
        finished(s.on_download_url(&Some(UgcDetails { eresult: 2, url: None }))).0.unwrap_err(),
        InstallError::Steam(SteamError::DownloadUrlFailed(2))
    );
}

#[test]
fn reports_out_of_order_end_the_installation() {
    let mut registry = Registry::new();
    let (mut s, _) = begin(SourceSpec::Url("https://example.test/map.zip".to_string()), None, &registry);
    assert_eq!(finished(s.on_placed(true)).0.unwrap_err(), InstallError::OutOfOrder);
    assert_eq!(s.phase(), Phase::Done);
    assert_eq!(finished(s.on_hashed(None, &mut registry)).0.unwrap_err(), InstallError::OutOfOrder);
    assert_eq!(finished(s.on_downloaded(true)).0.unwrap_err(), InstallError::OutOfOrder);
    let (mut s, _) = begin(SourceSpec::Url("https://example.test/map.zip".to_string()), None, &registry);
    assert_eq!(finished(s.on_session(Ok(()))).0.unwrap_err(), InstallError::OutOfOrder);
    assert_eq!(registry.len(), 0);
}

#[test]
fn begin_uses_fresh_tokens() {
    let registry = Registry::new();
    let start = || {
        Install::begin(
            SourceSpec::Url("https://example.test/map.zip".to_string()),
            None,
            ADDONS.to_string(),
            TEMP.to_string(),
            &registry,
        )
    };
    let dest = |a: Action| match a {
        Action::Download { dest, .. } => dest,
        other => panic!("unexpected {:?}", other),
    };
    let (_, a) = start();
    let (_, b) = start();
    let (a, b) = (dest(a), dest(b));
    assert_ne!(a, b);
    let name = a.strip_prefix("/tmp/kether-downloads/").unwrap().strip_suffix("-map.zip").unwrap();
    assert_eq!(name.len(), 36);
    assert!(name.chars().all(|c| c == '-' || c.is_ascii_digit() || ('a'..='f').contains(&c)));
}

#[test]
fn installed_file_names_are_sanitized() {
    let registry = Registry::new();
    let (mut s, _) = begin(SourceSpec::Url("https://example.test/map.zip".to_string()), None, &registry);
    s.on_downloaded(true);
    s.on_archive_listed(&Some(vec!["a.vpk".to_string()]));
    s.on_extracted(true);
    s.on_files_found(&Some(vec!["/tmp/x/sub dir/My <Cool> Map!.VPK".to_string()]));
    match s.on_metadata(meta("T", "1"), &registry) {
        Action::Place { to, .. } => assert_eq!(to, format!("{}/My Cool Map.VPK.vpk", ADDONS)),
        other => panic!("unexpected {:?}", other),
    }
}

#[test]
fn a_stray_report_after_success_does_not_touch_the_installed_file() {
    let mut registry = Registry::new();
    let mut s = zip_install_up_to_placing(&registry, None);
    s.on_placed(true);
    stored(s.register(None, at(), &mut registry));
    let (result, placed, _, _) = finished(s.on_stored(true, &mut registry));
    assert!(result.is_ok());
    assert_eq!(placed, None);
    for stray in [s.on_placed(false), s.on_downloaded(false), s.on_stored(false, &mut registry)] {
        let (result, placed, download, scratch) = finished(stray);
        assert_eq!(result.unwrap_err(), InstallError::OutOfOrder);
        assert_eq!((placed, download, scratch), (None, None, None));
    }
    assert_eq!(s.phase(), Phase::Done);
    assert_eq!(registry.len(), 1);
}

#[test]
fn a_failed_installation_asks_for_its_removals_once() {
    let registry = Registry::new();
    let mut s = zip_install_up_to_placing(&registry, None);
    let (_, placed, download, scratch) = finished(s.on_placed(false));
    assert!(placed.is_some() && download.is_some() && scratch.is_some());
    let (result, placed, download, scratch) = finished(s.on_placed(false));
    assert_eq!(result.unwrap_err(), InstallError::OutOfOrder);
    assert_eq!((placed, download, scratch), (None, None, None));
}
