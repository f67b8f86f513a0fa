use kether_daemon::api::{
    parse_map_id, status_for, ApiResponse, InstallMapRequest, RequestError, SourceSpec,
};
use kether_daemon::archive::{
    path_is_package, same_ignoring_ascii_case, select_vpk, to_ascii_lower, EntryPlan, ZipExtractor,
};
use kether_daemon::checksum::{checksum_kind, checksum_of_blocks, FileHasher, HASH_BLOCK_SIZE};
use kether_daemon::config::{Config, ConfigError, Overrides};
use kether_daemon::error::ErrorKind;
use kether_daemon::models::{MapEntry, SourceKind, Timestamp};
use kether_daemon::rows::{
    entries_from_rows, entry_from_row, parse_source_kind, row_from_entry, source_kind_text, MapRow,
    RowError,
};
use kether_daemon::text::{parse_u64, prefixed, push_decimal};

#[test]
fn md5_of_known_texts() {
    let mut h = FileHasher::new();
    assert_eq!(h.finish(), "d41d8cd98f00b204e9800998ecf8427e");
    h = FileHasher::new();
    h.update(b"abc");
    assert_eq!(h.finish(), "900150983cd24fb0d6963f7d28e17f72");
    assert_eq!(checksum_kind(), "md5");
    assert_eq!(HASH_BLOCK_SIZE, 8192);
}

#[test]
fn md5_does_not_depend_on_the_blocks() {
    let mut a = FileHasher::new();
    a.update(b"The quick brown fox ");
    a.update(b"");
    a.update(b"jumps over the lazy dog");
    let mut b = FileHasher::new();
    b.update(b"The quick brown fox jumps over the lazy dog");
    let whole = b.finish();
    assert_eq!(a.finish(), whole);
    assert_eq!(whole, "9e107d9d372bb6826bd81d3542a419d6");
    let blocks = vec![b"The quick brown ".to_vec(), b"fox jumps over the lazy dog".to_vec()];
    assert_eq!(checksum_of_blocks(&blocks), whole);
    assert_eq!(checksum_of_blocks(&vec![]), "d41d8cd98f00b204e9800998ecf8427e");
}

fn row() -> MapRow {
    MapRow {
        id: 3,
        name: "test_map".to_string(),
        source_url: "workshop:123456789".to_string(),
        source_kind: Some("workshop".to_string()),
        workshop_id: Some(123456789),
        installed_path: "test_map.vpk".to_string(),
        installed_at: "2024-01-01T00:00:00Z".to_string(),
        version: Some("1.0.0".to_string()),
        checksum: Some("abc123def456".to_string()),
        checksum_kind: Some("md5".to_string()),
    }
}

#[test]
fn a_row_gives_its_record() {
    let e = entry_from_row(&row()).unwrap();
    assert_eq!(e.id, 3);
    assert_eq!(e.name, "test_map");
    assert_eq!(e.source_url, "workshop:123456789");
    assert_eq!(e.source_kind, SourceKind::Workshop);
    assert_eq!(e.workshop_id, Some(123456789));
    assert_eq!(e.installed_path, "test_map.vpk");
    assert_eq!(e.installed_at, Timestamp { secs: 1_704_067_200, nanos: 0 });
    assert_eq!(e.version, Some("1.0.0".to_string()));
    assert_eq!(e.checksum, Some("abc123def456".to_string()));
    assert_eq!(e.checksum_kind, Some("md5".to_string()));
}

#[test]
fn unknown_kinds_become_other_and_lose_the_workshop_id() {
    let mut r = row();
    r.source_kind = Some("mirror".to_string());
    let e = entry_from_row(&r).unwrap();
    assert_eq!(e.source_kind, SourceKind::Other);
    assert_eq!(e.workshop_id, None);
    r.source_kind = None;
    let e = entry_from_row(&r).unwrap();
    assert_eq!(e.source_kind, SourceKind::Other);
    assert_eq!(e.workshop_id, None);
    assert_eq!(parse_source_kind(&Some("mirror".to_string())), (SourceKind::Other, true));
    assert_eq!(parse_source_kind(&Some("other".to_string())), (SourceKind::Other, false));
    assert_eq!(parse_source_kind(&Some("workshop".to_string())), (SourceKind::Workshop, false));
    assert_eq!(parse_source_kind(&Some("Workshop".to_string())), (SourceKind::Other, true));
    assert_eq!(parse_source_kind(&None), (SourceKind::Other, false));
    assert_eq!(source_kind_text(SourceKind::Workshop), "workshop");
    assert_eq!(source_kind_text(SourceKind::Other), "other");
}

#[test]
fn bad_rows_give_no_record() {
    let mut r = row();
    r.installed_at = "yesterday".to_string();
    assert_eq!(entry_from_row(&r).unwrap_err(), RowError::BadTimestamp);
    let mut r = row();
    r.id = -1;
    assert_eq!(entry_from_row(&r).unwrap_err(), RowError::BadId);
    let mut bad = row();
    bad.installed_at = String::new();
    let mut second = row();
    second.id = 9;
    let entries = entries_from_rows(&vec![row(), bad, second]);
    let ids: Vec<u64> = entries.iter().map(|e| e.id).collect();
    assert_eq!(ids, vec![3, 9]);
}

#[test]
fn timestamps_are_moved_to_utc() {
    let mut r = row();
    r.installed_at = "2024-01-01T02:00:00.5+02:00".to_string();
    let e = entry_from_row(&r).unwrap();
    assert_eq!(e.installed_at, Timestamp { secs: 1_704_067_200, nanos: 500_000_000 });
    r.installed_at = "2024-01-01 00:00:00".to_string();
    assert_eq!(entry_from_row(&r).unwrap_err(), RowError::BadTimestamp);
}

#[test]
fn a_record_survives_its_row() {
    let record = MapEntry {
        id: 12,
        name: "round_trip".to_string(),
        source_url: "zip:x-map.zip".to_string(),
        source_kind: SourceKind::Other,
        workshop_id: Some(5),
        installed_path: "round_trip.vpk".to_string(),
        installed_at: Timestamp { secs: 1_700_000_000, nanos: 123_456_789 },
        version: None,
        checksum: Some("00ff".to_string()),
        checksum_kind: Some("md5".to_string()),
    };
    let stored = row_from_entry(&record).unwrap();
    assert_eq!(stored.id, 12);
    assert_eq!(stored.source_kind, Some("other".to_string()));
    assert_eq!(stored.workshop_id, None);
    assert_eq!(stored.installed_at, "2023-11-14T22:13:20.123456789+00:00");
    let back = entry_from_row(&stored).unwrap();
    assert_eq!(back.id, record.id);
    assert_eq!(back.name, record.name);
    assert_eq!(back.source_url, record.source_url);
    assert_eq!(back.source_kind, record.source_kind);
    assert_eq!(back.workshop_id, None);
    assert_eq!(back.installed_path, record.installed_path);
    assert_eq!(back.installed_at, record.installed_at);
    assert_eq!(back.version, record.version);
    assert_eq!(back.checksum, record.checksum);
    assert_eq!(back.checksum_kind, record.checksum_kind);
}

#[test]
fn records_that_do_not_fit_a_row() {
    let mut e = MapEntry::new(
        u64::MAX,
        "n".to_string(),
        "u".to_string(),
        "p.vpk".to_string(),
        Timestamp { secs: 0, nanos: 0 },
    );
    assert!(row_from_entry(&e).is_none());
    e.id = 1;
    assert_eq!(row_from_entry(&e).unwrap().installed_at, "1970-01-01T00:00:00+00:00");
    e.installed_at = Timestamp { secs: i64::MAX, nanos: 0 };
    assert!(row_from_entry(&e).is_none());
}

#[test]
fn large_workshop_ids_keep_their_bits() {
    let mut e = MapEntry::new(1, "n".to_string(), "u".to_string(), "p.vpk".to_string(), Timestamp { secs: 0, nanos: 0 });
    e.source_kind = SourceKind::Workshop;
    e.workshop_id = Some(u64::MAX - 1);
    let stored = row_from_entry(&e).unwrap();
    assert_eq!(stored.workshop_id, Some(-2));
    assert_eq!(entry_from_row(&stored).unwrap().workshop_id, Some(u64::MAX - 1));
}

#[test]
fn request_shapes() {
    let req = |url: Option<&str>, workshop_id: Option<u64>, name: Option<String>| InstallMapRequest {
        url: url.map(|u| u.to_string()),
        workshop_id,
        name,
    };
    assert!(matches!(req(Some("https://x/a.zip"), None, None).validate(), Ok(SourceSpec::Url(u)) if u == "https://x/a.zip"));
    assert!(matches!(req(None, Some(9), None).validate(), Ok(SourceSpec::Workshop(9))));
    assert_eq!(req(Some("https://x/a.zip"), Some(1), None).validate().unwrap_err(), RequestError::BothSources);
    assert_eq!(req(None, None, Some("n".to_string())).validate().unwrap_err(), RequestError::NoSource);
    let long_url = format!("https://x/{}", "a".repeat(2048));
    assert_eq!(req(Some(&long_url), None, None).validate().unwrap_err(), RequestError::UrlTooLong);
    let url_2048 = format!("https://x/{}", "a".repeat(2038));
    assert!(req(Some(&url_2048), None, None).validate().is_ok());
    assert_eq!(req(Some("https://x/a.zip"), None, Some("n".repeat(256))).validate().unwrap_err(), RequestError::NameTooLong);
    assert_eq!(req(None, Some(1), Some("n".repeat(256))).validate().unwrap_err(), RequestError::NameTooLong);
    assert!(req(None, Some(1), Some("n".repeat(255))).validate().is_ok());
    assert_eq!(req(Some(&long_url), Some(1), Some("n".repeat(256))).validate().unwrap_err(), RequestError::BothSources);
}

#[test]
fn answers() {
    let ok = ApiResponse::success(7u64);
    assert!(ok.success);
    assert_eq!(ok.data, Some(7));
    assert_eq!(ok.error, None);
    let failed = ApiResponse::<u64>::error("boom".to_string());
    assert!(!failed.success);
    assert_eq!(failed.data, None);
    assert_eq!(failed.error, Some("boom".to_string()));
    assert_eq!(status_for(&Ok(())), 200);
    assert_eq!(status_for(&Err(ErrorKind::InvalidInput)), 400);
    assert_eq!(status_for(&Err(ErrorKind::NotFound)), 404);
    assert_eq!(status_for(&Err(ErrorKind::StorageError)), 500);
    assert_eq!(status_for(&Err(ErrorKind::ContainmentViolation)), 500);
}

#[test]
fn map_ids_are_decimal_numbers() {
    assert_eq!(parse_map_id("42"), Ok(42));
    assert_eq!(parse_map_id("+42"), Ok(42));
    assert_eq!(parse_map_id("0042"), Ok(42));
    assert_eq!(parse_map_id("18446744073709551615"), Ok(u64::MAX));
    assert_eq!(parse_map_id("18446744073709551616"), Err(400));
    assert_eq!(parse_map_id("99999999999999999999999"), Err(400));
    assert_eq!(parse_map_id(""), Err(400));
    assert_eq!(parse_map_id("+"), Err(400));
    assert_eq!(parse_map_id("-1"), Err(400));
    assert_eq!(parse_map_id("4 2"), Err(400));
    assert_eq!(parse_map_id("test-id"), Err(400));
    assert_eq!(parse_u64("7"), Some(7));
    assert_eq!(parse_u64("٧"), None);
}

#[test]
fn decimal_writing() {
    let mut out = vec!['#'];
    push_decimal(0, &mut out);
    push_decimal(1234567890, &mut out);
    push_decimal(u64::MAX, &mut out);
    assert_eq!(out.into_iter().collect::<String>(), "#0123456789018446744073709551615");
    assert_eq!(prefixed("zip:", "a.zip"), "zip:a.zip");
}

#[test]
fn archives_with_a_package() {
    let z = ZipExtractor::new();
    let names = |v: &[&str]| v.iter().map(|s| s.to_string()).collect::<Vec<_>>();
    assert!(z.zip_contains_vpk(&names(&["readme.txt", "maps/a.VPK"])));
    assert!(z.zip_contains_vpk(&names(&["test_map.vpk"])));
    assert!(!z.zip_contains_vpk(&names(&["readme.txt"])));
    assert!(!z.zip_contains_vpk(&names(&["a.vpk/"])));
    assert!(!z.zip_contains_vpk(&names(&[])));
    assert!(z.zip_contains_vpk(&names(&[".vpk"])));
}

#[test]
fn entries_are_planned_below_the_destination() {
    let z = ZipExtractor::new();
    let plan = |name: &str, enclosed: Option<&str>| z.plan_entry(name, &enclosed.map(|e| e.to_string()), "/tmp/x");
    assert!(matches!(plan("maps/a.bsp", Some("maps/a.bsp")), EntryPlan::WriteFile(p) if p == "/tmp/x/maps/a.bsp"));
    assert!(matches!(plan("maps/", Some("maps")), EntryPlan::CreateDir(p) if p == "/tmp/x/maps"));
    assert!(matches!(plan("../evil", None), EntryPlan::Skip));
    assert!(matches!(plan("../evil", Some("../evil")), EntryPlan::Skip));
    assert!(matches!(plan("/etc/passwd", Some("/etc/passwd")), EntryPlan::Skip));
    assert!(matches!(plan("a/../../b", Some("a/../../b")), EntryPlan::Skip));
    assert!(matches!(plan("a..b", Some("a..b")), EntryPlan::WriteFile(p) if p == "/tmp/x/a..b"));
}

#[test]
fn the_first_package_is_selected() {
    let files = |v: &[&str]| v.iter().map(|s| s.to_string()).collect::<Vec<_>>();
    assert_eq!(select_vpk(&files(&["/x/readme.txt", "/x/b.vpk", "/x/a.vpk"])), Some(1));
    assert_eq!(select_vpk(&files(&["/x/B.VpK"])), Some(0));
    assert_eq!(select_vpk(&files(&["/x/readme.txt", "/x/vpk", "/x/.vpk"])), None);
    assert_eq!(select_vpk(&files(&[])), None);
    assert!(path_is_package("/x/a.b.vpk"));
    assert!(!path_is_package("/x/a.vpk/.."));
    assert!(!path_is_package("/x/a.vpk/b"));
    assert!(path_is_package("a.vpk/"));
    assert_eq!(to_ascii_lower('Q'), 'q');
    assert_eq!(to_ascii_lower('q'), 'q');
    assert_eq!(to_ascii_lower('É'), 'É');
    assert!(same_ignoring_ascii_case(&vec!['V', 'p', 'K'], &vec!['v', 'P', 'k']));
    assert!(!same_ignoring_ascii_case(&vec!['v'], &vec!['v', 'p']));
}

#[test]
fn test_default_config() {
    let config = Config::default();
    assert_eq!(config.l4d2_server_dir, "/opt/l4d2/server");
    assert_eq!(config.registry_db_path, "registry.db");
    assert_eq!(config.backend_api_url, "http://localhost:3000/api");
    assert_eq!(config.backend_api_key, None);
    assert_eq!(config.local_api_bind, "127.0.0.1:8080");
    assert_eq!(config.sync_interval_secs, 300);
    assert_eq!(config.log_level, "info");
}

#[test]
fn test_addons_dir() {
    let config = Config::default();
    let addons = config.addons_dir();
    assert_eq!(addons, "/opt/l4d2/server/left4dead2/addons");
}

#[test]
fn the_environment_replaces_values_from_the_file() {
    let none = || Overrides {
        l4d2_server_dir: None,
        registry_db_path: None,
        backend_api_url: None,
        backend_api_key: None,
        local_api_bind: None,
        sync_interval_secs: None,
        log_level: None,
    };
    let c = Config::default().with_overrides(&none()).unwrap();
    assert_eq!(c.l4d2_server_dir, "/opt/l4d2/server");
    assert_eq!(c.sync_interval_secs, 300);
    let mut env = none();
    env.l4d2_server_dir = Some("/env/server/path".to_string());
    env.registry_db_path = Some("/env/registry.db".to_string());
    env.backend_api_url = Some("http://env-api.example.com".to_string());
    env.backend_api_key = Some("env-key-456".to_string());
    env.local_api_bind = Some("192.168.1.1:9090".to_string());
    env.sync_interval_secs = Some("120".to_string());
    env.log_level = Some("trace".to_string());
    let c = Config::default().with_overrides(&env).unwrap();
    assert_eq!(c.l4d2_server_dir, "/env/server/path");
    assert_eq!(c.registry_db_path, "/env/registry.db");
    assert_eq!(c.backend_api_url, "http://env-api.example.com");
    assert_eq!(c.backend_api_key, Some("env-key-456".to_string()));
    assert_eq!(c.local_api_bind, "192.168.1.1:9090");
    assert_eq!(c.sync_interval_secs, 120);
    assert_eq!(c.log_level, "trace");
    assert_eq!(c.addons_dir(), "/env/server/path/left4dead2/addons");
    let mut env = none();
    env.sync_interval_secs = Some("soon".to_string());
    assert_eq!(Config::default().with_overrides(&env).unwrap_err(), ConfigError::BadInterval);
    let mut file = Config::default();
    file.backend_api_key = Some("file-key".to_string());
    assert_eq!(file.with_overrides(&none()).unwrap().backend_api_key, Some("file-key".to_string()));
}
