use kether_daemon::download::{
    after_attempt, backoff_secs, classify_extension, detect_file_kind, direct_filename,
    extract_directory_name, file_extension, first_fetch_step, scratch_file_name,
    user_agent, workshop_filename, FetchStep, FileKind, ATTEMPT_TIMEOUT_SECS, MAX_ATTEMPTS,
};

#[test]
fn a_download_gets_three_attempts_with_pauses_of_two_and_four_seconds() {
    assert_eq!(first_fetch_step(), FetchStep::Attempt(1));
    assert_eq!(after_attempt(1, false), FetchStep::SleepThenAttempt { secs: 2, attempt: 2 });
    assert_eq!(after_attempt(2, false), FetchStep::SleepThenAttempt { secs: 4, attempt: 3 });
    assert_eq!(after_attempt(3, false), FetchStep::GaveUp);
    assert_eq!(after_attempt(4, false), FetchStep::GaveUp);
    assert_eq!(MAX_ATTEMPTS, 3);
    assert_eq!(ATTEMPT_TIMEOUT_SECS, 300);
}

#[test]
fn success_ends_the_download_at_any_attempt() {
    for attempt in 1..=3 {
        assert_eq!(after_attempt(attempt, true), FetchStep::Succeeded);
    }
}

#[test]
fn backoff_doubles() {
    assert_eq!(backoff_secs(0), 1);
    assert_eq!(backoff_secs(1), 2);
    assert_eq!(backoff_secs(2), 4);
    assert_eq!(backoff_secs(10), 1024);
    assert_eq!(backoff_secs(63), 1u64 << 63);
}

#[test]
fn the_user_agent_is_fixed() {
    assert_eq!(user_agent(), "KetherServerDaemon/0.0.1");
}

#[test]
fn workshop_file_names() {
    assert_eq!(workshop_filename("https://cdn.test/ugc/1/map.vpk?sig=ab"), "map.vpk");
    assert_eq!(workshop_filename("https://cdn.test/ugc/1/map.vpk"), "map.vpk");
    assert_eq!(workshop_filename("https://cdn.test/ugc/1/?sig=ab"), "workshop_download");
    assert_eq!(workshop_filename("https://cdn.test/ugc/1/"), "workshop_download");
    assert_eq!(workshop_filename(""), "workshop_download");
    assert_eq!(workshop_filename("https://cdn.test/a.zip?x=/y/z.vpk"), "a.zip");
    assert_eq!(workshop_filename("plain"), "plain");
}

#[test]
fn direct_file_names() {
    assert_eq!(direct_filename("https://example.com/maps/custom/test_map.zip"), "test_map.zip");
    assert_eq!(direct_filename("https://example.com/download"), "download");
    assert_eq!(direct_filename("https://example.com/download?file=map.zip"), "download?file=map.zip");
    assert_eq!(direct_filename("https://example.com/"), "");
    assert_eq!(direct_filename("no-slash"), "no-slash");
}

#[test]
fn scratch_names() {
    assert_eq!(scratch_file_name("tok", "a.zip"), "tok-a.zip");
    assert_eq!(scratch_file_name("tok", ""), "tok-");
    assert_eq!(extract_directory_name("tok"), "extract-tok");
}

#[test]
fn extensions() {
    assert_eq!(file_extension("a.zip"), Some("zip".to_string()));
    assert_eq!(file_extension("a.tar.gz"), Some("gz".to_string()));
    assert_eq!(file_extension("a"), None);
    assert_eq!(file_extension(".hidden"), None);
    assert_eq!(file_extension(".hidden.vpk"), Some("vpk".to_string()));
    assert_eq!(file_extension("a."), Some(String::new()));
    assert_eq!(file_extension(""), None);
}

#[test]
fn file_kinds() {
    assert_eq!(detect_file_kind("x-map.vpk"), FileKind::Vpk);
    assert_eq!(detect_file_kind("x-map.VPK"), FileKind::Vpk);
    assert_eq!(detect_file_kind("x-map.Zip"), FileKind::Zip);
    assert_eq!(detect_file_kind("x-download"), FileKind::Unknown);
    assert_eq!(detect_file_kind("x-download."), FileKind::Unknown);
    assert_eq!(detect_file_kind("x-map.rar"), FileKind::Unknown);
    assert_eq!(detect_file_kind("x-map.vpk.bak"), FileKind::Unknown);
    assert_eq!(classify_extension(&None), FileKind::Unknown);
    assert_eq!(classify_extension(&Some("VPK".to_string())), FileKind::Unknown);
    assert_eq!(classify_extension(&Some("vpk".to_string())), FileKind::Vpk);
}
