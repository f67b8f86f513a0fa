use kether_daemon::error::{ErrorKind, SteamError};
use kether_daemon::steam::{
    details_request, download_url_from_ugc, hcontent_from_details, session_step, SessionAction,
    SessionEvent, SessionState, UgcDetails, WORKSHOP_APP_ID,
};

#[test]
fn the_details_request_names_one_item_of_the_game() {
    let r = details_request(123456789);
    assert_eq!(r.publishedfileids, vec![123456789]);
    assert_eq!(r.appid, 550);
    assert_eq!(WORKSHOP_APP_ID, 550);
}

#[test]
fn content_handle_outcomes() {
    assert_eq!(hcontent_from_details(5, &Some(vec![77, 88])), Ok(77));
    assert_eq!(hcontent_from_details(5, &Some(vec![])), Err(SteamError::WorkshopIdNotFound(5)));
    assert_eq!(hcontent_from_details(5, &Some(vec![0, 88])), Err(SteamError::WorkshopIdNotFound(5)));
    assert_eq!(hcontent_from_details(5, &None), Err(SteamError::Network));
}

#[test]
fn download_url_outcomes() {
    let ok = UgcDetails { eresult: 1, url: Some("https://cdn.test/x".to_string()) };
    assert_eq!(download_url_from_ugc(&Some(ok)), Ok("https://cdn.test/x".to_string()));
    let refused = UgcDetails { eresult: 15, url: Some("https://cdn.test/x".to_string()) };
    assert_eq!(download_url_from_ugc(&Some(refused)), Err(SteamError::DownloadUrlFailed(15)));
    let zero = UgcDetails { eresult: 0, url: None };
    assert_eq!(download_url_from_ugc(&Some(zero)), Err(SteamError::DownloadUrlFailed(0)));
    let empty = UgcDetails { eresult: 1, url: Some(String::new()) };
    assert_eq!(download_url_from_ugc(&Some(empty)), Err(SteamError::NoDownloadUrl));
    let missing = UgcDetails { eresult: 1, url: None };
    assert_eq!(download_url_from_ugc(&Some(missing)), Err(SteamError::NoDownloadUrl));
    assert_eq!(download_url_from_ugc(&None), Err(SteamError::Network));
}

#[test]
fn the_session_is_opened_once_and_reused() {
    let (s, a) = session_step(SessionState::NotStarted, SessionEvent::Wanted);
    assert_eq!((s, a), (SessionState::Discovering, SessionAction::Discover));
    let (s, a) = session_step(s, SessionEvent::Discovered(true));
    assert_eq!((s, a), (SessionState::Connecting, SessionAction::Connect));
    let (s, a) = session_step(s, SessionEvent::Connected(true));
    assert_eq!((s, a), (SessionState::Ready, SessionAction::Use));
    for _ in 0..3 {
        assert_eq!(session_step(s, SessionEvent::Wanted), (SessionState::Ready, SessionAction::Use));
    }
}

#[test]
fn a_failed_session_is_final() {
    let (s, a) = session_step(SessionState::Discovering, SessionEvent::Discovered(false));
    assert_eq!(s, SessionState::Failed(SteamError::ServerDiscovery));
    assert_eq!(a, SessionAction::Report(SteamError::ServerDiscovery));
    let (s, a) = session_step(s, SessionEvent::Wanted);
    assert_eq!(s, SessionState::Failed(SteamError::ServerDiscovery));
    assert_eq!(a, SessionAction::Report(SteamError::ServerDiscovery));
    let (s, a) = session_step(SessionState::Connecting, SessionEvent::Connected(false));
    assert_eq!(s, SessionState::Failed(SteamError::Connection));
    assert_eq!(a, SessionAction::Report(SteamError::Connection));
    assert_eq!(
        session_step(s, SessionEvent::Connected(true)),
        (SessionState::Failed(SteamError::Connection), SessionAction::Ignore)
    );
}

#[test]
fn stray_session_events_are_ignored() {
    assert_eq!(
        session_step(SessionState::NotStarted, SessionEvent::Connected(true)),
        (SessionState::NotStarted, SessionAction::Ignore)
    );
    assert_eq!(
        session_step(SessionState::Discovering, SessionEvent::Wanted),
        (SessionState::Discovering, SessionAction::Ignore)
    );
    assert_eq!(
        session_step(SessionState::Ready, SessionEvent::Discovered(false)),
        (SessionState::Ready, SessionAction::Ignore)
    );
}

#[test]
fn steam_failures_fall_under_the_reported_kinds() {
    assert_eq!(ErrorKind::of_steam(SteamError::WorkshopIdNotFound(3)), ErrorKind::NotFound);
    assert_eq!(ErrorKind::of_steam(SteamError::Network), ErrorKind::Network);
    assert_eq!(ErrorKind::of_steam(SteamError::Connection), ErrorKind::Network);
    assert_eq!(ErrorKind::of_steam(SteamError::ServerDiscovery), ErrorKind::Network);
    assert_eq!(ErrorKind::of_steam(SteamError::DownloadUrlFailed(9)), ErrorKind::DownloadUrlFailed(9));
    assert_eq!(ErrorKind::of_steam(SteamError::NoDownloadUrl), ErrorKind::NoDownloadUrl);
    assert_eq!(ErrorKind::NotFound.status(), 404);
    assert_eq!(ErrorKind::InvalidInput.status(), 400);
    assert_eq!(ErrorKind::Network.status(), 500);
    assert_eq!(ErrorKind::NameConflict.status(), 500);
}
