//! The Steam Workshop exchange: what is asked, what each answer means, and
//! the life of the one session that a process keeps.

use crate::error::SteamError;
use crate::text::chars_of;
use vstd::prelude::*;

verus! {

/// The application that Workshop items are asked for.
pub const WORKSHOP_APP_ID: u32 = 550;

/// The Steam result code for success.
pub const ERESULT_OK: i32 = 1;

/// The request for the details of published files.
pub struct DetailsRequest {
    pub publishedfileids: Vec<u64>,
    pub appid: u32,
}

/// What the answer to the second call carries.
pub struct UgcDetails {
    /// The Steam result code.
    pub eresult: i32,
    /// The download URL, if the answer has one.
    pub url: Option<String>,
}

/// The request for the details of one Workshop item.
pub fn details_request(workshop_id: u64) -> (r: DetailsRequest)
    ensures
        r.publishedfileids@ == seq![workshop_id],
        r.appid == WORKSHOP_APP_ID,
{
    let mut ids: Vec<u64> = Vec::new();
    ids.push(workshop_id);
    DetailsRequest { publishedfileids: ids, appid: WORKSHOP_APP_ID }
}

/// The content handle that an answer to the details request gives.
/// `handles` holds the content handle of each file in the answer, in order;
/// `None` stands for a call that failed in transit.
pub open spec fn handle_outcome(workshop_id: u64, handles: Option<Seq<u64>>) -> Result<
    u64,
    SteamError,
> {
    match handles {
        None => Err(SteamError::Network),
        Some(h) => if h.len() == 0 || h[0] == 0 {
            Err(SteamError::WorkshopIdNotFound(workshop_id))
        } else {
            Ok(h[0])
        },
    }
}

/// The download URL that an answer to the second call gives; `None` stands
/// for a call that failed in transit.
pub open spec fn url_outcome(eresult: i32, url: Option<Seq<char>>) -> Result<
    Seq<char>,
    SteamError,
> {
    if eresult != ERESULT_OK {
        Err(SteamError::DownloadUrlFailed(eresult))
    } else {
        match url {
            Some(u) => if u.len() == 0 {
                Err(SteamError::NoDownloadUrl)
            } else {
                Ok(u)
            },
            None => Err(SteamError::NoDownloadUrl),
        }
    }
}

/// Reads the content handle out of the answer to the details request: an
/// answer without files, or with a zero handle, means that the item is not
/// known.
pub fn hcontent_from_details(workshop_id: u64, handles: &Option<Vec<u64>>) -> (r: Result<
    u64,
    SteamError,
>)
    ensures
        r == handle_outcome(
            workshop_id,
            match *handles {
                Some(h) => Some(h@),
                None => None,
            },
        ),
{
    match handles {
        None => Err(SteamError::Network),
        Some(h) => {
            if h.len() == 0 {
                Err(SteamError::WorkshopIdNotFound(workshop_id))
            } else if h[0] == 0 {
                Err(SteamError::WorkshopIdNotFound(workshop_id))
            } else {
                Ok(h[0])
            }
        },
    }
}

/// Reads the download URL out of the answer to the second call: a result
/// code other than 1 is a refusal, a missing or empty URL is no URL.
pub fn download_url_from_ugc(answer: &Option<UgcDetails>) -> (r: Result<String, SteamError>)
    ensures
        match *answer {
            None => r == Err::<String, SteamError>(SteamError::Network),
            Some(a) => match r {
                Ok(u) => url_outcome(a.eresult, crate::models::opt_view(a.url)) == Ok::<
                    Seq<char>,
                    SteamError,
                >(u@),
                Err(e) => url_outcome(a.eresult, crate::models::opt_view(a.url)) == Err::<
                    Seq<char>,
                    SteamError,
                >(e),
            },
        },
{
    match answer {
        None => Err(SteamError::Network),
        Some(a) => {
            if a.eresult != ERESULT_OK {
                return Err(SteamError::DownloadUrlFailed(a.eresult));
            }
            match &a.url {
                None => Err(SteamError::NoDownloadUrl),
                Some(u) => {
                    if chars_of(u.as_str()).len() == 0 {
                        Err(SteamError::NoDownloadUrl)
                    } else {
                        Ok(u.clone())
                    }
                },
            }
        },
    }
}

/// The life of the Steam session of a process.
#[derive(Clone, Copy, Debug, PartialEq, Eq, Structural)]
pub enum SessionState {
    /// Nobody has asked for a session yet.
    NotStarted,
    /// The servers are being discovered.
    Discovering,
    /// The anonymous session is being opened.
    Connecting,
    /// The session is open and is reused by every caller.
    Ready,
    /// The session could not be opened; this is final for the process.
    Failed(SteamError),
}

/// What happened to the session.
#[derive(Clone, Copy, Debug, PartialEq, Eq, Structural)]
pub enum SessionEvent {
    /// A caller wants a session.
    Wanted,
    /// The discovery ended; `true` means that servers were found.
    Discovered(bool),
    /// The attempt to open a session ended; `true` means that it is open.
    Connected(bool),
}

/// What to do for the session next.
#[derive(Clone, Copy, Debug, PartialEq, Eq, Structural)]
pub enum SessionAction {
    /// Discover the Steam servers.
    Discover,
    /// Open an anonymous session.
    Connect,
    /// Use the open session.
    Use,
    /// Report this failure to the caller.
    Report(SteamError),
    /// Nothing: the event does not belong to the state.
    Ignore,
}

/// The transition of the session: the next state and what to do.
pub open spec fn session_next(s: SessionState, e: SessionEvent) -> (SessionState, SessionAction) {
    match (s, e) {
        (SessionState::NotStarted, SessionEvent::Wanted) => (
            SessionState::Discovering,
            SessionAction::Discover,
        ),
        (SessionState::Discovering, SessionEvent::Discovered(true)) => (
            SessionState::Connecting,
            SessionAction::Connect,
        ),
        (SessionState::Discovering, SessionEvent::Discovered(false)) => (
            SessionState::Failed(SteamError::ServerDiscovery),
            SessionAction::Report(SteamError::ServerDiscovery),
        ),
        (SessionState::Connecting, SessionEvent::Connected(true)) => (
            SessionState::Ready,
            SessionAction::Use,
        ),
        (SessionState::Connecting, SessionEvent::Connected(false)) => (
            SessionState::Failed(SteamError::Connection),
            SessionAction::Report(SteamError::Connection),
        ),
        (SessionState::Ready, SessionEvent::Wanted) => (SessionState::Ready, SessionAction::Use),
        (SessionState::Failed(err), SessionEvent::Wanted) => (
            SessionState::Failed(err),
            SessionAction::Report(err),
        ),
        _ => (s, SessionAction::Ignore),
    }
}

/// Advances the session by one event.
pub fn session_step(s: SessionState, e: SessionEvent) -> (r: (SessionState, SessionAction))
    ensures
        r == session_next(s, e),
{
    match s {
        SessionState::NotStarted => match e {
            SessionEvent::Wanted => (SessionState::Discovering, SessionAction::Discover),
            _ => (s, SessionAction::Ignore),
        },
        SessionState::Discovering => match e {
            SessionEvent::Discovered(true) => (SessionState::Connecting, SessionAction::Connect),
            SessionEvent::Discovered(false) => (
                SessionState::Failed(SteamError::ServerDiscovery),
                SessionAction::Report(SteamError::ServerDiscovery),
            ),
            _ => (s, SessionAction::Ignore),
        },
        SessionState::Connecting => match e {
            SessionEvent::Connected(true) => (SessionState::Ready, SessionAction::Use),
            SessionEvent::Connected(false) => (
                SessionState::Failed(SteamError::Connection),
                SessionAction::Report(SteamError::Connection),
            ),
            _ => (s, SessionAction::Ignore),
        },
        SessionState::Ready => match e {
            SessionEvent::Wanted => (SessionState::Ready, SessionAction::Use),
            _ => (s, SessionAction::Ignore),
        },
        SessionState::Failed(err) => match e {
            SessionEvent::Wanted => (SessionState::Failed(err), SessionAction::Report(err)),
            _ => (s, SessionAction::Ignore),
        },
    }
}

/// A failed session stays failed: no event brings it back, and every caller
/// that wants a session is told the same failure.
pub proof fn lemma_failed_session_is_final(err: SteamError, e: SessionEvent)
    ensures
        session_next(SessionState::Failed(err), e).0 == SessionState::Failed(err),
        session_next(SessionState::Failed(err), SessionEvent::Wanted).1 == SessionAction::Report(
            err,
        ),
{
}

/// An open session stays open, and is never opened a second time.
pub proof fn lemma_ready_session_is_reused(e: SessionEvent)
    ensures
        session_next(SessionState::Ready, e).0 == SessionState::Ready,
        session_next(SessionState::Ready, e).1 != SessionAction::Discover,
        session_next(SessionState::Ready, e).1 != SessionAction::Connect,
{
}

} // verus!
