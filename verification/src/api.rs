//! The shapes of the control requests and answers, and the checks that a
//! request passes before the daemon acts on it.

use crate::error::{status_of, ErrorKind};
use crate::models::opt_view;
use crate::text::{chars_of, parse_u64, u64_of_text};
use vstd::prelude::*;

verus! {

/// The longest URL that a request may carry, in characters.
pub const MAX_REQUEST_URL_LEN: usize = 2048;

/// The longest display name that a request may carry, in characters.
pub const MAX_REQUEST_NAME_LEN: usize = 255;

/// A request to install a map: exactly one of `url` and `workshop_id`, and
/// optionally a display name.
#[derive(Debug)]
pub struct InstallMapRequest {
    /// The URL of an archive or package to download.
    pub url: Option<String>,
    /// The Steam Workshop item.
    pub workshop_id: Option<u64>,
    /// The display name to install the map under.
    pub name: Option<String>,
}

/// The envelope of every answer.
#[derive(Debug)]
pub struct ApiResponse<T> {
    pub success: bool,
    pub data: Option<T>,
    pub error: Option<String>,
}

/// What a map is installed from.
#[derive(Debug)]
pub enum SourceSpec {
    /// A direct download.
    Url(String),
    /// A Steam Workshop item.
    Workshop(u64),
}

/// The mathematical content of a `SourceSpec`.
pub enum SourceSpecView {
    Url(Seq<char>),
    Workshop(u64),
}

impl View for SourceSpec {
    type V = SourceSpecView;

    open spec fn view(&self) -> SourceSpecView {
        match self {
            SourceSpec::Url(u) => SourceSpecView::Url(u@),
            SourceSpec::Workshop(id) => SourceSpecView::Workshop(*id),
        }
    }
}

/// Why a request is refused before anything is done.
#[derive(Clone, Copy, Debug, PartialEq, Eq, Structural)]
pub enum RequestError {
    /// Both a URL and a Workshop item are given.
    BothSources,
    /// Neither a URL nor a Workshop item is given.
    NoSource,
    /// The URL has more than 2048 characters.
    UrlTooLong,
    /// The display name has more than 255 characters.
    NameTooLong,
}

/// The verdict on a request with these fields: the refusal, or the source
/// to install from.
pub open spec fn request_verdict(
    url: Option<Seq<char>>,
    workshop_id: Option<u64>,
    name: Option<Seq<char>>,
) -> Result<SourceSpecView, RequestError> {
    match (url, workshop_id) {
        (Some(_), Some(_)) => Err(RequestError::BothSources),
        (None, None) => Err(RequestError::NoSource),
        (Some(u), None) => if u.len() > MAX_REQUEST_URL_LEN {
            Err(RequestError::UrlTooLong)
        } else if name is Some && name->0.len() > MAX_REQUEST_NAME_LEN {
            Err(RequestError::NameTooLong)
        } else {
            Ok(SourceSpecView::Url(u))
        },
        (None, Some(id)) => if name is Some && name->0.len() > MAX_REQUEST_NAME_LEN {
            Err(RequestError::NameTooLong)
        } else {
            Ok(SourceSpecView::Workshop(id))
        },
    }
}

impl RequestError {
    /// The kind that a refused request is reported as: invalid input,
    /// whatever the reason.
    pub fn kind(self) -> (k: ErrorKind)
        ensures
            k == ErrorKind::InvalidInput,
            status_of(k) == BAD_REQUEST,
    {
        ErrorKind::InvalidInput
    }
}

impl<T> ApiResponse<T> {
    /// The answer to a request that succeeded.
    pub fn success(data: T) -> (r: ApiResponse<T>)
        ensures
            r.success,
            r.data == Some(data),
            r.error is None,
    {
        ApiResponse { success: true, data: Some(data), error: None }
    }

    /// The answer to a request that failed.
    pub fn error(message: String) -> (r: ApiResponse<()>)
        ensures
            !r.success,
            r.data is None,
            r.error == Some(message),
    {
        ApiResponse { success: false, data: None, error: Some(message) }
    }
}

impl InstallMapRequest {
    /// Checks the shape of the request: exactly one source, a URL of at most
    /// 2048 characters, a name of at most 255.
    pub fn validate(&self) -> (r: Result<SourceSpec, RequestError>)
        ensures
            match r {
                Ok(s) => request_verdict(opt_view(self.url), self.workshop_id, opt_view(self.name))
                    == Ok::<SourceSpecView, RequestError>(s@),
                Err(e) => request_verdict(opt_view(self.url), self.workshop_id, opt_view(self.name))
                    == Err::<SourceSpecView, RequestError>(e),
            },
    {
        let name_too_long = match &self.name {
            Some(n) => chars_of(n.as_str()).len() > MAX_REQUEST_NAME_LEN,
            None => false,
        };
        match &self.url {
            Some(u) => {
                if self.workshop_id.is_some() {
                    Err(RequestError::BothSources)
                } else if chars_of(u.as_str()).len() > MAX_REQUEST_URL_LEN {
                    Err(RequestError::UrlTooLong)
                } else if name_too_long {
                    Err(RequestError::NameTooLong)
                } else {
                    Ok(SourceSpec::Url(u.clone()))
                }
            },
            None => match self.workshop_id {
                None => Err(RequestError::NoSource),
                Some(id) => {
                    if name_too_long {
                        Err(RequestError::NameTooLong)
                    } else {
                        Ok(SourceSpec::Workshop(id))
                    }
                },
            },
        }
    }
}

/// The HTTP status of a refused request.
pub const BAD_REQUEST: u16 = 400;

/// The HTTP status of a request that succeeded.
pub const OK: u16 = 200;

/// The HTTP status of a lookup that found nothing.
pub const NOT_FOUND: u16 = 404;

/// The map identifier in a request path: a decimal number.
pub fn parse_map_id(text: &str) -> (r: Result<u64, u16>)
    ensures
        r == match u64_of_text(text@) {
            Some(id) => Ok::<u64, u16>(id),
            None => Err::<u64, u16>(BAD_REQUEST),
        },
{
    match parse_u64(text) {
        Some(id) => Ok(id),
        None => Err(BAD_REQUEST),
    }
}

/// The HTTP status that an outcome is answered with: 200 for success, else
/// the status of the kind of failure.
pub fn status_for(outcome: &Result<(), ErrorKind>) -> (code: u16)
    ensures
        code == match *outcome {
            Ok(()) => OK,
            Err(k) => status_of(k),
        },
{
    match outcome {
        Ok(()) => OK,
        Err(k) => k.status(),
    }
}

/// A request with both sources, or with none, is refused, whatever else it
/// carries.
pub proof fn lemma_exactly_one_source(
    url: Option<Seq<char>>,
    workshop_id: Option<u64>,
    name: Option<Seq<char>>,
)
    requires
        (url is Some) == (workshop_id is Some),
    ensures
        request_verdict(url, workshop_id, name) is Err,
{
}

} // verus!
