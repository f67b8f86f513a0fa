//! The kinds of failure that the daemon reports, and how each failure of a
//! component falls under them.

use crate::registry::RegistryError;
use vstd::prelude::*;

verus! {

/// The kinds of failure that a caller can tell apart.
#[derive(Clone, Copy, Debug, PartialEq, Eq, Structural)]
pub enum ErrorKind {
    /// The request or a name in it is not acceptable.
    InvalidInput,
    /// No such map, or no such Workshop item.
    NotFound,
    /// A download, a Steam call or the backend failed in transit.
    Network,
    /// Steam refused to hand out a download URL; the payload is its result code.
    DownloadUrlFailed(i32),
    /// Steam answered without a download URL.
    NoDownloadUrl,
    /// The downloaded file is neither a package nor an archive.
    UnsupportedType,
    /// The package or the archive cannot be read.
    ArchiveMalformed,
    /// A path would leave the directory it belongs under.
    ContainmentViolation,
    /// The registry or the file system refused a write.
    StorageError,
    /// A live map already has the name.
    NameConflict,
}

/// What went wrong in the Steam Workshop exchange.
#[derive(Clone, Copy, Debug, PartialEq, Eq, Structural)]
pub enum SteamError {
    /// The Steam servers could not be discovered.
    ServerDiscovery,
    /// No session could be opened.
    Connection,
    /// A call failed in transit.
    Network,
    /// Steam knows no file for this Workshop item.
    WorkshopIdNotFound(u64),
    /// Steam refused to hand out a download URL; the payload is its result code.
    DownloadUrlFailed(i32),
    /// Steam answered without a download URL.
    NoDownloadUrl,
}

/// The kind of a registry refusal.
pub open spec fn registry_error_kind(e: RegistryError) -> ErrorKind {
    match e {
        RegistryError::InvalidEntry => ErrorKind::InvalidInput,
        RegistryError::NameConflict => ErrorKind::NameConflict,
        RegistryError::IdsExhausted => ErrorKind::StorageError,
    }
}

/// The kind of a Steam failure.
pub open spec fn steam_error_kind(e: SteamError) -> ErrorKind {
    match e {
        SteamError::ServerDiscovery => ErrorKind::Network,
        SteamError::Connection => ErrorKind::Network,
        SteamError::Network => ErrorKind::Network,
        SteamError::WorkshopIdNotFound(_) => ErrorKind::NotFound,
        SteamError::DownloadUrlFailed(code) => ErrorKind::DownloadUrlFailed(code),
        SteamError::NoDownloadUrl => ErrorKind::NoDownloadUrl,
    }
}

/// The HTTP status that a failure of this kind is answered with: 400 for
/// invalid input, 404 for what is not found, 500 for everything else.
pub open spec fn status_of(kind: ErrorKind) -> u16 {
    match kind {
        ErrorKind::InvalidInput => 400,
        ErrorKind::NotFound => 404,
        _ => 500,
    }
}

impl ErrorKind {
    /// The kind of a registry refusal.
    pub fn of_registry(e: RegistryError) -> (k: ErrorKind)
        ensures
            k == registry_error_kind(e),
    {
        match e {
            RegistryError::InvalidEntry => ErrorKind::InvalidInput,
            RegistryError::NameConflict => ErrorKind::NameConflict,
            RegistryError::IdsExhausted => ErrorKind::StorageError,
        }
    }

    /// The kind of a Steam failure.
    pub fn of_steam(e: SteamError) -> (k: ErrorKind)
        ensures
            k == steam_error_kind(e),
    {
        match e {
            SteamError::ServerDiscovery => ErrorKind::Network,
            SteamError::Connection => ErrorKind::Network,
            SteamError::Network => ErrorKind::Network,
            SteamError::WorkshopIdNotFound(_) => ErrorKind::NotFound,
            SteamError::DownloadUrlFailed(code) => ErrorKind::DownloadUrlFailed(code),
            SteamError::NoDownloadUrl => ErrorKind::NoDownloadUrl,
        }
    }

    /// The HTTP status that a failure of this kind is answered with.
    pub fn status(self) -> (code: u16)
        ensures
            code == status_of(self),
    {
        match self {
            ErrorKind::InvalidInput => 400,
            ErrorKind::NotFound => 404,
            _ => 500,
        }
    }
}

} // verus!
