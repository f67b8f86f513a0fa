//! The installation of a map as a sequence of decisions. The caller performs
//! each action that the installer asks for (a Steam call, a download, an
//! extraction, a copy) and reports how it went; the installer decides what
//! comes next and, at the end, what is to be removed again.

use crate::api::{SourceSpec, SourceSpecView};
use crate::archive::{first_package, select_vpk, some_name_is_package, ZipExtractor};
use crate::checksum::checksum_kind;
use crate::clock::now_utc;
use crate::download::{
    detect_file_kind, direct_file_name, direct_filename, extension_of, extract_directory_name,
    extract_dir_name, fresh_token, is_token, kind_of_extension, lowered_opt, scratch_file_name,
    scratch_name, workshop_file_name, workshop_filename, FileKind,
};
use crate::error::{registry_error_kind, steam_error_kind, ErrorKind, SteamError};
use crate::models::{
    clamp_workshop_id, clamped_workshop_id, clone_opt, entry_opt_view, opt_view,
    path_is_contained, stored_as, valid_entry, MapEntry, MapEntryView, SourceKind, Timestamp,
};
use crate::paths::{dot_dot, join_of, lemma_plain_name_is_contained};
use crate::registry::{added, name_taken, retracted, Registry, RegistryError, RegistryView};
use crate::sanitize::{
    clean_filename, join_path, lemma_sanitized_filename_has_no_separator, name_outcome,
    sanitize_filename, sanitize_map_name, NameError,
};
use crate::steam::{
    details_request, download_url_from_ugc, handle_outcome, hcontent_from_details, url_outcome,
    UgcDetails, WORKSHOP_APP_ID,
};
use crate::text::{
    append_chars, chars_of, decimal_text, ends_with, has_suffix, lowercase_of, prefixed,
    push_decimal, string_of,
};
use crate::url_validator::{parsed_url, url_verdict, validate_url, UrlError};
use crate::vpk::{VpkMetadata, VpkMetadataView};
use vstd::prelude::*;

verus! {

/// Where an installation stands.
#[derive(Clone, Copy, Debug, PartialEq, Eq, Structural)]
pub enum Phase {
    /// Waiting for the Steam session.
    OpeningSession,
    /// Waiting for the details of the Workshop item.
    AskingDetails,
    /// Waiting for the download URL of the Workshop item.
    AskingUrl,
    /// Waiting for the download.
    Fetching,
    /// Waiting for the metadata of a file whose name does not tell its kind.
    Probing,
    /// Waiting for the entry names of the archive.
    Listing,
    /// Waiting for the extraction.
    Extracting,
    /// Waiting for the list of extracted files.
    Selecting,
    /// Waiting for the metadata of the package.
    ReadingMetadata,
    /// Waiting for the copy into the add-ons directory.
    Placing,
    /// Waiting for the checksum of the placed file.
    Hashing,
    /// Waiting for the record to be written to the store.
    Storing,
    /// Finished, with or without success.
    Done,
}

/// Why an installation failed.
#[derive(Clone, Copy, Debug, PartialEq, Eq, Structural)]
pub enum InstallError {
    /// The URL did not pass the guard.
    InvalidUrl(UrlError),
    /// No acceptable name is left of the display name or the package title.
    InvalidName(NameError),
    /// A live map already has the name.
    NameConflict,
    /// The Steam Workshop exchange failed.
    Steam(SteamError),
    /// Every attempt to download failed.
    DownloadFailed,
    /// The file is neither a package nor an archive.
    UnsupportedType,
    /// The archive holds no package, or cannot be read.
    NoPackageInArchive,
    /// The archive could not be extracted.
    ExtractionFailed,
    /// The package metadata could not be read.
    MetadataUnreadable,
    /// The package could not be copied into the add-ons directory.
    PlacementFailed,
    /// The registry refused the record.
    Registry(RegistryError),
    /// The record could not be written to the store.
    StorageFailed,
    /// A report came that the installation was not waiting for.
    OutOfOrder,
}

/// The kind that a failed installation is reported as.
pub open spec fn install_error_kind(e: InstallError) -> ErrorKind {
    match e {
        InstallError::InvalidUrl(_) => ErrorKind::InvalidInput,
        InstallError::InvalidName(_) => ErrorKind::InvalidInput,
        InstallError::NameConflict => ErrorKind::NameConflict,
        InstallError::Steam(s) => steam_error_kind(s),
        InstallError::DownloadFailed => ErrorKind::Network,
        InstallError::UnsupportedType => ErrorKind::UnsupportedType,
        InstallError::NoPackageInArchive => ErrorKind::ArchiveMalformed,
        InstallError::ExtractionFailed => ErrorKind::ArchiveMalformed,
        InstallError::MetadataUnreadable => ErrorKind::ArchiveMalformed,
        InstallError::PlacementFailed => ErrorKind::StorageError,
        InstallError::Registry(r) => registry_error_kind(r),
        InstallError::StorageFailed => ErrorKind::StorageError,
        InstallError::OutOfOrder => ErrorKind::StorageError,
    }
}

impl InstallError {
    /// The kind that the failure is reported as.
    pub fn kind(self) -> (k: ErrorKind)
        ensures
            k == install_error_kind(self),
    {
        match self {
            InstallError::InvalidUrl(_) => ErrorKind::InvalidInput,
            InstallError::InvalidName(_) => ErrorKind::InvalidInput,
            InstallError::NameConflict => ErrorKind::NameConflict,
            InstallError::Steam(s) => ErrorKind::of_steam(s),
            InstallError::DownloadFailed => ErrorKind::Network,
            InstallError::UnsupportedType => ErrorKind::UnsupportedType,
            InstallError::NoPackageInArchive => ErrorKind::ArchiveMalformed,
            InstallError::ExtractionFailed => ErrorKind::ArchiveMalformed,
            InstallError::MetadataUnreadable => ErrorKind::ArchiveMalformed,
            InstallError::PlacementFailed => ErrorKind::StorageError,
            InstallError::Registry(r) => ErrorKind::of_registry(r),
            InstallError::StorageFailed => ErrorKind::StorageError,
            InstallError::OutOfOrder => ErrorKind::StorageError,
        }
    }
}

/// One installation in progress.
pub struct Install {
    phase: Phase,
    source_kind: SourceKind,
    workshop_id: Option<u64>,
    provided_name: Option<String>,
    addons_dir: String,
    temp_dir: String,
    download_token: String,
    extract_token: String,
    download: Option<String>,
    download_name: Option<String>,
    from_archive: bool,
    scratch: Option<String>,
    package: Option<String>,
    map_name: Option<String>,
    filename: Option<String>,
    version: Option<String>,
    target: Option<String>,
    placed: Option<String>,
    record: Option<MapEntry>,
}

/// The mathematical content of an `Install`.
pub struct InstallView {
    pub phase: Phase,
    pub source_kind: SourceKind,
    pub workshop_id: Option<u64>,
    /// The display name that the request carried.
    pub provided_name: Option<Seq<char>>,
    pub addons_dir: Seq<char>,
    pub temp_dir: Seq<char>,
    /// The token in the name of the downloaded file.
    pub download_token: Seq<char>,
    /// The token in the name of the extraction directory.
    pub extract_token: Seq<char>,
    /// The path that the download is written to.
    pub download: Option<Seq<char>>,
    /// The file name of the download.
    pub download_name: Option<Seq<char>>,
    /// The download is an archive.
    pub from_archive: bool,
    /// The directory that the archive is extracted to.
    pub scratch: Option<Seq<char>>,
    /// The package that is installed.
    pub package: Option<Seq<char>>,
    /// The sanitized name of the map.
    pub map_name: Option<Seq<char>>,
    /// The file name in the add-ons directory.
    pub filename: Option<Seq<char>>,
    pub version: Option<Seq<char>>,
    /// Where the package is copied to.
    pub target: Option<Seq<char>>,
    /// The copy, once it was attempted.
    pub placed: Option<Seq<char>>,
    /// The record, once the registry has taken it.
    pub record: Option<MapEntryView>,
}

impl View for Install {
    type V = InstallView;

    closed spec fn view(&self) -> InstallView {
        InstallView {
            phase: self.phase,
            source_kind: self.source_kind,
            workshop_id: self.workshop_id,
            provided_name: opt_view(self.provided_name),
            addons_dir: self.addons_dir@,
            temp_dir: self.temp_dir@,
            download_token: self.download_token@,
            extract_token: self.extract_token@,
            download: opt_view(self.download),
            download_name: opt_view(self.download_name),
            from_archive: self.from_archive,
            scratch: opt_view(self.scratch),
            package: opt_view(self.package),
            map_name: opt_view(self.map_name),
            filename: opt_view(self.filename),
            version: opt_view(self.version),
            target: opt_view(self.target),
            placed: opt_view(self.placed),
            record: entry_opt_view(self.record),
        }
    }
}

/// What the caller is asked to do next.
#[derive(Debug)]
pub enum Action {
    /// Get the Steam session of the process, opening it if need be.
    OpenSession,
    /// Ask Steam for the details of these published files.
    GetDetails { workshop_id: u64, appid: u32 },
    /// Ask Steam for the download URL of this content handle.
    GetDownloadUrl { hcontent: u64 },
    /// Download `url` to the file `dest`.
    Download { url: String, dest: String },
    /// Read the entry names of the archive at `path`.
    ListArchive { path: String },
    /// Extract the archive to the directory `dest`.
    Extract { archive: String, dest: String },
    /// List the files below `dir`, subdirectories included.
    FindFiles { dir: String },
    /// Read the metadata of the package at `path`.
    ReadMetadata { path: String },
    /// Create the add-ons directory and copy `from` to `to`.
    Place { from: String, to: String },
    /// Compute the checksum of the file at `path`.
    Hash { path: String },
    /// Write the record to the store.
    Store { entry: MapEntry },
    /// The installation is over. Remove what is named, then report the
    /// result.
    Finish {
        result: Result<MapEntry, InstallError>,
        remove_placed: Option<String>,
        remove_download: Option<String>,
        remove_scratch: Option<String>,
    },
}

/// The mathematical content of an `Action`.
pub enum ActionView {
    OpenSession,
    GetDetails { workshop_id: u64, appid: u32 },
    GetDownloadUrl { hcontent: u64 },
    Download { url: Seq<char>, dest: Seq<char> },
    ListArchive { path: Seq<char> },
    Extract { archive: Seq<char>, dest: Seq<char> },
    FindFiles { dir: Seq<char> },
    ReadMetadata { path: Seq<char> },
    Place { from: Seq<char>, to: Seq<char> },
    Hash { path: Seq<char> },
    Store { entry: MapEntryView },
    Finish {
        result: Result<MapEntryView, InstallError>,
        remove_placed: Option<Seq<char>>,
        remove_download: Option<Seq<char>>,
        remove_scratch: Option<Seq<char>>,
    },
}

/// The view of an installation result.
pub open spec fn result_view(r: Result<MapEntry, InstallError>) -> Result<
    MapEntryView,
    InstallError,
> {
    match r {
        Ok(e) => Ok(e@),
        Err(e) => Err(e),
    }
}

impl View for Action {
    type V = ActionView;

    open spec fn view(&self) -> ActionView {
        match self {
            Action::OpenSession => ActionView::OpenSession,
            Action::GetDetails { workshop_id, appid } => ActionView::GetDetails {
                workshop_id: *workshop_id,
                appid: *appid,
            },
            Action::GetDownloadUrl { hcontent } => ActionView::GetDownloadUrl {
                hcontent: *hcontent,
            },
            Action::Download { url, dest } => ActionView::Download { url: url@, dest: dest@ },
            Action::ListArchive { path } => ActionView::ListArchive { path: path@ },
            Action::Extract { archive, dest } => ActionView::Extract {
                archive: archive@,
                dest: dest@,
            },
            Action::FindFiles { dir } => ActionView::FindFiles { dir: dir@ },
            Action::ReadMetadata { path } => ActionView::ReadMetadata { path: path@ },
            Action::Place { from, to } => ActionView::Place { from: from@, to: to@ },
            Action::Hash { path } => ActionView::Hash { path: path@ },
            Action::Store { entry } => ActionView::Store { entry: entry@ },
            Action::Finish {
                result,
                remove_placed,
                remove_download,
                remove_scratch,
            } => ActionView::Finish {
                result: result_view(*result),
                remove_placed: opt_view(*remove_placed),
                remove_download: opt_view(*remove_download),
                remove_scratch: opt_view(*remove_scratch),
            },
        }
    }
}

/// The end of an installation that failed: everything that it created is to
/// be removed, the copy in the add-ons directory included. An installation
/// that was over already stays as it is, and nothing is to be removed.
pub open spec fn failed(s: InstallView, e: InstallError) -> (InstallView, ActionView) {
    if s.phase == Phase::Done {
        (
            s,
            ActionView::Finish {
                result: Err(e),
                remove_placed: None,
                remove_download: None,
                remove_scratch: None,
            },
        )
    } else {
        (
            InstallView { phase: Phase::Done, ..s },
            ActionView::Finish {
                result: Err(e),
                remove_placed: s.placed,
                remove_download: s.download,
                remove_scratch: s.scratch,
            },
        )
    }
}

/// What holds of every installation: a Workshop installation, and no
/// other, has its Workshop item; a copy is attempted only once, at the
/// target, and is known from then on; from the copy on, the name and the
/// file name are known and the target is the file name below the add-ons
/// directory; and while the record is written to the store, it is the
/// valid record of this installation.
pub open spec fn install_inv(s: InstallView) -> bool {
    &&& (s.source_kind == SourceKind::Workshop) == (s.workshop_id is Some)
    &&& s.placed is Some ==> s.placed == s.target && (s.phase == Phase::Hashing || s.phase
        == Phase::Storing || s.phase == Phase::Done)
    &&& (s.phase == Phase::Placing || s.phase == Phase::Hashing || s.phase == Phase::Storing) ==> {
        &&& s.map_name is Some
        &&& s.filename is Some
        &&& s.package is Some
        &&& s.target == Some(join_of(s.addons_dir, s.filename->0))
        &&& s.filename->0 == with_vpk_suffix(clean_filename(s.package->0))
    }
    &&& (s.phase == Phase::Hashing || s.phase == Phase::Storing) ==> s.placed is Some
    &&& s.phase == Phase::Storing ==> {
        &&& s.record is Some
        &&& valid_entry(s.record->0)
        &&& s.record->0.name == s.map_name->0
        &&& s.record->0.installed_path == s.filename->0
        &&& s.record->0.source_kind == s.source_kind
        &&& s.record->0.workshop_id == s.workshop_id
        &&& s.record->0.source_url == source_url_of(s)
        &&& s.record->0.version == s.version
    }
}

/// The state before anything was done.
pub open spec fn initial(
    source: SourceSpecView,
    name: Option<Seq<char>>,
    addons: Seq<char>,
    temp: Seq<char>,
    t1: Seq<char>,
    t2: Seq<char>,
) -> InstallView {
    InstallView {
        phase: Phase::OpeningSession,
        source_kind: match source {
            SourceSpecView::Url(_) => SourceKind::Other,
            SourceSpecView::Workshop(_) => SourceKind::Workshop,
        },
        workshop_id: match source {
            SourceSpecView::Url(_) => None,
            SourceSpecView::Workshop(id) => Some(id),
        },
        provided_name: name,
        addons_dir: addons,
        temp_dir: temp,
        download_token: t1,
        extract_token: t2,
        download: None,
        download_name: None,
        from_archive: false,
        scratch: None,
        package: None,
        map_name: None,
        filename: None,
        version: None,
        target: None,
        placed: None,
        record: None,
    }
}

/// The sanitized form of `raw` is the name of a live map.
pub open spec fn name_is_taken(reg: RegistryView, raw: Seq<char>) -> bool {
    name_outcome(lowercase_of(raw)) is Ok && name_taken(
        reg.entries,
        name_outcome(lowercase_of(raw))->Ok_0,
        -1,
    )
}

/// The state and the action with which a download starts.
pub open spec fn fetching(s: InstallView, url: Seq<char>, file_name: Seq<char>) -> (
    InstallView,
    ActionView,
) {
    let name = scratch_name(s.download_token, file_name);
    let dest = join_of(s.temp_dir, name);
    (
        InstallView {
            phase: Phase::Fetching,
            download: Some(dest),
            download_name: Some(name),
            ..s
        },
        ActionView::Download { url, dest },
    )
}

/// The start of an installation. A display name that is taken ends it at
/// once; so does a URL that does not pass the guard. Otherwise a URL is
/// downloaded and a Workshop item is resolved first.
pub open spec fn begun(
    source: SourceSpecView,
    name: Option<Seq<char>>,
    addons: Seq<char>,
    temp: Seq<char>,
    reg: RegistryView,
    t1: Seq<char>,
    t2: Seq<char>,
) -> (InstallView, ActionView) {
    let s0 = initial(source, name, addons, temp, t1, t2);
    if name is Some && name_is_taken(reg, name->0) {
        failed(s0, InstallError::NameConflict)
    } else {
        match source {
            SourceSpecView::Url(u) => match url_verdict(u.len(), parsed_url(u)) {
                Err(e) => failed(s0, InstallError::InvalidUrl(e)),
                Ok(_) => fetching(s0, u, direct_file_name(u)),
            },
            SourceSpecView::Workshop(_) => (s0, ActionView::OpenSession),
        }
    }
}

/// After the Steam session was asked for.
pub open spec fn after_session(s: InstallView, outcome: Result<(), SteamError>) -> (
    InstallView,
    ActionView,
) {
    if s.phase != Phase::OpeningSession || s.workshop_id is None {
        failed(s, InstallError::OutOfOrder)
    } else {
        match outcome {
            Err(e) => failed(s, InstallError::Steam(e)),
            Ok(_) => (
                InstallView { phase: Phase::AskingDetails, ..s },
                ActionView::GetDetails { workshop_id: s.workshop_id->0, appid: WORKSHOP_APP_ID },
            ),
        }
    }
}

/// After the details of the Workshop item were asked for.
pub open spec fn after_details(s: InstallView, handles: Option<Seq<u64>>) -> (
    InstallView,
    ActionView,
) {
    if s.phase != Phase::AskingDetails || s.workshop_id is None {
        failed(s, InstallError::OutOfOrder)
    } else {
        match handle_outcome(s.workshop_id->0, handles) {
            Err(e) => failed(s, InstallError::Steam(e)),
            Ok(h) => (
                InstallView { phase: Phase::AskingUrl, ..s },
                ActionView::GetDownloadUrl { hcontent: h },
            ),
        }
    }
}

/// After the download URL was asked for; `answer` is `None` for a call that
/// failed in transit, else the result code and the URL.
pub open spec fn after_download_url(s: InstallView, answer: Option<(i32, Option<Seq<char>>)>) -> (
    InstallView,
    ActionView,
) {
    if s.phase != Phase::AskingUrl {
        failed(s, InstallError::OutOfOrder)
    } else {
        match answer {
            None => failed(s, InstallError::Steam(SteamError::Network)),
            Some(a) => match url_outcome(a.0, a.1) {
                Err(e) => failed(s, InstallError::Steam(e)),
                Ok(u) => fetching(s, u, workshop_file_name(u)),
            },
        }
    }
}

/// After the download: the extension of the file decides how to go on. A
/// file that is neither a package nor an archive by its name is probed: it
/// is a package if its metadata can be read.
pub open spec fn after_download(s: InstallView, ok: bool) -> (InstallView, ActionView) {
    if s.phase != Phase::Fetching || s.download is None || s.download_name is None {
        failed(s, InstallError::OutOfOrder)
    } else if !ok {
        failed(s, InstallError::DownloadFailed)
    } else {
        let path = s.download->0;
        match kind_of_extension(lowered_opt(extension_of(s.download_name->0))) {
            FileKind::Vpk => (
                InstallView { phase: Phase::ReadingMetadata, package: Some(path), ..s },
                ActionView::ReadMetadata { path },
            ),
            FileKind::Zip => (
                InstallView { phase: Phase::Listing, from_archive: true, ..s },
                ActionView::ListArchive { path },
            ),
            FileKind::Unknown => (
                InstallView { phase: Phase::Probing, package: Some(path), ..s },
                ActionView::ReadMetadata { path },
            ),
        }
    }
}

/// After the archive was listed; `names` is `None` if it cannot be read.
pub open spec fn after_listing(s: InstallView, names: Option<Seq<String>>) -> (
    InstallView,
    ActionView,
) {
    if s.phase != Phase::Listing || s.download is None {
        failed(s, InstallError::OutOfOrder)
    } else {
        match names {
            None => failed(s, InstallError::NoPackageInArchive),
            Some(n) => if !some_name_is_package(n) {
                failed(s, InstallError::NoPackageInArchive)
            } else {
                let dest = join_of(s.temp_dir, extract_dir_name(s.extract_token));
                (
                    InstallView { phase: Phase::Extracting, scratch: Some(dest), ..s },
                    ActionView::Extract { archive: s.download->0, dest },
                )
            },
        }
    }
}

/// After the extraction.
pub open spec fn after_extraction(s: InstallView, ok: bool) -> (InstallView, ActionView) {
    if s.phase != Phase::Extracting || s.scratch is None {
        failed(s, InstallError::OutOfOrder)
    } else if !ok {
        failed(s, InstallError::ExtractionFailed)
    } else {
        (InstallView { phase: Phase::Selecting, ..s }, ActionView::FindFiles { dir: s.scratch->0 })
    }
}

/// After the extracted files were listed: the first package among them is
/// installed.
pub open spec fn after_selection(s: InstallView, files: Option<Seq<String>>) -> (
    InstallView,
    ActionView,
) {
    if s.phase != Phase::Selecting {
        failed(s, InstallError::OutOfOrder)
    } else {
        match files {
            None => failed(s, InstallError::ExtractionFailed),
            Some(f) => if first_package(f) >= f.len() {
                failed(s, InstallError::NoPackageInArchive)
            } else {
                let path = f[first_package(f)]@;
                (
                    InstallView { phase: Phase::ReadingMetadata, package: Some(path), ..s },
                    ActionView::ReadMetadata { path },
                )
            },
        }
    }
}

/// `name` with `.vpk` at its end, added if it is not there.
pub open spec fn with_vpk_suffix(name: Seq<char>) -> Seq<char> {
    if ends_with(name, ".vpk"@) {
        name
    } else {
        name + ".vpk"@
    }
}

/// After the metadata was read; `meta` is `None` if it could not be. The
/// display name of the request, or else the title of the package, is
/// sanitized into the name of the map, which no live map may have; the file
/// name of the package is sanitized into the name of the installed file.
pub open spec fn after_metadata(s: InstallView, meta: Option<VpkMetadataView>, reg: RegistryView) -> (
    InstallView,
    ActionView,
) {
    if (s.phase != Phase::ReadingMetadata && s.phase != Phase::Probing) || s.package is None {
        failed(s, InstallError::OutOfOrder)
    } else {
        match meta {
            None => if s.phase == Phase::Probing {
                failed(s, InstallError::UnsupportedType)
            } else {
                failed(s, InstallError::MetadataUnreadable)
            },
            Some(m) => {
                let raw = match s.provided_name {
                    Some(n) => n,
                    None => m.title,
                };
                match name_outcome(lowercase_of(raw)) {
                    Err(e) => failed(s, InstallError::InvalidName(e)),
                    Ok(name) => if name_taken(reg.entries, name, -1) {
                        failed(s, InstallError::NameConflict)
                    } else {
                        let filename = with_vpk_suffix(clean_filename(s.package->0));
                        let to = join_of(s.addons_dir, filename);
                        (
                            InstallView {
                                phase: Phase::Placing,
                                map_name: Some(name),
                                filename: Some(filename),
                                version: Some(m.version),
                                target: Some(to),
                                ..s
                            },
                            ActionView::Place { from: s.package->0, to },
                        )
                    },
                }
            },
        }
    }
}

/// After the copy. A copy that failed may have left a part of the file, so
/// the target counts as placed either way.
pub open spec fn after_placement(s: InstallView, ok: bool) -> (InstallView, ActionView) {
    if s.phase != Phase::Placing || s.target is None {
        failed(s, InstallError::OutOfOrder)
    } else {
        let placed = InstallView { placed: s.target, ..s };
        if !ok {
            failed(placed, InstallError::PlacementFailed)
        } else {
            (InstallView { phase: Phase::Hashing, ..placed }, ActionView::Hash { path: s.target->0 })
        }
    }
}

/// Where the record says the map came from: `workshop:` and the item for a
/// Workshop map, `zip:` and the name of the downloaded archive for a map
/// from an archive, `file:` and the installed file name otherwise.
pub open spec fn source_url_of(s: InstallView) -> Seq<char> {
    if s.source_kind == SourceKind::Workshop && s.workshop_id is Some {
        "workshop:"@ + decimal_text(s.workshop_id->0 as nat)
    } else if s.from_archive && s.download_name is Some {
        "zip:"@ + s.download_name->0
    } else {
        "file:"@ + s.filename->0
    }
}

/// The record that is handed to the registry.
pub open spec fn record_of(s: InstallView, checksum: Option<Seq<char>>, now: Timestamp) -> MapEntryView {
    MapEntryView {
        id: 0,
        name: s.map_name->0,
        source_url: source_url_of(s),
        source_kind: s.source_kind,
        workshop_id: clamped_workshop_id(s.source_kind, s.workshop_id),
        installed_path: s.filename->0,
        installed_at: now,
        version: s.version,
        checksum,
        checksum_kind: match checksum {
            Some(_) => Some("md5"@),
            None => None,
        },
    }
}

/// After the checksum was computed, or could not be (`None`): the record
/// is inserted. If the registry refuses it, the installation fails and the
/// copy is removed; else the record, as the registry holds it, is to be
/// written to the store.
pub open spec fn after_hashing(
    s: InstallView,
    checksum: Option<Seq<char>>,
    now: Timestamp,
    reg: RegistryView,
) -> (InstallView, ActionView, RegistryView) {
    if s.phase != Phase::Hashing || s.map_name is None || s.filename is None {
        (failed(s, InstallError::OutOfOrder).0, failed(s, InstallError::OutOfOrder).1, reg)
    } else {
        match added(reg, record_of(s, checksum, now)) {
            Err(e) => (
                failed(s, InstallError::Registry(e)).0,
                failed(s, InstallError::Registry(e)).1,
                reg,
            ),
            Ok(pair) => {
                let entry = stored_as(record_of(s, checksum, now), pair.1);
                (
                    InstallView { phase: Phase::Storing, record: Some(entry), ..s },
                    ActionView::Store { entry },
                    pair.0,
                )
            },
        }
    }
}

/// After the record was written to the store, or could not be. If it was
/// written, the installation has succeeded: the temporary files are removed
/// and the record is the result. If not, the insert is taken back, the
/// installation fails and the copy is removed.
pub open spec fn after_storing(s: InstallView, ok: bool, reg: RegistryView) -> (
    InstallView,
    ActionView,
    RegistryView,
) {
    if s.phase != Phase::Storing || s.record is None {
        (failed(s, InstallError::OutOfOrder).0, failed(s, InstallError::OutOfOrder).1, reg)
    } else if !ok {
        (
            failed(s, InstallError::StorageFailed).0,
            failed(s, InstallError::StorageFailed).1,
            retracted(reg, s.record->0.id),
        )
    } else {
        (
            InstallView { phase: Phase::Done, ..s },
            ActionView::Finish {
                result: Ok(s.record->0),
                remove_placed: None,
                remove_download: s.download,
                remove_scratch: s.scratch,
            },
            reg,
        )
    }
}

/// The file name of an installed package ends in `.vpk`, holds no slash,
/// and is a relative path without `..`.
pub proof fn lemma_installed_file_name(package: Seq<char>)
    ensures
        ends_with(with_vpk_suffix(clean_filename(package)), ".vpk"@),
        path_is_contained(with_vpk_suffix(clean_filename(package))),
        forall|i: int|
            0 <= i < with_vpk_suffix(clean_filename(package)).len() ==> with_vpk_suffix(
                clean_filename(package),
            )[i] != '/',
{
    reveal_strlit(".vpk");
    let c = clean_filename(package);
    let f = with_vpk_suffix(c);
    lemma_sanitized_filename_has_no_separator(package);
    if !ends_with(c, ".vpk"@) {
        assert(f.subrange(f.len() - 4, f.len() as int) =~= ".vpk"@);
    }
    assert forall|i: int| 0 <= i < f.len() implies f[i] != '/' by {
        if i < c.len() {
            assert(f[i] == c[i]);
        }
    }
    assert(f.len() >= 4);
    assert(f.subrange(f.len() - 4, f.len() as int)[0] == '.');
    assert(f != dot_dot());
    lemma_plain_name_is_contained(f);
}

impl Install {
    /// The installation keeps its invariant.
    pub open spec fn wf(&self) -> bool {
        install_inv(self@)
    }

    /// Where the installation stands.
    pub fn phase(&self) -> (p: Phase)
        ensures
            p == self@.phase,
    {
        self.phase
    }

    /// Ends the installation with a failure.
    fn fail(&mut self, e: InstallError) -> (a: Action)
        requires
            old(self).wf(),
        ensures
            final(self).wf(),
            (final(self)@, a@) == failed(old(self)@, e),
    {
        if self.phase == Phase::Done {
            return Action::Finish {
                result: Err(e),
                remove_placed: None,
                remove_download: None,
                remove_scratch: None,
            };
        }
        self.phase = Phase::Done;
        Action::Finish {
            result: Err(e),
            remove_placed: clone_opt(&self.placed),
            remove_download: clone_opt(&self.download),
            remove_scratch: clone_opt(&self.scratch),
        }
    }

    /// Starts the download of `url` to a scratch file named after
    /// `file_name`.
    fn fetch(&mut self, url: String, file_name: &str) -> (a: Action)
        requires
            old(self).wf(),
            old(self)@.placed is None,
        ensures
            final(self).wf(),
            (final(self)@, a@) == fetching(old(self)@, url@, file_name@),
    {
        let name = scratch_file_name(self.download_token.as_str(), file_name);
        let dest = join_path(self.temp_dir.as_str(), name.as_str());
        self.phase = Phase::Fetching;
        self.download = Some(dest.clone());
        self.download_name = Some(name);
        Action::Download { url, dest }
    }

    /// Starts an installation with the two tokens given: `t1` goes into the
    /// name of the downloaded file, `t2` into that of the extraction
    /// directory.
    pub fn begin_with(
        source: SourceSpec,
        name: Option<String>,
        addons_dir: String,
        temp_dir: String,
        registry: &Registry,
        t1: String,
        t2: String,
    ) -> (r: (Install, Action))
        ensures
            r.0.wf(),
            (r.0@, r.1@) == begun(
                source@,
                opt_view(name),
                addons_dir@,
                temp_dir@,
                registry@,
                t1@,
                t2@,
            ),
    {
        let taken = match &name {
            Some(n) => match sanitize_map_name(n.as_str()) {
                Ok(clean) => registry.contains_name(clean.as_str()),
                Err(_) => false,
            },
            None => false,
        };
        let mut s = Install {
            phase: Phase::OpeningSession,
            source_kind: match &source {
                SourceSpec::Url(_) => SourceKind::Other,
                SourceSpec::Workshop(_) => SourceKind::Workshop,
            },
            workshop_id: match &source {
                SourceSpec::Url(_) => None,
                SourceSpec::Workshop(id) => Some(*id),
            },
            provided_name: name,
            addons_dir,
            temp_dir,
            download_token: t1,
            extract_token: t2,
            download: None,
            download_name: None,
            from_archive: false,
            scratch: None,
            package: None,
            map_name: None,
            filename: None,
            version: None,
            target: None,
            placed: None,
            record: None,
        };
        if taken {
            let a = s.fail(InstallError::NameConflict);
            return (s, a);
        }
        match source {
            SourceSpec::Url(u) => match validate_url(u.as_str()) {
                Err(e) => {
                    let a = s.fail(InstallError::InvalidUrl(e));
                    (s, a)
                },
                Ok(()) => {
                    let file_name = direct_filename(u.as_str());
                    let a = s.fetch(u, file_name.as_str());
                    (s, a)
                },
            },
            SourceSpec::Workshop(_) => (s, Action::OpenSession),
        }
    }

    /// Starts an installation. The names of its scratch files carry fresh
    /// tokens.
    pub fn begin(
        source: SourceSpec,
        name: Option<String>,
        addons_dir: String,
        temp_dir: String,
        registry: &Registry,
    ) -> (r: (Install, Action))
        ensures
            r.0.wf(),
            exists|t1: Seq<char>, t2: Seq<char>|
                is_token(t1) && is_token(t2) && (r.0@, r.1@) == begun(
                    source@,
                    opt_view(name),
                    addons_dir@,
                    temp_dir@,
                    registry@,
                    t1,
                    t2,
                ),
    {
        let t1 = fresh_token();
        let t2 = fresh_token();
        let ghost g1 = t1@;
        let ghost g2 = t2@;
        let r = Self::begin_with(source, name, addons_dir, temp_dir, registry, t1, t2);
        assert(is_token(g1) && is_token(g2) && (r.0@, r.1@) == begun(
            source@,
            opt_view(name),
            addons_dir@,
            temp_dir@,
            registry@,
            g1,
            g2,
        ));
        r
    }

    /// Takes the report on the Steam session.
    pub fn on_session(&mut self, outcome: Result<(), SteamError>) -> (a: Action)
        requires
            old(self).wf(),
        ensures
            final(self).wf(),
            (final(self)@, a@) == after_session(old(self)@, outcome),
    {
        if self.phase != Phase::OpeningSession {
            return self.fail(InstallError::OutOfOrder);
        }
        match self.workshop_id {
            None => self.fail(InstallError::OutOfOrder),
            Some(id) => match outcome {
                Err(e) => self.fail(InstallError::Steam(e)),
                Ok(()) => {
                    self.phase = Phase::AskingDetails;
                    let req = details_request(id);
                    Action::GetDetails { workshop_id: id, appid: req.appid }
                },
            },
        }
    }

    /// Takes the answer to the details request: the content handle of each
    /// file in it, or `None` if the call failed in transit.
    pub fn on_details(&mut self, handles: &Option<Vec<u64>>) -> (a: Action)
        requires
            old(self).wf(),
        ensures
            final(self).wf(),
            (final(self)@, a@) == after_details(
                old(self)@,
                match *handles {
                    Some(h) => Some(h@),
                    None => None,
                },
            ),
    {
        if self.phase != Phase::AskingDetails {
            return self.fail(InstallError::OutOfOrder);
        }
        match self.workshop_id {
            None => self.fail(InstallError::OutOfOrder),
            Some(id) => match hcontent_from_details(id, handles) {
                Err(e) => self.fail(InstallError::Steam(e)),
                Ok(h) => {
                    self.phase = Phase::AskingUrl;
                    Action::GetDownloadUrl { hcontent: h }
                },
            },
        }
    }

    /// Takes the answer to the request for a download URL, or `None` if the
    /// call failed in transit.
    pub fn on_download_url(&mut self, answer: &Option<UgcDetails>) -> (a: Action)
        requires
            old(self).wf(),
        ensures
            final(self).wf(),
            (final(self)@, a@) == after_download_url(
                old(self)@,
                match *answer {
                    Some(d) => Some((d.eresult, opt_view(d.url))),
                    None => None,
                },
            ),
    {
        if self.phase != Phase::AskingUrl {
            return self.fail(InstallError::OutOfOrder);
        }
        match download_url_from_ugc(answer) {
            Err(e) => self.fail(InstallError::Steam(e)),
            Ok(url) => {
                let file_name = workshop_filename(url.as_str());
                self.fetch(url, file_name.as_str())
            },
        }
    }

    /// Takes the report on the download.
    pub fn on_downloaded(&mut self, ok: bool) -> (a: Action)
        requires
            old(self).wf(),
        ensures
            final(self).wf(),
            (final(self)@, a@) == after_download(old(self)@, ok),
    {
        if self.phase != Phase::Fetching || self.download.is_none() || self.download_name.is_none() {
            return self.fail(InstallError::OutOfOrder);
        }
        if !ok {
            return self.fail(InstallError::DownloadFailed);
        }
        let path = match &self.download {
            Some(p) => p.clone(),
            None => String::new(),
        };
        let kind = match &self.download_name {
            Some(n) => detect_file_kind(n.as_str()),
            None => FileKind::Unknown,
        };
        match kind {
            FileKind::Vpk => {
                self.phase = Phase::ReadingMetadata;
                self.package = Some(path.clone());
                Action::ReadMetadata { path }
            },
            FileKind::Zip => {
                self.phase = Phase::Listing;
                self.from_archive = true;
                Action::ListArchive { path }
            },
            FileKind::Unknown => {
                self.phase = Phase::Probing;
                self.package = Some(path.clone());
                Action::ReadMetadata { path }
            },
        }
    }

    /// Takes the entry names of the archive, or `None` if it cannot be read.
    pub fn on_archive_listed(&mut self, names: &Option<Vec<String>>) -> (a: Action)
        requires
            old(self).wf(),
        ensures
            final(self).wf(),
            (final(self)@, a@) == after_listing(
                old(self)@,
                match *names {
                    Some(n) => Some(n@),
                    None => None,
                },
            ),
    {
        if self.phase != Phase::Listing || self.download.is_none() {
            return self.fail(InstallError::OutOfOrder);
        }
        match names {
            None => self.fail(InstallError::NoPackageInArchive),
            Some(n) => {
                if !ZipExtractor::new().zip_contains_vpk(n) {
                    return self.fail(InstallError::NoPackageInArchive);
                }
                let dir = extract_directory_name(self.extract_token.as_str());
                let dest = join_path(self.temp_dir.as_str(), dir.as_str());
                let archive = match &self.download {
                    Some(p) => p.clone(),
                    None => String::new(),
                };
                self.phase = Phase::Extracting;
                self.scratch = Some(dest.clone());
                Action::Extract { archive, dest }
            },
        }
    }

    /// Takes the report on the extraction.
    pub fn on_extracted(&mut self, ok: bool) -> (a: Action)
        requires
            old(self).wf(),
        ensures
            final(self).wf(),
            (final(self)@, a@) == after_extraction(old(self)@, ok),
    {
        if self.phase != Phase::Extracting || self.scratch.is_none() {
            return self.fail(InstallError::OutOfOrder);
        }
        if !ok {
            return self.fail(InstallError::ExtractionFailed);
        }
        let dir = match &self.scratch {
            Some(d) => d.clone(),
            None => String::new(),
        };
        self.phase = Phase::Selecting;
        Action::FindFiles { dir }
    }

    /// Takes the files found below the extraction directory, in the order
    /// of the walk, or `None` if the walk failed.
    pub fn on_files_found(&mut self, files: &Option<Vec<String>>) -> (a: Action)
        requires
            old(self).wf(),
        ensures
            final(self).wf(),
            (final(self)@, a@) == after_selection(
                old(self)@,
                match *files {
                    Some(f) => Some(f@),
                    None => None,
                },
            ),
    {
        if self.phase != Phase::Selecting {
            return self.fail(InstallError::OutOfOrder);
        }
        match files {
            None => self.fail(InstallError::ExtractionFailed),
            Some(f) => match select_vpk(f) {
                None => self.fail(InstallError::NoPackageInArchive),
                Some(i) => {
                    let path = f[i].clone();
                    self.phase = Phase::ReadingMetadata;
                    self.package = Some(path.clone());
                    Action::ReadMetadata { path }
                },
            },
        }
    }

    /// Takes the metadata of the package, or `None` if it could not be
    /// read.
    pub fn on_metadata(&mut self, meta: Option<VpkMetadata>, registry: &Registry) -> (a: Action)
        requires
            old(self).wf(),
        ensures
            final(self).wf(),
            (final(self)@, a@) == after_metadata(
                old(self)@,
                match meta {
                    Some(m) => Some(m@),
                    None => None,
                },
                registry@,
            ),
    {
        if (self.phase != Phase::ReadingMetadata && self.phase != Phase::Probing)
            || self.package.is_none() {
            return self.fail(InstallError::OutOfOrder);
        }
        let m = match meta {
            None => {
                if self.phase == Phase::Probing {
                    return self.fail(InstallError::UnsupportedType);
                } else {
                    return self.fail(InstallError::MetadataUnreadable);
                }
            },
            Some(m) => m,
        };
        let sanitized = match &self.provided_name {
            Some(n) => sanitize_map_name(n.as_str()),
            None => sanitize_map_name(m.title.as_str()),
        };
        let name = match sanitized {
            Err(e) => {
                return self.fail(InstallError::InvalidName(e));
            },
            Ok(n) => n,
        };
        if registry.contains_name(name.as_str()) {
            return self.fail(InstallError::NameConflict);
        }
        let from = match &self.package {
            Some(p) => p.clone(),
            None => String::new(),
        };
        let clean = sanitize_filename(from.as_str());
        let mut file = chars_of(clean.as_str());
        let suffix = chars_of(".vpk");
        if !has_suffix(&file, &suffix) {
            append_chars(&mut file, &suffix);
        }
        let filename = string_of(&file);
        let to = join_path(self.addons_dir.as_str(), filename.as_str());
        self.phase = Phase::Placing;
        self.map_name = Some(name);
        self.filename = Some(filename);
        self.version = Some(m.version);
        self.target = Some(to.clone());
        Action::Place { from, to }
    }

    /// Takes the report on the copy into the add-ons directory.
    pub fn on_placed(&mut self, ok: bool) -> (a: Action)
        requires
            old(self).wf(),
        ensures
            final(self).wf(),
            (final(self)@, a@) == after_placement(old(self)@, ok),
    {
        if self.phase != Phase::Placing || self.target.is_none() {
            return self.fail(InstallError::OutOfOrder);
        }
        if !ok {
            self.phase = Phase::Done;
            self.placed = clone_opt(&self.target);
            return Action::Finish {
                result: Err(InstallError::PlacementFailed),
                remove_placed: clone_opt(&self.target),
                remove_download: clone_opt(&self.download),
                remove_scratch: clone_opt(&self.scratch),
            };
        }
        let path = match &self.target {
            Some(p) => p.clone(),
            None => String::new(),
        };
        self.phase = Phase::Hashing;
        self.placed = clone_opt(&self.target);
        Action::Hash { path }
    }

    /// The text that the record gives as the source of the map.
    fn source_url(&self) -> (r: String)
        requires
            self@.filename is Some,
        ensures
            r@ == source_url_of(self@),
    {
        match (self.source_kind, self.workshop_id) {
            (SourceKind::Workshop, Some(id)) => {
                let mut out = chars_of("workshop:");
                push_decimal(id, &mut out);
                string_of(&out)
            },
            _ => {
                if self.from_archive && self.download_name.is_some() {
                    match &self.download_name {
                        Some(n) => prefixed("zip:", n.as_str()),
                        None => String::new(),
                    }
                } else {
                    match &self.filename {
                        Some(f) => prefixed("file:", f.as_str()),
                        None => String::new(),
                    }
                }
            },
        }
    }

    /// Takes the checksum of the placed file, or `None` if it could not be
    /// computed, and inserts the record with `now` as the time of
    /// installation.
    pub fn register(&mut self, checksum: Option<String>, now: Timestamp, registry: &mut Registry) -> (a:
        Action)
        requires
            old(self).wf(),
            old(registry).wf(),
        ensures
            final(self).wf(),
            final(registry).wf(),
            (final(self)@, a@, final(registry)@) == after_hashing(
                old(self)@,
                opt_view(checksum),
                now,
                old(registry)@,
            ),
    {
        if self.phase != Phase::Hashing || self.map_name.is_none() || self.filename.is_none() {
            return self.fail(InstallError::OutOfOrder);
        }
        let source_url = self.source_url();
        let name = match &self.map_name {
            Some(n) => n.clone(),
            None => String::new(),
        };
        let installed_path = match &self.filename {
            Some(f) => f.clone(),
            None => String::new(),
        };
        let kind = match &checksum {
            Some(_) => Some(string_of(&chars_of(checksum_kind()))),
            None => None,
        };
        let entry = MapEntry {
            id: 0,
            name,
            source_url,
            source_kind: self.source_kind,
            workshop_id: clamp_workshop_id(self.source_kind, self.workshop_id),
            installed_path,
            installed_at: now,
            version: clone_opt(&self.version),
            checksum,
            checksum_kind: kind,
        };
        assert(entry@ == record_of(self@, opt_view(checksum), now));
        let mut stored = entry.duplicate();
        match registry.add_map(entry) {
            Err(e) => self.fail(InstallError::Registry(e)),
            Ok(id) => {
                stored.id = id;
                assert(stored@ == stored_as(record_of(self@, opt_view(checksum), now), id));
                self.phase = Phase::Storing;
                self.record = Some(stored.duplicate());
                Action::Store { entry: stored }
            },
        }
    }

    /// Takes the report on the writing of the record to the store.
    pub fn on_stored(&mut self, ok: bool, registry: &mut Registry) -> (a: Action)
        requires
            old(self).wf(),
            old(registry).wf(),
        ensures
            final(self).wf(),
            final(registry).wf(),
            (final(self)@, a@, final(registry)@) == after_storing(old(self)@, ok, old(registry)@),
            a@ is Finish && a@->result is Ok ==> {
                let e = a@->result->Ok_0;
                &&& ok && old(self)@.phase == Phase::Storing
                &&& valid_entry(e)
                &&& ends_with(e.installed_path, ".vpk"@)
                &&& path_is_contained(e.installed_path)
                &&& old(self)@.placed == Some(join_of(old(self)@.addons_dir, e.installed_path))
                &&& e.source_kind == old(self)@.source_kind
                &&& e.workshop_id == old(self)@.workshop_id
                &&& a@->remove_placed is None
            },
    {
        proof {
            if self@.package is Some {
                lemma_installed_file_name(self@.package->0);
            }
        }
        if self.phase != Phase::Storing {
            return self.fail(InstallError::OutOfOrder);
        }
        let entry = match &self.record {
            None => {
                return self.fail(InstallError::OutOfOrder);
            },
            Some(e) => e.duplicate(),
        };
        if !ok {
            registry.retract(entry.id);
            return self.fail(InstallError::StorageFailed);
        }
        self.phase = Phase::Done;
        Action::Finish {
            result: Ok(entry),
            remove_placed: None,
            remove_download: clone_opt(&self.download),
            remove_scratch: clone_opt(&self.scratch),
        }
    }

    /// Takes the checksum of the placed file, or `None` if it could not be
    /// computed, and inserts the record with the present time.
    pub fn on_hashed(&mut self, checksum: Option<String>, registry: &mut Registry) -> (a: Action)
        requires
            old(self).wf(),
            old(registry).wf(),
        ensures
            final(self).wf(),
            final(registry).wf(),
            exists|now: Timestamp|
                (final(self)@, a@, final(registry)@) == after_hashing(
                    old(self)@,
                    opt_view(checksum),
                    now,
                    old(registry)@,
                ),
    {
        let now = now_utc();
        let a = self.register(checksum, now, registry);
        assert((self@, a@, registry@) == after_hashing(
            old(self)@,
            opt_view(checksum),
            now,
            old(registry)@,
        ));
        a
    }
}

} // verus!
