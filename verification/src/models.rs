//! The record of an installed map and the rules that every stored record
//! obeys.

use crate::paths::{has_parent_ref, is_absolute};
use crate::sanitize::path_has_parent_ref;
use crate::text::chars_of;
use vstd::prelude::*;

verus! {

/// Where a map came from.
#[derive(Clone, Copy, Debug, PartialEq, Eq, Structural)]
pub enum SourceKind {
    /// The Steam Workshop.
    Workshop,
    /// Anything else: a direct download or a file found on disk.
    Other,
}

/// An instant in UTC: seconds since the Unix epoch and the nanoseconds
/// within that second.
#[derive(Clone, Copy, Debug, PartialEq, Eq, Structural)]
pub struct Timestamp {
    pub secs: i64,
    pub nanos: u32,
}

/// One installed map.
#[derive(Debug)]
pub struct MapEntry {
    /// Assigned by the registry on insert; what a caller writes here before
    /// the insert is ignored.
    pub id: u64,
    /// The sanitized name.
    pub name: String,
    /// Where the map came from, as free text.
    pub source_url: String,
    /// Workshop or other.
    pub source_kind: SourceKind,
    /// The Workshop item, for Workshop maps only.
    pub workshop_id: Option<u64>,
    /// The installed file, relative to the add-ons directory.
    pub installed_path: String,
    /// When the map was installed.
    pub installed_at: Timestamp,
    /// The version from the package metadata.
    pub version: Option<String>,
    /// The checksum of the installed file, in lowercase hexadecimal.
    pub checksum: Option<String>,
    /// The checksum algorithm; present exactly when `checksum` is.
    pub checksum_kind: Option<String>,
}

/// The mathematical content of a `MapEntry`.
pub struct MapEntryView {
    pub id: u64,
    pub name: Seq<char>,
    pub source_url: Seq<char>,
    pub source_kind: SourceKind,
    pub workshop_id: Option<u64>,
    pub installed_path: Seq<char>,
    pub installed_at: Timestamp,
    pub version: Option<Seq<char>>,
    pub checksum: Option<Seq<char>>,
    pub checksum_kind: Option<Seq<char>>,
}

/// The view of an optional text.
pub open spec fn opt_view(s: Option<String>) -> Option<Seq<char>> {
    match s {
        Some(t) => Some(t@),
        None => None,
    }
}

/// The view of an optional record.
pub open spec fn entry_opt_view(e: Option<MapEntry>) -> Option<MapEntryView> {
    match e {
        Some(x) => Some(x@),
        None => None,
    }
}

impl View for MapEntry {
    type V = MapEntryView;

    open spec fn view(&self) -> MapEntryView {
        MapEntryView {
            id: self.id,
            name: self.name@,
            source_url: self.source_url@,
            source_kind: self.source_kind,
            workshop_id: self.workshop_id,
            installed_path: self.installed_path@,
            installed_at: self.installed_at,
            version: opt_view(self.version),
            checksum: opt_view(self.checksum),
            checksum_kind: opt_view(self.checksum_kind),
        }
    }
}

/// The longest name that a record may carry, in characters.
pub const MAX_ENTRY_NAME_LEN: usize = 255;

/// The installed path is relative and has no `..` component.
pub open spec fn path_is_contained(p: Seq<char>) -> bool {
    !is_absolute(p) && !has_parent_ref(p)
}

/// Only a Workshop map carries a Workshop item.
pub open spec fn workshop_id_fits(e: MapEntryView) -> bool {
    e.source_kind != SourceKind::Workshop ==> e.workshop_id is None
}

/// The checksum and its kind are both present or both absent.
pub open spec fn checksum_is_paired(e: MapEntryView) -> bool {
    e.checksum is Some <==> e.checksum_kind is Some
}

/// What the registry accepts to store: a name of at most 255 characters, a
/// contained installed path, and a paired checksum.
pub open spec fn storable(e: MapEntryView) -> bool {
    &&& e.name.len() <= MAX_ENTRY_NAME_LEN
    &&& path_is_contained(e.installed_path)
    &&& checksum_is_paired(e)
}

/// What holds of every stored record.
pub open spec fn valid_entry(e: MapEntryView) -> bool {
    &&& storable(e)
    &&& workshop_id_fits(e)
}

/// The Workshop item that is stored for a record: its own for a Workshop
/// map, none otherwise.
pub open spec fn clamped_workshop_id(kind: SourceKind, id: Option<u64>) -> Option<u64> {
    if kind == SourceKind::Workshop {
        id
    } else {
        None
    }
}

/// The record as it is stored under the identifier `id`.
pub open spec fn stored_as(e: MapEntryView, id: u64) -> MapEntryView {
    MapEntryView {
        id,
        workshop_id: clamped_workshop_id(e.source_kind, e.workshop_id),
        ..e
    }
}

/// A copy of an optional text.
pub fn clone_opt(s: &Option<String>) -> (r: Option<String>)
    ensures
        opt_view(r) == opt_view(*s),
{
    match s {
        Some(t) => Some(t.clone()),
        None => None,
    }
}

/// The Workshop item that is stored for a record.
pub fn clamp_workshop_id(kind: SourceKind, id: Option<u64>) -> (r: Option<u64>)
    ensures
        r == clamped_workshop_id(kind, id),
{
    match kind {
        SourceKind::Workshop => id,
        SourceKind::Other => None,
    }
}

impl MapEntry {
    /// A record of kind `Other` with no Workshop item, version or checksum.
    pub fn new(
        id: u64,
        name: String,
        source_url: String,
        installed_path: String,
        installed_at: Timestamp,
    ) -> (e: MapEntry)
        ensures
            e@ == (MapEntryView {
                id,
                name: name@,
                source_url: source_url@,
                source_kind: SourceKind::Other,
                workshop_id: None,
                installed_path: installed_path@,
                installed_at,
                version: None,
                checksum: None,
                checksum_kind: None,
            }),
    {
        MapEntry {
            id,
            name,
            source_url,
            source_kind: SourceKind::Other,
            workshop_id: None,
            installed_path,
            installed_at,
            version: None,
            checksum: None,
            checksum_kind: None,
        }
    }

    /// A copy of the record.
    pub fn duplicate(&self) -> (e: MapEntry)
        ensures
            e@ == self@,
    {
        MapEntry {
            id: self.id,
            name: self.name.clone(),
            source_url: self.source_url.clone(),
            source_kind: self.source_kind,
            workshop_id: self.workshop_id,
            installed_path: self.installed_path.clone(),
            installed_at: self.installed_at,
            version: clone_opt(&self.version),
            checksum: clone_opt(&self.checksum),
            checksum_kind: clone_opt(&self.checksum_kind),
        }
    }

    /// Whether the registry accepts to store the record.
    pub fn is_storable(&self) -> (b: bool)
        ensures
            b == storable(self@),
    {
        let name = chars_of(self.name.as_str());
        let path = chars_of(self.installed_path.as_str());
        let absolute = path.len() > 0 && path[0] == '/';
        name.len() <= MAX_ENTRY_NAME_LEN && !absolute && !path_has_parent_ref(
            self.installed_path.as_str(),
        ) && self.checksum.is_some() == self.checksum_kind.is_some()
    }
}

} // verus!
