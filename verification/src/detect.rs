//! The reconciliation of a package that was put into the add-ons directory
//! by hand: it gets a record unless it has one.

use crate::archive::path_extension;
use crate::checksum::checksum_kind;
use crate::clock::now_utc;
use crate::download::file_extension;
use crate::models::{opt_view, MapEntry, MapEntryView, SourceKind, Timestamp};
use crate::paths::{is_dot_dot, path_components, piece_views};
use crate::registry::{added, Registry, RegistryError, RegistryView};
use crate::sanitize::{name_outcome, relative_to, sanitize_map_name, strip_base, NameError};
use crate::text::{chars_of, lowercase_of, prefixed, same_chars, string_of};
use crate::vpk::{VpkMetadata, VpkMetadataView};
use vstd::prelude::*;

verus! {

/// How the look at a new file ended.
#[derive(Debug)]
pub enum Detection {
    /// The file is not a package below the add-ons directory, or its
    /// metadata cannot be read.
    Ignored,
    /// A live record names the file already.
    Known(MapEntry),
    /// The file got this record.
    Added(MapEntry),
    /// The title of the package gives no acceptable name.
    BadName(NameError),
    /// The registry refused the record.
    Refused(RegistryError),
    /// The record could not be written to the store.
    StoreFailed,
    /// A report came that the detection was not waiting for.
    OutOfOrder,
}

/// The mathematical content of a `Detection`.
pub enum DetectionView {
    Ignored,
    Known(MapEntryView),
    Added(MapEntryView),
    BadName(NameError),
    Refused(RegistryError),
    StoreFailed,
    OutOfOrder,
}

impl View for Detection {
    type V = DetectionView;

    open spec fn view(&self) -> DetectionView {
        match self {
            Detection::Ignored => DetectionView::Ignored,
            Detection::Known(e) => DetectionView::Known(e@),
            Detection::Added(e) => DetectionView::Added(e@),
            Detection::BadName(e) => DetectionView::BadName(*e),
            Detection::Refused(e) => DetectionView::Refused(*e),
            Detection::StoreFailed => DetectionView::StoreFailed,
            Detection::OutOfOrder => DetectionView::OutOfOrder,
        }
    }
}

/// What the caller is asked to do next.
#[derive(Debug)]
pub enum DetectAction {
    /// Read the metadata of the package at `path`.
    ReadMetadata { path: String },
    /// Compute the checksum of the file at `path`.
    Hash { path: String },
    /// Write the record to the store.
    Store { entry: MapEntry },
    /// The detection is over.
    Finish(Detection),
}

/// The mathematical content of a `DetectAction`.
pub enum DetectActionView {
    ReadMetadata { path: Seq<char> },
    Hash { path: Seq<char> },
    Store { entry: MapEntryView },
    Finish(DetectionView),
}

impl View for DetectAction {
    type V = DetectActionView;

    open spec fn view(&self) -> DetectActionView {
        match self {
            DetectAction::ReadMetadata { path } => DetectActionView::ReadMetadata { path: path@ },
            DetectAction::Hash { path } => DetectActionView::Hash { path: path@ },
            DetectAction::Store { entry } => DetectActionView::Store { entry: entry@ },
            DetectAction::Finish(d) => DetectActionView::Finish(d@),
        }
    }
}

/// Where a detection stands.
#[derive(Clone, Copy, Debug, PartialEq, Eq, Structural)]
pub enum DetectPhase {
    ReadingMetadata,
    Hashing,
    Storing,
    Done,
}

/// One detection in progress.
pub struct Detect {
    phase: DetectPhase,
    path: String,
    relative: String,
    title: Option<String>,
    version: Option<String>,
    record: Option<MapEntry>,
}

/// The mathematical content of a `Detect`.
pub struct DetectView {
    pub phase: DetectPhase,
    /// The file that was created.
    pub path: Seq<char>,
    /// The same, as seen from the add-ons directory.
    pub relative: Seq<char>,
    pub title: Option<Seq<char>>,
    pub version: Option<Seq<char>>,
    /// The record, once the registry has taken it.
    pub record: Option<MapEntryView>,
}

impl View for Detect {
    type V = DetectView;

    closed spec fn view(&self) -> DetectView {
        DetectView {
            phase: self.phase,
            path: self.path@,
            relative: self.relative@,
            title: opt_view(self.title),
            version: opt_view(self.version),
            record: crate::models::entry_opt_view(self.record),
        }
    }
}

/// The first live record with `path` as its installed path.
pub open spec fn record_at(entries: Seq<MapEntryView>, path: Seq<char>) -> Option<MapEntryView>
    decreases entries.len(),
{
    if entries.len() == 0 {
        None
    } else {
        match record_at(entries.drop_last(), path) {
            Some(e) => Some(e),
            None => if entries.last().installed_path == path {
                Some(entries.last())
            } else {
                None
            },
        }
    }
}

/// The start of a detection. A path outside the add-ons directory, or one
/// whose extension is not `vpk`, is ignored; a path that a live record
/// names is known; anything else has its metadata read.
pub open spec fn detect_begun(path: Seq<char>, addons: Seq<char>, reg: RegistryView) -> (
    DetectView,
    DetectActionView,
) {
    let idle = DetectView {
        phase: DetectPhase::Done,
        path,
        relative: Seq::empty(),
        title: None,
        version: None,
        record: None,
    };
    match relative_to(path, addons) {
        None => (idle, DetectActionView::Finish(DetectionView::Ignored)),
        Some(rel) => if path_extension(path) != Some("vpk"@) {
            (idle, DetectActionView::Finish(DetectionView::Ignored))
        } else {
            match record_at(reg.entries, rel) {
                Some(e) => (
                    DetectView { relative: rel, ..idle },
                    DetectActionView::Finish(DetectionView::Known(e)),
                ),
                None => (
                    DetectView { phase: DetectPhase::ReadingMetadata, relative: rel, ..idle },
                    DetectActionView::ReadMetadata { path },
                ),
            }
        },
    }
}

/// After the metadata was read; `None` if it could not be.
pub open spec fn detect_after_metadata(s: DetectView, meta: Option<VpkMetadataView>) -> (
    DetectView,
    DetectActionView,
) {
    let done = DetectView { phase: DetectPhase::Done, ..s };
    if s.phase != DetectPhase::ReadingMetadata {
        (done, DetectActionView::Finish(DetectionView::OutOfOrder))
    } else {
        match meta {
            None => (done, DetectActionView::Finish(DetectionView::Ignored)),
            Some(m) => (
                DetectView {
                    phase: DetectPhase::Hashing,
                    title: Some(m.title),
                    version: Some(m.version),
                    ..s
                },
                DetectActionView::Hash { path: s.path },
            ),
        }
    }
}

/// The record for a detected package.
pub open spec fn detected_record(
    s: DetectView,
    name: Seq<char>,
    checksum: Option<Seq<char>>,
    now: Timestamp,
) -> MapEntryView {
    MapEntryView {
        id: 0,
        name,
        source_url: "detected:"@ + s.path,
        source_kind: SourceKind::Other,
        workshop_id: None,
        installed_path: s.relative,
        installed_at: now,
        version: s.version,
        checksum,
        checksum_kind: match checksum {
            Some(_) => Some("md5"@),
            None => None,
        },
    }
}

/// After the checksum was computed, or could not be: the title is
/// sanitized into the name and the record is inserted; the record, as the
/// registry holds it, is then to be written to the store.
pub open spec fn detect_after_hashing(
    s: DetectView,
    checksum: Option<Seq<char>>,
    now: Timestamp,
    reg: RegistryView,
) -> (DetectView, DetectActionView, RegistryView) {
    let done = DetectView { phase: DetectPhase::Done, ..s };
    if s.phase != DetectPhase::Hashing || s.title is None {
        (done, DetectActionView::Finish(DetectionView::OutOfOrder), reg)
    } else {
        match name_outcome(lowercase_of(s.title->0)) {
            Err(e) => (done, DetectActionView::Finish(DetectionView::BadName(e)), reg),
            Ok(name) => match added(reg, detected_record(s, name, checksum, now)) {
                Err(e) => (done, DetectActionView::Finish(DetectionView::Refused(e)), reg),
                Ok(pair) => {
                    let entry = crate::models::stored_as(
                        detected_record(s, name, checksum, now),
                        pair.1,
                    );
                    (
                        DetectView { phase: DetectPhase::Storing, record: Some(entry), ..s },
                        DetectActionView::Store { entry },
                        pair.0,
                    )
                },
            },
        }
    }
}

/// After the record was written to the store, or could not be: if not, the
/// insert is taken back.
pub open spec fn detect_after_storing(s: DetectView, ok: bool, reg: RegistryView) -> (
    DetectView,
    DetectActionView,
    RegistryView,
) {
    let done = DetectView { phase: DetectPhase::Done, ..s };
    if s.phase != DetectPhase::Storing || s.record is None {
        (done, DetectActionView::Finish(DetectionView::OutOfOrder), reg)
    } else if !ok {
        (
            done,
            DetectActionView::Finish(DetectionView::StoreFailed),
            crate::registry::retracted(reg, s.record->0.id),
        )
    } else {
        (done, DetectActionView::Finish(DetectionView::Added(s.record->0)), reg)
    }
}

/// Whether the extension of the last component of `path` is exactly `vpk`.
fn has_vpk_extension(path: &str) -> (b: bool)
    ensures
        b == (path_extension(path@) == Some("vpk"@)),
{
    let raw = chars_of(path);
    let parts = path_components(&raw);
    let n = parts.len();
    if n == 0 {
        return false;
    }
    assert(piece_views(parts@).last() == parts@[n - 1]@);
    if is_dot_dot(&parts[n - 1]) {
        return false;
    }
    let name = string_of(&parts[n - 1]);
    match file_extension(name.as_str()) {
        None => false,
        Some(e) => same_chars(&chars_of(e.as_str()), &chars_of("vpk")),
    }
}

/// The first live record with `path` as its installed path.
fn find_record_at(entries: &Vec<MapEntry>, path: &str) -> (r: Option<MapEntry>)
    ensures
        match r {
            Some(e) => record_at(crate::registry::entry_views(entries@), path@) == Some(e@),
            None => record_at(crate::registry::entry_views(entries@), path@) is None,
        },
{
    let wanted = chars_of(path);
    let ghost all = crate::registry::entry_views(entries@);
    let mut i: usize = 0;
    assert(all.take(0) =~= Seq::<MapEntryView>::empty());
    while i < entries.len()
        invariant
            i <= entries.len(),
            all == crate::registry::entry_views(entries@),
            wanted@ == path@,
            record_at(all.take(i as int), path@) is None,
        decreases entries.len() - i,
    {
        assert(all.take(i + 1).drop_last() =~= all.take(i as int));
        assert(all.take(i + 1).last() == entries@[i as int]@);
        let have = chars_of(entries[i].installed_path.as_str());
        if same_chars(&have, &wanted) {
            proof {
                lemma_record_at_stays(all, path@, i + 1);
            }
            return Some(entries[i].duplicate());
        }
        i += 1;
    }
    assert(all.take(entries.len() as int) =~= all);
    None
}

/// A record found among the first `n` stays the first record at the path.
pub proof fn lemma_record_at_stays(entries: Seq<MapEntryView>, path: Seq<char>, n: int)
    requires
        0 <= n <= entries.len(),
        record_at(entries.take(n), path) is Some,
    ensures
        record_at(entries, path) == record_at(entries.take(n), path),
    decreases entries.len() - n,
{
    if n < entries.len() {
        assert(entries.take(n + 1).drop_last() =~= entries.take(n));
        lemma_record_at_stays(entries, path, n + 1);
    } else {
        assert(entries.take(n) =~= entries);
    }
}

impl Detect {
    /// Where the detection stands.
    pub fn phase(&self) -> (p: DetectPhase)
        ensures
            p == self@.phase,
    {
        self.phase
    }

    /// Starts the look at the file that was created at `path`.
    pub fn begin(path: String, addons_dir: &str, registry: &Registry) -> (r: (Detect, DetectAction))
        requires
            registry.wf(),
        ensures
            (r.0@, r.1@) == detect_begun(path@, addons_dir@, registry@),
    {
        let relative = strip_base(path.as_str(), addons_dir);
        let mut s = Detect {
            phase: DetectPhase::Done,
            path,
            relative: String::new(),
            title: None,
            version: None,
            record: None,
        };
        match relative {
            None => (s, DetectAction::Finish(Detection::Ignored)),
            Some(rel) => {
                if !has_vpk_extension(s.path.as_str()) {
                    return (s, DetectAction::Finish(Detection::Ignored));
                }
                let known = find_record_at(&registry.list_maps(), rel.as_str());
                s.relative = rel;
                match known {
                    Some(e) => (s, DetectAction::Finish(Detection::Known(e))),
                    None => {
                        s.phase = DetectPhase::ReadingMetadata;
                        let path = s.path.clone();
                        (s, DetectAction::ReadMetadata { path })
                    },
                }
            },
        }
    }

    /// Takes the metadata of the package, or `None` if it could not be
    /// read.
    pub fn on_metadata(&mut self, meta: Option<VpkMetadata>) -> (a: DetectAction)
        ensures
            (final(self)@, a@) == detect_after_metadata(
                old(self)@,
                match meta {
                    Some(m) => Some(m@),
                    None => None,
                },
            ),
    {
        if self.phase != DetectPhase::ReadingMetadata {
            self.phase = DetectPhase::Done;
            return DetectAction::Finish(Detection::OutOfOrder);
        }
        match meta {
            None => {
                self.phase = DetectPhase::Done;
                DetectAction::Finish(Detection::Ignored)
            },
            Some(m) => {
                self.phase = DetectPhase::Hashing;
                self.title = Some(m.title);
                self.version = Some(m.version);
                DetectAction::Hash { path: self.path.clone() }
            },
        }
    }

    /// Takes the checksum of the file, or `None` if it could not be
    /// computed, and inserts the record with `now` as the time of
    /// installation.
    pub fn register(&mut self, checksum: Option<String>, now: Timestamp, registry: &mut Registry) -> (a:
        DetectAction)
        requires
            old(registry).wf(),
        ensures
            final(registry).wf(),
            (final(self)@, a@, final(registry)@) == detect_after_hashing(
                old(self)@,
                opt_view(checksum),
                now,
                old(registry)@,
            ),
    {
        if self.phase != DetectPhase::Hashing || self.title.is_none() {
            self.phase = DetectPhase::Done;
            return DetectAction::Finish(Detection::OutOfOrder);
        }
        self.phase = DetectPhase::Done;
        let sanitized = match &self.title {
            Some(t) => sanitize_map_name(t.as_str()),
            None => Err(NameError::Empty),
        };
        let name = match sanitized {
            Err(e) => {
                return DetectAction::Finish(Detection::BadName(e));
            },
            Ok(n) => n,
        };
        let kind = match &checksum {
            Some(_) => Some(string_of(&chars_of(checksum_kind()))),
            None => None,
        };
        let entry = MapEntry {
            id: 0,
            name,
            source_url: prefixed("detected:", self.path.as_str()),
            source_kind: SourceKind::Other,
            workshop_id: None,
            installed_path: self.relative.clone(),
            installed_at: now,
            version: crate::models::clone_opt(&self.version),
            checksum,
            checksum_kind: kind,
        };
        let mut stored = entry.duplicate();
        match registry.add_map(entry) {
            Err(e) => DetectAction::Finish(Detection::Refused(e)),
            Ok(id) => {
                stored.id = id;
                self.phase = DetectPhase::Storing;
                self.record = Some(stored.duplicate());
                DetectAction::Store { entry: stored }
            },
        }
    }

    /// Takes the report on the writing of the record to the store.
    pub fn on_stored(&mut self, ok: bool, registry: &mut Registry) -> (a: DetectAction)
        requires
            old(registry).wf(),
        ensures
            final(registry).wf(),
            (final(self)@, a@, final(registry)@) == detect_after_storing(
                old(self)@,
                ok,
                old(registry)@,
            ),
    {
        if self.phase != DetectPhase::Storing {
            self.phase = DetectPhase::Done;
            return DetectAction::Finish(Detection::OutOfOrder);
        }
        self.phase = DetectPhase::Done;
        let entry = match &self.record {
            None => {
                return DetectAction::Finish(Detection::OutOfOrder);
            },
            Some(e) => e.duplicate(),
        };
        if !ok {
            registry.retract(entry.id);
            return DetectAction::Finish(Detection::StoreFailed);
        }
        DetectAction::Finish(Detection::Added(entry))
    }

    /// Takes the checksum of the file, or `None` if it could not be
    /// computed, and inserts the record with the present time.
    pub fn on_hashed(&mut self, checksum: Option<String>, registry: &mut Registry) -> (a:
        DetectAction)
        requires
            old(registry).wf(),
        ensures
            final(registry).wf(),
            exists|now: Timestamp|
                (final(self)@, a@, final(registry)@) == detect_after_hashing(
                    old(self)@,
                    opt_view(checksum),
                    now,
                    old(registry)@,
                ),
    {
        let now = now_utc();
        let a = self.register(checksum, now, registry);
        assert((self@, a@, registry@) == detect_after_hashing(
            old(self)@,
            opt_view(checksum),
            now,
            old(registry)@,
        ));
        a
    }
}

/// Looking twice at the same package adds one record: once a live record
/// names the path, the detection ends at once and asks for nothing.
pub proof fn lemma_detection_is_idempotent(path: Seq<char>, addons: Seq<char>, reg: RegistryView)
    requires
        relative_to(path, addons) is Some,
        record_at(reg.entries, relative_to(path, addons)->0) is Some,
    ensures
        detect_begun(path, addons, reg).1 is Finish,
        !(detect_begun(path, addons, reg).1->Finish_0 is Added),
{
}

/// A record that a detection has inserted names the path, so the next look
/// at the path finds it.
pub proof fn lemma_added_record_is_found_at_path(
    s: DetectView,
    checksum: Option<Seq<char>>,
    now: Timestamp,
    reg: RegistryView,
)
    requires
        detect_after_hashing(s, checksum, now, reg).1 is Store,
    ensures
        record_at(detect_after_hashing(s, checksum, now, reg).2.entries, s.relative) is Some,
        detect_after_hashing(s, checksum, now, reg).1->entry.installed_path == s.relative,
        detect_after_hashing(s, checksum, now, reg).1->entry.source_kind == SourceKind::Other,
        detect_after_hashing(s, checksum, now, reg).1->entry.workshop_id is None,
{
    let after = detect_after_hashing(s, checksum, now, reg).2.entries;
    assert(after.last().installed_path == s.relative);
}

/// If the store fails right after the insert, the registry is exactly as
/// it was before the insert.
pub proof fn lemma_failed_store_restores_the_registry(
    s: DetectView,
    checksum: Option<Seq<char>>,
    now: Timestamp,
    reg: RegistryView,
)
    requires
        crate::registry::registry_inv(reg),
        detect_after_hashing(s, checksum, now, reg).1 is Store,
    ensures
        ({
            let inserted = detect_after_hashing(s, checksum, now, reg);
            detect_after_storing(inserted.0, false, inserted.2).2 == reg
        }),
{
    let name = name_outcome(lowercase_of(s.title->0))->Ok_0;
    crate::registry_laws::lemma_retract_undoes_add(
        reg,
        detected_record(s, name, checksum, now),
    );
}

} // verus!
