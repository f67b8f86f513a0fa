//! The removal of an installed map: the file first, then the record.

use crate::error::ErrorKind;
use crate::paths::join_of;
use crate::registry::{lookup, removed, Registry, RegistryView};
use crate::sanitize::{
    containment, join_path, validate_path_within_base_new, DiskState, PathError,
};
use vstd::prelude::*;

verus! {

/// Why a map was not uninstalled.
#[derive(Clone, Copy, Debug, PartialEq, Eq, Structural)]
pub enum UninstallError {
    /// No live map has the identifier.
    NotFound,
    /// The installed path of the record leads outside the add-ons
    /// directory; nothing was touched.
    Containment(PathError),
    /// The file could not be removed; the record stays.
    RemovalFailed,
    /// A report came that the removal was not waiting for.
    OutOfOrder,
}

/// The kind that a failed removal is reported as.
pub open spec fn uninstall_error_kind(e: UninstallError) -> ErrorKind {
    match e {
        UninstallError::NotFound => ErrorKind::NotFound,
        UninstallError::Containment(_) => ErrorKind::ContainmentViolation,
        UninstallError::RemovalFailed => ErrorKind::StorageError,
        UninstallError::OutOfOrder => ErrorKind::StorageError,
    }
}

impl UninstallError {
    /// The kind that the failure is reported as.
    pub fn kind(self) -> (k: ErrorKind)
        ensures
            k == uninstall_error_kind(self),
    {
        match self {
            UninstallError::NotFound => ErrorKind::NotFound,
            UninstallError::Containment(_) => ErrorKind::ContainmentViolation,
            UninstallError::RemovalFailed => ErrorKind::StorageError,
            UninstallError::OutOfOrder => ErrorKind::StorageError,
        }
    }
}

/// Where a removal stands.
#[derive(Clone, Copy, Debug, PartialEq, Eq, Structural)]
pub enum UninstallPhase {
    /// Waiting for what is on disk at the installed path.
    Inspecting,
    /// Waiting for the removal of the file.
    Removing,
    /// Finished.
    Done,
}

/// What the caller is asked to do next.
#[derive(Debug)]
pub enum UninstallAction {
    /// Find out whether something exists at `path` and, if so, the
    /// canonical forms of `path` and of `base`.
    Inspect { path: String, base: String },
    /// Remove the file at `path`, or the directory with all its content.
    Remove { path: String },
    /// The removal is over.
    Finish(Result<(), UninstallError>),
}

/// The mathematical content of an `UninstallAction`.
pub enum UninstallActionView {
    Inspect { path: Seq<char>, base: Seq<char> },
    Remove { path: Seq<char> },
    Finish(Result<(), UninstallError>),
}

impl View for UninstallAction {
    type V = UninstallActionView;

    open spec fn view(&self) -> UninstallActionView {
        match self {
            UninstallAction::Inspect { path, base } => UninstallActionView::Inspect {
                path: path@,
                base: base@,
            },
            UninstallAction::Remove { path } => UninstallActionView::Remove { path: path@ },
            UninstallAction::Finish(r) => UninstallActionView::Finish(*r),
        }
    }
}

/// One removal in progress.
pub struct Uninstall {
    phase: UninstallPhase,
    id: u64,
    path: String,
    addons_dir: String,
}

/// The mathematical content of an `Uninstall`.
pub struct UninstallView {
    pub phase: UninstallPhase,
    pub id: u64,
    /// The installed file, below the add-ons directory.
    pub path: Seq<char>,
    pub addons_dir: Seq<char>,
}

impl View for Uninstall {
    type V = UninstallView;

    closed spec fn view(&self) -> UninstallView {
        UninstallView {
            phase: self.phase,
            id: self.id,
            path: self.path@,
            addons_dir: self.addons_dir@,
        }
    }
}

/// The start of a removal: without a live record it ends at once; else the
/// installed path is joined to the add-ons directory and inspected.
pub open spec fn uninstall_begun(reg: RegistryView, id: u64, addons: Seq<char>) -> (
    UninstallView,
    UninstallActionView,
) {
    match lookup(reg.entries, id) {
        None => (
            UninstallView { phase: UninstallPhase::Done, id, path: Seq::empty(), addons_dir: addons },
            UninstallActionView::Finish(Err(UninstallError::NotFound)),
        ),
        Some(e) => {
            let path = join_of(addons, e.installed_path);
            (
                UninstallView { phase: UninstallPhase::Inspecting, id, path, addons_dir: addons },
                UninstallActionView::Inspect { path, base: addons },
            )
        },
    }
}

/// After the inspection: a path that leaves the add-ons directory ends the
/// removal and nothing is touched; a file that is absent leaves only the
/// record to remove; else the file is removed first.
pub open spec fn after_inspection(s: UninstallView, disk: DiskState, reg: RegistryView) -> (
    UninstallView,
    UninstallActionView,
    RegistryView,
) {
    let done = UninstallView { phase: UninstallPhase::Done, ..s };
    if s.phase != UninstallPhase::Inspecting {
        (done, UninstallActionView::Finish(Err(UninstallError::OutOfOrder)), reg)
    } else {
        match containment(s.path, s.addons_dir, disk) {
            Err(e) => (
                done,
                UninstallActionView::Finish(Err(UninstallError::Containment(e))),
                reg,
            ),
            Ok(_) => if disk is Absent {
                (done, UninstallActionView::Finish(Ok(())), removed(reg, s.id))
            } else {
                (
                    UninstallView { phase: UninstallPhase::Removing, ..s },
                    UninstallActionView::Remove { path: s.path },
                    reg,
                )
            },
        }
    }
}

/// After the removal of the file: the record goes only if the file went.
pub open spec fn after_removal(s: UninstallView, ok: bool, reg: RegistryView) -> (
    UninstallView,
    UninstallActionView,
    RegistryView,
) {
    let done = UninstallView { phase: UninstallPhase::Done, ..s };
    if s.phase != UninstallPhase::Removing {
        (done, UninstallActionView::Finish(Err(UninstallError::OutOfOrder)), reg)
    } else if !ok {
        (done, UninstallActionView::Finish(Err(UninstallError::RemovalFailed)), reg)
    } else {
        (done, UninstallActionView::Finish(Ok(())), removed(reg, s.id))
    }
}

impl Uninstall {
    /// Where the removal stands.
    pub fn phase(&self) -> (p: UninstallPhase)
        ensures
            p == self@.phase,
    {
        self.phase
    }

    /// Starts the removal of the map with identifier `id`.
    pub fn begin(registry: &Registry, id: u64, addons_dir: String) -> (r: (
        Uninstall,
        UninstallAction,
    ))
        ensures
            (r.0@, r.1@) == uninstall_begun(registry@, id, addons_dir@),
    {
        match registry.get_map(id) {
            None => (
                Uninstall { phase: UninstallPhase::Done, id, path: String::new(), addons_dir },
                UninstallAction::Finish(Err(UninstallError::NotFound)),
            ),
            Some(e) => {
                let path = join_path(addons_dir.as_str(), e.installed_path.as_str());
                let base = addons_dir.clone();
                (
                    Uninstall {
                        phase: UninstallPhase::Inspecting,
                        id,
                        path: path.clone(),
                        addons_dir,
                    },
                    UninstallAction::Inspect { path, base },
                )
            },
        }
    }

    /// Takes what the caller found on disk at the installed path.
    pub fn on_inspected(&mut self, disk: &DiskState, registry: &mut Registry) -> (a:
        UninstallAction)
        requires
            old(registry).wf(),
        ensures
            final(registry).wf(),
            (final(self)@, a@, final(registry)@) == after_inspection(
                old(self)@,
                *disk,
                old(registry)@,
            ),
    {
        if self.phase != UninstallPhase::Inspecting {
            self.phase = UninstallPhase::Done;
            return UninstallAction::Finish(Err(UninstallError::OutOfOrder));
        }
        match validate_path_within_base_new(self.path.as_str(), self.addons_dir.as_str(), disk) {
            Err(e) => {
                self.phase = UninstallPhase::Done;
                UninstallAction::Finish(Err(UninstallError::Containment(e)))
            },
            Ok(()) => match disk {
                DiskState::Absent => {
                    registry.remove_map(self.id);
                    self.phase = UninstallPhase::Done;
                    UninstallAction::Finish(Ok(()))
                },
                _ => {
                    self.phase = UninstallPhase::Removing;
                    UninstallAction::Remove { path: self.path.clone() }
                },
            },
        }
    }

    /// Takes the report on the removal of the file.
    pub fn on_removed(&mut self, ok: bool, registry: &mut Registry) -> (a: UninstallAction)
        requires
            old(registry).wf(),
        ensures
            final(registry).wf(),
            (final(self)@, a@, final(registry)@) == after_removal(old(self)@, ok, old(registry)@),
    {
        if self.phase != UninstallPhase::Removing {
            self.phase = UninstallPhase::Done;
            return UninstallAction::Finish(Err(UninstallError::OutOfOrder));
        }
        self.phase = UninstallPhase::Done;
        if !ok {
            return UninstallAction::Finish(Err(UninstallError::RemovalFailed));
        }
        registry.remove_map(self.id);
        UninstallAction::Finish(Ok(()))
    }
}

/// A removal never asks the caller to remove a path that holds `..` or
/// whose canonical form lies outside the add-ons directory.
pub proof fn lemma_only_contained_paths_are_removed(
    s: UninstallView,
    disk: DiskState,
    reg: RegistryView,
)
    requires
        after_inspection(s, disk, reg).1 is Remove,
    ensures
        after_inspection(s, disk, reg).1->Remove_path == s.path,
        containment(s.path, s.addons_dir, disk) is Ok,
        !crate::paths::has_parent_ref(join_of(s.addons_dir, s.path)),
        disk is Resolved ==> crate::paths::path_starts_with(
            disk->Resolved_path@,
            disk->Resolved_base@,
        ),
{
}

/// After a removal that succeeds, no record has the identifier; after one
/// that fails, the registry is as it was.
pub proof fn lemma_uninstall_outcome(s: UninstallView, disk: DiskState, ok: bool, reg: RegistryView)
    requires
        crate::registry::registry_inv(reg),
    ensures
        after_inspection(s, disk, reg).1 == UninstallActionView::Finish(Ok(())) ==> lookup(
            after_inspection(s, disk, reg).2.entries,
            s.id,
        ) is None,
        after_removal(s, ok, reg).1 == UninstallActionView::Finish(Ok(())) ==> lookup(
            after_removal(s, ok, reg).2.entries,
            s.id,
        ) is None,
        after_inspection(s, disk, reg).1 != UninstallActionView::Finish(Ok(()))
            ==> after_inspection(s, disk, reg).2 == reg,
        after_removal(s, ok, reg).1 != UninstallActionView::Finish(Ok(())) ==> after_removal(
            s,
            ok,
            reg,
        ).2 == reg,
{
    crate::registry_laws::lemma_removed_record_is_gone(reg, s.id);
}

/// The removal of a live map whose file exists below the add-ons
/// directory: the file at the installed path below the add-ons directory is
/// inspected, then removed, and once it is gone the record goes too and the
/// removal ends well. Until then the registry is as it was.
pub proof fn lemma_present_file_is_removed(
    reg: RegistryView,
    id: u64,
    addons: Seq<char>,
    disk: DiskState,
)
    requires
        crate::registry::registry_inv(reg),
        lookup(reg.entries, id) is Some,
        addons.len() > 0,
        !crate::paths::has_parent_ref(addons),
        disk is Resolved,
        crate::paths::path_starts_with(disk->Resolved_path@, disk->Resolved_base@),
    ensures
        ({
            let file = join_of(addons, (lookup(reg.entries, id)->0).installed_path);
            let start = uninstall_begun(reg, id, addons);
            let looked = after_inspection(start.0, disk, reg);
            let end = after_removal(looked.0, true, looked.2);
            &&& start.1 == (UninstallActionView::Inspect { path: file, base: addons })
            &&& crate::paths::path_starts_with(file, addons)
            &&& looked.1 == (UninstallActionView::Remove { path: file })
            &&& looked.2 == reg
            &&& end.1 == UninstallActionView::Finish(Ok(()))
            &&& end.2 == removed(reg, id)
            &&& lookup(end.2.entries, id) is None
        }),
{
    crate::registry::lemma_position(reg.entries, id);
    let e = lookup(reg.entries, id)->0;
    let rel = e.installed_path;
    assert(crate::models::valid_entry(e));
    let file = join_of(addons, rel);
    crate::paths::lemma_join_stays_below(addons, rel);
    if !crate::paths::is_absolute(file) {
        crate::paths::lemma_join_stays_below(addons, file);
    }
    crate::registry_laws::lemma_removed_record_is_gone(reg, id);
}

} // verus!
