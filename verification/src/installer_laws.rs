//! What holds of every installation, whatever the caller reports.

use crate::api::SourceSpecView;
use crate::installer::{
    after_storing, begun, fetching, install_inv, lemma_installed_file_name, name_is_taken,
    after_download, after_download_url, after_extraction, after_hashing, after_listing,
    after_metadata, after_placement, after_selection, after_session, after_details, failed,
    record_of, ActionView, InstallError, InstallView, Phase,
};
use crate::download::{
    direct_file_name, extract_dir_name, is_token, scratch_name, without_query, workshop_file_name,
};
use crate::error::SteamError;
use crate::models::{
    path_is_contained, stored_as, valid_entry, MapEntryView, SourceKind, Timestamp,
};
use crate::paths::{
    join_of, lemma_join_stays_below, lemma_pieces_hold_no_separator,
    lemma_plain_name_is_contained, lemma_split_is_nonempty, path_starts_with,
};
use crate::registry::{added, lookup, registry_inv, retracted, RegistryView};
use crate::registry_laws::{
    lemma_added_record_is_found, lemma_retract_undoes_add, lemma_write_keeps_invariant, Write,
};
use crate::text::{decimal_text, ends_with};
use crate::url_validator::{parsed_url, url_verdict};
use crate::vpk::VpkMetadataView;
use vstd::prelude::*;

verus! {

/// What the caller reports after it has performed an action.
pub enum Report {
    /// The Steam session was asked for.
    Session(Result<(), SteamError>),
    /// The details of the Workshop item were asked for.
    Details(Option<Seq<u64>>),
    /// The download URL was asked for.
    DownloadUrl(Option<(i32, Option<Seq<char>>)>),
    /// The download ended.
    Downloaded(bool),
    /// The archive was listed.
    Listed(Option<Seq<String>>),
    /// The extraction ended.
    Extracted(bool),
    /// The extracted files were listed.
    Files(Option<Seq<String>>),
    /// The metadata was read.
    Metadata(Option<VpkMetadataView>),
    /// The copy ended.
    Placed(bool),
    /// The checksum was computed, at this time.
    Hashed(Option<Seq<char>>, Timestamp),
    /// The record was written to the store, or could not be.
    Stored(bool),
}

/// One step of an installation: the state, the action and the registry
/// after a report.
pub open spec fn step(s: InstallView, report: Report, reg: RegistryView) -> (
    InstallView,
    ActionView,
    RegistryView,
) {
    match report {
        Report::Session(o) => (after_session(s, o).0, after_session(s, o).1, reg),
        Report::Details(h) => (after_details(s, h).0, after_details(s, h).1, reg),
        Report::DownloadUrl(a) => (after_download_url(s, a).0, after_download_url(s, a).1, reg),
        Report::Downloaded(ok) => (after_download(s, ok).0, after_download(s, ok).1, reg),
        Report::Listed(n) => (after_listing(s, n).0, after_listing(s, n).1, reg),
        Report::Extracted(ok) => (after_extraction(s, ok).0, after_extraction(s, ok).1, reg),
        Report::Files(f) => (after_selection(s, f).0, after_selection(s, f).1, reg),
        Report::Metadata(m) => (after_metadata(s, m, reg).0, after_metadata(s, m, reg).1, reg),
        Report::Placed(ok) => (after_placement(s, ok).0, after_placement(s, ok).1, reg),
        Report::Hashed(c, now) => after_hashing(s, c, now, reg),
        Report::Stored(ok) => after_storing(s, ok, reg),
    }
}

/// The action ends the installation with a failure.
pub open spec fn is_failure(a: ActionView) -> bool {
    a is Finish && a->result is Err
}

/// The action ends the installation with success.
pub open spec fn is_success(a: ActionView) -> bool {
    a is Finish && a->result is Ok
}

/// A failed step asks for the removal of everything that the installation
/// has created: the copy in the add-ons directory, if one was attempted,
/// the download and the extraction directory. The registry is as it was,
/// unless the failure is that of the store: then the insert is taken back.
pub proof fn lemma_failure_leaves_no_trace(s: InstallView, report: Report, reg: RegistryView)
    requires
        s.phase != Phase::Done,
        is_failure(step(s, report, reg).1),
    ensures
        step(s, report, reg).0.phase == Phase::Done,
        step(s, report, reg).1->remove_placed == step(s, report, reg).0.placed,
        step(s, report, reg).1->remove_download == step(s, report, reg).0.download,
        step(s, report, reg).1->remove_scratch == step(s, report, reg).0.scratch,
        step(s, report, reg).0.download == s.download,
        step(s, report, reg).0.scratch == s.scratch,
        step(s, report, reg).0.placed == s.placed || (report == Report::Placed(false) && step(
            s,
            report,
            reg,
        ).0.placed == s.target),
        step(s, report, reg).2 == reg || (report == Report::Stored(false) && s.phase
            == Phase::Storing && s.record is Some && step(s, report, reg).2 == retracted(
            reg,
            s.record->0.id,
        )),
{
}

/// The registry changes in two steps only: when the record is inserted
/// after the checksum, and when that insert is taken back because the store
/// failed.
pub proof fn lemma_registry_changes_only_around_the_store(
    s: InstallView,
    report: Report,
    reg: RegistryView,
)
    ensures
        !(report is Hashed) && report != Report::Stored(false) ==> step(s, report, reg).2 == reg,
        report is Hashed ==> step(s, report, reg).2 == reg || (step(s, report, reg).1 is Store
            && added(reg, record_of(s, report->Hashed_0, report->Hashed_1)) is Ok && step(
            s,
            report,
            reg,
        ).2 == (added(reg, record_of(s, report->Hashed_0, report->Hashed_1))->Ok_0).0),
{
}

/// If the store fails right after the insert, the registry is exactly as
/// it was before the insert, the installation has failed, and the copy in
/// the add-ons directory is to be removed.
pub proof fn lemma_failed_store_restores_the_registry(
    s: InstallView,
    checksum: Option<Seq<char>>,
    now: Timestamp,
    reg: RegistryView,
)
    requires
        install_inv(s),
        registry_inv(reg),
        after_hashing(s, checksum, now, reg).1 is Store,
    ensures
        ({
            let inserted = after_hashing(s, checksum, now, reg);
            let end = after_storing(inserted.0, false, inserted.2);
            &&& end.2 == reg
            &&& end.1->result == Err::<MapEntryView, InstallError>(InstallError::StorageFailed)
            &&& end.1->remove_placed == s.placed
            &&& s.placed is Some
        }),
{
    let rec = record_of(s, checksum, now);
    lemma_retract_undoes_add(reg, rec);
}

/// Every step keeps the invariant of the installation.
pub proof fn lemma_step_keeps_invariant(s: InstallView, report: Report, reg: RegistryView)
    requires
        install_inv(s),
    ensures
        install_inv(step(s, report, reg).0),
{
}

/// The copy of an installation lies below the add-ons directory.
pub proof fn lemma_target_is_below_addons(s: InstallView)
    requires
        install_inv(s),
        s.phase == Phase::Placing || s.phase == Phase::Hashing || s.phase == Phase::Storing,
        s.addons_dir.len() > 0,
    ensures
        path_starts_with(s.target->0, s.addons_dir),
{
    lemma_installed_file_name(s.package->0);
    lemma_join_stays_below(s.addons_dir, s.filename->0);
}

/// The insert after the checksum takes the record as the installation has
/// put it together: with the sanitized name, the installed file name, the
/// checksum that was reported for the copy, and a checksum kind exactly if
/// there is a checksum. The record is valid and is found under its
/// identifier.
pub proof fn lemma_inserted_record(
    s: InstallView,
    checksum: Option<Seq<char>>,
    now: Timestamp,
    reg: RegistryView,
)
    requires
        install_inv(s),
        registry_inv(reg),
        after_hashing(s, checksum, now, reg).1 is Store,
    ensures
        ({
            let inserted = after_hashing(s, checksum, now, reg);
            let e = inserted.1->entry;
            &&& install_inv(inserted.0)
            &&& registry_inv(inserted.2)
            &&& inserted.0.record == Some(e)
            &&& valid_entry(e)
            &&& lookup(inserted.2.entries, e.id) == Some(e)
            &&& e.id == reg.next_id
            &&& e.name == s.map_name->0
            &&& e.installed_path == s.filename->0
            &&& e.installed_at == now
            &&& e.checksum == checksum
            &&& (e.checksum is Some <==> e.checksum_kind is Some)
        }),
{
    let rec = record_of(s, checksum, now);
    lemma_write_keeps_invariant(reg, Write::Add(rec));
    lemma_added_record_is_found(reg, rec);
    let n = (added(reg, rec)->Ok_0).0;
    assert(n.entries.last() == stored_as(rec, reg.next_id));
    assert(valid_entry(n.entries[n.entries.len() - 1]));
}

/// An installation that succeeds hands back the record that the registry
/// holds: valid, with an installed path that ends in `.vpk` and names the
/// copy below the add-ons directory. The copy stays; the download and the
/// extraction directory are removed; the registry is not touched again.
pub proof fn lemma_success(s: InstallView, report: Report, reg: RegistryView)
    requires
        install_inv(s),
        is_success(step(s, report, reg).1),
    ensures
        report == Report::Stored(true),
        s.phase == Phase::Storing,
        step(s, report, reg).2 == reg,
        Some(step(s, report, reg).1->result->Ok_0) == s.record,
        valid_entry(step(s, report, reg).1->result->Ok_0),
        ends_with((step(s, report, reg).1->result->Ok_0).installed_path, ".vpk"@),
        path_is_contained((step(s, report, reg).1->result->Ok_0).installed_path),
        s.placed == Some(
            join_of(s.addons_dir, (step(s, report, reg).1->result->Ok_0).installed_path),
        ),
        step(s, report, reg).1->remove_placed is None,
        step(s, report, reg).1->remove_download == s.download,
        step(s, report, reg).1->remove_scratch == s.scratch,
        (step(s, report, reg).1->result->Ok_0).name == s.map_name->0,
        (step(s, report, reg).1->result->Ok_0).version == s.version,
        (step(s, report, reg).1->result->Ok_0).source_kind == s.source_kind,
        (step(s, report, reg).1->result->Ok_0).workshop_id == s.workshop_id,
        s.workshop_id is Some ==> (step(s, report, reg).1->result->Ok_0).source_kind
            == SourceKind::Workshop && (step(s, report, reg).1->result->Ok_0).source_url
            == "workshop:"@ + decimal_text(s.workshop_id->0 as nat),
        s.workshop_id is None ==> (step(s, report, reg).1->result->Ok_0).source_kind
            == SourceKind::Other,
{
    lemma_installed_file_name(s.package->0);
}

/// No step changes what the installation was started with: the source, the
/// Workshop item, the display name, the two directories and the tokens.
pub proof fn lemma_source_is_kept(s: InstallView, report: Report, reg: RegistryView)
    ensures
        step(s, report, reg).0.source_kind == s.source_kind,
        step(s, report, reg).0.workshop_id == s.workshop_id,
        step(s, report, reg).0.provided_name == s.provided_name,
        step(s, report, reg).0.addons_dir == s.addons_dir,
        step(s, report, reg).0.temp_dir == s.temp_dir,
        step(s, report, reg).0.download_token == s.download_token,
        step(s, report, reg).0.extract_token == s.extract_token,
{
}

/// An installation starts in a state that satisfies its invariant. If it
/// ends at once, it has failed and has created nothing; and it ends at once
/// whenever the display name is taken or the URL does not pass the guard,
/// so that no download is asked for.
pub proof fn lemma_start(
    source: SourceSpecView,
    name: Option<Seq<char>>,
    addons: Seq<char>,
    temp: Seq<char>,
    reg: RegistryView,
    t1: Seq<char>,
    t2: Seq<char>,
)
    ensures
        install_inv(begun(source, name, addons, temp, reg, t1, t2).0),
        begun(source, name, addons, temp, reg, t1, t2).0.workshop_id == match source {
            SourceSpecView::Workshop(id) => Some(id),
            SourceSpecView::Url(_) => None,
        },
        begun(source, name, addons, temp, reg, t1, t2).0.provided_name == name,
        begun(source, name, addons, temp, reg, t1, t2).0.addons_dir == addons,
        begun(source, name, addons, temp, reg, t1, t2).0.temp_dir == temp,
        begun(source, name, addons, temp, reg, t1, t2).1 is Finish ==> {
            let a = begun(source, name, addons, temp, reg, t1, t2).1;
            is_failure(a) && a->remove_placed is None && a->remove_download is None
                && a->remove_scratch is None
        },
        name is Some && name_is_taken(reg, name->0) ==> begun(
            source,
            name,
            addons,
            temp,
            reg,
            t1,
            t2,
        ).1->result == Err::<MapEntryView, InstallError>(InstallError::NameConflict),
        source is Url && url_verdict(source->Url_0.len(), parsed_url(source->Url_0)) is Err
            ==> begun(source, name, addons, temp, reg, t1, t2).1 is Finish,
{
}

/// An installation that is over stays over: every further report is
/// answered with a failure, the state and the registry stay as they are,
/// and nothing is asked to be removed, so that a stray report never
/// touches the installed file.
pub proof fn lemma_done_is_final(s: InstallView, report: Report, reg: RegistryView)
    requires
        s.phase == Phase::Done,
    ensures
        step(s, report, reg).0 == s,
        step(s, report, reg).2 == reg,
        step(s, report, reg).1 == (ActionView::Finish {
            result: Err(InstallError::OutOfOrder),
            remove_placed: None,
            remove_download: None,
            remove_scratch: None,
        }),
{
}

/// Every step that ends the installation leaves it over.
pub proof fn lemma_finish_is_done(s: InstallView, report: Report, reg: RegistryView)
    ensures
        step(s, report, reg).1 is Finish <==> step(s, report, reg).0.phase == Phase::Done,
{
}

/// The name of a scratch file holds no slash and is not `..`, whatever the
/// URL was: the token holds none, and the file name is what follows the
/// last slash of the URL.
pub proof fn lemma_scratch_name_is_plain(token: Seq<char>, url: Seq<char>)
    requires
        is_token(token),
    ensures
        forall|i: int|
            0 <= i < scratch_name(token, direct_file_name(url)).len() ==> scratch_name(
                token,
                direct_file_name(url),
            )[i] != '/',
        forall|i: int|
            0 <= i < scratch_name(token, workshop_file_name(url)).len() ==> scratch_name(
                token,
                workshop_file_name(url),
            )[i] != '/',
        path_is_contained(scratch_name(token, direct_file_name(url))),
        path_is_contained(scratch_name(token, workshop_file_name(url))),
        path_is_contained(extract_dir_name(token)),
{
    reveal_strlit("workshop_download");
    reveal_strlit("extract-");
    lemma_pieces_hold_no_separator(url, '/');
    lemma_split_is_nonempty(url, '/');
    lemma_pieces_hold_no_separator(without_query(url), '/');
    lemma_split_is_nonempty(without_query(url), '/');
    let d = scratch_name(token, direct_file_name(url));
    let w = scratch_name(token, workshop_file_name(url));
    let x = extract_dir_name(token);
    assert forall|i: int| 0 <= i < d.len() implies d[i] != '/' by {
        if i < 36 {
            assert(d[i] == token[i]);
        } else if i > 36 {
            assert(d[i] == direct_file_name(url)[i - 37]);
        }
    }
    assert forall|i: int| 0 <= i < w.len() implies w[i] != '/' by {
        if i < 36 {
            assert(w[i] == token[i]);
        } else if i > 36 {
            assert(w[i] == workshop_file_name(url)[i - 37]);
        }
    }
    assert forall|i: int| 0 <= i < x.len() implies x[i] != '/' by {
        if i >= 8 {
            assert(x[i] == token[i - 8]);
        }
    }
    assert(d.len() >= 37 && w.len() >= 37 && x.len() == 44);
    lemma_plain_name_is_contained(d);
    lemma_plain_name_is_contained(w);
    lemma_plain_name_is_contained(x);
}

/// Every file that an installation downloads, and every directory that it
/// extracts to, lies below the directory for temporary files.
pub proof fn lemma_scratch_paths_are_below_temp(s: InstallView, url: Seq<char>)
    requires
        is_token(s.download_token),
        is_token(s.extract_token),
        s.temp_dir.len() > 0,
    ensures
        path_starts_with(fetching(s, url, direct_file_name(url)).0.download->0, s.temp_dir),
        path_starts_with(fetching(s, url, workshop_file_name(url)).0.download->0, s.temp_dir),
        path_starts_with(join_of(s.temp_dir, extract_dir_name(s.extract_token)), s.temp_dir),
{
    lemma_scratch_name_is_plain(s.download_token, url);
    lemma_scratch_name_is_plain(s.extract_token, url);
    lemma_join_stays_below(s.temp_dir, scratch_name(s.download_token, direct_file_name(url)));
    lemma_join_stays_below(s.temp_dir, scratch_name(s.download_token, workshop_file_name(url)));
    lemma_join_stays_below(s.temp_dir, extract_dir_name(s.extract_token));
}

} // verus!
