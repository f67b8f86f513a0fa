//! The reconciliation with the catalog backend: what each remote update
//! asks for, the order of a cycle, and the requests that it makes.

use crate::models::{entry_opt_view, MapEntry, MapEntryView};
use crate::text::{append_chars, chars_of, prefixed, same_chars, slice_chars, string_of};
use vstd::prelude::*;

verus! {

/// The deadline of a request to the backend, in seconds.
pub const BACKEND_TIMEOUT_SECS: u64 = 30;

/// The path, below the base URL, that pending updates are fetched from.
pub fn updates_path() -> (p: &'static str)
    ensures
        p@ == "api/registry/updates"@,
{
    "api/registry/updates"
}

/// The path, below the base URL, that the local records are posted to.
pub fn sync_path() -> (p: &'static str)
    ensures
        p@ == "api/registry/sync"@,
{
    "api/registry/sync"
}

/// One update that the backend asks for.
#[derive(Debug)]
pub struct MapUpdate {
    /// `install` or `uninstall`.
    pub action: String,
    /// The map that the update concerns.
    pub map_id: u64,
    /// For an install: the Workshop item, or the source URL and the name.
    pub map_entry: Option<MapEntry>,
}

/// What the daemon does for one update.
#[derive(Debug)]
pub enum SyncCommand {
    /// Install this Workshop item.
    InstallWorkshop(u64),
    /// Install from this URL under this display name.
    InstallUrl { url: String, name: String },
    /// Uninstall the map with this identifier.
    Uninstall(u64),
    /// Skip: the install carries no details.
    SkipMissingDetails,
    /// Skip: the action is not known.
    SkipUnknownAction,
}

/// The mathematical content of a `SyncCommand`.
pub enum SyncCommandView {
    InstallWorkshop(u64),
    InstallUrl { url: Seq<char>, name: Seq<char> },
    Uninstall(u64),
    SkipMissingDetails,
    SkipUnknownAction,
}

impl View for SyncCommand {
    type V = SyncCommandView;

    open spec fn view(&self) -> SyncCommandView {
        match self {
            SyncCommand::InstallWorkshop(id) => SyncCommandView::InstallWorkshop(*id),
            SyncCommand::InstallUrl { url, name } => SyncCommandView::InstallUrl {
                url: url@,
                name: name@,
            },
            SyncCommand::Uninstall(id) => SyncCommandView::Uninstall(*id),
            SyncCommand::SkipMissingDetails => SyncCommandView::SkipMissingDetails,
            SyncCommand::SkipUnknownAction => SyncCommandView::SkipUnknownAction,
        }
    }
}

/// What an update with these fields asks for. An install prefers the
/// Workshop item to the source URL.
pub open spec fn command_of(action: Seq<char>, map_id: u64, entry: Option<MapEntryView>) -> SyncCommandView {
    if action == "install"@ {
        match entry {
            None => SyncCommandView::SkipMissingDetails,
            Some(e) => match e.workshop_id {
                Some(id) => SyncCommandView::InstallWorkshop(id),
                None => SyncCommandView::InstallUrl { url: e.source_url, name: e.name },
            },
        }
    } else if action == "uninstall"@ {
        SyncCommandView::Uninstall(map_id)
    } else {
        SyncCommandView::SkipUnknownAction
    }
}

/// The command of an update.
pub open spec fn update_command(u: MapUpdate) -> SyncCommandView {
    command_of(u.action@, u.map_id, entry_opt_view(u.map_entry))
}

/// The views of a sequence of commands.
pub open spec fn command_views(v: Seq<SyncCommand>) -> Seq<SyncCommandView> {
    Seq::new(v.len(), |i: int| v[i]@)
}

/// Decides what one update asks for.
pub fn command_for(update: &MapUpdate) -> (c: SyncCommand)
    ensures
        c@ == update_command(*update),
{
    let action = chars_of(update.action.as_str());
    if same_chars(&action, &chars_of("install")) {
        match &update.map_entry {
            None => SyncCommand::SkipMissingDetails,
            Some(e) => match e.workshop_id {
                Some(id) => SyncCommand::InstallWorkshop(id),
                None => SyncCommand::InstallUrl { url: e.source_url.clone(), name: e.name.clone() },
            },
        }
    } else if same_chars(&action, &chars_of("uninstall")) {
        SyncCommand::Uninstall(update.map_id)
    } else {
        SyncCommand::SkipUnknownAction
    }
}

/// The commands for a batch of updates: one per update, in order. An
/// update that is skipped does not stop the batch.
pub fn plan_updates(updates: &Vec<MapUpdate>) -> (r: Vec<SyncCommand>)
    ensures
        r.len() == updates.len(),
        forall|i: int| 0 <= i < r.len() ==> (#[trigger] r[i])@ == update_command(updates[i]),
{
    let mut out: Vec<SyncCommand> = Vec::new();
    let mut i: usize = 0;
    while i < updates.len()
        invariant
            i <= updates.len(),
            out.len() == i,
            forall|j: int| 0 <= j < i ==> (#[trigger] out[j])@ == update_command(updates[j]),
        decreases updates.len() - i,
    {
        out.push(command_for(&updates[i]));
        i += 1;
    }
    out
}

/// Whether an HTTP status reports success.
pub fn is_success_status(status: u16) -> (b: bool)
    ensures
        b == (200 <= status && status < 300),
{
    status >= 200 && status < 300
}

/// Where a cycle of the reconciliation stands.
#[derive(Clone, Copy, Debug, PartialEq, Eq, Structural)]
pub enum CyclePhase {
    /// Between two cycles.
    Waiting,
    /// Fetching the pending updates.
    Pulling,
    /// Carrying out the updates.
    Applying,
    /// Posting the local records.
    Pushing,
}

/// What happened in a cycle.
#[derive(Clone, Copy, Debug, PartialEq, Eq, Structural)]
pub enum CycleEvent {
    /// The interval has passed.
    Tick,
    /// The fetch ended, well or not.
    Pulled,
    /// Every update of the batch was carried out or has failed.
    Applied,
    /// The post ended, well or not.
    Pushed,
}

/// What a cycle does next.
#[derive(Clone, Copy, Debug, PartialEq, Eq, Structural)]
pub enum CycleAction {
    /// Fetch the pending updates.
    Pull,
    /// Carry out the updates that were fetched; none if the fetch failed.
    Apply,
    /// Post the local records.
    Push,
    /// Wait for the next tick.
    Wait,
}

/// The order of a cycle: pull, apply, push, wait. No failure stops it, and
/// an event that does not belong to the phase changes nothing.
pub open spec fn cycle_next(p: CyclePhase, e: CycleEvent) -> (CyclePhase, CycleAction) {
    match (p, e) {
        (CyclePhase::Waiting, CycleEvent::Tick) => (CyclePhase::Pulling, CycleAction::Pull),
        (CyclePhase::Pulling, CycleEvent::Pulled) => (CyclePhase::Applying, CycleAction::Apply),
        (CyclePhase::Applying, CycleEvent::Applied) => (CyclePhase::Pushing, CycleAction::Push),
        (CyclePhase::Pushing, CycleEvent::Pushed) => (CyclePhase::Waiting, CycleAction::Wait),
        _ => (p, CycleAction::Wait),
    }
}

/// Advances a cycle by one event.
pub fn cycle_step(p: CyclePhase, e: CycleEvent) -> (r: (CyclePhase, CycleAction))
    ensures
        r == cycle_next(p, e),
{
    match p {
        CyclePhase::Waiting => match e {
            CycleEvent::Tick => (CyclePhase::Pulling, CycleAction::Pull),
            _ => (p, CycleAction::Wait),
        },
        CyclePhase::Pulling => match e {
            CycleEvent::Pulled => (CyclePhase::Applying, CycleAction::Apply),
            _ => (p, CycleAction::Wait),
        },
        CyclePhase::Applying => match e {
            CycleEvent::Applied => (CyclePhase::Pushing, CycleAction::Push),
            _ => (p, CycleAction::Wait),
        },
        CyclePhase::Pushing => match e {
            CycleEvent::Pushed => (CyclePhase::Waiting, CycleAction::Wait),
            _ => (p, CycleAction::Wait),
        },
    }
}

/// A push is asked for only when the updates of the same cycle have been
/// applied, and a pull only at the start of a cycle.
pub proof fn lemma_pull_before_push(p: CyclePhase, e: CycleEvent)
    ensures
        cycle_next(p, e).1 == CycleAction::Push ==> p == CyclePhase::Applying && e
            == CycleEvent::Applied,
        cycle_next(p, e).1 == CycleAction::Pull ==> p == CyclePhase::Waiting && e
            == CycleEvent::Tick,
        cycle_next(p, e).1 == CycleAction::Apply ==> p == CyclePhase::Pulling,
{
}

/// `s` without its trailing slashes.
pub open spec fn without_trailing_slashes(s: Seq<char>) -> Seq<char>
    decreases s.len(),
{
    if s.len() > 0 && s.last() == '/' {
        without_trailing_slashes(s.drop_last())
    } else {
        s
    }
}

/// The URL of an endpoint: the base without trailing slashes, one slash,
/// the path.
pub open spec fn endpoint_of(base: Seq<char>, path: Seq<char>) -> Seq<char> {
    without_trailing_slashes(base) + seq!['/'] + path
}

/// The URL of an endpoint of the backend.
pub fn endpoint_url(base: &str, path: &str) -> (r: String)
    ensures
        r@ == endpoint_of(base@, path@),
{
    let b = chars_of(base);
    let mut end: usize = b.len();
    assert(b@.subrange(0, end as int) =~= b@);
    while end > 0 && b[end - 1] == '/'
        invariant
            end <= b.len(),
            without_trailing_slashes(b@) == without_trailing_slashes(b@.subrange(0, end as int)),
        decreases end,
    {
        assert(b@.subrange(0, end as int).drop_last() =~= b@.subrange(0, end - 1));
        end -= 1;
    }
    let mut out = slice_chars(&b, 0, end);
    out.push('/');
    append_chars(&mut out, &chars_of(path));
    string_of(&out)
}

/// The value of the `Authorization` header for a token.
pub fn bearer_header(token: &str) -> (r: String)
    ensures
        r@ == "Bearer "@ + token@,
{
    prefixed("Bearer ", token)
}

} // verus!
