//! The events of the add-ons directory and what the daemon does on each.

use vstd::prelude::*;

verus! {

/// The number of events that may wait between the watcher and the daemon.
/// An event that finds the queue full is dropped.
pub const EVENT_QUEUE_CAPACITY: usize = 1024;

/// A change in the add-ons directory, with the path it concerns.
#[derive(Debug)]
pub enum WatcherEvent {
    Create(String),
    Remove(String),
    Modify(String),
}

/// The mathematical content of a `WatcherEvent`.
pub enum WatcherEventView {
    Create(Seq<char>),
    Remove(Seq<char>),
    Modify(Seq<char>),
}

impl View for WatcherEvent {
    type V = WatcherEventView;

    open spec fn view(&self) -> WatcherEventView {
        match self {
            WatcherEvent::Create(p) => WatcherEventView::Create(p@),
            WatcherEvent::Remove(p) => WatcherEventView::Remove(p@),
            WatcherEvent::Modify(p) => WatcherEventView::Modify(p@),
        }
    }
}

/// The kind of a change as the platform reports it.
#[derive(Clone, Copy, Debug, PartialEq, Eq, Structural)]
pub enum ChangeKind {
    Create,
    Remove,
    Modify,
    /// Anything else: an access, a change of unknown kind.
    Other,
}

/// The event for a change of kind `kind` at `path`, if the kind is one of
/// the three that are passed on.
pub open spec fn event_for(kind: ChangeKind, path: Seq<char>) -> Option<WatcherEventView> {
    match kind {
        ChangeKind::Create => Some(WatcherEventView::Create(path)),
        ChangeKind::Remove => Some(WatcherEventView::Remove(path)),
        ChangeKind::Modify => Some(WatcherEventView::Modify(path)),
        ChangeKind::Other => None,
    }
}

/// The views of a sequence of events.
pub open spec fn event_views(v: Seq<WatcherEvent>) -> Seq<WatcherEventView> {
    Seq::new(v.len(), |i: int| v[i]@)
}

/// The events for a change that concerns `paths`: one per path, in order,
/// or none if the kind is not passed on.
pub open spec fn events_for(kind: ChangeKind, paths: Seq<String>) -> Seq<WatcherEventView> {
    if kind == ChangeKind::Other {
        Seq::empty()
    } else {
        Seq::new(paths.len(), |i: int| event_for(kind, paths[i]@)->0)
    }
}

/// Translates one platform change into events, one per path.
pub fn translate_change(kind: ChangeKind, paths: &Vec<String>) -> (r: Vec<WatcherEvent>)
    ensures
        event_views(r@) == events_for(kind, paths@),
{
    let mut out: Vec<WatcherEvent> = Vec::new();
    if kind == ChangeKind::Other {
        assert(event_views(out@) =~= Seq::<WatcherEventView>::empty());
        return out;
    }
    let mut i: usize = 0;
    while i < paths.len()
        invariant
            i <= paths.len(),
            kind != ChangeKind::Other,
            event_views(out@) == events_for(kind, paths@).take(i as int),
        decreases paths.len() - i,
    {
        let p = paths[i].clone();
        let ghost old_out = out@;
        let ev = match kind {
            ChangeKind::Create => WatcherEvent::Create(p),
            ChangeKind::Remove => WatcherEvent::Remove(p),
            _ => WatcherEvent::Modify(p),
        };
        out.push(ev);
        assert(event_views(out@) =~= event_views(old_out).push(ev@));
        i += 1;
        assert(events_for(kind, paths@).take(i as int) =~= events_for(kind, paths@).take(
            i - 1,
        ).push(events_for(kind, paths@)[i - 1]));
    }
    assert(events_for(kind, paths@).take(paths.len() as int) =~= events_for(kind, paths@));
    out
}

/// Whether an event is queued or dropped when `queued` events wait already.
pub fn admits_event(queued: usize) -> (b: bool)
    ensures
        b == (queued < EVENT_QUEUE_CAPACITY),
{
    queued < EVENT_QUEUE_CAPACITY
}

/// What the daemon does on an event.
#[derive(Debug)]
pub enum Reaction {
    /// Look at the path: it may be a map that was put there by hand.
    Detect(String),
    /// Write a log line; the registry is not touched.
    LogOnly,
}

/// The mathematical content of a `Reaction`.
pub enum ReactionView {
    Detect(Seq<char>),
    LogOnly,
}

impl View for Reaction {
    type V = ReactionView;

    open spec fn view(&self) -> ReactionView {
        match self {
            Reaction::Detect(p) => ReactionView::Detect(p@),
            Reaction::LogOnly => ReactionView::LogOnly,
        }
    }
}

/// Only the creation of a file makes the daemon look at it; removals and
/// modifications are logged.
pub fn react_to(event: &WatcherEvent) -> (r: Reaction)
    ensures
        r@ == match *event {
            WatcherEvent::Create(p) => ReactionView::Detect(p@),
            _ => ReactionView::LogOnly,
        },
{
    match event {
        WatcherEvent::Create(p) => Reaction::Detect(p.clone()),
        _ => Reaction::LogOnly,
    }
}

} // verus!
