//! The catalog of installed maps: one record per identifier, identifiers
//! handed out in increasing order and never handed out twice.

use crate::models::{clamp_workshop_id, stored_as, storable, valid_entry, MapEntry, MapEntryView};
use crate::text::{chars_of, same_chars};
use vstd::prelude::*;

verus! {

/// Why the registry refused a write.
#[derive(Clone, Copy, Debug, PartialEq, Eq, Structural)]
pub enum RegistryError {
    /// The record breaks a rule of the data model.
    InvalidEntry,
    /// Another live record has the same name.
    NameConflict,
    /// No identifier is left to hand out.
    IdsExhausted,
}

/// The catalog. Records are kept in the order of their insertion.
pub struct Registry {
    entries: Vec<MapEntry>,
    next_id: u64,
}

/// The mathematical content of a `Registry`.
pub struct RegistryView {
    /// The live records, oldest first.
    pub entries: Seq<MapEntryView>,
    /// The identifier that the next insert hands out.
    pub next_id: u64,
}

/// The views of a sequence of records.
pub open spec fn entry_views(v: Seq<MapEntry>) -> Seq<MapEntryView> {
    Seq::new(v.len(), |i: int| v[i]@)
}

/// The place of the record with identifier `id`, if it is live.
pub open spec fn position(entries: Seq<MapEntryView>, id: u64) -> Option<int>
    decreases entries.len(),
{
    if entries.len() == 0 {
        None
    } else if entries.last().id == id {
        Some(entries.len() - 1)
    } else {
        position(entries.drop_last(), id)
    }
}

/// The live record with identifier `id`.
pub open spec fn lookup(entries: Seq<MapEntryView>, id: u64) -> Option<MapEntryView> {
    match position(entries, id) {
        Some(i) => Some(entries[i]),
        None => None,
    }
}

/// Some live record other than the one at `except` carries `name`.
pub open spec fn name_taken(entries: Seq<MapEntryView>, name: Seq<char>, except: int) -> bool {
    exists|i: int| 0 <= i < entries.len() && i != except && #[trigger] entries[i].name == name
}

/// What holds of every registry: identifiers start at 1 and lie below the
/// next one, no identifier and no name occurs twice, and every record is
/// valid.
pub open spec fn registry_inv(r: RegistryView) -> bool {
    &&& r.next_id >= 1
    &&& forall|i: int| 0 <= i < r.entries.len() ==> valid_entry(#[trigger] r.entries[i])
    &&& forall|i: int|
        0 <= i < r.entries.len() ==> 1 <= (#[trigger] r.entries[i]).id < r.next_id
    &&& forall|i: int, j: int|
        0 <= i < j < r.entries.len() ==> (#[trigger] r.entries[i]).id != (
        #[trigger] r.entries[j]).id
    &&& forall|i: int, j: int|
        0 <= i < j < r.entries.len() ==> (#[trigger] r.entries[i]).name != (
        #[trigger] r.entries[j]).name
}

/// The outcome of inserting `e`: the refusal, or the new content and the
/// identifier that was handed out.
pub open spec fn added(r: RegistryView, e: MapEntryView) -> Result<
    (RegistryView, u64),
    RegistryError,
> {
    if !storable(e) {
        Err(RegistryError::InvalidEntry)
    } else if name_taken(r.entries, e.name, -1) {
        Err(RegistryError::NameConflict)
    } else if r.next_id == u64::MAX {
        Err(RegistryError::IdsExhausted)
    } else {
        Ok(
            (
                RegistryView {
                    entries: r.entries.push(stored_as(e, r.next_id)),
                    next_id: (r.next_id + 1) as u64,
                },
                r.next_id,
            ),
        )
    }
}

/// The content after the record with identifier `id` is removed.
pub open spec fn removed(r: RegistryView, id: u64) -> RegistryView {
    match position(r.entries, id) {
        Some(i) => RegistryView { entries: r.entries.remove(i), ..r },
        None => r,
    }
}

/// The outcome of replacing the record that has the identifier of `e`.
pub open spec fn updated(r: RegistryView, e: MapEntryView) -> Result<RegistryView, RegistryError> {
    match position(r.entries, e.id) {
        None => Ok(r),
        Some(i) => if !storable(e) {
            Err(RegistryError::InvalidEntry)
        } else if name_taken(r.entries, e.name, i) {
            Err(RegistryError::NameConflict)
        } else {
            Ok(RegistryView { entries: r.entries.update(i, stored_as(e, e.id)), ..r })
        },
    }
}

/// Where `position` finds a record, the record is there and has the
/// identifier; where it finds none, no record has it.
pub proof fn lemma_position(entries: Seq<MapEntryView>, id: u64)
    ensures
        match position(entries, id) {
            Some(i) => 0 <= i < entries.len() && entries[i].id == id,
            None => forall|i: int| 0 <= i < entries.len() ==> (#[trigger] entries[i]).id != id,
        },
    decreases entries.len(),
{
    if entries.len() > 0 && entries.last().id != id {
        lemma_position(entries.drop_last(), id);
        assert forall|i: int| 0 <= i < entries.len() && position(entries, id) is None implies (
        #[trigger] entries[i]).id != id by {
            if i < entries.len() - 1 {
                assert(entries.drop_last()[i] == entries[i]);
            }
        }
    }
}

/// With identifiers that occur once, `position` finds the record wherever
/// it stands.
pub proof fn lemma_position_unique(entries: Seq<MapEntryView>, k: int)
    requires
        0 <= k < entries.len(),
        forall|i: int, j: int|
            0 <= i < j < entries.len() ==> (#[trigger] entries[i]).id != (#[trigger] entries[j]).id,
    ensures
        position(entries, entries[k].id) == Some(k),
    decreases entries.len(),
{
    if k < entries.len() - 1 {
        let rest = entries.drop_last();
        assert(rest[k] == entries[k]);
        assert forall|i: int, j: int| 0 <= i < j < rest.len() implies (#[trigger] rest[i]).id != (
        #[trigger] rest[j]).id by {
            assert(rest[i] == entries[i]);
            assert(rest[j] == entries[j]);
        }
        lemma_position_unique(rest, k);
    }
}

/// The outcome of putting back a record that was stored before, under the
/// identifier that it carries: `None` if the record is not storable, if its
/// identifier is 0 or the largest number, or if its identifier or its name
/// is taken; else the new content, whose next identifier lies above the
/// identifier of the record.
pub open spec fn reinserted(r: RegistryView, e: MapEntryView) -> Option<RegistryView> {
    if !storable(e) || e.id < 1 || e.id == u64::MAX || position(r.entries, e.id) is Some
        || name_taken(r.entries, e.name, -1) {
        None
    } else {
        Some(
            RegistryView {
                entries: r.entries.push(stored_as(e, e.id)),
                next_id: if r.next_id > e.id {
                    r.next_id
                } else {
                    (e.id + 1) as u64
                },
            },
        )
    }
}

/// The content after all of `es` were put back in order, those left out
/// that cannot be.
pub open spec fn restored(r: RegistryView, es: Seq<MapEntryView>) -> RegistryView
    decreases es.len(),
{
    if es.len() == 0 {
        r
    } else {
        let before = restored(r, es.drop_last());
        match reinserted(before, es.last()) {
            Some(next) => next,
            None => before,
        }
    }
}

/// The content after the insert that handed out `id` is taken back: if the
/// newest record has the identifier and the identifier is the last that was
/// handed out, the record goes and the identifier is free again; otherwise
/// the record is removed like any other.
pub open spec fn retracted(r: RegistryView, id: u64) -> RegistryView {
    if r.entries.len() > 0 && r.entries.last().id == id && r.next_id == id + 1 {
        RegistryView { entries: r.entries.drop_last(), next_id: id }
    } else {
        removed(r, id)
    }
}

impl View for Registry {
    type V = RegistryView;

    closed spec fn view(&self) -> RegistryView {
        RegistryView { entries: entry_views(self.entries@), next_id: self.next_id }
    }
}

impl Registry {
    /// The registry keeps its invariant.
    pub open spec fn wf(&self) -> bool {
        registry_inv(self@)
    }

    /// An empty registry whose first identifier is 1.
    pub fn new() -> (r: Registry)
        ensures
            r.wf(),
            r@.entries.len() == 0,
            r@.next_id == 1,
    {
        Registry { entries: Vec::new(), next_id: 1 }
    }

    /// The identifier that the next insert hands out.
    pub fn next_id(&self) -> (id: u64)
        ensures
            id == self@.next_id,
    {
        self.next_id
    }

    /// The number of live records.
    pub fn len(&self) -> (n: usize)
        ensures
            n == self@.entries.len(),
    {
        self.entries.len()
    }

    /// The place of the record with identifier `id`.
    fn find(&self, id: u64) -> (r: Option<usize>)
        ensures
            match r {
                Some(i) => position(self@.entries, id) == Some(i as int) && i < self.entries.len(),
                None => position(self@.entries, id) is None,
            },
    {
        let ghost all = self@.entries;
        let mut i: usize = self.entries.len();
        assert(all.take(i as int) =~= all);
        while i > 0
            invariant
                i <= self.entries.len(),
                all == self@.entries,
                position(all, id) == position(all.take(i as int), id),
            decreases i,
        {
            assert(all.take(i as int).last() == self.entries@[i - 1]@);
            if self.entries[i - 1].id == id {
                return Some(i - 1);
            }
            assert(all.take(i as int).drop_last() =~= all.take(i - 1));
            i -= 1;
        }
        None
    }

    /// Whether a live record other than the one at `except` carries `name`.
    fn name_in_use(&self, name: &str, except: Option<usize>) -> (b: bool)
        ensures
            b == name_taken(
                self@.entries,
                name@,
                match except {
                    Some(k) => k as int,
                    None => -1,
                },
            ),
    {
        let wanted = chars_of(name);
        let ghost all = self@.entries;
        let ghost skip: int = match except {
            Some(k) => k as int,
            None => -1,
        };
        let mut i: usize = 0;
        while i < self.entries.len()
            invariant
                i <= self.entries.len(),
                all == self@.entries,
                wanted@ == name@,
                skip == match except {
                    Some(k) => k as int,
                    None => -1,
                },
                forall|j: int| 0 <= j < i && j != skip ==> (#[trigger] all[j]).name != name@,
            decreases self.entries.len() - i,
        {
            let skipped = match except {
                Some(k) => k == i,
                None => false,
            };
            if !skipped {
                let have = chars_of(self.entries[i].name.as_str());
                if same_chars(&have, &wanted) {
                    assert(all[i as int].name == name@);
                    return true;
                }
            }
            i += 1;
        }
        false
    }

    /// Whether a live record carries `name`.
    pub fn contains_name(&self, name: &str) -> (b: bool)
        ensures
            b == name_taken(self@.entries, name@, -1),
    {
        self.name_in_use(name, None)
    }

    /// Inserts a record and hands out its identifier. The identifier that
    /// the record carries is ignored. A Workshop item on a record that is not
    /// of the Workshop kind is dropped. The insert is refused, and nothing
    /// changes, if the record is not storable, if a live record has the same
    /// name, or if no identifier is left.
    pub fn add_map(&mut self, entry: MapEntry) -> (r: Result<u64, RegistryError>)
        requires
            old(self).wf(),
        ensures
            final(self).wf(),
            match r {
                Ok(id) => added(old(self)@, entry@) == Ok::<(RegistryView, u64), RegistryError>(
                    (final(self)@, id),
                ),
                Err(e) => added(old(self)@, entry@) == Err::<(RegistryView, u64), RegistryError>(e)
                    && final(self)@ == old(self)@,
            },
    {
        if !entry.is_storable() {
            return Err(RegistryError::InvalidEntry);
        }
        if self.name_in_use(entry.name.as_str(), None) {
            return Err(RegistryError::NameConflict);
        }
        if self.next_id == u64::MAX {
            return Err(RegistryError::IdsExhausted);
        }
        let id = self.next_id;
        let ghost before = self@;
        let mut stored = entry;
        stored.id = id;
        stored.workshop_id = clamp_workshop_id(stored.source_kind, stored.workshop_id);
        assert(stored@ == stored_as(entry@, id));
        self.next_id = id + 1;
        self.entries.push(stored);
        assert(self@.entries =~= before.entries.push(stored_as(entry@, id)));
        assert forall|i: int, j: int| 0 <= i < j < self@.entries.len() implies (
        #[trigger] self@.entries[i]).name != (#[trigger] self@.entries[j]).name by {
            if j == before.entries.len() {
                assert(before.entries[i].name != entry@.name);
            } else {
                assert(before.entries[i].name != before.entries[j].name);
            }
        }
        assert forall|i: int, j: int| 0 <= i < j < self@.entries.len() implies (
        #[trigger] self@.entries[i]).id != (#[trigger] self@.entries[j]).id by {
            if j == before.entries.len() {
                assert(before.entries[i].id < id);
            } else {
                assert(before.entries[i].id != before.entries[j].id);
            }
        }
        Ok(id)
    }

    /// The record with identifier `id`, if it is live.
    pub fn get_map(&self, id: u64) -> (r: Option<MapEntry>)
        ensures
            match r {
                Some(e) => lookup(self@.entries, id) == Some(e@),
                None => lookup(self@.entries, id) is None,
            },
    {
        match self.find(id) {
            Some(i) => Some(self.entries[i].duplicate()),
            None => None,
        }
    }

    /// All live records, oldest first. Each of them is valid.
    pub fn list_maps(&self) -> (r: Vec<MapEntry>)
        requires
            self.wf(),
        ensures
            entry_views(r@) == self@.entries,
            forall|i: int| 0 <= i < r.len() ==> valid_entry(#[trigger] r[i]@),
    {
        let mut out: Vec<MapEntry> = Vec::new();
        let mut i: usize = 0;
        while i < self.entries.len()
            invariant
                i <= self.entries.len(),
                entry_views(out@) == self@.entries.take(i as int),
            decreases self.entries.len() - i,
        {
            let ghost old_out = out@;
            out.push(self.entries[i].duplicate());
            assert(entry_views(out@) =~= entry_views(old_out).push(self.entries@[i as int]@));
            i += 1;
            assert(self@.entries.take(i as int) =~= self@.entries.take(i - 1).push(
                self@.entries[i - 1],
            ));
        }
        assert(self@.entries.take(self.entries.len() as int) =~= self@.entries);
        assert forall|i: int| 0 <= i < out.len() implies valid_entry(#[trigger] out[i]@) by {
            assert(entry_views(out@)[i] == out[i]@);
            assert(valid_entry(self@.entries[i]));
        }
        out
    }

    /// Replaces the record that has the identifier of `entry`. Nothing
    /// happens if no live record has it. The write is refused, and nothing
    /// changes, if the new record is not storable or takes the name of
    /// another live record.
    pub fn update_map(&mut self, entry: MapEntry) -> (r: Result<(), RegistryError>)
        requires
            old(self).wf(),
        ensures
            final(self).wf(),
            match r {
                Ok(()) => updated(old(self)@, entry@) == Ok::<RegistryView, RegistryError>(
                    final(self)@,
                ),
                Err(e) => updated(old(self)@, entry@) == Err::<RegistryView, RegistryError>(e)
                    && final(self)@ == old(self)@,
            },
    {
        let found = self.find(entry.id);
        match found {
            None => Ok(()),
            Some(i) => {
                if !entry.is_storable() {
                    return Err(RegistryError::InvalidEntry);
                }
                if self.name_in_use(entry.name.as_str(), Some(i)) {
                    return Err(RegistryError::NameConflict);
                }
                let ghost before = self@;
                proof {
                    lemma_position(before.entries, entry.id);
                }
                let mut stored = entry;
                stored.workshop_id = clamp_workshop_id(stored.source_kind, stored.workshop_id);
                assert(stored@ == stored_as(entry@, entry@.id));
                self.entries.set(i, stored);
                assert(self@.entries =~= before.entries.update(i as int, stored_as(entry@, entry@.id)));
                assert forall|a: int, b: int| 0 <= a < b < self@.entries.len() implies (
                #[trigger] self@.entries[a]).name != (#[trigger] self@.entries[b]).name by {
                    if a == i {
                        assert(before.entries[b].name != entry@.name);
                    } else if b == i {
                        assert(before.entries[a].name != entry@.name);
                    } else {
                        assert(before.entries[a].name != before.entries[b].name);
                    }
                }
                assert forall|a: int, b: int| 0 <= a < b < self@.entries.len() implies (
                #[trigger] self@.entries[a]).id != (#[trigger] self@.entries[b]).id by {
                    assert(before.entries[a].id != before.entries[b].id);
                }
                Ok(())
            },
        }
    }

    /// Removes the record with identifier `id`. Nothing happens if no live
    /// record has it. The identifier is not handed out again.
    pub fn remove_map(&mut self, id: u64)
        requires
            old(self).wf(),
        ensures
            final(self).wf(),
            final(self)@ == removed(old(self)@, id),
    {
        let found = self.find(id);
        match found {
            None => {},
            Some(i) => {
                let ghost before = self@;
                self.entries.remove(i);
                assert(self@.entries =~= before.entries.remove(i as int));
                assert forall|a: int| 0 <= a < self@.entries.len() implies valid_entry(
                    #[trigger] self@.entries[a],
                ) && 1 <= self@.entries[a].id < self@.next_id by {
                    if a < i {
                        assert(self@.entries[a] == before.entries[a]);
                    } else {
                        assert(self@.entries[a] == before.entries[a + 1]);
                    }
                }
                assert forall|a: int, b: int| 0 <= a < b < self@.entries.len() implies (
                #[trigger] self@.entries[a]).id != (#[trigger] self@.entries[b]).id && self@.entries[a].name
                    != self@.entries[b].name by {
                    let a0 = if a < i { a } else { a + 1 };
                    let b0 = if b < i { b } else { b + 1 };
                    assert(self@.entries[a] == before.entries[a0]);
                    assert(self@.entries[b] == before.entries[b0]);
                    assert(before.entries[a0].id != before.entries[b0].id);
                    assert(before.entries[a0].name != before.entries[b0].name);
                }
            },
        }
    }

    /// Puts back a record that was stored before, under the identifier
    /// that it carries. Tells whether the record was taken.
    pub fn insert_existing(&mut self, entry: MapEntry) -> (taken: bool)
        requires
            old(self).wf(),
        ensures
            final(self).wf(),
            match reinserted(old(self)@, entry@) {
                Some(next) => taken && final(self)@ == next,
                None => !taken && final(self)@ == old(self)@,
            },
    {
        if !entry.is_storable() || entry.id < 1 || entry.id == u64::MAX {
            return false;
        }
        if self.find(entry.id).is_some() {
            return false;
        }
        if self.name_in_use(entry.name.as_str(), None) {
            return false;
        }
        let ghost before = self@;
        proof {
            lemma_position(before.entries, entry.id);
        }
        let mut stored = entry;
        stored.workshop_id = clamp_workshop_id(stored.source_kind, stored.workshop_id);
        if self.next_id <= stored.id {
            self.next_id = stored.id + 1;
        }
        self.entries.push(stored);
        assert(self@.entries =~= before.entries.push(stored_as(entry@, entry@.id)));
        assert forall|i: int, j: int| 0 <= i < j < self@.entries.len() implies (
        #[trigger] self@.entries[i]).name != (#[trigger] self@.entries[j]).name by {
            if j == before.entries.len() {
                assert(before.entries[i].name != entry@.name);
            } else {
                assert(before.entries[i].name != before.entries[j].name);
            }
        }
        assert forall|i: int, j: int| 0 <= i < j < self@.entries.len() implies (
        #[trigger] self@.entries[i]).id != (#[trigger] self@.entries[j]).id by {
            if j == before.entries.len() {
                assert(before.entries[i].id != entry@.id);
            } else {
                assert(before.entries[i].id != before.entries[j].id);
            }
        }
        assert forall|i: int| 0 <= i < self@.entries.len() implies 1 <= (
        #[trigger] self@.entries[i]).id < self@.next_id by {
            if i < before.entries.len() {
                assert(before.entries[i].id < before.next_id);
            }
        }
        true
    }

    /// Raises the next identifier to `floor` if it lies below: identifiers
    /// that were handed out before a restart stay out of use.
    pub fn reserve_ids(&mut self, floor: u64)
        requires
            old(self).wf(),
        ensures
            final(self).wf(),
            final(self)@.entries == old(self)@.entries,
            final(self)@.next_id == if old(self)@.next_id >= floor {
                old(self)@.next_id
            } else {
                floor
            },
    {
        if self.next_id < floor {
            self.next_id = floor;
        }
    }

    /// A registry with the records that were stored before, in order. A
    /// record that is not valid, or whose identifier or name an earlier one
    /// has, is left out.
    pub fn restore(entries: Vec<MapEntry>) -> (r: Registry)
        ensures
            r.wf(),
            r@ == restored(
                RegistryView { entries: Seq::empty(), next_id: 1 },
                entry_views(entries@),
            ),
    {
        let mut r = Registry::new();
        assert(r@.entries =~= Seq::<MapEntryView>::empty());
        let ghost start = r@;
        let ghost all = entry_views(entries@);
        let mut i: usize = 0;
        assert(all.take(0) =~= Seq::<MapEntryView>::empty());
        while i < entries.len()
            invariant
                i <= entries.len(),
                r.wf(),
                all == entry_views(entries@),
                r@ == restored(start, all.take(i as int)),
            decreases entries.len() - i,
        {
            assert(all.take(i + 1).drop_last() =~= all.take(i as int));
            assert(all.take(i + 1).last() == entries@[i as int]@);
            r.insert_existing(entries[i].duplicate());
            i += 1;
        }
        assert(all.take(entries.len() as int) =~= all);
        r
    }

    /// Takes back the insert that handed out `id`, for a record that was
    /// never made known: the registry is again as it was before the insert,
    /// if nothing was written in between.
    pub fn retract(&mut self, id: u64)
        requires
            old(self).wf(),
        ensures
            final(self).wf(),
            final(self)@ == retracted(old(self)@, id),
    {
        let n = self.entries.len();
        if n > 0 && self.entries[n - 1].id == id && self.next_id - 1 == id {
            let ghost before = self@;
            assert(before.entries.last() == self.entries@[n - 1]@);
            self.entries.pop();
            self.next_id = id;
            assert(self@.entries =~= before.entries.drop_last());
            assert forall|i: int| 0 <= i < self@.entries.len() implies valid_entry(
                #[trigger] self@.entries[i],
            ) && 1 <= self@.entries[i].id < self@.next_id by {
                assert(self@.entries[i] == before.entries[i]);
                assert(before.entries[i].id != before.entries[n - 1].id);
            }
            assert forall|i: int, j: int| 0 <= i < j < self@.entries.len() implies (
            #[trigger] self@.entries[i]).id != (#[trigger] self@.entries[j]).id && self@.entries[i].name
                != self@.entries[j].name by {
                assert(self@.entries[i] == before.entries[i]);
                assert(self@.entries[j] == before.entries[j]);
                assert(before.entries[i].id != before.entries[j].id);
                assert(before.entries[i].name != before.entries[j].name);
            }
        } else {
            self.remove_map(id);
        }
    }
}

} // verus!
