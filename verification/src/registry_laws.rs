//! What holds of the registry over any sequence of writes.

use crate::models::{
    checksum_is_paired, path_is_contained, stored_as, valid_entry, workshop_id_fits, MapEntryView,
};
use crate::registry::{
    added, lemma_position, lemma_position_unique, lookup, position, registry_inv, removed,
    retracted, updated,
    RegistryView,
};
use vstd::prelude::*;

verus! {

/// One write to the registry.
pub enum Write {
    /// Insert a record.
    Add(MapEntryView),
    /// Replace the record that has the identifier of this one.
    Update(MapEntryView),
    /// Remove the record with this identifier.
    Remove(u64),
}

/// The content after one write. A refused write changes nothing.
pub open spec fn after_write(r: RegistryView, w: Write) -> RegistryView {
    match w {
        Write::Add(e) => match added(r, e) {
            Ok(pair) => pair.0,
            Err(_) => r,
        },
        Write::Update(e) => match updated(r, e) {
            Ok(next) => next,
            Err(_) => r,
        },
        Write::Remove(id) => removed(r, id),
    }
}

/// The identifier that one write hands out, if it is an accepted insert.
pub open spec fn id_assigned(r: RegistryView, w: Write) -> Option<u64> {
    match w {
        Write::Add(e) => match added(r, e) {
            Ok(pair) => Some(pair.1),
            Err(_) => None,
        },
        _ => None,
    }
}

/// The content after the writes `ws`, applied in order.
pub open spec fn after_writes(r: RegistryView, ws: Seq<Write>) -> RegistryView
    decreases ws.len(),
{
    if ws.len() == 0 {
        r
    } else {
        after_write(after_writes(r, ws.drop_last()), ws.last())
    }
}

/// The identifiers that the writes `ws` hand out, in order.
pub open spec fn ids_assigned(r: RegistryView, ws: Seq<Write>) -> Seq<u64>
    decreases ws.len(),
{
    if ws.len() == 0 {
        Seq::<u64>::empty()
    } else {
        let before = ids_assigned(r, ws.drop_last());
        match id_assigned(after_writes(r, ws.drop_last()), ws.last()) {
            Some(id) => before.push(id),
            None => before,
        }
    }
}

/// Every record that the registry lists has a relative installed path
/// without `..`, carries a Workshop item only if it is a Workshop map, and
/// has its checksum and checksum kind both present or both absent.
pub proof fn lemma_listed_records_are_valid(r: RegistryView, i: int)
    requires
        registry_inv(r),
        0 <= i < r.entries.len(),
    ensures
        path_is_contained(r.entries[i].installed_path),
        workshop_id_fits(r.entries[i]),
        checksum_is_paired(r.entries[i]),
{
    assert(valid_entry(r.entries[i]));
}

/// One write keeps the invariant of the registry and never lowers the next
/// identifier.
pub proof fn lemma_write_keeps_invariant(r: RegistryView, w: Write)
    requires
        registry_inv(r),
    ensures
        registry_inv(after_write(r, w)),
        after_write(r, w).next_id >= r.next_id,
{
    let n = after_write(r, w);
    match w {
        Write::Add(e) => {
            if added(r, e) is Ok {
                let s = stored_as(e, r.next_id);
                assert(n.entries == r.entries.push(s));
                assert forall|i: int| 0 <= i < n.entries.len() implies valid_entry(
                    #[trigger] n.entries[i],
                ) && 1 <= n.entries[i].id < n.next_id by {
                    if i < r.entries.len() {
                        assert(n.entries[i] == r.entries[i]);
                    }
                }
                assert forall|i: int, j: int| 0 <= i < j < n.entries.len() implies (
                #[trigger] n.entries[i]).id != (#[trigger] n.entries[j]).id && n.entries[i].name
                    != n.entries[j].name by {
                    assert(n.entries[i] == r.entries[i]);
                    if j < r.entries.len() {
                        assert(n.entries[j] == r.entries[j]);
                    } else {
                        assert(r.entries[i].id < r.next_id);
                        assert(r.entries[i].name != e.name);
                    }
                }
            }
        },
        Write::Update(e) => {
            lemma_position(r.entries, e.id);
            if updated(r, e) is Ok && position(r.entries, e.id) is Some {
                let k = position(r.entries, e.id)->0;
                let s = stored_as(e, e.id);
                assert(n.entries == r.entries.update(k, s));
                assert forall|i: int| 0 <= i < n.entries.len() implies valid_entry(
                    #[trigger] n.entries[i],
                ) && 1 <= n.entries[i].id < n.next_id by {
                    if i != k {
                        assert(n.entries[i] == r.entries[i]);
                    } else {
                        assert(r.entries[k].id == e.id);
                    }
                }
                assert forall|i: int, j: int| 0 <= i < j < n.entries.len() implies (
                #[trigger] n.entries[i]).id != (#[trigger] n.entries[j]).id && n.entries[i].name
                    != n.entries[j].name by {
                    assert(r.entries[i].id != r.entries[j].id);
                    assert(r.entries[i].name != r.entries[j].name);
                    if i == k {
                        assert(r.entries[j].name != e.name);
                    } else if j == k {
                        assert(r.entries[i].name != e.name);
                    }
                }
            }
        },
        Write::Remove(id) => {
            lemma_position(r.entries, id);
            if position(r.entries, id) is Some {
                let k = position(r.entries, id)->0;
                assert(n.entries == r.entries.remove(k));
                assert forall|i: int| 0 <= i < n.entries.len() implies valid_entry(
                    #[trigger] n.entries[i],
                ) && 1 <= n.entries[i].id < n.next_id by {
                    if i < k {
                        assert(n.entries[i] == r.entries[i]);
                    } else {
                        assert(n.entries[i] == r.entries[i + 1]);
                    }
                }
                assert forall|i: int, j: int| 0 <= i < j < n.entries.len() implies (
                #[trigger] n.entries[i]).id != (#[trigger] n.entries[j]).id && n.entries[i].name
                    != n.entries[j].name by {
                    let i0 = if i < k { i } else { i + 1 };
                    let j0 = if j < k { j } else { j + 1 };
                    assert(n.entries[i] == r.entries[i0]);
                    assert(n.entries[j] == r.entries[j0]);
                    assert(r.entries[i0].id != r.entries[j0].id);
                    assert(r.entries[i0].name != r.entries[j0].name);
                }
            }
        },
    }
}

/// Any sequence of writes keeps the invariant, and every identifier that it
/// hands out lies at or above the next identifier at the start and below the
/// next identifier at the end.
pub proof fn lemma_writes_keep_invariant(r: RegistryView, ws: Seq<Write>)
    requires
        registry_inv(r),
    ensures
        registry_inv(after_writes(r, ws)),
        after_writes(r, ws).next_id >= r.next_id,
        forall|k: int|
            0 <= k < ids_assigned(r, ws).len() ==> r.next_id <= (#[trigger] ids_assigned(r, ws)[k])
                < after_writes(r, ws).next_id,
    decreases ws.len(),
{
    if ws.len() > 0 {
        let mid = after_writes(r, ws.drop_last());
        let before = ids_assigned(r, ws.drop_last());
        let all = ids_assigned(r, ws);
        lemma_writes_keep_invariant(r, ws.drop_last());
        lemma_write_keeps_invariant(mid, ws.last());
        assert forall|k: int| 0 <= k < all.len() implies r.next_id <= (#[trigger] all[k])
            < after_writes(r, ws).next_id by {
            if k < before.len() {
                assert(all[k] == before[k]);
            } else {
                assert(all[k] == mid.next_id);
            }
        }
    }
}

/// The identifiers handed out in a run of writes are strictly increasing,
/// whatever is removed in between: no identifier is handed out twice.
pub proof fn lemma_ids_strictly_increase(r: RegistryView, ws: Seq<Write>, a: int, b: int)
    requires
        registry_inv(r),
        0 <= a < b < ids_assigned(r, ws).len(),
    ensures
        ids_assigned(r, ws)[a] < ids_assigned(r, ws)[b],
    decreases ws.len(),
{
    let before = ids_assigned(r, ws.drop_last());
    let mid = after_writes(r, ws.drop_last());
    lemma_writes_keep_invariant(r, ws.drop_last());
    if b < before.len() {
        lemma_ids_strictly_increase(r, ws.drop_last(), a, b);
    } else {
        assert(ids_assigned(r, ws)[b] == mid.next_id);
        assert(ids_assigned(r, ws)[a] == before[a]);
    }
}

/// An identifier that was handed out is never the identifier of a record
/// that a later insert creates, even after the first record was removed.
pub proof fn lemma_removed_id_is_not_reused(r: RegistryView, e: MapEntryView, f: MapEntryView)
    requires
        registry_inv(r),
        added(r, e) is Ok,
        added(removed((added(r, e)->Ok_0).0, (added(r, e)->Ok_0).1), f) is Ok,
    ensures
        (added(removed((added(r, e)->Ok_0).0, (added(r, e)->Ok_0).1), f)->Ok_0).1 > (added(
            r,
            e,
        )->Ok_0).1,
{
}

/// A record that was inserted is found under the identifier that the insert
/// handed out, equal to what was given but for the identifier and for a
/// Workshop item that its kind does not admit.
pub proof fn lemma_added_record_is_found(r: RegistryView, e: MapEntryView)
    requires
        registry_inv(r),
        added(r, e) is Ok,
    ensures
        lookup((added(r, e)->Ok_0).0.entries, (added(r, e)->Ok_0).1) == Some(
            stored_as(e, (added(r, e)->Ok_0).1),
        ),
        workshop_id_fits(e) ==> lookup((added(r, e)->Ok_0).0.entries, (added(r, e)->Ok_0).1)
            == Some(MapEntryView { id: (added(r, e)->Ok_0).1, ..e }),
{
    let n = (added(r, e)->Ok_0).0;
    assert(n.entries.last() == stored_as(e, r.next_id));
}

/// After a record is removed, nothing is found under its identifier.
pub proof fn lemma_removed_record_is_gone(r: RegistryView, id: u64)
    requires
        registry_inv(r),
    ensures
        lookup(removed(r, id).entries, id) is None,
{
    lemma_position(r.entries, id);
    let n = removed(r, id);
    lemma_position(n.entries, id);
    if position(r.entries, id) is Some {
        let k = position(r.entries, id)->0;
        if position(n.entries, id) is Some {
            let j = position(n.entries, id)->0;
            let j0 = if j < k { j } else { j + 1 };
            assert(n.entries[j] == r.entries[j0]);
            if j0 < k {
                assert(r.entries[j0].id != r.entries[k].id);
            } else {
                assert(r.entries[k].id != r.entries[j0].id);
            }
        }
    }
}

/// A record that exists is found at its own place.
pub proof fn lemma_live_record_is_found(r: RegistryView, k: int)
    requires
        registry_inv(r),
        0 <= k < r.entries.len(),
    ensures
        lookup(r.entries, r.entries[k].id) == Some(r.entries[k]),
{
    lemma_position_unique(r.entries, k);
}

/// An insert that is taken back at once leaves the registry exactly as it
/// was, next identifier included.
pub proof fn lemma_retract_undoes_add(r: RegistryView, e: MapEntryView)
    requires
        registry_inv(r),
        added(r, e) is Ok,
    ensures
        retracted((added(r, e)->Ok_0).0, (added(r, e)->Ok_0).1) == r,
{
    let n = (added(r, e)->Ok_0).0;
    assert(n.entries.drop_last() =~= r.entries);
}

} // verus!
