//! The stored form of a record: one row of text and numbers, as a table of
//! a relational store holds it.

use crate::clock::{format_rfc3339, parse_rfc3339, rfc3339_instant, rfc3339_text};
use crate::models::{
    clamp_workshop_id, clamped_workshop_id, clone_opt, opt_view, MapEntry, MapEntryView, SourceKind,
};
use crate::text::{chars_of, same_chars, string_of};
use vstd::prelude::*;

verus! {

/// One row of the table of maps.
#[derive(Debug)]
pub struct MapRow {
    pub id: i64,
    pub name: String,
    pub source_url: String,
    /// `workshop` or `other`; absent in rows of an older layout.
    pub source_kind: Option<String>,
    pub workshop_id: Option<i64>,
    pub installed_path: String,
    /// The time of installation as an RFC 3339 text in UTC.
    pub installed_at: String,
    pub version: Option<String>,
    pub checksum: Option<String>,
    pub checksum_kind: Option<String>,
}

/// Why a row gives no record.
#[derive(Clone, Copy, Debug, PartialEq, Eq, Structural)]
pub enum RowError {
    /// The identifier is negative.
    BadId,
    /// The time of installation is not an RFC 3339 timestamp.
    BadTimestamp,
}

/// The kind that a stored text stands for. An unknown text, or none,
/// stands for `Other`.
pub open spec fn kind_of_text(t: Option<Seq<char>>) -> SourceKind {
    if t == Some("workshop"@) {
        SourceKind::Workshop
    } else {
        SourceKind::Other
    }
}

/// The stored text is neither of the two known kinds.
pub open spec fn kind_is_unknown(t: Option<Seq<char>>) -> bool {
    t is Some && t != Some("workshop"@) && t != Some("other"@)
}

/// The text that a kind is stored as.
pub open spec fn text_of_kind(k: SourceKind) -> Seq<char> {
    match k {
        SourceKind::Workshop => "workshop"@,
        SourceKind::Other => "other"@,
    }
}

/// The Workshop item that a stored number stands for.
pub open spec fn workshop_id_of(n: Option<i64>) -> Option<u64> {
    match n {
        Some(v) => Some(v as u64),
        None => None,
    }
}

/// The record that a row with this content gives. A Workshop item on a row
/// that is not of the Workshop kind is dropped.
pub open spec fn entry_of_row(row: MapRow) -> Result<MapEntryView, RowError> {
    if row.id < 0 {
        Err(RowError::BadId)
    } else {
        match rfc3339_instant(row.installed_at@) {
            None => Err(RowError::BadTimestamp),
            Some(at) => Ok(
                MapEntryView {
                    id: row.id as u64,
                    name: row.name@,
                    source_url: row.source_url@,
                    source_kind: kind_of_text(opt_view(row.source_kind)),
                    workshop_id: clamped_workshop_id(
                        kind_of_text(opt_view(row.source_kind)),
                        workshop_id_of(row.workshop_id),
                    ),
                    installed_path: row.installed_path@,
                    installed_at: at,
                    version: opt_view(row.version),
                    checksum: opt_view(row.checksum),
                    checksum_kind: opt_view(row.checksum_kind),
                },
            ),
        }
    }
}

/// Reads the kind of a row and tells whether the stored text was unknown
/// and had to be taken for `Other`.
pub fn parse_source_kind(text: &Option<String>) -> (r: (SourceKind, bool))
    ensures
        r.0 == kind_of_text(opt_view(*text)),
        r.1 == kind_is_unknown(opt_view(*text)),
{
    match text {
        None => (SourceKind::Other, false),
        Some(t) => {
            let t = chars_of(t.as_str());
            if same_chars(&t, &chars_of("workshop")) {
                (SourceKind::Workshop, false)
            } else if same_chars(&t, &chars_of("other")) {
                (SourceKind::Other, false)
            } else {
                (SourceKind::Other, true)
            }
        },
    }
}

/// The text that a kind is stored as.
pub fn source_kind_text(kind: SourceKind) -> (r: String)
    ensures
        r@ == text_of_kind(kind),
{
    match kind {
        SourceKind::Workshop => string_of(&chars_of("workshop")),
        SourceKind::Other => string_of(&chars_of("other")),
    }
}

/// The record that a row gives.
pub fn entry_from_row(row: &MapRow) -> (r: Result<MapEntry, RowError>)
    ensures
        match r {
            Ok(e) => entry_of_row(*row) == Ok::<MapEntryView, RowError>(e@),
            Err(e) => entry_of_row(*row) == Err::<MapEntryView, RowError>(e),
        },
{
    if row.id < 0 {
        return Err(RowError::BadId);
    }
    let at = match parse_rfc3339(row.installed_at.as_str()) {
        None => {
            return Err(RowError::BadTimestamp);
        },
        Some(t) => t,
    };
    let (kind, _) = parse_source_kind(&row.source_kind);
    let stored_id = match row.workshop_id {
        Some(v) => Some(
            #[verifier::truncate]
            (v as u64),
        ),
        None => None,
    };
    Ok(
        MapEntry {
            id: row.id as u64,
            name: row.name.clone(),
            source_url: row.source_url.clone(),
            source_kind: kind,
            workshop_id: clamp_workshop_id(kind, stored_id),
            installed_path: row.installed_path.clone(),
            installed_at: at,
            version: clone_opt(&row.version),
            checksum: clone_opt(&row.checksum),
            checksum_kind: clone_opt(&row.checksum_kind),
        },
    )
}

/// The row that stores a record; `None` if the record cannot be stored
/// because its identifier does not fit the column or its time of
/// installation has no written form.
pub fn row_from_entry(entry: &MapEntry) -> (r: Option<MapRow>)
    ensures
        match r {
            None => entry.id > i64::MAX || rfc3339_text(entry.installed_at) is None,
            Some(row) => {
                &&& entry.id <= i64::MAX
                &&& row.id == entry.id
                &&& row.name@ == entry.name@
                &&& row.source_url@ == entry.source_url@
                &&& opt_view(row.source_kind) == Some(text_of_kind(entry.source_kind))
                &&& workshop_id_of(row.workshop_id) == clamped_workshop_id(
                    entry.source_kind,
                    entry.workshop_id,
                )
                &&& row.installed_path@ == entry.installed_path@
                &&& Some(row.installed_at@) == rfc3339_text(entry.installed_at)
                &&& opt_view(row.version) == opt_view(entry.version)
                &&& opt_view(row.checksum) == opt_view(entry.checksum)
                &&& opt_view(row.checksum_kind) == opt_view(entry.checksum_kind)
            },
        },
{
    if entry.id > i64::MAX as u64 {
        return None;
    }
    let at = match format_rfc3339(entry.installed_at) {
        None => {
            return None;
        },
        Some(t) => t,
    };
    let workshop_id = match clamp_workshop_id(entry.source_kind, entry.workshop_id) {
        Some(v) => {
            let n =
                #[verifier::truncate]
                (v as i64);
            assert(n as u64 == v) by (bit_vector)
                requires
                    n == v as i64,
            ;
            Some(n)
        },
        None => None,
    };
    Some(
        MapRow {
            id: entry.id as i64,
            name: entry.name.clone(),
            source_url: entry.source_url.clone(),
            source_kind: Some(source_kind_text(entry.source_kind)),
            workshop_id,
            installed_path: entry.installed_path.clone(),
            installed_at: at,
            version: clone_opt(&entry.version),
            checksum: clone_opt(&entry.checksum),
            checksum_kind: clone_opt(&entry.checksum_kind),
        },
    )
}

/// The records that the rows give, in order; rows that give none are left
/// out.
pub fn entries_from_rows(rows: &Vec<MapRow>) -> (r: Vec<MapEntry>)
    ensures
        crate::registry::entry_views(r@) == readable_rows(rows@),
{
    let mut out: Vec<MapEntry> = Vec::new();
    let mut i: usize = 0;
    assert(rows@.take(0) =~= Seq::<MapRow>::empty());
    assert(crate::registry::entry_views(out@) =~= Seq::<MapEntryView>::empty());
    while i < rows.len()
        invariant
            i <= rows.len(),
            crate::registry::entry_views(out@) == readable_rows(rows@.take(i as int)),
        decreases rows.len() - i,
    {
        assert(rows@.take(i + 1).drop_last() =~= rows@.take(i as int));
        let ghost old_out = out@;
        match entry_from_row(&rows[i]) {
            Ok(e) => {
                out.push(e);
                assert(crate::registry::entry_views(out@) =~= crate::registry::entry_views(
                    old_out,
                ).push(e@));
            },
            Err(_) => {},
        }
        i += 1;
    }
    assert(rows@.take(rows.len() as int) =~= rows@);
    out
}

/// The records of the rows that give one, in order.
pub open spec fn readable_rows(rows: Seq<MapRow>) -> Seq<MapEntryView>
    decreases rows.len(),
{
    if rows.len() == 0 {
        Seq::empty()
    } else {
        let before = readable_rows(rows.drop_last());
        match entry_of_row(rows.last()) {
            Ok(e) => before.push(e),
            Err(_) => before,
        }
    }
}

/// No record that is read from a row carries a Workshop item unless it is
/// of the Workshop kind, whatever the row holds.
pub proof fn lemma_rows_keep_workshop_rule(row: MapRow)
    requires
        entry_of_row(row) is Ok,
    ensures
        crate::models::workshop_id_fits(entry_of_row(row)->Ok_0),
{
}

} // verus!
