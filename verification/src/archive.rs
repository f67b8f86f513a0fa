//! Decisions about ZIP archives: whether one holds a package, what to do
//! with each of its entries, and which extracted file to install.

use crate::download::{extension_of, file_extension};
use crate::paths::{
    file_name_of, has_parent_ref, is_absolute, is_dot_dot, join_of,
    path_components, piece_views,
};
use crate::sanitize::{join_path, path_has_parent_ref};
use crate::text::{chars_of, ends_with, has_suffix, lowercase_of, string_of, to_lowercase};
use vstd::prelude::*;

verus! {

/// Plans the extraction of ZIP archives.
pub struct ZipExtractor;

/// What to do with one entry of an archive.
#[derive(Debug)]
pub enum EntryPlan {
    /// Leave the entry out: its name would lead outside the destination.
    Skip,
    /// Create this directory and those above it.
    CreateDir(String),
    /// Create the directory above this path, then write the entry's bytes
    /// to the path.
    WriteFile(String),
}

/// The mathematical content of an `EntryPlan`.
pub enum EntryPlanView {
    Skip,
    CreateDir(Seq<char>),
    WriteFile(Seq<char>),
}

impl View for EntryPlan {
    type V = EntryPlanView;

    open spec fn view(&self) -> EntryPlanView {
        match self {
            EntryPlan::Skip => EntryPlanView::Skip,
            EntryPlan::CreateDir(p) => EntryPlanView::CreateDir(p@),
            EntryPlan::WriteFile(p) => EntryPlanView::WriteFile(p@),
        }
    }
}

/// The name of an entry, in any letter case, ends in `.vpk`.
pub open spec fn names_a_package(name: Seq<char>) -> bool {
    ends_with(lowercase_of(name), ".vpk"@)
}

/// Some entry name ends in `.vpk`.
pub open spec fn some_name_is_package(names: Seq<String>) -> bool {
    exists|i: int| 0 <= i < names.len() && names_a_package(#[trigger] names[i]@)
}

/// A relative path that stays where it is put: not absolute, no `..`.
pub open spec fn stays_inside(relative: Seq<char>) -> bool {
    !is_absolute(relative) && !has_parent_ref(relative)
}

/// What to do with the entry called `name` whose enclosed path is
/// `enclosed`, when extracting to `dest`. `enclosed` is `None` where the
/// archive reader found that the name leaves the destination.
pub open spec fn entry_plan(name: Seq<char>, enclosed: Option<Seq<char>>, dest: Seq<char>) -> EntryPlanView {
    match enclosed {
        None => EntryPlanView::Skip,
        Some(rel) => if !stays_inside(rel) {
            EntryPlanView::Skip
        } else if ends_with(name, "/"@) {
            EntryPlanView::CreateDir(join_of(dest, rel))
        } else {
            EntryPlanView::WriteFile(join_of(dest, rel))
        },
    }
}

/// The lowercase form of an ASCII letter; any other character as it is.
pub open spec fn ascii_lower(c: char) -> char {
    if 'A' <= c && c <= 'Z' {
        ((c as u8) + 32) as char
    } else {
        c
    }
}

/// The two texts are equal but for the case of ASCII letters.
pub open spec fn eq_ignoring_ascii_case(a: Seq<char>, b: Seq<char>) -> bool {
    a.len() == b.len() && forall|i: int|
        0 <= i < a.len() ==> ascii_lower(#[trigger] a[i]) == ascii_lower(b[i])
}

/// The extension of the last component of a path.
pub open spec fn path_extension(p: Seq<char>) -> Option<Seq<char>> {
    match file_name_of(p) {
        Some(n) => extension_of(n),
        None => None,
    }
}

/// The path names a package: its extension is `vpk` in any ASCII case.
pub open spec fn is_package_path(p: Seq<char>) -> bool {
    match path_extension(p) {
        Some(e) => eq_ignoring_ascii_case(e, "vpk"@),
        None => false,
    }
}

/// The place of the first package among `files`, or their number if there
/// is none.
pub open spec fn first_package(files: Seq<String>) -> int
    decreases files.len(),
{
    if files.len() == 0 {
        0
    } else {
        let before = first_package(files.drop_last());
        if before < files.len() - 1 {
            before
        } else if is_package_path(files.last()@) {
            files.len() - 1
        } else {
            files.len() as int
        }
    }
}

/// The lowercase form of an ASCII letter.
pub fn to_ascii_lower(c: char) -> (r: char)
    ensures
        r == ascii_lower(c),
{
    if c >= 'A' && c <= 'Z' {
        ((c as u8) + 32) as char
    } else {
        c
    }
}

/// Whether two texts are equal but for the case of ASCII letters.
pub fn same_ignoring_ascii_case(a: &Vec<char>, b: &Vec<char>) -> (r: bool)
    ensures
        r == eq_ignoring_ascii_case(a@, b@),
{
    if a.len() != b.len() {
        return false;
    }
    let mut i: usize = 0;
    while i < a.len()
        invariant
            i <= a.len() == b.len(),
            forall|j: int| 0 <= j < i ==> ascii_lower(#[trigger] a@[j]) == ascii_lower(b@[j]),
        decreases a.len() - i,
    {
        if to_ascii_lower(a[i]) != to_ascii_lower(b[i]) {
            return false;
        }
        i += 1;
    }
    true
}

/// Whether a path names a package.
pub fn path_is_package(path: &str) -> (b: bool)
    ensures
        b == is_package_path(path@),
{
    let raw = chars_of(path);
    let parts = path_components(&raw);
    let n = parts.len();
    if n == 0 {
        return false;
    }
    assert(piece_views(parts@).last() == parts@[n - 1]@);
    if is_dot_dot(&parts[n - 1]) {
        return false;
    }
    let name = string_of(&parts[n - 1]);
    match file_extension(name.as_str()) {
        None => false,
        Some(e) => same_ignoring_ascii_case(&chars_of(e.as_str()), &chars_of("vpk")),
    }
}

/// The first of `files` that names a package. The files are those found in
/// an extracted archive, in the order in which the walk met them.
pub fn select_vpk(files: &Vec<String>) -> (r: Option<usize>)
    ensures
        match r {
            Some(i) => i == first_package(files@) && i < files.len(),
            None => first_package(files@) == files.len(),
        },
{
    let mut i: usize = 0;
    assert(files@.take(0) =~= Seq::<String>::empty());
    while i < files.len()
        invariant
            i <= files.len(),
            first_package(files@.take(i as int)) == i,
        decreases files.len() - i,
    {
        assert(files@.take(i + 1).drop_last() =~= files@.take(i as int));
        if path_is_package(files[i].as_str()) {
            proof {
                lemma_first_package_stays(files@, i + 1);
            }
            return Some(i);
        }
        i += 1;
    }
    assert(files@.take(files.len() as int) =~= files@);
    None
}

/// A package found among the first `n` files stays the first package.
pub proof fn lemma_first_package_stays(files: Seq<String>, n: int)
    requires
        0 <= n <= files.len(),
        first_package(files.take(n)) < n,
    ensures
        first_package(files) == first_package(files.take(n)),
    decreases files.len() - n,
{
    if n < files.len() {
        assert(files.take(n + 1).drop_last() =~= files.take(n));
        lemma_first_package_stays(files, n + 1);
    } else {
        assert(files.take(n) =~= files);
    }
}

/// The first package is a package, and no file before it is one.
pub proof fn lemma_first_package(files: Seq<String>)
    ensures
        0 <= first_package(files) <= files.len(),
        first_package(files) < files.len() ==> is_package_path(files[first_package(files)]@),
        forall|j: int| 0 <= j < first_package(files) ==> !is_package_path(#[trigger] files[j]@),
    decreases files.len(),
{
    if files.len() > 0 {
        let rest = files.drop_last();
        lemma_first_package(rest);
        assert forall|j: int| 0 <= j < first_package(files) implies !is_package_path(
            #[trigger] files[j]@,
        ) by {
            if j < rest.len() {
                assert(rest[j] == files[j]);
            }
        }
        if first_package(rest) < rest.len() {
            assert(rest[first_package(rest)] == files[first_package(rest)]);
        }
    }
}

impl ZipExtractor {
    /// A planner for archives.
    pub fn new() -> (r: ZipExtractor) {
        ZipExtractor
    }

    /// Whether an archive with these entry names holds a package: some name
    /// ends in `.vpk`, in any letter case.
    pub fn zip_contains_vpk(&self, names: &Vec<String>) -> (b: bool)
        ensures
            b == some_name_is_package(names@),
    {
        let suffix = chars_of(".vpk");
        let mut i: usize = 0;
        while i < names.len()
            invariant
                i <= names.len(),
                suffix@ == ".vpk"@,
                forall|j: int| 0 <= j < i ==> !names_a_package(#[trigger] names@[j]@),
            decreases names.len() - i,
        {
            let lowered = to_lowercase(names[i].as_str());
            if has_suffix(&chars_of(lowered.as_str()), &suffix) {
                assert(names_a_package(names@[i as int]@));
                return true;
            }
            i += 1;
        }
        false
    }

    /// Plans one entry of an archive that is extracted to `dest`. An entry
    /// whose enclosed path is missing, absolute or holds `..` is skipped; a
    /// name that ends in a slash makes a directory; any other entry is
    /// written to its path below `dest`.
    pub fn plan_entry(&self, name: &str, enclosed: &Option<String>, dest: &str) -> (r: EntryPlan)
        ensures
            r@ == entry_plan(name@, crate::models::opt_view(*enclosed), dest@),
    {
        match enclosed {
            None => EntryPlan::Skip,
            Some(rel) => {
                let r = chars_of(rel.as_str());
                let absolute = r.len() > 0 && r[0] == '/';
                if absolute || path_has_parent_ref(rel.as_str()) {
                    EntryPlan::Skip
                } else {
                    let path = join_path(dest, rel.as_str());
                    let slash = chars_of("/");
                    if has_suffix(&chars_of(name), &slash) {
                        EntryPlan::CreateDir(path)
                    } else {
                        EntryPlan::WriteFile(path)
                    }
                }
            },
        }
    }
}

/// Whatever an archive names its entries, every path that is planned lies
/// at or below the destination, and holds a `..` only if the destination
/// itself does.
pub proof fn lemma_planned_paths_stay_below(
    name: Seq<char>,
    enclosed: Option<Seq<char>>,
    dest: Seq<char>,
)
    requires
        dest.len() > 0,
    ensures
        match entry_plan(name, enclosed, dest) {
            EntryPlanView::Skip => true,
            EntryPlanView::CreateDir(p) => crate::paths::path_starts_with(p, dest) && (
            has_parent_ref(p) <==> has_parent_ref(dest)),
            EntryPlanView::WriteFile(p) => crate::paths::path_starts_with(p, dest) && (
            has_parent_ref(p) <==> has_parent_ref(dest)),
        },
{
    if enclosed is Some && stays_inside(enclosed->0) {
        crate::paths::lemma_join_stays_below(dest, enclosed->0);
    }
}

} // verus!
