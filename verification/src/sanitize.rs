//! Sanitizers for map names and file names, and the containment checks that
//! keep every path the daemon touches below its base directory.

use crate::paths::{
    components, components_start_with, dot_dot, has_parent_ref, is_absolute, is_dot_dot, join_of,
    path_components, path_is_absolute, path_starts_with, piece_views,
};
use crate::text::{append_chars, chars_of, lowercase_of, slice_chars, string_of, to_lowercase};
use vstd::prelude::*;

verus! {

/// The longest map name that is accepted, in characters.
pub const MAX_NAME_LEN: usize = 255;

/// Why a map name was refused.
#[derive(Clone, Copy, Debug, PartialEq, Eq, Structural)]
pub enum NameError {
    /// Nothing is left after sanitization.
    Empty,
    /// More than `MAX_NAME_LEN` characters are left.
    TooLong,
    /// The name starts with `.` or `-`, as given or as sanitized.
    BadStart,
}

/// Why a path was refused.
#[derive(Clone, Copy, Debug, PartialEq, Eq, Structural)]
pub enum PathError {
    /// A component of the joined path is `..`.
    ParentReference,
    /// The path exists but its canonical form could not be obtained.
    Unresolved,
    /// The canonical path does not lie below the canonical base.
    OutsideBase,
}

/// What is known of a path on disk when it is validated. The caller looks
/// this up; the validation itself never touches the file system.
pub enum DiskState {
    /// Nothing exists at the path.
    Absent,
    /// Something exists there, but the path or the base has no canonical form.
    Unresolved,
    /// Something exists there; these are the canonical path and base.
    Resolved { path: String, base: String },
}

/// A character that a map name may hold before spaces are replaced.
pub open spec fn is_name_char(c: char) -> bool {
    ('a' <= c && c <= 'z') || ('0' <= c && c <= '9') || c == ' ' || c == '_' || c == '-'
}

/// The characters of `s` that a map name may hold, in order.
pub open spec fn keep_name_chars(s: Seq<char>) -> Seq<char>
    decreases s.len(),
{
    if s.len() == 0 {
        s
    } else {
        let before = keep_name_chars(s.drop_last());
        if is_name_char(s.last()) {
            before.push(s.last())
        } else {
            before
        }
    }
}

/// `s` without its leading spaces.
pub open spec fn skip_spaces(s: Seq<char>) -> Seq<char>
    decreases s.len(),
{
    if s.len() > 0 && s[0] == ' ' {
        skip_spaces(s.drop_first())
    } else {
        s
    }
}

/// `s` without its trailing spaces.
pub open spec fn drop_trailing_spaces(s: Seq<char>) -> Seq<char>
    decreases s.len(),
{
    if s.len() > 0 && s.last() == ' ' {
        drop_trailing_spaces(s.drop_last())
    } else {
        s
    }
}

/// `s` without leading and trailing spaces.
pub open spec fn trim_spaces(s: Seq<char>) -> Seq<char> {
    drop_trailing_spaces(skip_spaces(s))
}

/// `s` with each run of spaces replaced by a single space.
pub open spec fn collapse_spaces(s: Seq<char>) -> Seq<char>
    decreases s.len(),
{
    if s.len() == 0 {
        s
    } else {
        let before = collapse_spaces(s.drop_last());
        if s.last() == ' ' && s.len() >= 2 && s[s.len() - 2] == ' ' {
            before
        } else {
            before.push(s.last())
        }
    }
}

/// `s` with every space replaced by an underscore.
pub open spec fn underscored(s: Seq<char>) -> Seq<char> {
    Seq::new(s.len(), |i: int| if s[i] == ' ' { '_' } else { s[i] })
}

/// The name that lowercased text stands for: the permitted characters,
/// without spaces at the ends, with each run of spaces collapsed into one,
/// and with an underscore for each space that is left.
pub open spec fn clean_name(lowered: Seq<char>) -> Seq<char> {
    underscored(collapse_spaces(trim_spaces(keep_name_chars(lowered))))
}

/// The text starts, after any spaces, with `.` or `-`.
pub open spec fn has_bad_start(s: Seq<char>) -> bool {
    let t = skip_spaces(s);
    t.len() > 0 && (t[0] == '.' || t[0] == '-')
}

/// The outcome of sanitizing lowercased text: the clean name, unless it is
/// empty or too long, or the text or the clean name starts with `.` or `-`.
pub open spec fn name_outcome(lowered: Seq<char>) -> Result<Seq<char>, NameError> {
    let n = clean_name(lowered);
    if n.len() == 0 {
        Err(NameError::Empty)
    } else if n.len() > MAX_NAME_LEN {
        Err(NameError::TooLong)
    } else if has_bad_start(lowered) || n[0] == '.' || n[0] == '-' {
        Err(NameError::BadStart)
    } else {
        Ok(n)
    }
}

/// A character of a finished map name.
pub open spec fn is_final_name_char(c: char) -> bool {
    ('a' <= c && c <= 'z') || ('0' <= c && c <= '9') || c == '_' || c == '-'
}

/// Whether `std`'s `char::is_alphanumeric` holds of `c`.
pub uninterp spec fn is_alphanumeric_char(c: char) -> bool;

/// Calls `char::is_alphanumeric`, which tells whether a character is a letter
/// or a number by the Unicode tables. The contract only names the result.
#[verifier::external_body]
fn unicode_alphanumeric(c: char) -> (b: bool)
    ensures
        b == is_alphanumeric_char(c),
{
    c.is_alphanumeric()
}

/// A character that a file name may hold: an ASCII letter or digit, one of
/// `-`, `_`, `.`, space, or a letter or number outside ASCII.
pub open spec fn is_file_char(c: char) -> bool {
    ('a' <= c && c <= 'z') || ('A' <= c && c <= 'Z') || ('0' <= c && c <= '9') || c == '-' || c
        == '_' || c == '.' || c == ' ' || (c > '\x7f' && is_alphanumeric_char(c))
}

/// The characters of `s` that a file name may hold, in order.
pub open spec fn keep_file_chars(s: Seq<char>) -> Seq<char>
    decreases s.len(),
{
    if s.len() == 0 {
        s
    } else {
        let before = keep_file_chars(s.drop_last());
        if is_file_char(s.last()) {
            before.push(s.last())
        } else {
            before
        }
    }
}

/// The last component of `s` where it has one that is not `..`, else `s`.
pub open spec fn final_component(s: Seq<char>) -> Seq<char> {
    let c = components(s);
    if c.len() > 0 && c.last() != dot_dot() {
        c.last()
    } else {
        s
    }
}

/// The sanitized form of a file name.
pub open spec fn clean_filename(s: Seq<char>) -> Seq<char> {
    trim_spaces(keep_file_chars(final_component(s)))
}

/// What is left of the components `parts` when each `..` removes the
/// component before it, if there is one.
pub open spec fn resolve_parents(parts: Seq<Seq<char>>) -> Seq<Seq<char>>
    decreases parts.len(),
{
    if parts.len() == 0 {
        parts
    } else {
        let before = resolve_parents(parts.drop_last());
        if parts.last() == dot_dot() {
            if before.len() > 0 {
                before.drop_last()
            } else {
                before
            }
        } else {
            before.push(parts.last())
        }
    }
}

/// The components `parts` with one slash between neighbours.
pub open spec fn join_parts(parts: Seq<Seq<char>>) -> Seq<char>
    decreases parts.len(),
{
    if parts.len() == 0 {
        Seq::<char>::empty()
    } else if parts.len() == 1 {
        parts[0]
    } else {
        join_parts(parts.drop_last()) + seq!['/'] + parts.last()
    }
}

/// The normal form of the path `s`: no empty component, no `.`, every `..`
/// resolved against the component before it, a leading slash kept.
pub open spec fn normalized(s: Seq<char>) -> Seq<char> {
    let body = join_parts(resolve_parents(components(s)));
    if is_absolute(s) {
        seq!['/'] + body
    } else {
        body
    }
}

/// The verdict on a path that is to lie below `base`.
pub open spec fn containment(
    path: Seq<char>,
    base: Seq<char>,
    disk: DiskState,
) -> Result<(), PathError> {
    if has_parent_ref(join_of(base, path)) {
        Err(PathError::ParentReference)
    } else {
        match disk {
            DiskState::Absent => Ok(()),
            DiskState::Unresolved => Err(PathError::Unresolved),
            DiskState::Resolved { path: p, base: b } => if path_starts_with(p@, b@) {
                Ok(())
            } else {
                Err(PathError::OutsideBase)
            },
        }
    }
}

/// Removes leading and trailing spaces.
pub fn trim_space_chars(v: &Vec<char>) -> (r: Vec<char>)
    ensures
        r@ == trim_spaces(v@),
{
    let n = v.len();
    let mut start: usize = 0;
    assert(v@.subrange(0, n as int) =~= v@);
    while start < n && v[start] == ' '
        invariant
            start <= n == v.len(),
            skip_spaces(v@) == skip_spaces(v@.subrange(start as int, n as int)),
        decreases n - start,
    {
        assert(v@.subrange(start as int, n as int).drop_first() =~= v@.subrange(
            start + 1,
            n as int,
        ));
        start += 1;
    }
    let mut end: usize = n;
    while end > start && v[end - 1] == ' '
        invariant
            start <= end <= n == v.len(),
            skip_spaces(v@) == v@.subrange(start as int, n as int),
            drop_trailing_spaces(v@.subrange(start as int, n as int)) == drop_trailing_spaces(
                v@.subrange(start as int, end as int),
            ),
        decreases end,
    {
        assert(v@.subrange(start as int, end as int).drop_last() =~= v@.subrange(
            start as int,
            end - 1,
        ));
        end -= 1;
    }
    slice_chars(v, start, end)
}

/// Replaces each run of spaces by a single space.
pub fn collapse_space_chars(v: &Vec<char>) -> (r: Vec<char>)
    ensures
        r@ == collapse_spaces(v@),
{
    let mut out: Vec<char> = Vec::new();
    let mut i: usize = 0;
    assert(v@.take(0) =~= Seq::<char>::empty());
    while i < v.len()
        invariant
            i <= v.len(),
            out@ == collapse_spaces(v@.take(i as int)),
        decreases v.len() - i,
    {
        let c = v[i];
        assert(v@.take(i + 1).drop_last() =~= v@.take(i as int));
        assert(v@.take(i + 1).last() == c);
        if !(c == ' ' && i > 0 && v[i - 1] == ' ') {
            out.push(c);
        }
        i += 1;
    }
    assert(v@.take(v.len() as int) =~= v@);
    out
}

/// Keeps the characters that a map name may hold.
fn filter_name_chars(v: &Vec<char>) -> (r: Vec<char>)
    ensures
        r@ == keep_name_chars(v@),
{
    let mut out: Vec<char> = Vec::new();
    let mut i: usize = 0;
    assert(v@.take(0) =~= Seq::<char>::empty());
    while i < v.len()
        invariant
            i <= v.len(),
            out@ == keep_name_chars(v@.take(i as int)),
        decreases v.len() - i,
    {
        let c = v[i];
        assert(v@.take(i + 1).drop_last() =~= v@.take(i as int));
        if (c >= 'a' && c <= 'z') || (c >= '0' && c <= '9') || c == ' ' || c == '_' || c == '-' {
            out.push(c);
        }
        i += 1;
    }
    assert(v@.take(v.len() as int) =~= v@);
    out
}

/// Keeps the characters that a file name may hold.
fn filter_file_chars(v: &Vec<char>) -> (r: Vec<char>)
    ensures
        r@ == keep_file_chars(v@),
{
    let mut out: Vec<char> = Vec::new();
    let mut i: usize = 0;
    assert(v@.take(0) =~= Seq::<char>::empty());
    while i < v.len()
        invariant
            i <= v.len(),
            out@ == keep_file_chars(v@.take(i as int)),
        decreases v.len() - i,
    {
        let c = v[i];
        assert(v@.take(i + 1).drop_last() =~= v@.take(i as int));
        let ascii_ok = (c >= 'a' && c <= 'z') || (c >= 'A' && c <= 'Z') || (c >= '0' && c <= '9')
            || c == '-' || c == '_' || c == '.' || c == ' ';
        if ascii_ok || (c > '\x7f' && unicode_alphanumeric(c)) {
            out.push(c);
        }
        i += 1;
    }
    assert(v@.take(v.len() as int) =~= v@);
    out
}

/// Sanitizes text that is already lowercase into a map name: keeps
/// `[a-z0-9 _-]`, trims spaces, collapses each run of spaces into one,
/// writes `_` for each space that is left, and
/// refuses an empty name, one over 255 characters, and one that starts with
/// `.` or `-`, before or after the characters are dropped.
pub fn sanitize_lowered_name(lowered: &str) -> (r: Result<String, NameError>)
    ensures
        match r {
            Ok(s) => name_outcome(lowered@) == Ok::<Seq<char>, NameError>(s@),
            Err(e) => name_outcome(lowered@) == Err::<Seq<char>, NameError>(e),
        },
{
    let raw = chars_of(lowered);
    let kept = filter_name_chars(&raw);
    let spaced = trim_space_chars(&kept);
    let trimmed = collapse_space_chars(&spaced);
    let mut out: Vec<char> = Vec::new();
    let mut i: usize = 0;
    while i < trimmed.len()
        invariant
            i <= trimmed.len(),
            out@ == underscored(trimmed@).take(i as int),
        decreases trimmed.len() - i,
    {
        let c = trimmed[i];
        out.push(if c == ' ' { '_' } else { c });
        i += 1;
        assert(underscored(trimmed@).take(i as int) =~= underscored(trimmed@).take(i - 1).push(
            underscored(trimmed@)[i - 1],
        ));
    }
    assert(out@ =~= underscored(trimmed@));
    let mut first: usize = 0;
    assert(raw@.subrange(0, raw.len() as int) =~= raw@);
    while first < raw.len() && raw[first] == ' '
        invariant
            first <= raw.len(),
            skip_spaces(raw@) == skip_spaces(raw@.subrange(first as int, raw.len() as int)),
        decreases raw.len() - first,
    {
        assert(raw@.subrange(first as int, raw.len() as int).drop_first() =~= raw@.subrange(
            first + 1,
            raw.len() as int,
        ));
        first += 1;
    }
    let bad_start = first < raw.len() && (raw[first] == '.' || raw[first] == '-');
    assert(bad_start == has_bad_start(raw@));
    if out.len() == 0 {
        Err(NameError::Empty)
    } else if out.len() > MAX_NAME_LEN {
        Err(NameError::TooLong)
    } else if bad_start || out[0] == '.' || out[0] == '-' {
        Err(NameError::BadStart)
    } else {
        Ok(string_of(&out))
    }
}

/// Sanitizes a display name into a map name. The name is lowercased first;
/// the rest is `sanitize_lowered_name`.
pub fn sanitize_map_name(name: &str) -> (r: Result<String, NameError>)
    ensures
        match r {
            Ok(s) => name_outcome(lowercase_of(name@)) == Ok::<Seq<char>, NameError>(s@),
            Err(e) => name_outcome(lowercase_of(name@)) == Err::<Seq<char>, NameError>(e),
        },
{
    let lowered = to_lowercase(name);
    sanitize_lowered_name(lowered.as_str())
}

/// Sanitizes a file name: keeps the last path component, drops every
/// character that a file name may not hold, and trims spaces. The result
/// may be empty.
pub fn sanitize_filename(filename: &str) -> (r: String)
    ensures
        r@ == clean_filename(filename@),
{
    let raw = chars_of(filename);
    let parts = path_components(&raw);
    let n = parts.len();
    proof {
        if n > 0 {
            assert(piece_views(parts@).last() == parts@[n - 1]@);
        }
    }
    let kept = if n > 0 && !is_dot_dot(&parts[n - 1]) {
        filter_file_chars(&parts[n - 1])
    } else {
        filter_file_chars(&raw)
    };
    let trimmed = trim_space_chars(&kept);
    string_of(&trimmed)
}

/// Joins the components with single slashes.
fn join_components(parts: &Vec<Vec<char>>) -> (r: Vec<char>)
    ensures
        r@ == join_parts(piece_views(parts@)),
{
    let mut out: Vec<char> = Vec::new();
    let mut i: usize = 0;
    let ghost all = piece_views(parts@);
    assert(all.take(0) =~= Seq::<Seq<char>>::empty());
    while i < parts.len()
        invariant
            i <= parts.len(),
            all == piece_views(parts@),
            out@ == join_parts(all.take(i as int)),
        decreases parts.len() - i,
    {
        assert(all.take(i + 1).drop_last() =~= all.take(i as int));
        assert(all.take(i + 1).last() == parts@[i as int]@);
        if i > 0 {
            out.push('/');
            assert(out@ =~= join_parts(all.take(i as int)) + seq!['/']);
        } else {
            assert(all.take(1)[0] == parts@[0]@);
            assert(out@ + parts@[0]@ =~= parts@[0]@);
        }
        append_chars(&mut out, &parts[i]);
        i += 1;
    }
    assert(all.take(parts.len() as int) =~= all);
    out
}

/// Normalizes a path without touching the file system: drops empty
/// components and `.`, and lets each `..` remove the component before it.
pub fn normalize_path(path: &str) -> (r: String)
    ensures
        r@ == normalized(path@),
{
    let raw = chars_of(path);
    let parts = path_components(&raw);
    let ghost all = piece_views(parts@);
    let mut stack: Vec<Vec<char>> = Vec::new();
    let mut i: usize = 0;
    assert(all.take(0) =~= Seq::<Seq<char>>::empty());
    assert(piece_views(stack@) =~= Seq::<Seq<char>>::empty());
    while i < parts.len()
        invariant
            i <= parts.len(),
            all == piece_views(parts@),
            piece_views(stack@) == resolve_parents(all.take(i as int)),
        decreases parts.len() - i,
    {
        let ghost old_stack = stack@;
        assert(all.take(i + 1).drop_last() =~= all.take(i as int));
        assert(all.take(i + 1).last() == parts@[i as int]@);
        if is_dot_dot(&parts[i]) {
            if stack.len() > 0 {
                stack.pop();
                assert(piece_views(stack@) =~= piece_views(old_stack).drop_last());
            }
        } else {
            let piece = slice_chars(&parts[i], 0, parts[i].len());
            assert(piece@ =~= parts@[i as int]@);
            stack.push(piece);
            assert(piece_views(stack@) =~= piece_views(old_stack).push(piece@));
        }
        i += 1;
    }
    assert(all.take(parts.len() as int) =~= all);
    let body = join_components(&stack);
    let mut out: Vec<char> = Vec::new();
    if path_is_absolute(&raw) {
        out.push('/');
        assert(out@ =~= seq!['/']);
    }
    append_chars(&mut out, &body);
    assert(Seq::<char>::empty() + body@ =~= body@);
    string_of(&out)
}

/// Whether the components `c` start with the components `prefix`.
fn parts_start_with(c: &Vec<Vec<char>>, prefix: &Vec<Vec<char>>) -> (b: bool)
    ensures
        b == components_start_with(piece_views(c@), piece_views(prefix@)),
{
    if prefix.len() > c.len() {
        return false;
    }
    let ghost cv = piece_views(c@);
    let ghost pv = piece_views(prefix@);
    let mut i: usize = 0;
    while i < prefix.len()
        invariant
            i <= prefix.len() <= c.len(),
            cv == piece_views(c@),
            pv == piece_views(prefix@),
            forall|j: int| 0 <= j < i ==> cv[j] == pv[j],
        decreases prefix.len() - i,
    {
        if !crate::text::same_chars(&c[i], &prefix[i]) {
            assert(cv.subrange(0, prefix.len() as int)[i as int] == cv[i as int]);
            assert(cv[i as int] != pv[i as int]);
            return false;
        }
        i += 1;
    }
    assert(cv.subrange(0, prefix.len() as int) =~= pv);
    true
}

/// Tells whether a canonical path lies at or below a canonical base. Both
/// must be canonical already: the comparison is by components.
pub fn validate_path_within_base(canonical_path: &str, canonical_base: &str) -> (r: Result<
    (),
    PathError,
>)
    ensures
        r == if path_starts_with(canonical_path@, canonical_base@) {
            Ok::<(), PathError>(())
        } else {
            Err::<(), PathError>(PathError::OutsideBase)
        },
{
    let p = chars_of(canonical_path);
    let b = chars_of(canonical_base);
    if path_is_absolute(&p) != path_is_absolute(&b) {
        return Err(PathError::OutsideBase);
    }
    let pc = path_components(&p);
    let bc = path_components(&b);
    if parts_start_with(&pc, &bc) {
        Ok(())
    } else {
        Err(PathError::OutsideBase)
    }
}

/// `base` joined with `path`.
pub fn join_path(base: &str, path: &str) -> (r: String)
    ensures
        r@ == join_of(base@, path@),
{
    let p = chars_of(path);
    if path_is_absolute(&p) {
        return string_of(&p);
    }
    let mut out = chars_of(base);
    if out.len() > 0 && out[out.len() - 1] != '/' {
        out.push('/');
    }
    append_chars(&mut out, &p);
    string_of(&out)
}

/// Whether some component of the path is `..`.
pub fn path_has_parent_ref(path: &str) -> (b: bool)
    ensures
        b == has_parent_ref(path@),
{
    let raw = chars_of(path);
    let parts = path_components(&raw);
    let ghost all = piece_views(parts@);
    let mut i: usize = 0;
    while i < parts.len()
        invariant
            i <= parts.len(),
            all == piece_views(parts@),
            all == components(path@),
            forall|j: int| 0 <= j < i ==> all[j] != dot_dot(),
        decreases parts.len() - i,
    {
        if is_dot_dot(&parts[i]) {
            assert(all[i as int] == dot_dot());
            assert(all.contains(dot_dot()));
            return true;
        }
        i += 1;
    }
    false
}

/// Validates a path that is to lie below `base` and may not exist yet. The
/// path is joined to the base and refused if any component is `..`. If
/// something exists at the path, its canonical form must lie below the
/// canonical base; `disk` carries what the caller found.
pub fn validate_path_within_base_new(path: &str, base: &str, disk: &DiskState) -> (r: Result<
    (),
    PathError,
>)
    ensures
        r == containment(path@, base@, *disk),
{
    let joined = join_path(base, path);
    if path_has_parent_ref(joined.as_str()) {
        return Err(PathError::ParentReference);
    }
    match disk {
        DiskState::Absent => Ok(()),
        DiskState::Unresolved => Err(PathError::Unresolved),
        DiskState::Resolved { path: p, base: b } => validate_path_within_base(
            p.as_str(),
            b.as_str(),
        ),
    }
}

/// The path `p` as seen from `base`: the components of `p` that follow
/// those of `base`, joined by slashes; `None` if `p` does not lie at or
/// below `base`.
pub open spec fn relative_to(p: Seq<char>, base: Seq<char>) -> Option<Seq<char>> {
    if path_starts_with(p, base) {
        Some(
            join_parts(
                components(p).subrange(components(base).len() as int, components(p).len() as int),
            ),
        )
    } else {
        None
    }
}

/// The path `path` as seen from `base`.
pub fn strip_base(path: &str, base: &str) -> (r: Option<String>)
    ensures
        crate::models::opt_view(r) == relative_to(path@, base@),
{
    let p = chars_of(path);
    let b = chars_of(base);
    if path_is_absolute(&p) != path_is_absolute(&b) {
        return None;
    }
    let pc = path_components(&p);
    let bc = path_components(&b);
    if !parts_start_with(&pc, &bc) {
        return None;
    }
    let mut rest: Vec<Vec<char>> = Vec::new();
    let mut i: usize = bc.len();
    let ghost all = piece_views(pc@);
    assert(piece_views(rest@) =~= all.subrange(bc.len() as int, i as int));
    while i < pc.len()
        invariant
            bc.len() <= i <= pc.len(),
            all == piece_views(pc@),
            piece_views(rest@) == all.subrange(bc.len() as int, i as int),
        decreases pc.len() - i,
    {
        let ghost old_rest = rest@;
        let piece = slice_chars(&pc[i], 0, pc[i].len());
        assert(piece@ =~= pc@[i as int]@);
        rest.push(piece);
        assert(piece_views(rest@) =~= piece_views(old_rest).push(piece@));
        i += 1;
        assert(all.subrange(bc.len() as int, i as int) =~= all.subrange(
            bc.len() as int,
            i - 1,
        ).push(all[i - 1]));
    }
    let joined = join_components(&rest);
    Some(string_of(&joined))
}

/// Every character of `s` satisfies `p`.
pub open spec fn all_chars(s: Seq<char>, p: spec_fn(char) -> bool) -> bool {
    forall|i: int| 0 <= i < s.len() ==> p(#[trigger] s[i])
}

/// Skipping leading spaces keeps what holds of every character.
pub proof fn lemma_skip_spaces_keeps(s: Seq<char>, p: spec_fn(char) -> bool)
    requires
        all_chars(s, p),
    ensures
        all_chars(skip_spaces(s), p),
    decreases s.len(),
{
    if s.len() > 0 && s[0] == ' ' {
        assert forall|i: int| 0 <= i < s.drop_first().len() implies p(
            #[trigger] s.drop_first()[i],
        ) by {
            assert(s.drop_first()[i] == s[i + 1]);
        }
        lemma_skip_spaces_keeps(s.drop_first(), p);
    }
}

/// Dropping trailing spaces keeps what holds of every character.
pub proof fn lemma_drop_trailing_spaces_keeps(s: Seq<char>, p: spec_fn(char) -> bool)
    requires
        all_chars(s, p),
    ensures
        all_chars(drop_trailing_spaces(s), p),
    decreases s.len(),
{
    if s.len() > 0 && s.last() == ' ' {
        assert forall|i: int| 0 <= i < s.drop_last().len() implies p(
            #[trigger] s.drop_last()[i],
        ) by {
            assert(s.drop_last()[i] == s[i]);
        }
        lemma_drop_trailing_spaces_keeps(s.drop_last(), p);
    }
}

/// Collapsing runs of spaces keeps what holds of every character.
pub proof fn lemma_collapse_spaces_keeps(s: Seq<char>, p: spec_fn(char) -> bool)
    requires
        all_chars(s, p),
    ensures
        all_chars(collapse_spaces(s), p),
    decreases s.len(),
{
    if s.len() > 0 {
        assert forall|i: int| 0 <= i < s.drop_last().len() implies p(
            #[trigger] s.drop_last()[i],
        ) by {
            assert(s.drop_last()[i] == s[i]);
        }
        lemma_collapse_spaces_keeps(s.drop_last(), p);
        assert(p(s[s.len() - 1]));
    }
}

/// After collapsing, the text ends as it did before, and no space follows
/// a space.
pub proof fn lemma_collapsed_has_single_spaces(s: Seq<char>)
    ensures
        s.len() > 0 ==> collapse_spaces(s).len() > 0 && collapse_spaces(s).last() == s.last(),
        s.len() == 0 ==> collapse_spaces(s).len() == 0,
        forall|i: int|
            0 <= i < collapse_spaces(s).len() - 1 ==> !(#[trigger] collapse_spaces(s)[i] == ' '
                && collapse_spaces(s)[i + 1] == ' '),
    decreases s.len(),
{
    if s.len() > 0 {
        let t = s.drop_last();
        lemma_collapsed_has_single_spaces(t);
        let before = collapse_spaces(t);
        let all = collapse_spaces(s);
        if t.len() > 0 {
            assert(t.last() == s[s.len() - 2]);
        }
        assert forall|i: int| 0 <= i < all.len() - 1 implies !(#[trigger] all[i] == ' ' && all[i
            + 1] == ' ') by {
            if i < before.len() - 1 {
                assert(all[i] == before[i] && all[i + 1] == before[i + 1]);
            }
        }
    }
}

/// Only permitted characters are kept for a map name.
pub proof fn lemma_keep_name_chars(s: Seq<char>)
    ensures
        all_chars(keep_name_chars(s), |c: char| is_name_char(c)),
    decreases s.len(),
{
    if s.len() > 0 {
        lemma_keep_name_chars(s.drop_last());
    }
}

/// Only permitted characters are kept for a file name.
pub proof fn lemma_keep_file_chars(s: Seq<char>)
    ensures
        all_chars(keep_file_chars(s), |c: char| is_file_char(c)),
    decreases s.len(),
{
    if s.len() > 0 {
        lemma_keep_file_chars(s.drop_last());
    }
}

/// A sanitized map name holds nothing but `[a-z0-9_-]`, whatever the input
/// was: no slash, no backslash, no dot, so no path separator and no parent
/// reference survive sanitization.
pub proof fn lemma_sanitized_name_is_plain(lowered: Seq<char>)
    ensures
        forall|i: int|
            0 <= i < clean_name(lowered).len() ==> is_final_name_char(
                #[trigger] clean_name(lowered)[i],
            ),
        forall|i: int|
            0 <= i < clean_name(lowered).len() ==> {
                let c = #[trigger] clean_name(lowered)[i];
                c != '/' && c != '\\' && c != '.'
            },
{
    let p = |c: char| is_name_char(c);
    lemma_keep_name_chars(lowered);
    lemma_skip_spaces_keeps(keep_name_chars(lowered), p);
    lemma_drop_trailing_spaces_keeps(skip_spaces(keep_name_chars(lowered)), p);
    lemma_collapse_spaces_keeps(trim_spaces(keep_name_chars(lowered)), p);
    let t = collapse_spaces(trim_spaces(keep_name_chars(lowered)));
    assert forall|i: int| 0 <= i < clean_name(lowered).len() implies is_final_name_char(
        #[trigger] clean_name(lowered)[i],
    ) by {
        assert(p(t[i]));
    }
}

/// A sanitized file name holds no slash and no backslash.
pub proof fn lemma_sanitized_filename_has_no_separator(s: Seq<char>)
    ensures
        forall|i: int|
            0 <= i < clean_filename(s).len() ==> {
                let c = #[trigger] clean_filename(s)[i];
                c != '/' && c != '\\'
            },
{
    let p = |c: char| is_file_char(c);
    let f = final_component(s);
    lemma_keep_file_chars(f);
    lemma_skip_spaces_keeps(keep_file_chars(f), p);
    lemma_drop_trailing_spaces_keeps(skip_spaces(keep_file_chars(f)), p);
    assert forall|i: int| 0 <= i < clean_filename(s).len() implies {
        let c = #[trigger] clean_filename(s)[i];
        c != '/' && c != '\\'
    } by {
        assert(p(clean_filename(s)[i]));
    }
}

} // verus!
