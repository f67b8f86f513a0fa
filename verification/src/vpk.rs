//! Package metadata: where the `addoninfo.txt` blob of a VPK lies, and the
//! title and version that it declares.

use crate::paths::{lemma_split_is_nonempty, piece_views, split, split_chars};
use crate::text::{append_chars, chars_of, ends_with, has_suffix, slice_chars, string_of};
use vstd::prelude::*;

verus! {

/// The archive index that marks content embedded in the directory file.
pub const EMBEDDED_ARCHIVE: u16 = 0x7FFF;

/// The size of a VPK version 1 header in bytes: signature, version, tree size.
pub const VPK_V1_HEADER_SIZE: u64 = 12;

/// Title and version of a package.
#[derive(Debug)]
pub struct VpkMetadata {
    pub title: String,
    pub version: String,
}

/// The mathematical content of `VpkMetadata`.
pub struct VpkMetadataView {
    pub title: Seq<char>,
    pub version: Seq<char>,
}

impl View for VpkMetadata {
    type V = VpkMetadataView;

    open spec fn view(&self) -> VpkMetadataView {
        VpkMetadataView { title: self.title@, version: self.version@ }
    }
}

/// What the directory tree of a VPK says of one file.
#[derive(Clone, Copy, Debug, PartialEq, Eq, Structural)]
pub struct VpkEntry {
    /// The archive that holds the content; `EMBEDDED_ARCHIVE` for the
    /// directory file itself.
    pub archive_index: u16,
    /// Where the content starts: after the tree for embedded content, from
    /// the start of the archive otherwise.
    pub entry_offset: u32,
    /// The length of the content in bytes.
    pub entry_length: u32,
}

/// Where to read the content of a file from.
#[derive(Clone, Copy, Debug, PartialEq, Eq, Structural)]
pub enum ContentSource {
    /// From the directory file itself, at this offset from its start.
    Embedded { offset: u64, length: u32 },
    /// From the sibling archive with this index.
    Sibling { archive_index: u16 },
}

/// Why no metadata could be had.
#[derive(Clone, Copy, Debug, PartialEq, Eq, Structural)]
pub enum VpkError {
    /// The package has no `addoninfo.txt` at its root.
    MetadataAbsent,
}

/// Where the content of `entry` lies in a version 1 package whose tree has
/// `tree_size` bytes.
pub open spec fn content_source(tree_size: u32, entry: VpkEntry) -> ContentSource {
    if entry.archive_index == EMBEDDED_ARCHIVE {
        ContentSource::Embedded {
            offset: (VPK_V1_HEADER_SIZE + tree_size + entry.entry_offset) as u64,
            length: entry.entry_length,
        }
    } else {
        ContentSource::Sibling { archive_index: entry.archive_index }
    }
}

/// What `String::from_utf8_lossy` of the standard library makes of the bytes
/// `b`: the text they encode, with U+FFFD for each invalid sequence.
pub uninterp spec fn utf8_lossy(b: Seq<u8>) -> Seq<char>;

/// Calls `String::from_utf8_lossy`. The contract only names the result.
#[verifier::external_body]
fn decode_utf8_lossy(bytes: &[u8]) -> (r: String)
    ensures
        r@ == utf8_lossy(bytes@),
{
    String::from_utf8_lossy(bytes).into_owned()
}

/// A character that has a meaning of its own in a regular expression.
pub open spec fn is_regex_meta(c: char) -> bool {
    c == '\\' || c == '.' || c == '+' || c == '*' || c == '?' || c == '(' || c == ')' || c == '|'
        || c == '[' || c == ']' || c == '{' || c == '}' || c == '^' || c == '$' || c == '#' || c
        == '&' || c == '-' || c == '~'
}

/// `s` with a backslash before each meta character.
pub open spec fn regex_escaped(s: Seq<char>) -> Seq<char>
    decreases s.len(),
{
    if s.len() == 0 {
        s
    } else {
        let before = regex_escaped(s.drop_last());
        if is_regex_meta(s.last()) {
            before.push('\\').push(s.last())
        } else {
            before.push(s.last())
        }
    }
}

/// Calls `regex::escape`, which copies the text and puts a backslash before
/// each of the meta characters `\ . + * ? ( ) | [ ] { } ^ $ # & - ~`.
#[verifier::external_body]
fn escape_for_regex(s: &str) -> (r: String)
    ensures
        r@ == regex_escaped(s@),
{
    regex::escape(s)
}

/// What the first capture group of the regular expression `pattern` holds
/// at its leftmost match in `text`, by `regex::Regex::new`,
/// `Regex::captures` and `Captures::get(1)`. The outer `None` says that the
/// pattern does not compile; the inner one that nothing matches or that the
/// group took no part in the match.
pub uninterp spec fn regex_first_group(pattern: Seq<char>, text: Seq<char>) -> Option<
    Option<Seq<char>>,
>;

/// Compiles `pattern` with `regex::Regex::new`, searches `text` with
/// `Regex::captures` and copies out what group 1 matched. The contract only
/// names the result.
#[verifier::external_body]
fn first_group(pattern: &str, text: &str) -> (r: Option<Option<String>>)
    ensures
        match r {
            None => regex_first_group(pattern@, text@) is None,
            Some(None) => regex_first_group(pattern@, text@) == Some(None::<Seq<char>>),
            Some(Some(v)) => regex_first_group(pattern@, text@) == Some(Some(v@)),
        },
{
    let re = regex::Regex::new(pattern).ok()?;
    Some(re.captures(text).and_then(|c| c.get(1)).map(|m| m.as_str().to_string()))
}

/// The pattern for a line that sets a key: leading white space, the key in
/// double quotes or bare, in any letter case, white space, and the value in
/// double quotes, which is group 1. `escaped` is the escaped key.
pub open spec fn value_pattern(escaped: Seq<char>) -> Seq<char> {
    "^\\s*(?i)(?:\""@ + escaped + "\"|"@ + escaped + ")\\s+\"([^\"]*)\""@
}

/// The value that `line` gives to `key`, if it sets it.
pub open spec fn line_value(line: Seq<char>, key: Seq<char>) -> Option<Seq<char>> {
    match regex_first_group(value_pattern(regex_escaped(key)), line) {
        Some(Some(v)) => Some(v),
        _ => None,
    }
}

/// The first value that is present.
pub open spec fn first_present(values: Seq<Option<Seq<char>>>) -> Option<Seq<char>>
    decreases values.len(),
{
    if values.len() == 0 {
        None
    } else {
        match first_present(values.drop_last()) {
            Some(v) => Some(v),
            None => values.last(),
        }
    }
}

/// `piece` without one trailing carriage return.
pub open spec fn strip_cr(piece: Seq<char>) -> Seq<char> {
    if piece.len() > 0 && piece.last() == '\r' {
        piece.drop_last()
    } else {
        piece
    }
}

/// The lines of `s`: the pieces between line feeds, each without the
/// carriage return that may precede its line feed. What follows the last
/// line feed is a line only if it is not empty.
pub open spec fn text_lines(s: Seq<char>) -> Seq<Seq<char>> {
    let pieces = split(s, '\n');
    let head = Seq::new((pieces.len() - 1) as nat, |i: int| strip_cr(pieces[i]));
    if pieces.last().len() > 0 {
        head.push(pieces.last())
    } else {
        head
    }
}

/// The values that the lines give to `key`, line by line.
pub open spec fn line_values(lines: Seq<Seq<char>>, key: Seq<char>) -> Seq<Option<Seq<char>>> {
    Seq::new(lines.len(), |i: int| line_value(lines[i], key))
}

/// The value of `key` in a text of lines: that of the first line that sets
/// it, else `Unknown`.
pub open spec fn key_value(lines: Seq<Seq<char>>, key: Seq<char>) -> Seq<char> {
    match first_present(line_values(lines, key)) {
        Some(v) => v,
        None => "Unknown"@,
    }
}

/// The metadata that the text of an `addoninfo.txt` declares.
pub open spec fn metadata_of(text: Seq<char>) -> VpkMetadataView {
    VpkMetadataView {
        title: key_value(text_lines(text), "addonTitle"@),
        version: key_value(text_lines(text), "addonVersion"@),
    }
}

/// The name that the sibling archives of a directory file share: the file
/// stem without a trailing `_dir`.
pub open spec fn archive_base(stem: Seq<char>) -> Seq<char> {
    if ends_with(stem, "_dir"@) {
        stem.subrange(0, stem.len() - 4)
    } else {
        stem
    }
}

/// The lookup key of `addoninfo.txt` at the root of a package. The directory
/// tree writes the root path as a single space.
pub fn addon_info_key() -> (k: &'static str)
    ensures
        k@ == " /addoninfo.txt"@,
{
    " /addoninfo.txt"
}

/// Where to read `addoninfo.txt` from, given what the directory tree says of
/// it; `entry` is `None` if the tree does not list it.
pub fn locate_addon_info(tree_size: u32, entry: Option<VpkEntry>) -> (r: Result<
    ContentSource,
    VpkError,
>)
    ensures
        r == match entry {
            Some(e) => Ok::<ContentSource, VpkError>(content_source(tree_size, e)),
            None => Err::<ContentSource, VpkError>(VpkError::MetadataAbsent),
        },
{
    match entry {
        None => Err(VpkError::MetadataAbsent),
        Some(e) => {
            if e.archive_index == EMBEDDED_ARCHIVE {
                let offset: u64 = VPK_V1_HEADER_SIZE + e.entry_offset as u64 + tree_size as u64;
                Ok(ContentSource::Embedded { offset, length: e.entry_length })
            } else {
                Ok(ContentSource::Sibling { archive_index: e.archive_index })
            }
        },
    }
}

/// The name that the sibling archives of a directory file share.
pub fn archive_base_name(stem: &str) -> (r: String)
    ensures
        r@ == archive_base(stem@),
{
    let s = chars_of(stem);
    let suffix = chars_of("_dir");
    proof {
        reveal_strlit("_dir");
    }
    if has_suffix(&s, &suffix) {
        let cut = slice_chars(&s, 0, s.len() - 4);
        string_of(&cut)
    } else {
        string_of(&s)
    }
}

/// Splits a text into its lines.
pub fn split_lines(text: &str) -> (r: Vec<Vec<char>>)
    ensures
        piece_views(r@) == text_lines(text@),
{
    let raw = chars_of(text);
    let pieces = split_chars(&raw, '\n');
    proof {
        lemma_split_is_nonempty(raw@, '\n');
        assert(piece_views(pieces@).len() == pieces.len());
    }
    let ghost all = piece_views(pieces@);
    let n = pieces.len();
    let mut out: Vec<Vec<char>> = Vec::new();
    let mut i: usize = 0;
    while i + 1 < n
        invariant
            i + 1 <= n == pieces.len(),
            all == piece_views(pieces@),
            piece_views(out@) == Seq::new(i as nat, |k: int| strip_cr(all[k])),
        decreases n - i,
    {
        let p = &pieces[i];
        let m = p.len();
        let ghost old_out = out@;
        let line = if m > 0 && p[m - 1] == '\r' {
            slice_chars(p, 0, m - 1)
        } else {
            slice_chars(p, 0, m)
        };
        assert(all[i as int] == p@);
        assert(p@.subrange(0, m as int) =~= p@);
        assert(line@ == strip_cr(all[i as int]));
        out.push(line);
        assert(piece_views(out@) =~= piece_views(old_out).push(strip_cr(all[i as int])));
        i += 1;
        assert(piece_views(out@) =~= Seq::new(i as nat, |k: int| strip_cr(all[k])));
    }
    let last = &pieces[n - 1];
    assert(all.last() == last@);
    if last.len() > 0 {
        let ghost old_out = out@;
        let line = slice_chars(last, 0, last.len());
        assert(line@ =~= last@);
        out.push(line);
        assert(piece_views(out@) =~= piece_views(old_out).push(last@));
    }
    out
}

/// The metadata for the values found: each found value, else `Unknown`.
pub fn metadata_from(title: Option<String>, version: Option<String>) -> (m: VpkMetadata)
    ensures
        m.title@ == match title {
            Some(t) => t@,
            None => "Unknown"@,
        },
        m.version@ == match version {
            Some(v) => v@,
            None => "Unknown"@,
        },
{
    let title = match title {
        Some(t) => t,
        None => string_of(&chars_of("Unknown")),
    };
    let version = match version {
        Some(v) => v,
        None => string_of(&chars_of("Unknown")),
    };
    VpkMetadata { title, version }
}

/// Reads package metadata.
pub struct VpkExtractor;

impl VpkExtractor {
    /// A reader of package metadata.
    pub fn new() -> (r: VpkExtractor) {
        VpkExtractor
    }

    /// The value that a line of KeyValue text gives to `key`: the line may
    /// start with white space, the key may stand in double quotes or bare and
    /// in any letter case, and the value stands in double quotes.
    pub fn extract_value(line: &str, key: &str) -> (r: Option<String>)
        ensures
            match r {
                Some(v) => line_value(line@, key@) == Some(v@),
                None => line_value(line@, key@) is None,
            },
    {
        let escaped = escape_for_regex(key);
        let esc = chars_of(escaped.as_str());
        let mut pattern = chars_of("^\\s*(?i)(?:\"");
        append_chars(&mut pattern, &esc);
        append_chars(&mut pattern, &chars_of("\"|"));
        append_chars(&mut pattern, &esc);
        append_chars(&mut pattern, &chars_of(")\\s+\"([^\"]*)\""));
        let pattern = string_of(&pattern);
        match first_group(pattern.as_str(), line) {
            Some(Some(v)) => Some(v),
            _ => None,
        }
    }

    /// The value of `key` in the lines: that of the first line that sets it.
    pub fn first_value(lines: &Vec<Vec<char>>, key: &str) -> (r: Option<String>)
        ensures
            match r {
                Some(v) => first_present(line_values(piece_views(lines@), key@)) == Some(v@),
                None => first_present(line_values(piece_views(lines@), key@)) is None,
            },
    {
        let ghost vals = line_values(piece_views(lines@), key@);
        let mut i: usize = 0;
        assert(vals.take(0) =~= Seq::<Option<Seq<char>>>::empty());
        while i < lines.len()
            invariant
                i <= lines.len(),
                vals == line_values(piece_views(lines@), key@),
                first_present(vals.take(i as int)) is None,
            decreases lines.len() - i,
        {
            let line = string_of(&lines[i]);
            let found = Self::extract_value(line.as_str(), key);
            assert(vals.take(i + 1).drop_last() =~= vals.take(i as int));
            assert(vals.take(i + 1).last() == line_value(lines@[i as int]@, key@));
            if found.is_some() {
                proof {
                    lemma_first_present_stays(vals, i + 1);
                }
                return found;
            }
            i += 1;
        }
        assert(vals.take(lines.len() as int) =~= vals);
        None
    }

    /// The metadata that the content of an `addoninfo.txt` declares: for
    /// each of `addonTitle` and `addonVersion` the value of the first line
    /// that sets it, and `Unknown` where no line does.
    pub fn parse_addon_info(&self, content: &[u8]) -> (m: VpkMetadata)
        ensures
            m@ == metadata_of(utf8_lossy(content@)),
    {
        let text = decode_utf8_lossy(content);
        let lines = split_lines(text.as_str());
        let title = Self::first_value(&lines, "addonTitle");
        let version = Self::first_value(&lines, "addonVersion");
        metadata_from(title, version)
    }
}

/// Once a value is present among the first `n`, it stays the first value
/// however many follow.
pub proof fn lemma_first_present_stays(values: Seq<Option<Seq<char>>>, n: int)
    requires
        0 <= n <= values.len(),
        first_present(values.take(n)) is Some,
    ensures
        first_present(values) == first_present(values.take(n)),
    decreases values.len() - n,
{
    if n < values.len() {
        assert(values.take(n + 1).drop_last() =~= values.take(n));
        lemma_first_present_stays(values, n + 1);
    } else {
        assert(values.take(n) =~= values);
    }
}

/// A key without meta characters is its own escaped form.
pub proof fn lemma_plain_key_needs_no_escape(key: Seq<char>)
    requires
        forall|i: int| 0 <= i < key.len() ==> !is_regex_meta(#[trigger] key[i]),
    ensures
        regex_escaped(key) == key,
    decreases key.len(),
{
    if key.len() > 0 {
        let rest = key.drop_last();
        assert forall|i: int| 0 <= i < rest.len() implies !is_regex_meta(#[trigger] rest[i]) by {
            assert(rest[i] == key[i]);
        }
        lemma_plain_key_needs_no_escape(rest);
        assert(!is_regex_meta(key[key.len() - 1]));
        assert(rest.push(key.last()) =~= key);
    }
}

} // verus!
