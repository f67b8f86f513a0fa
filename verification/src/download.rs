//! The fetcher's retry policy, the names of the files that downloads are
//! written to, and the decision what kind of file a download is.

use crate::paths::{lemma_split_is_nonempty, piece_views, split, split_chars};
use crate::text::{append_chars, chars_of, lowercase_of, same_chars, slice_chars, string_of, to_lowercase};
use vstd::prelude::*;

verus! {

/// The number of attempts that a download gets.
pub const MAX_ATTEMPTS: u32 = 3;

/// The deadline of one attempt, in seconds.
pub const ATTEMPT_TIMEOUT_SECS: u64 = 300;

/// The user agent that every request carries.
pub fn user_agent() -> (s: &'static str)
    ensures
        s@ == "KetherServerDaemon/0.0.1"@,
{
    "KetherServerDaemon/0.0.1"
}

/// What the fetcher does next.
#[derive(Clone, Copy, Debug, PartialEq, Eq, Structural)]
pub enum FetchStep {
    /// Make the attempt with this number, counted from 1.
    Attempt(u32),
    /// Sleep this many seconds, then make the attempt with this number.
    SleepThenAttempt { secs: u64, attempt: u32 },
    /// The download succeeded.
    Succeeded,
    /// Every attempt failed.
    GaveUp,
}

/// Two to the power `n`.
pub open spec fn two_to(n: nat) -> nat
    decreases n,
{
    if n == 0 {
        1
    } else {
        2 * two_to((n - 1) as nat)
    }
}

/// What follows attempt number `attempt`: success ends the download; a
/// failure is followed by a pause of `2^attempt` seconds and the next
/// attempt, until `MAX_ATTEMPTS` attempts have failed.
pub open spec fn fetch_next(attempt: u32, succeeded: bool) -> FetchStep {
    if succeeded {
        FetchStep::Succeeded
    } else if attempt < MAX_ATTEMPTS {
        FetchStep::SleepThenAttempt {
            secs: two_to(attempt as nat) as u64,
            attempt: (attempt + 1) as u32,
        }
    } else {
        FetchStep::GaveUp
    }
}

/// The first step of a download.
pub fn first_fetch_step() -> (s: FetchStep)
    ensures
        s == FetchStep::Attempt(1),
{
    FetchStep::Attempt(1)
}

/// The pause before the attempt that follows attempt number `attempt`.
pub fn backoff_secs(attempt: u32) -> (secs: u64)
    requires
        attempt < 64,
    ensures
        secs == two_to(attempt as nat),
{
    let mut secs: u64 = 1;
    let mut i: u32 = 0;
    while i < attempt
        invariant
            i <= attempt < 64,
            secs == two_to(i as nat),
        decreases attempt - i,
    {
        proof {
            lemma_two_to_grows(i as nat + 1, 63);
            lemma_two_to_63();
            assert(two_to(i as nat + 1) == 2 * two_to(i as nat));
        }
        secs = secs * 2;
        i += 1;
    }
    secs
}

/// `two_to` does not decrease.
pub proof fn lemma_two_to_grows(a: nat, b: nat)
    requires
        a <= b,
    ensures
        two_to(a) <= two_to(b),
    decreases b,
{
    if a < b {
        lemma_two_to_grows(a, (b - 1) as nat);
    }
}

/// `2^63` fits in 64 bits.
pub proof fn lemma_two_to_63()
    ensures
        two_to(63) == 0x8000_0000_0000_0000,
{
    reveal_with_fuel(two_to, 64);
}

/// Decides what follows an attempt.
pub fn after_attempt(attempt: u32, succeeded: bool) -> (s: FetchStep)
    ensures
        s == fetch_next(attempt, succeeded),
{
    if succeeded {
        FetchStep::Succeeded
    } else if attempt < MAX_ATTEMPTS {
        FetchStep::SleepThenAttempt { secs: backoff_secs(attempt), attempt: attempt + 1 }
    } else {
        FetchStep::GaveUp
    }
}

/// No download makes more than `MAX_ATTEMPTS` attempts, and the pauses
/// between them are 2 and 4 seconds.
pub proof fn lemma_fetch_policy()
    ensures
        fetch_next(1, false) == (FetchStep::SleepThenAttempt { secs: 2, attempt: 2 }),
        fetch_next(2, false) == (FetchStep::SleepThenAttempt { secs: 4, attempt: 3 }),
        fetch_next(3, false) == FetchStep::GaveUp,
        forall|n: u32| n >= MAX_ATTEMPTS ==> #[trigger] fetch_next(n, false) == FetchStep::GaveUp,
        forall|n: u32| #[trigger] fetch_next(n, true) == FetchStep::Succeeded,
{
    reveal_with_fuel(two_to, 4);
}

/// A text that `fresh_token` may return: 36 characters, each a lowercase
/// hexadecimal digit or a hyphen.
pub open spec fn is_token(s: Seq<char>) -> bool {
    s.len() == 36 && forall|i: int|
        0 <= i < s.len() ==> (('0' <= #[trigger] s[i] && s[i] <= '9') || ('a' <= s[i] && s[i]
            <= 'f') || s[i] == '-')
}

/// A fresh random identifier from `uuid::Uuid::new_v4`, written as
/// `Uuid::to_string` writes it: 32 lowercase hexadecimal digits in five
/// groups with hyphens between them. Which identifier comes back is left
/// open.
#[verifier::external_body]
pub(crate) fn fresh_token() -> (r: String)
    ensures
        is_token(r@),
{
    uuid::Uuid::new_v4().to_string()
}

/// What follows the last slash of `url`, or all of it if it has none.
pub open spec fn last_segment(url: Seq<char>) -> Seq<char> {
    split(url, '/').last()
}

/// What precedes the first question mark of `s`, or all of it if it has
/// none.
pub open spec fn without_query(s: Seq<char>) -> Seq<char> {
    split(s, '?')[0]
}

/// The file name for a download from a signed Workshop URL: the last
/// segment of what precedes the query, or `workshop_download` if that is
/// empty.
pub open spec fn workshop_file_name(url: Seq<char>) -> Seq<char> {
    let f = last_segment(without_query(url));
    if f.len() == 0 {
        "workshop_download"@
    } else {
        f
    }
}

/// The file name for a direct download: what follows the last slash.
pub open spec fn direct_file_name(url: Seq<char>) -> Seq<char> {
    last_segment(url)
}

/// The name of a scratch file: the token, a hyphen, the file name.
pub open spec fn scratch_name(token: Seq<char>, file_name: Seq<char>) -> Seq<char> {
    token + seq!['-'] + file_name
}

/// The name of a scratch directory for an extraction: `extract-` and the
/// token.
pub open spec fn extract_dir_name(token: Seq<char>) -> Seq<char> {
    "extract-"@ + token
}

/// The last piece of a non-empty list of pieces.
fn last_piece(pieces: &Vec<Vec<char>>) -> (r: Vec<char>)
    requires
        pieces.len() > 0,
    ensures
        r@ == piece_views(pieces@).last(),
{
    let p = &pieces[pieces.len() - 1];
    let r = slice_chars(p, 0, p.len());
    assert(r@ =~= p@);
    r
}

/// The file name for a download from a signed Workshop URL.
pub fn workshop_filename(url: &str) -> (r: String)
    ensures
        r@ == workshop_file_name(url@),
{
    let raw = chars_of(url);
    let parts = split_chars(&raw, '?');
    proof {
        lemma_split_is_nonempty(raw@, '?');
        assert(piece_views(parts@).len() == parts.len());
        assert(piece_views(parts@)[0] == parts@[0]@);
    }
    let pieces = split_chars(&parts[0], '/');
    proof {
        lemma_split_is_nonempty(parts@[0]@, '/');
        assert(piece_views(pieces@).len() == pieces.len());
    }
    let last = last_piece(&pieces);
    if last.len() == 0 {
        string_of(&chars_of("workshop_download"))
    } else {
        string_of(&last)
    }
}

/// The file name for a direct download.
pub fn direct_filename(url: &str) -> (r: String)
    ensures
        r@ == direct_file_name(url@),
{
    let raw = chars_of(url);
    let pieces = split_chars(&raw, '/');
    proof {
        lemma_split_is_nonempty(raw@, '/');
        assert(piece_views(pieces@).len() == pieces.len());
    }
    let last = last_piece(&pieces);
    string_of(&last)
}

/// The name of the scratch file for a download.
pub fn scratch_file_name(token: &str, file_name: &str) -> (r: String)
    ensures
        r@ == scratch_name(token@, file_name@),
{
    let mut out = chars_of(token);
    out.push('-');
    append_chars(&mut out, &chars_of(file_name));
    string_of(&out)
}

/// The name of the scratch directory for an extraction.
pub fn extract_directory_name(token: &str) -> (r: String)
    ensures
        r@ == extract_dir_name(token@),
{
    let mut out = chars_of("extract-");
    append_chars(&mut out, &chars_of(token));
    string_of(&out)
}

/// The kind of a downloaded file.
#[derive(Clone, Copy, Debug, PartialEq, Eq, Structural)]
pub enum FileKind {
    /// A package, by its extension.
    Vpk,
    /// An archive, by its extension.
    Zip,
    /// No extension, or one that is neither `vpk` nor `zip`: the content
    /// decides.
    Unknown,
}

/// The extension of a file name: what follows its last dot, unless it has
/// no dot, or only one and that at the start.
pub open spec fn extension_of(name: Seq<char>) -> Option<Seq<char>> {
    let pieces = split(name, '.');
    if pieces.len() <= 1 || (pieces.len() == 2 && pieces[0].len() == 0) {
        None
    } else {
        Some(pieces.last())
    }
}

/// The kind of a file by its lowercased extension.
pub open spec fn kind_of_extension(lowered: Option<Seq<char>>) -> FileKind {
    match lowered {
        None => FileKind::Unknown,
        Some(e) => if e == "vpk"@ {
            FileKind::Vpk
        } else if e == "zip"@ {
            FileKind::Zip
        } else {
            FileKind::Unknown
        },
    }
}

/// The lowercase form of an optional text.
pub open spec fn lowered_opt(e: Option<Seq<char>>) -> Option<Seq<char>> {
    match e {
        Some(t) => Some(lowercase_of(t)),
        None => None,
    }
}

/// The extension of a file name.
pub fn file_extension(name: &str) -> (r: Option<String>)
    ensures
        crate::models::opt_view(r) == extension_of(name@),
{
    let raw = chars_of(name);
    let pieces = split_chars(&raw, '.');
    proof {
        lemma_split_is_nonempty(raw@, '.');
        assert(piece_views(pieces@).len() == pieces.len());
        assert(piece_views(pieces@)[0] == pieces@[0]@);
    }
    if pieces.len() <= 1 || (pieces.len() == 2 && pieces[0].len() == 0) {
        None
    } else {
        Some(string_of(&last_piece(&pieces)))
    }
}

/// The kind of a file whose extension, already lowercase, is `lowered`.
pub fn classify_extension(lowered: &Option<String>) -> (k: FileKind)
    ensures
        k == kind_of_extension(crate::models::opt_view(*lowered)),
{
    match lowered {
        None => FileKind::Unknown,
        Some(e) => {
            let e = chars_of(e.as_str());
            if same_chars(&e, &chars_of("vpk")) {
                FileKind::Vpk
            } else if same_chars(&e, &chars_of("zip")) {
                FileKind::Zip
            } else {
                FileKind::Unknown
            }
        },
    }
}

/// The kind of a downloaded file, by the extension of its name in any
/// letter case: `vpk` is a package, `zip` an archive; for anything else the
/// content decides.
pub fn detect_file_kind(file_name: &str) -> (k: FileKind)
    ensures
        k == kind_of_extension(lowered_opt(extension_of(file_name@))),
{
    let lowered = match file_extension(file_name) {
        Some(e) => Some(to_lowercase(e.as_str())),
        None => None,
    };
    classify_extension(&lowered)
}

} // verus!
