//! A model of slash-separated paths. A path is text; its components are the
//! pieces between slashes, without the empty ones and without `.`.

use crate::text::slice_chars;
use vstd::prelude::*;

verus! {

/// The pieces of `s` between occurrences of `sep`. There is always at least
/// one piece; two adjacent separators enclose an empty piece.
pub open spec fn split(s: Seq<char>, sep: char) -> Seq<Seq<char>>
    decreases s.len(),
{
    if s.len() == 0 {
        seq![Seq::<char>::empty()]
    } else {
        let before = split(s.drop_last(), sep);
        if s.last() == sep {
            before.push(Seq::<char>::empty())
        } else {
            before.drop_last().push(before.last().push(s.last()))
        }
    }
}

/// The text `..`.
pub open spec fn dot_dot() -> Seq<char> {
    seq!['.', '.']
}

/// The text `.`.
pub open spec fn dot() -> Seq<char> {
    seq!['.']
}

/// A piece that counts as a component: not empty and not `.`.
pub open spec fn is_component(piece: Seq<char>) -> bool {
    piece.len() > 0 && piece != dot()
}

/// The pieces of `pieces` that are components, in order.
pub open spec fn keep_components(pieces: Seq<Seq<char>>) -> Seq<Seq<char>>
    decreases pieces.len(),
{
    if pieces.len() == 0 {
        Seq::<Seq<char>>::empty()
    } else {
        let before = keep_components(pieces.drop_last());
        if is_component(pieces.last()) {
            before.push(pieces.last())
        } else {
            before
        }
    }
}

/// The components of the path `s`.
pub open spec fn components(s: Seq<char>) -> Seq<Seq<char>> {
    keep_components(split(s, '/'))
}

/// The path starts at the root.
pub open spec fn is_absolute(s: Seq<char>) -> bool {
    s.len() > 0 && s[0] == '/'
}

/// The views of a vector of pieces.
pub open spec fn piece_views(v: Seq<Vec<char>>) -> Seq<Seq<char>> {
    Seq::new(v.len(), |i: int| v[i]@)
}

/// Some component of the path is `..`.
pub open spec fn has_parent_ref(s: Seq<char>) -> bool {
    components(s).contains(dot_dot())
}

/// The last component, unless there is none or it is `..`.
pub open spec fn file_name_of(s: Seq<char>) -> Option<Seq<char>> {
    let c = components(s);
    if c.len() > 0 && c.last() != dot_dot() {
        Some(c.last())
    } else {
        None
    }
}

/// `base` joined with `p`: an absolute `p` replaces `base`; otherwise `p`
/// follows `base` after exactly one slash, which is added if `base` is not
/// empty and does not end in one.
pub open spec fn join_of(base: Seq<char>, p: Seq<char>) -> Seq<char> {
    if is_absolute(p) {
        p
    } else if base.len() == 0 || base.last() == '/' {
        base + p
    } else {
        base + seq!['/'] + p
    }
}

/// `c` starts with the components `prefix`.
pub open spec fn components_start_with(c: Seq<Seq<char>>, prefix: Seq<Seq<char>>) -> bool {
    prefix.len() <= c.len() && c.subrange(0, prefix.len() as int) == prefix
}

/// The path `p` lies at or below the path `base`: both are absolute or both
/// relative, and the components of `p` start with those of `base`.
pub open spec fn path_starts_with(p: Seq<char>, base: Seq<char>) -> bool {
    is_absolute(p) == is_absolute(base) && components_start_with(components(p), components(base))
}

/// Splits `s` at each `sep`.
pub fn split_chars(s: &Vec<char>, sep: char) -> (r: Vec<Vec<char>>)
    ensures
        piece_views(r@) == split(s@, sep),
{
    let mut done: Vec<Vec<char>> = Vec::new();
    let mut cur: Vec<char> = Vec::new();
    let mut i: usize = 0;
    assert(s@.take(0) =~= Seq::<char>::empty());
    assert(piece_views(done@).push(cur@) =~= seq![Seq::<char>::empty()]);
    while i < s.len()
        invariant
            i <= s.len(),
            piece_views(done@).push(cur@) == split(s@.take(i as int), sep),
        decreases s.len() - i,
    {
        let c = s[i];
        let ghost before = split(s@.take(i as int), sep);
        let ghost old_done = done@;
        let ghost old_cur = cur@;
        assert(s@.take(i + 1).drop_last() =~= s@.take(i as int));
        assert(s@.take(i + 1).last() == c);
        if c == sep {
            done.push(cur);
            cur = Vec::new();
            assert(piece_views(done@) =~= piece_views(old_done).push(old_cur));
        } else {
            cur.push(c);
            assert(before.drop_last() =~= piece_views(old_done));
            assert(before.last() == old_cur);
        }
        i += 1;
    }
    assert(s@.take(s.len() as int) =~= s@);
    let ghost old_done = done@;
    let ghost old_cur = cur@;
    done.push(cur);
    assert(piece_views(done@) =~= piece_views(old_done).push(old_cur));
    done
}

/// Whether `piece` is the text `.`.
pub fn is_dot(piece: &Vec<char>) -> (b: bool)
    ensures
        b == (piece@ == dot()),
{
    let b = piece.len() == 1 && piece[0] == '.';
    assert(b ==> piece@ =~= dot());
    b
}

/// Whether `piece` is the text `..`.
pub fn is_dot_dot(piece: &Vec<char>) -> (b: bool)
    ensures
        b == (piece@ == dot_dot()),
{
    let b = piece.len() == 2 && piece[0] == '.' && piece[1] == '.';
    assert(b ==> piece@ =~= dot_dot());
    b
}

/// The components of the path `s`.
pub fn path_components(s: &Vec<char>) -> (r: Vec<Vec<char>>)
    ensures
        piece_views(r@) == components(s@),
{
    let pieces = split_chars(s, '/');
    let mut out: Vec<Vec<char>> = Vec::new();
    let mut i: usize = 0;
    assert(piece_views(pieces@).take(0) =~= Seq::<Seq<char>>::empty());
    assert(piece_views(out@) =~= Seq::<Seq<char>>::empty());
    while i < pieces.len()
        invariant
            i <= pieces.len(),
            piece_views(out@) == keep_components(piece_views(pieces@).take(i as int)),
        decreases pieces.len() - i,
    {
        let ghost old_out = out@;
        assert(piece_views(pieces@).take(i + 1).drop_last() =~= piece_views(pieces@).take(
            i as int,
        ));
        assert(piece_views(pieces@).take(i + 1).last() == pieces@[i as int]@);
        if pieces[i].len() > 0 && !is_dot(&pieces[i]) {
            let piece = slice_chars(&pieces[i], 0, pieces[i].len());
            assert(piece@ =~= pieces@[i as int]@);
            out.push(piece);
            assert(piece_views(out@) =~= piece_views(old_out).push(piece@));
        }
        i += 1;
    }
    assert(piece_views(pieces@).take(pieces.len() as int) =~= piece_views(pieces@));
    out
}

/// Whether the path starts at the root.
pub fn path_is_absolute(s: &Vec<char>) -> (b: bool)
    ensures
        b == is_absolute(s@),
{
    s.len() > 0 && s[0] == '/'
}

/// Splitting always yields at least one piece.
pub proof fn lemma_split_is_nonempty(s: Seq<char>, sep: char)
    ensures
        split(s, sep).len() >= 1,
    decreases s.len(),
{
    if s.len() > 0 {
        lemma_split_is_nonempty(s.drop_last(), sep);
    }
}

/// Splitting a text that is joined by a separator gives the pieces of the
/// left part followed by the pieces of the right part.
pub proof fn lemma_split_concat(a: Seq<char>, b: Seq<char>, sep: char)
    ensures
        split(a + seq![sep] + b, sep) == split(a, sep) + split(b, sep),
    decreases b.len(),
{
    let s = a + seq![sep] + b;
    if b.len() == 0 {
        assert(s.drop_last() =~= a);
        assert(split(a, sep) + split(b, sep) =~= split(a, sep).push(Seq::<char>::empty()));
    } else {
        let t = a + seq![sep] + b.drop_last();
        assert(s.drop_last() =~= t);
        assert(s.last() == b.last());
        lemma_split_concat(a, b.drop_last(), sep);
        lemma_split_is_nonempty(b.drop_last(), sep);
        let x = split(a, sep);
        let y = split(b.drop_last(), sep);
        if b.last() == sep {
            assert((x + y).push(Seq::<char>::empty()) =~= x + y.push(Seq::<char>::empty()));
        } else {
            assert((x + y).drop_last() =~= x + y.drop_last());
            assert((x + y).last() == y.last());
            assert((x + y.drop_last()).push(y.last().push(b.last())) =~= x + y.drop_last().push(
                y.last().push(b.last()),
            ));
        }
    }
}

/// The components of a concatenation of pieces are those of the left part
/// followed by those of the right part.
pub proof fn lemma_keep_components_concat(x: Seq<Seq<char>>, y: Seq<Seq<char>>)
    ensures
        keep_components(x + y) == keep_components(x) + keep_components(y),
    decreases y.len(),
{
    if y.len() == 0 {
        assert(x + y =~= x);
        assert(keep_components(x) + keep_components(y) =~= keep_components(x));
    } else {
        assert((x + y).drop_last() =~= x + y.drop_last());
        assert((x + y).last() == y.last());
        lemma_keep_components_concat(x, y.drop_last());
        if is_component(y.last()) {
            assert((keep_components(x) + keep_components(y.drop_last())).push(y.last())
                =~= keep_components(x) + keep_components(y.drop_last()).push(y.last()));
        }
    }
}

/// The empty path has no components.
pub proof fn lemma_empty_path_has_no_components()
    ensures
        components(Seq::<char>::empty()).len() == 0,
{
    let e = Seq::<char>::empty();
    assert(split(e, '/') == seq![e]);
    assert(seq![e].drop_last() =~= Seq::<Seq<char>>::empty());
    reveal_with_fuel(keep_components, 2);
}

/// The components of a relative path joined to a base are the components of
/// the base followed by those of the path.
pub proof fn lemma_join_components(base: Seq<char>, p: Seq<char>)
    requires
        !is_absolute(p),
    ensures
        components(join_of(base, p)) == components(base) + components(p),
{
    lemma_empty_path_has_no_components();
    if base.len() == 0 {
        assert(base + p =~= p);
        assert(components(base) + components(p) =~= components(p));
    } else if base.last() == '/' {
        let a = base.drop_last();
        assert(base =~= a + seq!['/'] + Seq::<char>::empty());
        assert(base + p =~= a + seq!['/'] + p);
        lemma_split_concat(a, Seq::<char>::empty(), '/');
        lemma_split_concat(a, p, '/');
        lemma_keep_components_concat(split(a, '/'), split(Seq::<char>::empty(), '/'));
        lemma_keep_components_concat(split(a, '/'), split(p, '/'));
        assert(components(a) + components(Seq::<char>::empty()) =~= components(a));
    } else {
        lemma_split_concat(base, p, '/');
        lemma_keep_components_concat(split(base, '/'), split(p, '/'));
    }
}

/// A relative path joined to a base lies at or below the base, and the
/// joined path holds a `..` exactly if the base or the path does.
pub proof fn lemma_join_stays_below(base: Seq<char>, p: Seq<char>)
    requires
        !is_absolute(p),
        base.len() > 0,
    ensures
        path_starts_with(join_of(base, p), base),
        has_parent_ref(join_of(base, p)) <==> has_parent_ref(base) || has_parent_ref(p),
{
    lemma_join_components(base, p);
    let b = components(base);
    let c = components(p);
    assert((b + c).subrange(0, b.len() as int) =~= b);
    assert(join_of(base, p)[0] == base[0]);
    if b.contains(dot_dot()) {
        let i = choose|i: int| 0 <= i < b.len() && b[i] == dot_dot();
        assert((b + c)[i] == dot_dot());
    }
    if c.contains(dot_dot()) {
        let i = choose|i: int| 0 <= i < c.len() && c[i] == dot_dot();
        assert((b + c)[b.len() + i] == dot_dot());
    }
    if (b + c).contains(dot_dot()) {
        let i = choose|i: int| 0 <= i < (b + c).len() && (b + c)[i] == dot_dot();
        if i < b.len() {
            assert(b[i] == dot_dot());
        } else {
            assert(c[i - b.len()] == dot_dot());
        }
    }
}

/// A text without the separator is a single piece.
pub proof fn lemma_split_without_separator(s: Seq<char>, sep: char)
    requires
        forall|i: int| 0 <= i < s.len() ==> s[i] != sep,
    ensures
        split(s, sep) == seq![s],
    decreases s.len(),
{
    if s.len() == 0 {
        assert(s =~= Seq::<char>::empty());
    } else {
        let t = s.drop_last();
        assert forall|i: int| 0 <= i < t.len() implies t[i] != sep by {
            assert(t[i] == s[i]);
        }
        assert(s[s.len() - 1] != sep);
        lemma_split_without_separator(t, sep);
        assert(seq![t].drop_last().push(seq![t].last().push(s.last())) =~= seq![s]) by {
            assert(t.push(s.last()) =~= s);
        }
    }
}

/// A text without a slash that is not `..` is a relative path without a
/// parent reference.
pub proof fn lemma_plain_name_is_contained(s: Seq<char>)
    requires
        forall|i: int| 0 <= i < s.len() ==> s[i] != '/',
        s != dot_dot(),
    ensures
        !is_absolute(s),
        !has_parent_ref(s),
{
    lemma_split_without_separator(s, '/');
    let pieces = seq![s];
    assert(pieces.drop_last() =~= Seq::<Seq<char>>::empty());
    reveal_with_fuel(keep_components, 2);
    let c = components(s);
    if c.contains(dot_dot()) {
        let i = choose|i: int| 0 <= i < c.len() && c[i] == dot_dot();
        assert(c[i] == s);
    }
}

/// No piece of a split holds the separator.
pub proof fn lemma_pieces_hold_no_separator(s: Seq<char>, sep: char)
    ensures
        forall|k: int, i: int|
            0 <= k < split(s, sep).len() && 0 <= i < split(s, sep)[k].len() ==> #[trigger] split(
                s,
                sep,
            )[k][i] != sep,
    decreases s.len(),
{
    if s.len() > 0 {
        lemma_pieces_hold_no_separator(s.drop_last(), sep);
        lemma_split_is_nonempty(s.drop_last(), sep);
        let before = split(s.drop_last(), sep);
        let all = split(s, sep);
        assert forall|k: int, i: int| 0 <= k < all.len() && 0 <= i < all[k].len() implies #[trigger] all[k][i]
            != sep by {
            if s.last() == sep {
                if k < before.len() {
                    assert(all[k][i] == before[k][i]);
                }
            } else {
                if k < before.len() - 1 {
                    assert(all[k][i] == before[k][i]);
                } else {
                    assert(all[k] == before.last().push(s.last()));
                    if i < before.last().len() {
                        assert(all[k][i] == before[before.len() - 1][i]);
                    }
                }
            }
        }
    }
}

} // verus!
