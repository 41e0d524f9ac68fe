//! Character-level string helpers: prefix and suffix tests, splitting on a
//! separator and joining with one, each with a specification over `Seq<char>`.

use vstd::prelude::*;
use vstd::string::*;

verus! {

/// `p` is a prefix of `s`.
pub open spec fn has_prefix(s: Seq<char>, p: Seq<char>) -> bool {
    p.len() <= s.len() && s.subrange(0, p.len() as int) == p
}

/// `p` is a suffix of `s`.
pub open spec fn has_suffix(s: Seq<char>, p: Seq<char>) -> bool {
    p.len() <= s.len() && s.subrange(s.len() - p.len(), s.len() as int) == p
}

/// `s` with the suffix `p` removed once, when it ends with `p`.
pub open spec fn strip_suffix(s: Seq<char>, p: Seq<char>) -> Seq<char> {
    if has_suffix(s, p) {
        s.subrange(0, s.len() - p.len())
    } else {
        s
    }
}

/// `p` occurs in `s` at position `j`.
pub open spec fn occurs_at(s: Seq<char>, p: Seq<char>, j: int) -> bool {
    0 <= j && j + p.len() <= s.len() && s.subrange(j, j + p.len()) == p
}

/// The pieces of `s[start..]` cut at the non-overlapping occurrences of `p`,
/// searched from left to right starting at position `j` (with `start <= j`).
pub open spec fn split_from(s: Seq<char>, p: Seq<char>, start: int, j: int) -> Seq<Seq<char>>
    decreases s.len() - j,
{
    if p.len() == 0 || j < 0 || j + p.len() > s.len() {
        seq![s.subrange(start, s.len() as int)]
    } else if s.subrange(j, j + p.len()) == p {
        seq![s.subrange(start, j)] + split_from(s, p, j + p.len(), j + p.len())
    } else {
        split_from(s, p, start, j + 1)
    }
}

/// The pieces of `s` between the non-overlapping occurrences of the
/// separator `p`, found from left to right; `p` must not be empty.
pub open spec fn split_on(s: Seq<char>, p: Seq<char>) -> Seq<Seq<char>> {
    split_from(s, p, 0, 0)
}

/// The pieces joined with `sep` between consecutive pieces.
pub open spec fn join_with(parts: Seq<Seq<char>>, sep: Seq<char>) -> Seq<char>
    decreases parts.len(),
{
    if parts.len() == 0 {
        Seq::empty()
    } else if parts.len() == 1 {
        parts[0]
    } else {
        parts[0] + sep + join_with(parts.drop_first(), sep)
    }
}

/// The views of a sequence of strings.
pub open spec fn views(v: Seq<String>) -> Seq<Seq<char>> {
    v.map_values(|x: String| x@)
}

/// Splitting never yields an empty list of pieces.
pub proof fn lemma_split_from_nonempty(s: Seq<char>, p: Seq<char>, start: int, j: int)
    ensures
        split_from(s, p, start, j).len() >= 1,
    decreases s.len() - j,
{
    if p.len() == 0 || j < 0 || j + p.len() > s.len() {
    } else if s.subrange(j, j + p.len()) == p {
        lemma_split_from_nonempty(s, p, j + p.len(), j + p.len());
    } else {
        lemma_split_from_nonempty(s, p, start, j + 1);
    }
}

/// Joining the pieces with the separator gives back the text they were cut from.
pub proof fn lemma_join_split_from(s: Seq<char>, p: Seq<char>, start: int, j: int)
    requires
        0 <= start <= j <= s.len(),
        p.len() > 0,
    ensures
        join_with(split_from(s, p, start, j), p) == s.subrange(start, s.len() as int),
    decreases s.len() - j,
{
    if j + p.len() > s.len() {
    } else if s.subrange(j, j + p.len()) == p {
        let rest = split_from(s, p, j + p.len(), j + p.len());
        lemma_join_split_from(s, p, j + p.len(), j + p.len());
        lemma_split_from_nonempty(s, p, j + p.len(), j + p.len());
        let all = seq![s.subrange(start, j)] + rest;
        assert(all.drop_first() =~= rest);
        assert(all.len() >= 2);
        assert(s.subrange(start, s.len() as int) =~= s.subrange(start, j) + p + s.subrange(
            j + p.len(),
            s.len() as int,
        ));
    } else {
        lemma_join_split_from(s, p, start, j + 1);
    }
}

/// Splitting on a non-empty separator and joining with it is the identity.
pub proof fn lemma_join_split(s: Seq<char>, p: Seq<char>)
    requires
        p.len() > 0,
    ensures
        join_with(split_on(s, p), p) == s,
{
    lemma_join_split_from(s, p, 0, 0);
    assert(s.subrange(0, s.len() as int) =~= s);
}

/// Whether `p` occurs in `s` at character position `j`.
pub fn occurs_at_exec(s: &str, p: &str, j: usize) -> (b: bool)
    requires
        j + p@.len() <= s@.len(),
    ensures
        b == (s@.subrange(j as int, j + p@.len()) == p@),
{
    let pl = p.unicode_len();
    let n = s.unicode_len();
    let mut k: usize = 0;
    while k < pl
        invariant
            pl == p@.len(),
            n == s@.len(),
            j + pl <= s@.len(),
            k <= pl,
            forall|i: int| 0 <= i < k ==> s@[j + i] == p@[i],
        decreases pl - k,
    {
        if s.get_char(j + k) != p.get_char(k) {
            assert(s@.subrange(j as int, j + p@.len())[k as int] != p@[k as int]);
            return false;
        }
        k = k + 1;
    }
    assert(s@.subrange(j as int, j + p@.len()) =~= p@);
    true
}

/// Whether `s` starts with `p`.
pub fn starts_with(s: &str, p: &str) -> (b: bool)
    ensures
        b == has_prefix(s@, p@),
{
    let n = s.unicode_len();
    let pl = p.unicode_len();
    if pl > n {
        false
    } else {
        occurs_at_exec(s, p, 0)
    }
}

/// Whether `s` ends with `p`.
pub fn ends_with(s: &str, p: &str) -> (b: bool)
    ensures
        b == has_suffix(s@, p@),
{
    let n = s.unicode_len();
    let pl = p.unicode_len();
    if pl > n {
        false
    } else {
        occurs_at_exec(s, p, n - pl)
    }
}

/// A new `String` holding the characters `s[from..to]`.
pub fn substring(s: &str, from: usize, to: usize) -> (r: String)
    requires
        from <= to <= s@.len(),
    ensures
        r@ == s@.subrange(from as int, to as int),
{
    String::from_str(s.substring_char(from, to))
}

/// `s` with the suffix `p` removed once, when it ends with `p`.
pub fn strip_suffix_exec(s: &str, p: &str) -> (r: String)
    ensures
        r@ == strip_suffix(s@, p@),
{
    let n = s.unicode_len();
    if ends_with(s, p) {
        let pl = p.unicode_len();
        substring(s, 0, n - pl)
    } else {
        String::from_str(s)
    }
}

/// The pieces of `s` between the occurrences of the non-empty separator `p`.
pub fn split_exec(s: &str, p: &str) -> (parts: Vec<String>)
    requires
        p@.len() > 0,
    ensures
        views(parts@) == split_on(s@, p@),
        parts@.len() >= 1,
{
    let n = s.unicode_len();
    let pl = p.unicode_len();
    let mut parts: Vec<String> = Vec::new();
    let mut start: usize = 0;
    let mut j: usize = 0;
    proof {
        lemma_split_from_nonempty(s@, p@, 0, 0);
    }
    while pl <= n && j <= n - pl
        invariant
            n == s@.len(),
            pl == p@.len(),
            pl > 0,
            start <= j <= n,
            views(parts@) + split_from(s@, p@, start as int, j as int) == split_on(s@, p@),
        decreases n - j,
    {
        if occurs_at_exec(s, p, j) {
            let piece = substring(s, start, j);
            proof {
                assert(views(parts@.push(piece)) =~= views(parts@).push(piece@));
                assert(views(parts@) + split_from(s@, p@, start as int, j as int) =~= views(
                    parts@.push(piece),
                ) + split_from(s@, p@, (j + pl) as int, (j + pl) as int));
            }
            parts.push(piece);
            j = j + pl;
            start = j;
        } else {
            j = j + 1;
        }
    }
    let last = substring(s, start, n);
    proof {
        assert(views(parts@.push(last)) =~= views(parts@).push(last@));
        assert(views(parts@) + split_from(s@, p@, start as int, j as int) =~= views(
            parts@.push(last),
        ));
    }
    parts.push(last);
    parts
}

/// The strings `parts[from..to]` joined with `sep`.
pub fn join_exec(parts: &Vec<String>, from: usize, to: usize, sep: &str) -> (r: String)
    requires
        from <= to <= parts@.len(),
    ensures
        r@ == join_with(views(parts@).subrange(from as int, to as int), sep@),
    decreases to - from,
{
    if from == to {
        let r = String::new();
        assert(views(parts@).subrange(from as int, to as int) =~= Seq::<Seq<char>>::empty());
        r
    } else if from + 1 == to {
        let r = parts[from].clone();
        assert(views(parts@).subrange(from as int, to as int) =~= seq![parts@[from as int]@]);
        r
    } else {
        let rest = join_exec(parts, from + 1, to, sep);
        let mut r = parts[from].clone();
        r.append(sep);
        r.append(rest.as_str());
        assert(views(parts@).subrange(from as int, to as int).drop_first() =~= views(
            parts@,
        ).subrange(from + 1, to as int));
        r
    }
}

/// `needle` occurs somewhere in `hay`.
pub open spec fn contains_text(hay: Seq<char>, needle: Seq<char>) -> bool {
    exists|k: int| occurs_at(hay, needle, k)
}

/// Whether `needle` occurs somewhere in `hay`.
pub fn contains_exec(hay: &str, needle: &str) -> (b: bool)
    ensures
        b == contains_text(hay@, needle@),
{
    let n = hay.unicode_len();
    let m = needle.unicode_len();
    if m > n {
        assert forall|k: int| !occurs_at(hay@, needle@, k) by {}
        return false;
    }
    let mut j: usize = 0;
    while j < n - m
        invariant
            n == hay@.len(),
            m == needle@.len(),
            m <= n,
            j <= n - m,
            forall|k: int| 0 <= k < j ==> !occurs_at(hay@, needle@, k),
        decreases n - m - j,
    {
        if occurs_at_exec(hay, needle, j) {
            assert(occurs_at(hay@, needle@, j as int));
            return true;
        }
        j = j + 1;
    }
    if occurs_at_exec(hay, needle, j) {
        assert(occurs_at(hay@, needle@, j as int));
        return true;
    }
    assert forall|k: int| !occurs_at(hay@, needle@, k) by {
        if 0 <= k < j {
        }
    }
    false
}

/// `c` does not occur in `s`.
pub open spec fn free_of(s: Seq<char>, c: char) -> bool {
    forall|k: int| 0 <= k < s.len() ==> s[k] != c
}

/// With a one-character separator, an occurrence is that character.
pub proof fn lemma_single_occurs(s: Seq<char>, c: char, j: int)
    requires
        0 <= j < s.len(),
    ensures
        (s.subrange(j, j + 1) == seq![c]) == (s[j] == c),
{
    if s[j] == c {
        assert(s.subrange(j, j + 1) =~= seq![c]);
    } else {
        assert(s.subrange(j, j + 1)[0] != seq![c][0]);
    }
}

/// Without the separator in `s[j..]`, what is left of `s[start..]` is one piece.
pub proof fn lemma_split_from_free(s: Seq<char>, c: char, start: int, j: int)
    requires
        0 <= start <= j <= s.len(),
        forall|k: int| j <= k < s.len() ==> s[k] != c,
    ensures
        split_from(s, seq![c], start, j) == seq![s.subrange(start, s.len() as int)],
    decreases s.len() - j,
{
    if j + 1 <= s.len() {
        lemma_single_occurs(s, c, j);
        lemma_split_from_free(s, c, start, j + 1);
    }
}

/// The pieces cut at a one-character separator do not contain it.
pub proof fn lemma_split_from_pieces_free(s: Seq<char>, c: char, start: int, j: int)
    requires
        0 <= start <= j <= s.len(),
        forall|k: int| start <= k < j ==> s[k] != c,
    ensures
        forall|i: int|
            0 <= i < split_from(s, seq![c], start, j).len() ==> free_of(
                #[trigger] split_from(s, seq![c], start, j)[i],
                c,
            ),
    decreases s.len() - j,
{
    let p = seq![c];
    if j + 1 > s.len() {
        let piece = s.subrange(start, s.len() as int);
        assert(free_of(piece, c)) by {
            assert forall|k: int| 0 <= k < piece.len() implies piece[k] != c by {
                assert(piece[k] == s[start + k]);
            }
        }
        assert(split_from(s, p, start, j) == seq![piece]);
    } else {
        lemma_single_occurs(s, c, j);
        if s[j] == c {
            lemma_split_from_pieces_free(s, c, j + 1, j + 1);
            let rest = split_from(s, p, j + 1, j + 1);
            let piece = s.subrange(start, j);
            assert(free_of(piece, c)) by {
                assert forall|k: int| 0 <= k < piece.len() implies piece[k] != c by {
                    assert(piece[k] == s[start + k]);
                }
            }
            let all = seq![piece] + rest;
            assert forall|i: int| 0 <= i < all.len() implies free_of(#[trigger] all[i], c) by {
                if i > 0 {
                    assert(all[i] == rest[i - 1]);
                }
            }
            assert(split_from(s, p, start, j) == all);
        } else {
            lemma_split_from_pieces_free(s, c, start, j + 1);
            assert(split_from(s, p, start, j) == split_from(s, p, start, j + 1));
        }
    }
}

/// The pieces of `s` cut at a one-character separator do not contain it.
pub proof fn lemma_split_pieces_free(s: Seq<char>, c: char)
    ensures
        forall|i: int|
            0 <= i < split_on(s, seq![c]).len() ==> free_of(#[trigger] split_on(s, seq![c])[i], c),
{
    lemma_split_from_pieces_free(s, c, 0, 0);
}

/// After the last occurrence (at `q - 1`) of a one-character separator, the
/// rest of the text is the last piece.
pub proof fn lemma_split_from_last(s: Seq<char>, c: char, start: int, j: int, q: int)
    requires
        0 <= start <= j < q <= s.len(),
        s[q - 1] == c,
        forall|k: int| q <= k < s.len() ==> s[k] != c,
    ensures
        split_from(s, seq![c], start, j).len() >= 1,
        split_from(s, seq![c], start, j).last() == s.subrange(q, s.len() as int),
    decreases s.len() - j,
{
    let p = seq![c];
    lemma_single_occurs(s, c, j);
    if s[j] == c {
        let rest = split_from(s, p, j + 1, j + 1);
        if j == q - 1 {
            lemma_split_from_free(s, c, q, q);
        } else {
            lemma_split_from_last(s, c, j + 1, j + 1, q);
        }
        lemma_split_from_nonempty(s, p, j + 1, j + 1);
        assert((seq![s.subrange(start, j)] + rest).last() == rest.last());
    } else {
        lemma_split_from_last(s, c, start, j + 1, q);
    }
}

/// The last piece of `x + [c] + y`, cut at `c`, is `y` when `y` has no `c`.
pub proof fn lemma_split_last_piece(x: Seq<char>, c: char, y: Seq<char>)
    requires
        free_of(y, c),
    ensures
        split_on(x + seq![c] + y, seq![c]).last() == y,
{
    let s = x + seq![c] + y;
    let q: int = x.len() as int + 1;
    assert forall|k: int| q <= k < s.len() implies s[k] != c by {
        assert(s[k] == y[k - q]);
    }
    lemma_split_from_last(s, c, 0, 0, q);
    assert(s.subrange(q, s.len() as int) =~= y);
}

/// Joining two non-empty lists of pieces is joining each, with the separator
/// between.
pub proof fn lemma_join_append(a: Seq<Seq<char>>, b: Seq<Seq<char>>, sep: Seq<char>)
    requires
        a.len() >= 1,
        b.len() >= 1,
    ensures
        join_with(a + b, sep) == join_with(a, sep) + sep + join_with(b, sep),
    decreases a.len(),
{
    if a.len() == 1 {
        assert((a + b).drop_first() =~= b);
    } else {
        lemma_join_append(a.drop_first(), b, sep);
        assert((a + b).drop_first() =~= a.drop_first() + b);
        assert(join_with(a, sep) == a[0] + sep + join_with(a.drop_first(), sep));
    }
}

} // verus!
