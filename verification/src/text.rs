//! Character-sequence primitives: classes of characters, searching,
//! splitting into fields, and trimming.
//!
//! Every executable function here is specified over the sequence of
//! characters that its argument views.

use vstd::prelude::*;
use vstd::slice::slice_subrange;

verus! {

/// Whether `c` is white space: the characters that carry the Unicode
/// `White_Space` property.
pub open spec fn is_space(c: char) -> bool {
    ||| '\u{9}' <= c <= '\u{d}'
    ||| c == ' '
    ||| c == '\u{85}'
    ||| c == '\u{a0}'
    ||| c == '\u{1680}'
    ||| '\u{2000}' <= c <= '\u{200a}'
    ||| c == '\u{2028}'
    ||| c == '\u{2029}'
    ||| c == '\u{202f}'
    ||| c == '\u{205f}'
    ||| c == '\u{3000}'
}

/// A set of characters that a scan can look for.
#[derive(Clone, Copy, Debug)]
pub enum CharClass {
    /// The one given character.
    Exactly(char),
    /// Any white-space character.
    Space,
    /// A plus or a minus sign.
    Sign,
}

impl CharClass {
    /// Whether `c` belongs to the class.
    pub open spec fn holds(self, c: char) -> bool {
        match self {
            CharClass::Exactly(k) => c == k,
            CharClass::Space => is_space(c),
            CharClass::Sign => c == '+' || c == '-',
        }
    }

    /// Tests whether `c` belongs to the class.
    pub fn test(&self, c: char) -> (b: bool)
        ensures
            b == self.holds(c),
    {
        match self {
            CharClass::Exactly(k) => c == *k,
            CharClass::Space => {
                ('\u{9}' <= c && c <= '\u{d}') || c == ' ' || c == '\u{85}' || c == '\u{a0}'
                    || c == '\u{1680}' || ('\u{2000}' <= c && c <= '\u{200a}') || c == '\u{2028}'
                    || c == '\u{2029}' || c == '\u{202f}' || c == '\u{205f}' || c == '\u{3000}'
            },
            CharClass::Sign => c == '+' || c == '-',
        }
    }
}

/// The characters of `s`, in order.
pub fn chars_of(s: &str) -> (v: Vec<char>)
    ensures
        v@ == s@,
{
    let mut v: Vec<char> = Vec::new();
    for c in it: s.chars()
        invariant
            v@ == it.seq().take(it.index() as int),
    {
        v.push(c);
    }
    v
}

/// Whether `i` is the position of the first character of `s` that belongs
/// to `class`.
pub open spec fn is_first(s: Seq<char>, class: CharClass, i: int) -> bool {
    &&& 0 <= i < s.len()
    &&& class.holds(s[i])
    &&& forall|j: int| 0 <= j < i ==> !class.holds(#[trigger] s[j])
}

/// The position of the first character of `s` that belongs to `class`, if
/// there is one.
pub open spec fn first_index(s: Seq<char>, class: CharClass) -> Option<int> {
    if exists|i: int| is_first(s, class, i) {
        Some(choose|i: int| is_first(s, class, i))
    } else {
        None
    }
}

/// At most one position is the first of its class.
pub proof fn lemma_first_unique(s: Seq<char>, class: CharClass, i: int, k: int)
    requires
        is_first(s, class, i),
        is_first(s, class, k),
    ensures
        i == k,
{
    if i < k {
        assert(!class.holds(s[i]));
    } else if k < i {
        assert(!class.holds(s[k]));
    }
}

/// Finds the first character of `s` that belongs to `class`.
pub fn find_first(s: &[char], class: CharClass) -> (r: Option<usize>)
    ensures
        match r {
            Some(i) => first_index(s@, class) == Some(i as int) && is_first(s@, class, i as int),
            None => first_index(s@, class) is None && forall|j: int|
                0 <= j < s@.len() ==> !class.holds(#[trigger] s@[j]),
        },
{
    let mut i: usize = 0;
    while i < s.len()
        invariant
            i <= s.len(),
            forall|j: int| 0 <= j < i ==> !class.holds(#[trigger] s@[j]),
        decreases s.len() - i,
    {
        if class.test(s[i]) {
            proof {
                assert(is_first(s@, class, i as int));
                let k = choose|k: int| is_first(s@, class, k);
                lemma_first_unique(s@, class, i as int, k);
            }
            return Some(i);
        }
        i += 1;
    }
    proof {
        assert forall|k: int| !is_first(s@, class, k) by {
            if 0 <= k < s@.len() {
                assert(!class.holds(s@[k]));
            }
        }
    }
    None
}

/// The pieces into which the characters of `class` cut `s`, read from left
/// to right: a character of the class closes the piece before it and opens
/// a new, empty one; any other character joins the piece that is open.
/// There is always one piece more than there are cutting characters.
pub open spec fn fields(s: Seq<char>, class: CharClass) -> Seq<Seq<char>>
    decreases s.len(),
{
    if s.len() == 0 {
        seq![Seq::<char>::empty()]
    } else {
        let before = fields(s.drop_last(), class);
        if class.holds(s.last()) {
            before.push(Seq::<char>::empty())
        } else {
            before.drop_last().push(before.last().push(s.last()))
        }
    }
}

/// The character sequences that a sequence of vectors holds.
pub open spec fn views(v: Seq<Vec<char>>) -> Seq<Seq<char>> {
    Seq::new(v.len(), |i: int| v[i]@)
}

/// Cuts `s` at every character of `class`.
pub fn split_fields(s: &[char], class: CharClass) -> (out: Vec<Vec<char>>)
    ensures
        views(out@) == fields(s@, class),
        out@.len() >= 1,
{
    let mut out: Vec<Vec<char>> = Vec::new();
    let mut piece: Vec<char> = Vec::new();
    let mut i: usize = 0;
    while i < s.len()
        invariant
            i <= s.len(),
            views(out@).push(piece@) == fields(s@.take(i as int), class),
        decreases s.len() - i,
    {
        let c: char = s[i];
        proof {
            assert(s@.take(i + 1).drop_last() == s@.take(i as int));
            assert(s@.take(i + 1).last() == c);
            assert(views(out@).push(piece@).drop_last() == views(out@));
        }
        let ghost closed = (out@, piece@);
        if class.test(c) {
            out.push(piece);
            piece = Vec::new();
            proof {
                assert(views(out@) == views(closed.0).push(closed.1));
            }
        } else {
            piece.push(c);
        }
        i += 1;
    }
    proof {
        assert(s@.take(i as int) == s@);
        assert(views(out@.push(piece)) == views(out@).push(piece@));
    }
    out.push(piece);
    out
}

/// `s` without the white space at its start.
pub open spec fn trim_start(s: Seq<char>) -> Seq<char>
    decreases s.len(),
{
    if s.len() > 0 && is_space(s.first()) {
        trim_start(s.drop_first())
    } else {
        s
    }
}

/// `s` without the white space at its end.
pub open spec fn trim_end(s: Seq<char>) -> Seq<char>
    decreases s.len(),
{
    if s.len() > 0 && is_space(s.last()) {
        trim_end(s.drop_last())
    } else {
        s
    }
}

/// `s` without the white space at either end.
pub open spec fn trim(s: Seq<char>) -> Seq<char> {
    trim_end(trim_start(s))
}

/// Finds where `s` starts and ends once the white space at both ends is
/// left out.
pub fn trim_bounds(s: &[char]) -> (r: (usize, usize))
    ensures
        r.0 <= r.1 <= s@.len(),
        s@.subrange(r.0 as int, r.1 as int) == trim(s@),
{
    let mut lo: usize = 0;
    assert(s@.skip(0) == s@);
    while lo < s.len() && CharClass::Space.test(s[lo])
        invariant
            lo <= s.len(),
            trim_start(s@) == trim_start(s@.skip(lo as int)),
        decreases s.len() - lo,
    {
        proof {
            assert(s@.skip(lo as int).drop_first() == s@.skip(lo + 1));
        }
        lo += 1;
    }
    let ghost rest = s@.skip(lo as int);
    assert(rest == trim_start(s@));
    let mut hi: usize = s.len();
    assert(rest.take(hi - lo) == rest);
    while hi > lo && CharClass::Space.test(s[hi - 1])
        invariant
            lo <= hi <= s.len(),
            rest == s@.skip(lo as int),
            trim_end(rest) == trim_end(rest.take(hi - lo)),
        decreases hi,
    {
        proof {
            assert(rest.take(hi - lo).drop_last() == rest.take(hi - lo - 1));
            assert(rest.take(hi - lo).last() == s@[hi - 1]);
        }
        hi -= 1;
    }
    proof {
        assert(rest.take(hi - lo) == s@.subrange(lo as int, hi as int));
        if hi > lo {
            assert(rest.take(hi - lo).last() == s@[hi - 1]);
        }
    }
    (lo, hi)
}

/// Strips the white space from both ends of `s`.
pub fn trim_slice(s: &[char]) -> (out: &[char])
    ensures
        out@ == trim(s@),
{
    let (lo, hi) = trim_bounds(s);
    slice_subrange(s, lo, hi)
}

/// Strips the white space from both ends of `s`.
pub fn trim_str(s: &str) -> (out: &str)
    ensures
        out@ == trim(s@),
{
    let chars = chars_of(s);
    let (lo, hi) = trim_bounds(chars.as_slice());
    s.substring_char(lo, hi)
}

/// The texts that a sequence of strings holds.
pub open spec fn texts(v: Seq<String>) -> Seq<Seq<char>> {
    Seq::new(v.len(), |i: int| v[i]@)
}

/// Tests whether one of `list` reads `name`.
pub fn lists(list: &Vec<String>, name: &str) -> (b: bool)
    ensures
        b == texts(list@).contains(name@),
{
    let wanted: String = name.to_owned();
    let mut i: usize = 0;
    while i < list.len()
        invariant
            i <= list@.len(),
            wanted@ == name@,
            forall|j: int| 0 <= j < i ==> texts(list@)[j] != name@,
        decreases list@.len() - i,
    {
        if list[i] == wanted {
            assert(texts(list@)[i as int] == name@);
            return true;
        }
        i += 1;
    }
    false
}

/// Whether `needle` stands in `hay` from position `i` on.
pub open spec fn occurs_at(hay: Seq<char>, needle: Seq<char>, i: int) -> bool {
    &&& 0 <= i
    &&& i + needle.len() <= hay.len()
    &&& hay.subrange(i, i + needle.len()) == needle
}

/// Whether `needle` stands somewhere in `hay`, as a run of neighbouring
/// characters.
pub open spec fn occurs(hay: Seq<char>, needle: Seq<char>) -> bool {
    exists|i: int| occurs_at(hay, needle, i)
}

/// Tests whether `needle` stands in `hay` from position `i` on.
fn matches_at(hay: &[char], needle: &[char], i: usize) -> (b: bool)
    requires
        i + needle@.len() <= hay@.len(),
    ensures
        b == occurs_at(hay@, needle@, i as int),
{
    let total: usize = hay.len();
    let mut k: usize = 0;
    while k < needle.len()
        invariant
            k <= needle.len(),
            i + needle@.len() <= hay@.len() == total,
            forall|j: int| 0 <= j < k ==> hay@[i + j] == needle@[j],
        decreases needle.len() - k,
    {
        if hay[i + k] != needle[k] {
            proof {
                assert(hay@.subrange(i as int, i + needle@.len())[k as int] == hay@[i + k]);
            }
            return false;
        }
        k += 1;
    }
    assert(hay@.subrange(i as int, i + needle@.len()) =~= needle@);
    true
}

/// Tests whether `needle` stands somewhere in `hay`.
pub fn contains_run(hay: &[char], needle: &[char]) -> (b: bool)
    ensures
        b == occurs(hay@, needle@),
{
    if needle.len() > hay.len() {
        return false;
    }
    if needle.len() == 0 {
        assert(hay@.subrange(0, 0) =~= needle@);
        assert(occurs_at(hay@, needle@, 0));
        return true;
    }
    let last: usize = hay.len() - needle.len();
    let mut i: usize = 0;
    while i <= last
        invariant
            i <= last + 1,
            last + needle@.len() == hay@.len() <= usize::MAX,
            needle@.len() > 0,
            forall|j: int| 0 <= j < i ==> !occurs_at(hay@, needle@, j),
        decreases last + 1 - i,
    {
        if matches_at(hay, needle, i) {
            return true;
        }
        i += 1;
    }
    false
}

/// Tests whether `c` is one of the characters of `s`.
pub fn contains_char(s: &[char], c: char) -> (b: bool)
    ensures
        b == s@.contains(c),
{
    match find_first(s, CharClass::Exactly(c)) {
        Some(i) => {
            assert(s@[i as int] == c);
            true
        },
        None => false,
    }
}

/// Whether `i` is the position of the first of `pieces` that `wanted`
/// accepts.
pub open spec fn is_first_piece(
    pieces: Seq<Seq<char>>,
    wanted: spec_fn(Seq<char>) -> bool,
    i: int,
) -> bool {
    &&& 0 <= i < pieces.len()
    &&& wanted(pieces[i])
    &&& forall|j: int| 0 <= j < i ==> !wanted(#[trigger] pieces[j])
}

/// The first of `pieces` that `wanted` accepts, if there is one.
pub open spec fn first_piece(pieces: Seq<Seq<char>>, wanted: spec_fn(Seq<char>) -> bool) -> Option<
    Seq<char>,
> {
    if exists|i: int| is_first_piece(pieces, wanted, i) {
        Some(pieces[choose|i: int| is_first_piece(pieces, wanted, i)])
    } else {
        None
    }
}

/// The piece at a position that is the first accepted one is the first
/// accepted piece.
pub proof fn lemma_first_piece_found(
    pieces: Seq<Seq<char>>,
    wanted: spec_fn(Seq<char>) -> bool,
    i: int,
)
    requires
        is_first_piece(pieces, wanted, i),
    ensures
        first_piece(pieces, wanted) == Some(pieces[i]),
{
    let k = choose|k: int| is_first_piece(pieces, wanted, k);
    if i < k {
        assert(!wanted(pieces[i]));
    } else if k < i {
        assert(!wanted(pieces[k]));
    }
}

/// Where no piece is accepted, there is no first accepted piece.
pub proof fn lemma_first_piece_missing(pieces: Seq<Seq<char>>, wanted: spec_fn(Seq<char>) -> bool)
    requires
        forall|j: int| 0 <= j < pieces.len() ==> !wanted(#[trigger] pieces[j]),
    ensures
        first_piece(pieces, wanted) is None,
{
    assert forall|k: int| !is_first_piece(pieces, wanted, k) by {
        if 0 <= k < pieces.len() {
            assert(!wanted(pieces[k]));
        }
    }
}

/// Trimming changes nothing in a text that neither starts nor ends with
/// white space.
pub proof fn lemma_trim_keeps_tight(s: Seq<char>)
    requires
        s.len() > 0 ==> !is_space(s.first()) && !is_space(s.last()),
    ensures
        trim(s) == s,
{
}

/// The pieces `pieces` put together again, with `sep` between each two
/// neighbours.
pub open spec fn joined(pieces: Seq<Seq<char>>, sep: char) -> Seq<char>
    decreases pieces.len(),
{
    if pieces.len() == 0 {
        Seq::empty()
    } else if pieces.len() == 1 {
        pieces[0]
    } else {
        joined(pieces.drop_last(), sep).push(sep) + pieces.last()
    }
}

/// Cutting loses nothing and cuts everywhere: there is at least one
/// piece, no piece holds a character of the class, and the pieces of a
/// text cut at one character, joined by that character, are the text.
pub proof fn lemma_fields_partition(s: Seq<char>, class: CharClass)
    ensures
        fields(s, class).len() >= 1,
        forall|i: int, j: int|
            0 <= i < fields(s, class).len() && 0 <= j < fields(s, class)[i].len()
                ==> !class.holds(#[trigger] fields(s, class)[i][j]),
        class matches CharClass::Exactly(sep) ==> joined(fields(s, class), sep) == s,
    decreases s.len(),
{
    if s.len() > 0 {
        let before = fields(s.drop_last(), class);
        let after = fields(s, class);
        lemma_fields_partition(s.drop_last(), class);
        if class.holds(s.last()) {
            assert(after.drop_last() == before);
            assert forall|i: int, j: int|
                0 <= i < after.len() && 0 <= j < after[i].len() implies !class.holds(
                #[trigger] after[i][j],
            ) by {
                if i < before.len() {
                    assert(after[i] == before[i]);
                    assert(!class.holds(before[i][j]));
                }
            }
            if let CharClass::Exactly(sep) = class {
                assert(joined(after, sep) == s.drop_last().push(sep) + Seq::<char>::empty());
                assert(s.drop_last().push(sep) + Seq::<char>::empty() =~= s);
            }
        } else {
            let last = before.last().push(s.last());
            assert(after.drop_last() == before.drop_last());
            assert(after.last() == last);
            assert forall|i: int, j: int|
                0 <= i < after.len() && 0 <= j < after[i].len() implies !class.holds(
                #[trigger] after[i][j],
            ) by {
                if i < before.len() - 1 {
                    assert(after[i] == before[i]);
                    assert(!class.holds(before[i][j]));
                } else if j < before.last().len() {
                    assert(after[i][j] == before[before.len() - 1][j]);
                    assert(!class.holds(before[before.len() - 1][j]));
                }
            }
            if let CharClass::Exactly(sep) = class {
                if before.len() == 1 {
                    assert(joined(after, sep) =~= s);
                } else {
                    let head = joined(before.drop_last(), sep).push(sep);
                    assert(joined(before, sep) == head + before.last());
                    assert(joined(after, sep) == head + last);
                    assert(head + last =~= (head + before.last()).push(s.last()));
                    assert(s.drop_last().push(s.last()) =~= s);
                }
            }
        }
    }
}

} // verus!
