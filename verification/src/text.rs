//! Searching and splicing character sequences.
//!
//! Everything here is stated over `Seq<char>`, the view of `str` and `String`.
//! Positions count characters, not bytes.

use vstd::prelude::*;
use vstd::string::*;
use vstd::utf8::*;

verus! {

/// `i` is the position of the first `c` in `s`.
pub open spec fn is_first_at(s: Seq<char>, c: char, i: int) -> bool {
    &&& 0 <= i < s.len()
    &&& s[i] == c
    &&& forall|k: int| 0 <= k < i ==> s[k] != c
}

/// The position of the first `c` in `s`, or `s.len()` where `s` holds no `c`.
pub open spec fn first_index(s: Seq<char>, c: char) -> int {
    if exists|i: int| is_first_at(s, c, i) {
        choose|i: int| is_first_at(s, c, i)
    } else {
        s.len() as int
    }
}

/// A first position is the only one.
pub proof fn lemma_first_index_unique(s: Seq<char>, c: char, i: int)
    requires
        is_first_at(s, c, i),
    ensures
        first_index(s, c) == i,
{
}

/// Below any `c` in `s` there is a first one.
proof fn lemma_has_first(s: Seq<char>, c: char, j: int)
    requires
        0 <= j < s.len(),
        s[j] == c,
    ensures
        exists|i: int| is_first_at(s, c, i),
    decreases j,
{
    if forall|k: int| 0 <= k < j ==> s[k] != c {
        assert(is_first_at(s, c, j));
    } else {
        let k = choose|k: int| 0 <= k < j && s[k] == c;
        lemma_has_first(s, c, k);
    }
}

/// Where `s` holds a `c`, `first_index` is the position of the first.
pub proof fn lemma_first_index_present(s: Seq<char>, c: char)
    requires
        s.contains(c),
    ensures
        is_first_at(s, c, first_index(s, c)),
{
    let j = choose|j: int| 0 <= j < s.len() && s[j] == c;
    lemma_has_first(s, c, j);
}

/// `first_index` is a position in `s` that holds `c`, with none before it,
/// or the length of `s`, which then holds no `c`.
pub proof fn lemma_first_index_bounds(s: Seq<char>, c: char)
    ensures
        0 <= first_index(s, c) <= s.len(),
        s.contains(c) <==> first_index(s, c) < s.len(),
        forall|k: int| 0 <= k < first_index(s, c) ==> s[k] != c,
        first_index(s, c) < s.len() ==> s[first_index(s, c)] == c,
{
    if s.contains(c) {
        lemma_first_index_present(s, c);
    }
}

/// A text without braces.
pub open spec fn plain(s: Seq<char>) -> bool {
    !s.contains('{') && !s.contains('}')
}

/// Behind a text without `c`, the first `c` is that of what follows.
pub proof fn lemma_first_index_behind(a: Seq<char>, b: Seq<char>, c: char)
    requires
        !a.contains(c),
    ensures
        first_index(a + b, c) == a.len() + first_index(b, c),
{
    lemma_first_index_bounds(b, c);
    if b.contains(c) {
        lemma_first_index_unique(a + b, c, a.len() + first_index(b, c));
    }
}

/// Encoding as UTF-8 goes through concatenation.
pub proof fn lemma_encode_concat(a: Seq<char>, b: Seq<char>)
    ensures
        encode_utf8(a + b) == encode_utf8(a) + encode_utf8(b),
    decreases a.len(),
{
    if a.len() > 0 {
        lemma_encode_concat(a.drop_first(), b);
        assert((a + b).drop_first() =~= a.drop_first() + b);
    }
}

/// The characters of `s`, one by one.
pub fn chars_of(s: &str) -> (v: Vec<char>)
    ensures
        v@ == s@,
{
    let mut v: Vec<char> = Vec::new();
    for c in it: s.chars()
        invariant
            it.seq() == s@,
            v@ == s@.take(it.index() as int),
    {
        v.push(c);
    }
    v
}

/// Looks for the first `c` in `s`.
pub fn find_char(s: &Vec<char>, c: char) -> (r: Option<usize>)
    ensures
        match r {
            Some(i) => is_first_at(s@, c, i as int),
            None => !s@.contains(c),
        },
        r is Some <==> s@.contains(c),
        r is Some ==> r->0 == first_index(s@, c),
{
    let mut i: usize = 0;
    while i < s.len()
        invariant
            i <= s.len(),
            forall|k: int| 0 <= k < i ==> s@[k] != c,
        decreases s.len() - i,
    {
        if s[i] == c {
            return Some(i);
        }
        i = i + 1;
    }
    None
}

/// `needle` stands in `hay` from position `i` on.
pub open spec fn occurs_at(hay: Seq<char>, needle: Seq<char>, i: int) -> bool {
    &&& 0 <= i
    &&& i + needle.len() <= hay.len()
    &&& hay.subrange(i, i + needle.len()) == needle
}

/// `i` is where `needle` first stands in `hay`.
pub open spec fn is_first_occurrence(hay: Seq<char>, needle: Seq<char>, i: int) -> bool {
    &&& occurs_at(hay, needle, i)
    &&& forall|k: int| 0 <= k < i ==> !occurs_at(hay, needle, k)
}

/// Where `needle` first stands in `hay`, if it stands there at all.
pub open spec fn find_first(hay: Seq<char>, needle: Seq<char>) -> Option<int> {
    if exists|i: int| is_first_occurrence(hay, needle, i) {
        Some(choose|i: int| is_first_occurrence(hay, needle, i))
    } else {
        None
    }
}

/// `hay` with `with` in place of `len` characters from position `at` on.
pub open spec fn spliced(hay: Seq<char>, at: int, len: int, with: Seq<char>) -> Seq<char> {
    hay.subrange(0, at) + with + hay.subrange(at + len, hay.len() as int)
}

/// `hay` with its first `needle` replaced by `with`; `hay` itself where it
/// holds no `needle`.
pub open spec fn replace_first(hay: Seq<char>, needle: Seq<char>, with: Seq<char>) -> Seq<char> {
    match find_first(hay, needle) {
        Some(i) => spliced(hay, i, needle.len() as int, with),
        None => hay,
    }
}

/// A first occurrence is the only one.
pub proof fn lemma_find_first_unique(hay: Seq<char>, needle: Seq<char>, i: int)
    requires
        is_first_occurrence(hay, needle, i),
    ensures
        find_first(hay, needle) == Some(i),
{
}

/// Below any place where `needle` stands in `hay` there is a first one.
proof fn lemma_has_first_occurrence(hay: Seq<char>, needle: Seq<char>, j: int)
    requires
        occurs_at(hay, needle, j),
    ensures
        exists|i: int| is_first_occurrence(hay, needle, i),
    decreases j,
{
    if forall|k: int| 0 <= k < j ==> !occurs_at(hay, needle, k) {
        assert(is_first_occurrence(hay, needle, j));
    } else {
        let k = choose|k: int| 0 <= k < j && occurs_at(hay, needle, k);
        lemma_has_first_occurrence(hay, needle, k);
    }
}

/// Replacing the first `needle` leaves `hay` as it is where `needle` stands
/// nowhere in it. Where `needle` stands at `j`, what is replaced is the
/// first `needle`, which stands at `j` or before it.
pub proof fn lemma_replace_first(hay: Seq<char>, needle: Seq<char>, with: Seq<char>, j: int)
    ensures
        (forall|k: int| !occurs_at(hay, needle, k)) ==> replace_first(hay, needle, with) == hay,
        occurs_at(hay, needle, j) ==> {
            &&& find_first(hay, needle) matches Some(i)
            &&& i <= j
            &&& is_first_occurrence(hay, needle, i)
            &&& replace_first(hay, needle, with) == spliced(hay, i, needle.len() as int, with)
        },
{
    if occurs_at(hay, needle, j) {
        lemma_has_first_occurrence(hay, needle, j);
    }
}

/// Whether `needle` stands in `hay` from position `i` on.
pub fn matches_at(hay: &Vec<char>, needle: &Vec<char>, i: usize) -> (r: bool)
    ensures
        r == occurs_at(hay@, needle@, i as int),
{
    if needle.len() > hay.len() || i > hay.len() - needle.len() {
        return false;
    }
    let n = needle.len();
    let size = hay.len();
    let mut j: usize = 0;
    while j < n
        invariant
            n == needle@.len(),
            size == hay@.len(),
            i + n <= size,
            j <= n,
            forall|k: int| 0 <= k < j ==> hay@[i + k] == needle@[k],
        decreases n - j,
    {
        if hay[i + j] != needle[j] {
            return false;
        }
        j = j + 1;
    }
    assert(hay@.subrange(i as int, i + needle@.len()) =~= needle@);
    true
}

/// Looks for the first place where `needle` stands in `hay`.
pub fn find_text(hay: &Vec<char>, needle: &Vec<char>) -> (r: Option<usize>)
    ensures
        match r {
            Some(i) => find_first(hay@, needle@) == Some(i as int) && is_first_occurrence(
                hay@,
                needle@,
                i as int,
            ),
            None => find_first(hay@, needle@) is None,
        },
{
    if needle.len() > hay.len() {
        return None;
    }
    let last = hay.len() - needle.len();
    let mut i: usize = 0;
    while i < last
        invariant
            last == hay@.len() - needle@.len(),
            i <= last,
            forall|k: int| 0 <= k < i ==> !occurs_at(hay@, needle@, k),
        decreases last - i,
    {
        if matches_at(hay, needle, i) {
            proof {
                lemma_find_first_unique(hay@, needle@, i as int);
            }
            return Some(i);
        }
        i = i + 1;
    }
    if matches_at(hay, needle, last) {
        proof {
            lemma_find_first_unique(hay@, needle@, last as int);
        }
        return Some(last);
    }
    None
}

/// Whether two texts hold the same characters.
pub fn same_text(a: &str, b: &str) -> (r: bool)
    ensures
        r == (a@ == b@),
{
    let x = chars_of(a);
    let y = chars_of(b);
    if x.len() != y.len() {
        return false;
    }
    let r = matches_at(&x, &y, 0);
    proof {
        assert(x@.subrange(0, x@.len() as int) =~= x@);
    }
    r
}

} // verus!
