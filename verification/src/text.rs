//! Character-level text primitives shared by the router, the query-string
//! parser and the SQL planner.  Every operation is stated over `Seq<char>`,
//! the view of a `str`, and positions are counted in characters.
use vstd::prelude::*;
use vstd::string::*;

verus! {

/// `p` is a prefix of `s`.
pub open spec fn starts_with(s: Seq<char>, p: Seq<char>) -> bool {
    p.len() <= s.len() && s.subrange(0, p.len() as int) == p
}

/// `p` is a suffix of `s`.
pub open spec fn ends_with(s: Seq<char>, p: Seq<char>) -> bool {
    p.len() <= s.len() && s.subrange(s.len() - p.len(), s.len() as int) == p
}

/// `p` occurs in `s` starting at character position `i`.
pub open spec fn occurs_at(s: Seq<char>, p: Seq<char>, i: int) -> bool {
    0 <= i && i + p.len() <= s.len() && s.subrange(i, i + p.len()) == p
}

/// The first position at or after `i` where `p` occurs in `s`.
pub open spec fn find_from(s: Seq<char>, p: Seq<char>, i: int) -> Option<int>
    decreases s.len() + 1 - i,
{
    if i < 0 || i + p.len() > s.len() {
        None
    } else if occurs_at(s, p, i) {
        Some(i)
    } else {
        find_from(s, p, i + 1)
    }
}

/// The first position where `p` occurs in `s`.
pub open spec fn find(s: Seq<char>, p: Seq<char>) -> Option<int> {
    find_from(s, p, 0)
}

/// `s` without the prefix `p`, when `s` starts with `p`.
pub open spec fn strip_prefix(s: Seq<char>, p: Seq<char>) -> Option<Seq<char>> {
    if starts_with(s, p) {
        Some(s.subrange(p.len() as int, s.len() as int))
    } else {
        None
    }
}

/// `s` without the suffix `p`, when `s` ends with `p`.
pub open spec fn strip_suffix(s: Seq<char>, p: Seq<char>) -> Option<Seq<char>> {
    if ends_with(s, p) {
        Some(s.subrange(0, s.len() - p.len()))
    } else {
        None
    }
}

/// The parts of `s` before and after the first occurrence of `p`.
pub open spec fn split_once(s: Seq<char>, p: Seq<char>) -> Option<(Seq<char>, Seq<char>)> {
    match find(s, p) {
        Some(i) => Some((s.subrange(0, i), s.subrange(i + p.len(), s.len() as int))),
        None => None,
    }
}

/// All pieces of `s` separated by the character `c`, in order; an empty
/// `s` gives one empty piece.
pub open spec fn split_char(s: Seq<char>, c: char) -> Seq<Seq<char>>
    decreases s.len(),
{
    match find(s, seq![c]) {
        Some(i) => {
            proof {
                lemma_find_from_props(s, seq![c], 0);
            }
            seq![s.subrange(0, i)] + split_char(s.subrange(i + 1, s.len() as int), c)
        },
        None => seq![s],
    }
}

/// A path segment: not empty and free of `/`.
pub open spec fn is_segment(s: Seq<char>) -> bool {
    s.len() > 0 && !s.contains('/')
}

/// The view of an optional string slice.
pub open spec fn opt_view(o: Option<&str>) -> Option<Seq<char>> {
    match o {
        Some(s) => Some(s@),
        None => None,
    }
}

/// The view of an optional pair of string slices.
pub open spec fn opt_pair_view(o: Option<(&str, &str)>) -> Option<(Seq<char>, Seq<char>)> {
    match o {
        Some((a, b)) => Some((a@, b@)),
        None => None,
    }
}

pub proof fn lemma_find_from_props(s: Seq<char>, p: Seq<char>, i: int)
    requires
        0 <= i,
    ensures
        match find_from(s, p, i) {
            Some(k) => i <= k && occurs_at(s, p, k) && forall|j: int| i <= j < k ==> !occurs_at(s, p, j),
            None => forall|j: int| i <= j ==> !occurs_at(s, p, j),
        },
    decreases s.len() + 1 - i,
{
    if i + p.len() > s.len() {
    } else if occurs_at(s, p, i) {
    } else {
        lemma_find_from_props(s, p, i + 1);
    }
}

/// Character equality of two string slices.
pub fn str_eq(a: &str, b: &str) -> (r: bool)
    ensures
        r == (a@ == b@),
{
    let n = a.unicode_len();
    let m = b.unicode_len();
    if n != m {
        return false;
    }
    let mut i: usize = 0;
    while i < n
        invariant
            n == a@.len(),
            m == b@.len(),
            n == m,
            i <= n,
            forall|j: int| 0 <= j < i ==> a@[j] == b@[j],
        decreases n - i,
    {
        if a.get_char(i) != b.get_char(i) {
            return false;
        }
        i = i + 1;
    }
    assert(a@ =~= b@);
    true
}

/// Whether `p` occurs in `s` at character position `i`.
fn matches_at(s: &str, n: usize, p: &str, m: usize, i: usize) -> (r: bool)
    requires
        n == s@.len(),
        m == p@.len(),
    ensures
        r == occurs_at(s@, p@, i as int),
{
    if i > n || m > n - i {
        return false;
    }
    let mut j: usize = 0;
    while j < m
        invariant
            n == s@.len(),
            m == p@.len(),
            i + m <= n,
            j <= m,
            forall|k: int| 0 <= k < j ==> s@[i + k] == p@[k],
        decreases m - j,
    {
        if s.get_char(i + j) != p.get_char(j) {
            assert(s@.subrange(i as int, i + m)[j as int] != p@[j as int]);
            return false;
        }
        j = j + 1;
    }
    assert(s@.subrange(i as int, i + m) =~= p@);
    true
}

/// `s` starts with `p`.
pub fn str_starts_with(s: &str, p: &str) -> (r: bool)
    ensures
        r == starts_with(s@, p@),
{
    let n = s.unicode_len();
    let m = p.unicode_len();
    matches_at(s, n, p, m, 0)
}

/// `s` ends with `p`.
pub fn str_ends_with(s: &str, p: &str) -> (r: bool)
    ensures
        r == ends_with(s@, p@),
{
    let n = s.unicode_len();
    let m = p.unicode_len();
    if m > n {
        return false;
    }
    matches_at(s, n, p, m, n - m)
}

/// The first character position of `p` in `s`.
pub fn str_find(s: &str, p: &str) -> (r: Option<usize>)
    ensures
        match r {
            Some(i) => find(s@, p@) == Some(i as int),
            None => find(s@, p@) is None,
        },
{
    let n = s.unicode_len();
    let m = p.unicode_len();
    if m > n {
        return None;
    }
    let mut i: usize = 0;
    while i <= n - m
        invariant
            n == s@.len(),
            m == p@.len(),
            m <= n,
            i <= n - m + 1,
            find(s@, p@) == find_from(s@, p@, i as int),
        decreases n - m + 1 - i,
    {
        if matches_at(s, n, p, m, i) {
            return Some(i);
        }
        if i == n - m {
            assert(find_from(s@, p@, i + 1) is None);
            return None;
        }
        i = i + 1;
    }
    None
}

/// Whether the character `c` occurs in `s`.
pub fn str_contains_char(s: &str, c: char) -> (r: bool)
    ensures
        r == s@.contains(c),
{
    let n = s.unicode_len();
    let mut i: usize = 0;
    while i < n
        invariant
            n == s@.len(),
            i <= n,
            forall|j: int| 0 <= j < i ==> s@[j] != c,
        decreases n - i,
    {
        if s.get_char(i) == c {
            assert(s@[i as int] == c);
            return true;
        }
        i = i + 1;
    }
    false
}

/// Whether `s` is a path segment: not empty and free of `/`.
pub fn str_is_segment(s: &str) -> (r: bool)
    ensures
        r == is_segment(s@),
{
    s.unicode_len() > 0 && !str_contains_char(s, '/')
}

/// `s` without the prefix `p`.
pub fn str_strip_prefix<'a>(s: &'a str, p: &str) -> (r: Option<&'a str>)
    ensures
        opt_view(r) == strip_prefix(s@, p@),
{
    if str_starts_with(s, p) {
        let n = s.unicode_len();
        let m = p.unicode_len();
        Some(s.substring_char(m, n))
    } else {
        None
    }
}

/// `s` without the suffix `p`.
pub fn str_strip_suffix<'a>(s: &'a str, p: &str) -> (r: Option<&'a str>)
    ensures
        opt_view(r) == strip_suffix(s@, p@),
{
    if str_ends_with(s, p) {
        let n = s.unicode_len();
        let m = p.unicode_len();
        Some(s.substring_char(0, n - m))
    } else {
        None
    }
}

/// The parts of `s` before and after the first occurrence of `p`.
pub fn str_split_once<'a>(s: &'a str, p: &str) -> (r: Option<(&'a str, &'a str)>)
    ensures
        opt_pair_view(r) == split_once(s@, p@),
{
    match str_find(s, p) {
        Some(i) => {
            proof {
                lemma_find_from_props(s@, p@, 0);
            }
            let n = s.unicode_len();
            let m = p.unicode_len();
            Some((s.substring_char(0, i), s.substring_char(i + m, n)))
        },
        None => None,
    }
}


/// The characters with the Unicode `White_Space` property, which is what
/// trimming removes.
pub open spec fn is_whitespace(c: char) -> bool {
    ||| '\u{9}' <= c <= '\u{d}'
    ||| c == ' '
    ||| c == '\u{85}'
    ||| c == '\u{a0}'
    ||| c == '\u{1680}'
    ||| '\u{2000}' <= c <= '\u{200a}'
    ||| c == '\u{2028}'
    ||| c == '\u{2029}'
    ||| c == '\u{202f}'
    ||| c == '\u{205f}'
    ||| c == '\u{3000}'
}

/// Whether `c` has the Unicode `White_Space` property.
pub fn char_is_whitespace(c: char) -> (r: bool)
    ensures
        r == is_whitespace(c),
{
    ('\u{9}' <= c && c <= '\u{d}') || c == ' ' || c == '\u{85}' || c == '\u{a0}' || c == '\u{1680}'
        || ('\u{2000}' <= c && c <= '\u{200a}') || c == '\u{2028}' || c == '\u{2029}' || c
        == '\u{202f}' || c == '\u{205f}' || c == '\u{3000}'
}

/// `s` without its leading whitespace.
pub open spec fn trim_start(s: Seq<char>) -> Seq<char>
    decreases s.len(),
{
    if s.len() > 0 && is_whitespace(s[0]) {
        trim_start(s.drop_first())
    } else {
        s
    }
}

/// `s` without its trailing whitespace.
pub open spec fn trim_end(s: Seq<char>) -> Seq<char>
    decreases s.len(),
{
    if s.len() > 0 && is_whitespace(s.last()) {
        trim_end(s.drop_last())
    } else {
        s
    }
}

/// `s` without leading and trailing whitespace.
pub open spec fn trim(s: Seq<char>) -> Seq<char> {
    trim_end(trim_start(s))
}

/// `s` without leading and trailing whitespace.
pub fn str_trim<'a>(s: &'a str) -> (r: &'a str)
    ensures
        r@ == trim(s@),
{
    let n = s.unicode_len();
    let mut i: usize = 0;
    assert(s@.subrange(0, n as int) =~= s@);
    while i < n && char_is_whitespace(s.get_char(i))
        invariant
            n == s@.len(),
            i <= n,
            trim_start(s@) == trim_start(s@.subrange(i as int, n as int)),
        decreases n - i,
    {
        assert(s@.subrange(i as int, n as int).drop_first() =~= s@.subrange(i + 1, n as int));
        i = i + 1;
    }
    let ghost front = s@.subrange(i as int, n as int);
    assert(trim_start(s@) == front) by {
        if i < n {
            assert(front[0] == s@[i as int]);
        }
    }
    let mut j: usize = n;
    while j > i && char_is_whitespace(s.get_char(j - 1))
        invariant
            n == s@.len(),
            i <= j <= n,
            front == s@.subrange(i as int, n as int),
            trim_end(front) == trim_end(s@.subrange(i as int, j as int)),
        decreases j - i,
    {
        assert(s@.subrange(i as int, j as int).drop_last() =~= s@.subrange(i as int, j - 1));
        j = j - 1;
    }
    let r = s.substring_char(i, j);
    assert(trim_end(front) == r@) by {
        if j > i {
            assert(r@.last() == s@[j - 1]);
        }
    }
    r
}

/// A string is the stripped prefix followed by the rest.
pub broadcast proof fn lemma_strip_prefix_concat(s: Seq<char>, p: Seq<char>)
    ensures
        #[trigger] strip_prefix(s, p) matches Some(t) ==> s == p + t,
{
    if starts_with(s, p) {
        assert(s =~= p + s.subrange(p.len() as int, s.len() as int));
    }
}

/// A string is the rest followed by the stripped suffix.
pub broadcast proof fn lemma_strip_suffix_concat(s: Seq<char>, p: Seq<char>)
    ensures
        #[trigger] strip_suffix(s, p) matches Some(t) ==> s == t + p,
{
    if ends_with(s, p) {
        assert(s =~= s.subrange(0, s.len() - p.len()) + p);
    }
}

/// A string is the part before the separator, the separator, and the part
/// after it.
pub broadcast proof fn lemma_split_once_concat(s: Seq<char>, p: Seq<char>)
    ensures
        #[trigger] split_once(s, p) matches Some((a, b)) ==> s == a + p + b,
{
    lemma_find_from_props(s, p, 0);
    if let Some(i) = find(s, p) {
        assert(s =~= s.subrange(0, i) + p + s.subrange(i + p.len(), s.len() as int));
    }
}
/// Splitting at the first separator takes off the first piece.
pub proof fn lemma_split_char_step(rest: Seq<char>, sep: Seq<char>, piece: Seq<char>, r: Seq<char>)
    requires
        sep.len() == 1,
        split_once(rest, sep) == Some((piece, r)),
    ensures
        split_char(rest, sep[0]) == seq![piece] + split_char(r, sep[0]),
        r.len() < rest.len(),
{
    assert(sep =~= seq![sep[0]]);
    lemma_find_from_props(rest, sep, 0);
}

/// A string without the separator is a single piece.
pub proof fn lemma_split_char_last(rest: Seq<char>, sep: Seq<char>)
    requires
        sep.len() == 1,
        split_once(rest, sep) is None,
    ensures
        split_char(rest, sep[0]) == seq![rest],
{
    assert(sep =~= seq![sep[0]]);
}
/// `c` occurs at position `j` of `s` exactly when the character there is
/// `c`.
pub proof fn lemma_char_at(s: Seq<char>, c: char, j: int)
    ensures
        occurs_at(s, seq![c], j) <==> (0 <= j < s.len() && s[j] == c),
{
    if 0 <= j < s.len() {
        assert(s.subrange(j, j + 1) =~= seq![s[j]]);
        assert(s.subrange(j, j + 1)[0] == s[j]);
        assert(seq![c][0] == c);
    }
}

/// The first `c` of a string is where `c` is first found.
pub proof fn lemma_first_char(s: Seq<char>, c: char, k: int)
    requires
        0 <= k < s.len(),
        s[k] == c,
        forall|j: int| 0 <= j < k ==> s[j] != c,
    ensures
        find(s, seq![c]) == Some(k),
{
    lemma_find_from_props(s, seq![c], 0);
    lemma_char_at(s, c, k);
    match find(s, seq![c]) {
        Some(i) => {
            lemma_char_at(s, c, i);
            if i < k {
                assert(s[i] != c);
            } else if i > k {
                assert(!occurs_at(s, seq![c], k));
            }
        },
        None => {
            assert(!occurs_at(s, seq![c], k));
        },
    }
}

/// A string without `c` is one piece.
pub proof fn lemma_split_without(s: Seq<char>, c: char)
    requires
        !s.contains(c),
    ensures
        split_char(s, c) == seq![s],
{
    lemma_find_from_props(s, seq![c], 0);
    if let Some(i) = find(s, seq![c]) {
        lemma_char_at(s, c, i);
        assert(s.contains(c));
    }
}

/// Splitting `a`, `c`, `b`, where `b` holds no `c`, gives the pieces of
/// `a` and then `b`.
pub proof fn lemma_split_then_piece(a: Seq<char>, c: char, b: Seq<char>)
    requires
        !b.contains(c),
    ensures
        split_char(a + seq![c] + b, c) == split_char(a, c) + seq![b],
    decreases a.len(),
{
    let s = a + seq![c] + b;
    lemma_find_from_props(a, seq![c], 0);
    match find(a, seq![c]) {
        Some(i) => {
            lemma_char_at(a, c, i);
            assert forall|j: int| 0 <= j < i implies s[j] != c by {
                lemma_char_at(a, c, j);
            }
            lemma_first_char(s, c, i);
            assert(s.subrange(0, i) =~= a.subrange(0, i));
            let a2 = a.subrange(i + 1, a.len() as int);
            assert(s.subrange(i + 1, s.len() as int) =~= a2 + seq![c] + b);
            lemma_split_then_piece(a2, c, b);
            assert(split_char(s, c) =~= seq![a.subrange(0, i)] + split_char(a2, c) + seq![b]);
        },
        None => {
            assert forall|j: int| 0 <= j < a.len() implies s[j] != c by {
                lemma_char_at(a, c, j);
            }
            lemma_first_char(s, c, a.len() as int);
            assert(s.subrange(0, a.len() as int) =~= a);
            assert(s.subrange(a.len() + 1 as int, s.len() as int) =~= b);
            lemma_split_without(b, c);
            assert forall|j: int| 0 <= j < a.len() implies a[j] != c by {
                lemma_char_at(a, c, j);
            }
            lemma_split_without(a, c);
        },
    }
}

/// Trimming the start leaves a suffix, and trimming the end a prefix.
pub proof fn lemma_trim_parts(s: Seq<char>)
    ensures
        trim_start(s).len() <= s.len(),
        trim_start(s) == s.subrange(s.len() - trim_start(s).len(), s.len() as int),
        trim_start(s).len() > 0 ==> !is_whitespace(trim_start(s)[0]),
        trim_end(s).len() <= s.len(),
        trim_end(s) == s.subrange(0, trim_end(s).len() as int),
        trim_end(s).len() > 0 ==> !is_whitespace(trim_end(s).last()),
    decreases s.len(),
{
    if s.len() > 0 && is_whitespace(s[0]) {
        lemma_trim_parts(s.drop_first());
        assert(s.drop_first().subrange(
            s.drop_first().len() - trim_start(s).len(),
            s.drop_first().len() as int,
        ) =~= s.subrange(s.len() - trim_start(s).len(), s.len() as int));
    } else {
        assert(s.subrange(0, s.len() as int) =~= s);
    }
    if s.len() > 0 && is_whitespace(s.last()) {
        lemma_trim_parts(s.drop_last());
        assert(s.drop_last().subrange(0, trim_end(s).len() as int) =~= s.subrange(0, trim_end(s).len() as int));
    } else {
        assert(s.subrange(0, s.len() as int) =~= s);
    }
}

/// Trimming a trimmed string changes nothing, and the trimmed string is a
/// part of the string.
pub proof fn lemma_trim_idempotent(s: Seq<char>)
    ensures
        trim(trim(s)) == trim(s),
        trim(s).len() <= s.len(),
        forall|c: char| trim(s).contains(c) ==> s.contains(c),
{
    let t = trim_start(s);
    let u = trim_end(t);
    lemma_trim_parts(s);
    lemma_trim_parts(t);
    if u.len() > 0 {
        assert(u[0] == t[0]);
        assert(trim_start(u) == u);
        assert(trim_end(u) == u);
    } else {
        assert(trim_start(u) == u);
    }
    assert forall|c: char| u.contains(c) implies s.contains(c) by {
        let j = choose|j: int| 0 <= j < u.len() && u[j] == c;
        assert(u[j] == t[j]);
        assert(t[j] == s[s.len() - t.len() + j]);
    }
}

/// No piece of a split string holds the separator.
pub proof fn lemma_split_char_pieces(s: Seq<char>, c: char)
    ensures
        forall|i: int| 0 <= i < split_char(s, c).len() ==> !(#[trigger] split_char(s, c)[i]).contains(c),
    decreases s.len(),
{
    lemma_find_from_props(s, seq![c], 0);
    match find(s, seq![c]) {
        Some(i) => {
            let rest = s.subrange(i + 1, s.len() as int);
            lemma_split_char_pieces(rest, c);
            let head = s.subrange(0, i);
            assert(!head.contains(c)) by {
                if head.contains(c) {
                    let j = choose|j: int| 0 <= j < head.len() && head[j] == c;
                    lemma_char_at(s, c, j);
                }
            }
            assert forall|k: int| 0 <= k < split_char(s, c).len() implies !(#[trigger] split_char(s, c)[k]).contains(c) by {
                if k > 0 {
                    assert(split_char(s, c)[k] == split_char(rest, c)[k - 1]);
                }
            }
        },
        None => {
            assert(!s.contains(c)) by {
                if s.contains(c) {
                    let j = choose|j: int| 0 <= j < s.len() && s[j] == c;
                    lemma_char_at(s, c, j);
                }
            }
        },
    }
}
/// Splitting `a`, `c`, `b` gives the pieces of `a` and then the pieces of
/// `b`.
pub proof fn lemma_split_join(a: Seq<char>, c: char, b: Seq<char>)
    ensures
        split_char(a + seq![c] + b, c) == split_char(a, c) + split_char(b, c),
    decreases a.len(),
{
    let s = a + seq![c] + b;
    lemma_find_from_props(a, seq![c], 0);
    match find(a, seq![c]) {
        Some(i) => {
            lemma_char_at(a, c, i);
            assert forall|j: int| 0 <= j < i implies s[j] != c by {
                lemma_char_at(a, c, j);
            }
            lemma_first_char(s, c, i);
            assert(s.subrange(0, i) =~= a.subrange(0, i));
            let a2 = a.subrange(i + 1, a.len() as int);
            assert(s.subrange(i + 1, s.len() as int) =~= a2 + seq![c] + b);
            lemma_split_join(a2, c, b);
            assert(split_char(s, c) =~= seq![a.subrange(0, i)] + split_char(a2, c) + split_char(b, c));
        },
        None => {
            assert forall|j: int| 0 <= j < a.len() implies s[j] != c by {
                lemma_char_at(a, c, j);
            }
            lemma_first_char(s, c, a.len() as int);
            assert(s.subrange(0, a.len() as int) =~= a);
            assert(s.subrange(a.len() + 1 as int, s.len() as int) =~= b);
            assert forall|j: int| 0 <= j < a.len() implies a[j] != c by {
                lemma_char_at(a, c, j);
            }
            lemma_split_without(a, c);
            assert(split_char(s, c) =~= seq![a] + split_char(b, c));
        },
    }
}
} // verus!
