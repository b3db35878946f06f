//! Primitives on character sequences: classes of characters, searching,
//! splitting and trimming.
//!
//! Each executable function works on a slice of characters and answers with
//! positions in that slice; its contract is stated over the slice's view.

use crate::search::{first, first_from, lemma_first_from};
use vstd::prelude::*;

verus! {

/// The characters of a string, in a vector.
pub fn chars_of(s: &str) -> (chars: Vec<char>)
    ensures
        chars@ == s@,
{
    broadcast use vstd::string::axiom_spec_iter;

    let mut chars: Vec<char> = Vec::new();
    let it = s.chars();
    for c in iter: it
        invariant
            iter.seq() == s@,
            chars@ == s@.take(iter.index()),
    {
        chars.push(c);
    }
    chars
}

/// Whether `c` is white space (the Unicode property `White_Space`).
pub open spec fn is_space(c: char) -> bool {
    let u = c as u32;
    ||| 0x09 <= u <= 0x0D
    ||| u == 0x20
    ||| u == 0x85
    ||| u == 0xA0
    ||| u == 0x1680
    ||| 0x2000 <= u <= 0x200A
    ||| u == 0x2028
    ||| u == 0x2029
    ||| u == 0x202F
    ||| u == 0x205F
    ||| u == 0x3000
}

/// Tests whether a character is white space.
pub fn char_is_space(c: char) -> (b: bool)
    ensures
        b == is_space(c),
{
    let u: u32 = c as u32;
    (0x09 <= u && u <= 0x0D) || u == 0x20 || u == 0x85 || u == 0xA0 || u == 0x1680 || (0x2000 <= u
        && u <= 0x200A) || u == 0x2028 || u == 0x2029 || u == 0x202F || u == 0x205F || u == 0x3000
}

/// Whether `c` is one of the digits `0` to `9`.
pub open spec fn is_digit(c: char) -> bool {
    '0' <= c <= '9'
}

/// The number that the digit `c` stands for.
pub open spec fn digit_value(c: char) -> nat
    recommends
        is_digit(c),
{
    (c as u32 - '0' as u32) as nat
}

/// `c` with an upper-case ASCII letter replaced by its lower-case form.
pub open spec fn fold_case(c: char) -> char {
    if 'A' <= c <= 'Z' {
        ((c as u32) + 32) as char
    } else {
        c
    }
}

/// Lower-cases an ASCII letter and leaves every other character as it is.
pub fn char_fold_case(c: char) -> (r: char)
    ensures
        r == fold_case(c),
{
    if 'A' <= c && c <= 'Z' {
        ((c as u8) + 32) as char
    } else {
        c
    }
}

/// Whether `pat` stands in `s` at position `i`.
pub open spec fn occurs_at(s: Seq<char>, pat: Seq<char>, i: int) -> bool {
    &&& 0 <= i
    &&& i + pat.len() <= s.len()
    &&& forall|j: int| 0 <= j < pat.len() ==> s[i + j] == pat[j]
}

/// Whether `pat` stands in `s` at position `i` once the ASCII letters of `s`
/// are lower-cased.
pub open spec fn occurs_at_folded(s: Seq<char>, pat: Seq<char>, i: int) -> bool {
    &&& 0 <= i
    &&& i + pat.len() <= s.len()
    &&& forall|j: int| 0 <= j < pat.len() ==> fold_case(s[i + j]) == pat[j]
}

/// Whether `pat` occurs somewhere in `s`, the ASCII letters of `s` taken in
/// lower case. `pat` is meant to hold no upper-case letter.
pub open spec fn contains_folded(s: Seq<char>, pat: Seq<char>) -> bool {
    exists|i: int| occurs_at_folded(s, pat, i)
}

/// Tests whether `pat` stands in `s` at `i`, ignoring the case of ASCII
/// letters in `s`.
pub fn matches_folded_at(s: &[char], pat: &[char], i: usize) -> (b: bool)
    ensures
        b == occurs_at_folded(s@, pat@, i as int),
{
    let n: usize = s.len();
    if pat.len() > n || i > n - pat.len() {
        return false;
    }
    let mut j: usize = 0;
    while j < pat.len()
        invariant
            j <= pat@.len(),
            i + pat@.len() <= s@.len() == n,
            forall|k: int| 0 <= k < j ==> fold_case(s@[i + k]) == pat@[k],
        decreases pat@.len() - j,
    {
        if char_fold_case(s[i + j]) != pat[j] {
            return false;
        }
        j += 1;
    }
    true
}

/// Tests whether `pat` occurs in `s`, ignoring the case of ASCII letters in
/// `s`.
pub fn slice_contains_folded(s: &[char], pat: &[char]) -> (b: bool)
    ensures
        b == contains_folded(s@, pat@),
{
    if pat.len() > s.len() {
        return false;
    }
    let last: usize = s.len() - pat.len();
    let mut i: usize = 0;
    while i <= last
        invariant
            last == s@.len() - pat@.len(),
            s@.len() <= usize::MAX,
            pat@.len() > 0 || i <= last,
            i <= last + 1,
            forall|k: int| 0 <= k < i ==> !occurs_at_folded(s@, pat@, k),
        decreases last + 1 - i,
    {
        if matches_folded_at(s, pat, i) {
            return true;
        }
        i += 1;
    }
    false
}

/// Tests whether `pat` stands in `s` at `i`.
pub fn matches_at(s: &[char], pat: &[char], i: usize) -> (b: bool)
    ensures
        b == occurs_at(s@, pat@, i as int),
{
    let n: usize = s.len();
    if pat.len() > n || i > n - pat.len() {
        return false;
    }
    let mut j: usize = 0;
    while j < pat.len()
        invariant
            j <= pat@.len(),
            i + pat@.len() <= s@.len() == n,
            forall|k: int| 0 <= k < j ==> s@[i + k] == pat@[k],
        decreases pat@.len() - j,
    {
        if s[i + j] != pat[j] {
            return false;
        }
        j += 1;
    }
    true
}

/// Whether `s` ends with `suffix`.
pub open spec fn ends_with(s: Seq<char>, suffix: Seq<char>) -> bool {
    occurs_at(s, suffix, s.len() - suffix.len())
}

/// Tests whether `s` ends with `suffix`.
pub fn slice_ends_with(s: &[char], suffix: &[char]) -> (b: bool)
    ensures
        b == ends_with(s@, suffix@),
{
    if suffix.len() > s.len() {
        return false;
    }
    matches_at(s, suffix, s.len() - suffix.len())
}

/// The least position at or after `from` where `pat` stands in `s`.
pub open spec fn find(s: Seq<char>, pat: Seq<char>, from: int) -> Option<int>
    decreases s.len() - from,
{
    if from < 0 || from + pat.len() > s.len() {
        None
    } else if occurs_at(s, pat, from) {
        Some(from)
    } else {
        find(s, pat, from + 1)
    }
}

/// What `find` returns is the first occurrence at or after `from`, and it
/// returns `None` only where there is none.
pub proof fn lemma_find(s: Seq<char>, pat: Seq<char>, from: int)
    requires
        0 <= from,
    ensures
        match find(s, pat, from) {
            Some(i) => {
                &&& from <= i
                &&& occurs_at(s, pat, i)
                &&& forall|k: int| from <= k < i ==> !occurs_at(s, pat, k)
            },
            None => forall|k: int| from <= k ==> !occurs_at(s, pat, k),
        },
    decreases s.len() - from,
{
    if from + pat.len() <= s.len() && !occurs_at(s, pat, from) {
        lemma_find(s, pat, from + 1);
    }
}

/// Searches `s` for `pat` from position `from` on.
pub fn slice_find(s: &[char], pat: &[char], from: usize) -> (r: Option<usize>)
    ensures
        match r {
            Some(i) => find(s@, pat@, from as int) == Some(i as int),
            None => find(s@, pat@, from as int) is None,
        },
{
    let n: usize = s.len();
    let m: usize = pat.len();
    if m > n || from > n - m {
        return None;
    }
    let last: usize = n - m;
    let mut i: usize = from;
    while i <= last
        invariant
            n == s@.len(),
            m == pat@.len(),
            last == n - m,
            from <= i,
            m > 0 || i <= last,
            i <= last + 1,
            find(s@, pat@, from as int) == find(s@, pat@, i as int),
        decreases last + 1 - i,
    {
        if matches_at(s, pat, i) {
            return Some(i);
        }
        i += 1;
    }
    None
}

/// The parts of `s` named by `ranges`, each a pair of a start and an end.
pub open spec fn cuts(s: Seq<char>, ranges: Seq<(usize, usize)>) -> Seq<Seq<char>> {
    ranges.map_values(|r: (usize, usize)| s.subrange(r.0 as int, r.1 as int))
}

/// Whether every pair in `ranges` is a range of positions in `s`.
pub open spec fn ranges_within(s: Seq<char>, ranges: Seq<(usize, usize)>) -> bool {
    forall|k: int| 0 <= k < ranges.len() ==> (#[trigger] ranges[k]).0 <= ranges[k].1 <= s.len()
}

/// The pieces of `s` from position `from` on that lie between occurrences of
/// `sep`, the occurrences taken from left to right without overlap.
pub open spec fn split_from(s: Seq<char>, sep: Seq<char>, from: int) -> Seq<Seq<char>>
    decreases s.len() - from,
{
    match find(s, sep, from) {
        Some(i) => if sep.len() > 0 && from <= i && i + sep.len() <= s.len() {
            seq![s.subrange(from, i)] + split_from(s, sep, i + sep.len())
        } else {
            seq![s.subrange(from, s.len() as int)]
        },
        None => seq![s.subrange(from, s.len() as int)],
    }
}

/// The pieces of `s` that lie between the occurrences of `sep`. There is
/// always at least one piece; without an occurrence it is `s`, and so it is
/// for an empty `sep`.
pub open spec fn split(s: Seq<char>, sep: Seq<char>) -> Seq<Seq<char>> {
    split_from(s, sep, 0)
}

/// `pieces` put together again with `sep` between them.
pub open spec fn join(pieces: Seq<Seq<char>>, sep: Seq<char>) -> Seq<char>
    decreases pieces.len(),
{
    if pieces.len() == 0 {
        seq![]
    } else if pieces.len() == 1 {
        pieces[0]
    } else {
        pieces[0] + sep + join(pieces.drop_first(), sep)
    }
}

/// Splitting loses nothing: the pieces from `from` on, joined with the
/// separator, are `s` from `from` on.
pub proof fn lemma_split_from_joins(s: Seq<char>, sep: Seq<char>, from: int)
    requires
        0 <= from <= s.len(),
    ensures
        split_from(s, sep, from).len() > 0,
        join(split_from(s, sep, from), sep) == s.subrange(from, s.len() as int),
    decreases s.len() - from,
{
    lemma_find(s, sep, from);
    match find(s, sep, from) {
        Some(i) => {
            if sep.len() > 0 && from <= i && i + sep.len() <= s.len() {
                lemma_split_from_joins(s, sep, i + sep.len());
                assert(split_from(s, sep, from).drop_first() =~= split_from(
                    s,
                    sep,
                    i + sep.len(),
                ));
            }
        },
        None => {},
    }
}

/// Splitting loses nothing: the pieces of `s`, joined with the separator, are
/// `s`.
pub proof fn lemma_split_joins(s: Seq<char>, sep: Seq<char>)
    ensures
        split(s, sep).len() > 0,
        join(split(s, sep), sep) == s,
{
    lemma_split_from_joins(s, sep, 0);
}

/// No piece holds the separator: the pieces from `from` on are free of it.
pub proof fn lemma_split_from_pieces(s: Seq<char>, sep: Seq<char>, from: int)
    requires
        0 <= from <= s.len(),
        sep.len() > 0,
    ensures
        forall|k: int|
            0 <= k < split_from(s, sep, from).len() ==> find(
                #[trigger] split_from(s, sep, from)[k],
                sep,
                0,
            ) is None,
    decreases s.len() - from,
{
    lemma_find(s, sep, from);
    let pieces = split_from(s, sep, from);
    let end = match find(s, sep, from) {
        Some(i) => i,
        None => s.len() as int,
    };
    let head = s.subrange(from, end);
    assert(find(head, sep, 0) is None) by {
        lemma_find(head, sep, 0);
        if find(head, sep, 0) is Some {
            let k = find(head, sep, 0)->0;
            assert forall|j: int| 0 <= j < sep.len() implies s[from + k + j] == sep[j] by {
                assert(head[k + j] == s[from + k + j]);
            }
            assert(occurs_at(s, sep, from + k));
        }
    }
    if find(s, sep, from) is Some {
        lemma_split_from_pieces(s, sep, end + sep.len());
        assert forall|k: int| 0 <= k < pieces.len() implies find(#[trigger] pieces[k], sep, 0)
            is None by {
            if k > 0 {
                assert(pieces[k] == split_from(s, sep, end + sep.len())[k - 1]);
            }
        }
    }
}

/// No piece holds the separator.
pub proof fn lemma_split_pieces(s: Seq<char>, sep: Seq<char>)
    requires
        sep.len() > 0,
    ensures
        forall|k: int| 0 <= k < split(s, sep).len() ==> find(#[trigger] split(s, sep)[k], sep, 0)
            is None,
{
    lemma_split_from_pieces(s, sep, 0);
}

/// Splits `s` at the occurrences of `sep` and returns the range of each piece.
pub fn slice_split(s: &[char], sep: &[char]) -> (ranges: Vec<(usize, usize)>)
    ensures
        ranges_within(s@, ranges@),
        cuts(s@, ranges@) == split(s@, sep@),
        ranges@.len() > 0,
{
    let n: usize = s.len();
    let m: usize = sep.len();
    let mut ranges: Vec<(usize, usize)> = Vec::new();
    if m == 0 {
        ranges.push((0, n));
        return ranges;
    }
    let mut from: usize = 0;
    loop
        invariant_except_break
            split(s@, sep@) == cuts(s@, ranges@) + split_from(s@, sep@, from as int),
        invariant
            n == s@.len(),
            m == sep@.len(),
            m > 0,
            from <= n,
            ranges_within(s@, ranges@),
        ensures
            ranges_within(s@, ranges@),
            cuts(s@, ranges@) == split(s@, sep@),
            ranges@.len() > 0,
        decreases n - from,
    {
        match slice_find(s, sep, from) {
            Some(i) => {
                proof {
                    lemma_find(s@, sep@, from as int);
                }
                ranges.push((from, i));
                from = i + m;
            },
            None => {
                ranges.push((from, n));
                break;
            },
        }
    }
    ranges
}

/// The condition of being white space (`space` true), or of not being white
/// space (`space` false).
pub open spec fn space_is(space: bool) -> spec_fn(char) -> bool {
    |c: char| is_space(c) == space
}

/// The least position at or after `from` whose character is white space
/// (`space` true) or is not (`space` false); the length of `s` where there is
/// none.
pub open spec fn next_where(s: Seq<char>, from: int, space: bool) -> int {
    first_from(s, space_is(space), from)
}

/// Finds the first position at or after `from` whose character is white space
/// (`space` true) or is not (`space` false).
pub fn slice_next_where(s: &[char], from: usize, space: bool) -> (i: usize)
    ensures
        i == next_where(s@, from as int, space),
        i <= s@.len(),
        from <= s@.len() ==> from <= i,
        i < s@.len() ==> is_space(s@[i as int]) == space,
        forall|k: int| from <= k < i ==> is_space(s@[k]) != space,
{
    let n: usize = s.len();
    if from > n {
        return n;
    }
    let mut i: usize = from;
    while i < n && char_is_space(s[i]) != space
        invariant
            n == s@.len(),
            from <= i <= n,
            next_where(s@, from as int, space) == next_where(s@, i as int, space),
        decreases n - i,
    {
        i += 1;
    }
    proof {
        lemma_first_from(s@, space_is(space), from as int);
    }
    i
}

/// The words of `s` from position `from` on: the maximal runs of characters
/// that are not white space, in their order.
pub open spec fn words_from(s: Seq<char>, from: int) -> Seq<Seq<char>>
    decreases s.len() - from,
{
    let a = next_where(s, from, false);
    let b = next_where(s, a, true);
    if 0 <= from <= a < b <= s.len() {
        seq![s.subrange(a, b)] + words_from(s, b)
    } else {
        seq![]
    }
}

/// The words of `s`: what is left of it between stretches of white space.
pub open spec fn words(s: Seq<char>) -> Seq<Seq<char>> {
    words_from(s, 0)
}

/// A word is not empty and holds no white space.
pub proof fn lemma_words_from(s: Seq<char>, from: int)
    requires
        0 <= from <= s.len(),
    ensures
        forall|k: int|
            0 <= k < words_from(s, from).len() ==> (#[trigger] words_from(s, from)[k]).len() > 0
                && forall|j: int|
                0 <= j < words_from(s, from)[k].len() ==> !is_space(words_from(s, from)[k][j]),
    decreases s.len() - from,
{
    let a = next_where(s, from, false);
    lemma_first_from(s, space_is(false), from);
    if a < s.len() {
        let b = next_where(s, a, true);
        lemma_first_from(s, space_is(true), a);
        if a < b {
            let all = words_from(s, from);
            let rest = words_from(s, b);
            lemma_words_from(s, b);
            assert forall|k: int| 0 <= k < all.len() implies (#[trigger] all[k]).len() > 0
                && forall|j: int| 0 <= j < all[k].len() ==> !is_space(all[k][j]) by {
                if k == 0 {
                    assert forall|j: int| 0 <= j < all[0].len() implies !is_space(all[0][j]) by {
                        assert(all[0][j] == s[a + j]);
                    }
                } else {
                    assert(all[k] == rest[k - 1]);
                }
            }
        }
    }
}

/// Splits `s` at white space and returns the range of each word.
pub fn slice_words(s: &[char]) -> (ranges: Vec<(usize, usize)>)
    ensures
        ranges_within(s@, ranges@),
        cuts(s@, ranges@) == words(s@),
{
    let n: usize = s.len();
    let mut ranges: Vec<(usize, usize)> = Vec::new();
    let mut from: usize = 0;
    loop
        invariant_except_break
            words(s@) == cuts(s@, ranges@) + words_from(s@, from as int),
        invariant
            n == s@.len(),
            from <= n,
            ranges_within(s@, ranges@),
        ensures
            ranges_within(s@, ranges@),
            cuts(s@, ranges@) == words(s@),
        decreases n - from,
    {
        let a: usize = slice_next_where(s, from, false);
        if a >= n {
            break;
        }
        let b: usize = slice_next_where(s, a, true);
        proof {
            lemma_first_from(s@, space_is(true), a as int);
        }
        ranges.push((a, b));
        from = b;
    }
    ranges
}

/// The least position `b` from `lo` to `hi` with nothing but white space from
/// `b` to `hi`.
pub open spec fn trailing_space_start(s: Seq<char>, lo: int, hi: int) -> int
    decreases hi - lo,
{
    if 0 <= lo < hi <= s.len() && is_space(s[hi - 1]) {
        trailing_space_start(s, lo, hi - 1)
    } else {
        hi
    }
}

/// `s` without the white space at its two ends.
pub open spec fn trim(s: Seq<char>) -> Seq<char> {
    let a = next_where(s, 0, false);
    let b = trailing_space_start(s, a, s.len() as int);
    s.subrange(a, b)
}

/// `trim` takes away white space only, and all of it at both ends.
pub proof fn lemma_trim(s: Seq<char>)
    ensures
        ({
            let a = next_where(s, 0, false);
            let b = trailing_space_start(s, a, s.len() as int);
            &&& 0 <= a <= b <= s.len()
            &&& forall|k: int| 0 <= k < a ==> is_space(s[k])
            &&& forall|k: int| b <= k < s.len() ==> is_space(s[k])
            &&& a < b ==> !is_space(s[a]) && !is_space(s[b - 1])
        }),
{
    lemma_first_from(s, space_is(false), 0);
    let a = next_where(s, 0, false);
    lemma_trailing_space_start(s, a, s.len() as int);
}

/// `trailing_space_start` answers with a position from `lo` to `hi`, passing
/// over white space only.
pub proof fn lemma_trailing_space_start(s: Seq<char>, lo: int, hi: int)
    requires
        0 <= lo <= hi <= s.len(),
    ensures
        lo <= trailing_space_start(s, lo, hi) <= hi,
        forall|k: int| trailing_space_start(s, lo, hi) <= k < hi ==> is_space(s[k]),
        lo < trailing_space_start(s, lo, hi) ==> !is_space(s[trailing_space_start(s, lo, hi) - 1]),
    decreases hi - lo,
{
    if lo < hi && is_space(s[hi - 1]) {
        lemma_trailing_space_start(s, lo, hi - 1);
    }
}

/// Finds the range of `s` that is left when the white space at both ends is
/// taken away.
pub fn slice_trim(s: &[char]) -> (r: (usize, usize))
    ensures
        r.0 <= r.1 <= s@.len(),
        s@.subrange(r.0 as int, r.1 as int) == trim(s@),
        r.0 == next_where(s@, 0, false),
        r.1 == trailing_space_start(s@, r.0 as int, s@.len() as int),
{
    let n: usize = s.len();
    let a: usize = slice_next_where(s, 0, false);
    let mut b: usize = n;
    while b > a && char_is_space(s[b - 1])
        invariant
            n == s@.len(),
            a <= b <= n,
            trailing_space_start(s@, a as int, n as int) == trailing_space_start(
                s@,
                a as int,
                b as int,
            ),
        decreases b - a,
    {
        b -= 1;
    }
    (a, b)
}

/// Tests whether a character is one of the digits `0` to `9`.
pub fn char_is_digit(c: char) -> (b: bool)
    ensures
        b == is_digit(c),
{
    '0' <= c && c <= '9'
}

/// The condition of being no digit.
pub open spec fn non_digit() -> spec_fn(char) -> bool {
    |c: char| !is_digit(c)
}

/// The number of digits with which `s` starts.
pub open spec fn leading_digits(s: Seq<char>) -> int {
    first(s, non_digit())
}

/// The number that `s` writes in base ten, `s` being a sequence of digits.
pub open spec fn decimal(s: Seq<char>) -> nat
    decreases s.len(),
{
    if s.len() == 0 {
        0
    } else {
        decimal(s.drop_last()) * 10 + digit_value(s.last())
    }
}

/// A longer prefix of `s` writes a number that is no smaller.
pub proof fn lemma_decimal_prefix(s: Seq<char>, i: int, k: int)
    requires
        0 <= i <= k <= s.len(),
    ensures
        decimal(s.take(i)) <= decimal(s.take(k)),
    decreases k - i,
{
    if i < k {
        lemma_decimal_prefix(s, i, k - 1);
        assert(s.take(k).drop_last() =~= s.take(k - 1));
    }
}

/// The number written by the digits at the start of `s`, if `s` starts with a
/// digit.
pub open spec fn leading_number(s: Seq<char>) -> Option<nat> {
    let k = leading_digits(s);
    if k > 0 {
        Some(decimal(s.take(k)))
    } else {
        None
    }
}

/// Reads the number written by the digits at the start of `s`. The answer is
/// `None` where `s` does not start with a digit and where the number is larger
/// than `u64::MAX`.
pub fn slice_leading_number(s: &[char]) -> (r: Option<u64>)
    ensures
        r == match leading_number(s@) {
            Some(v) => if v <= u64::MAX {
                Some(v as u64)
            } else {
                None
            },
            None => None,
        },
{
    let n: usize = s.len();
    let mut i: usize = 0;
    let mut v: u64 = 0;
    while i < n && char_is_digit(s[i])
        invariant
            n == s@.len(),
            i <= n,
            leading_digits(s@) == first_from(s@, non_digit(), i as int),
            v == decimal(s@.take(i as int)),
        decreases n - i,
    {
        let d: u64 = ((s[i] as u32) - ('0' as u32)) as u64;
        assert(s@.take(i + 1).drop_last() =~= s@.take(i as int));
        if v > (u64::MAX - d) / 10 {
            proof {
                lemma_first_from(s@, non_digit(), i + 1);
                lemma_decimal_prefix(s@, i + 1, leading_digits(s@));
            }
            return None;
        }
        v = v * 10 + d;
        i += 1;
    }
    if i == 0 {
        None
    } else {
        Some(v)
    }
}

} // verus!
