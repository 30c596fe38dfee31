//! Character-level string helpers: conversion between `&str` and `Vec<char>`,
//! trimming, substring search, whitespace collapsing and decimal formatting,
//! each with an exact contract over the character sequences involved.

use vstd::prelude::*;

verus! {

/// Whitespace as the Unicode `White_Space` property defines it, which is what
/// `char::is_whitespace` and `str::trim` go by.
pub open spec fn is_space_spec(c: char) -> bool {
    c == ' ' || c == '\t' || c == '\n' || c == '\u{b}' || c == '\u{c}' || c == '\r' || c == '\u{85}'
        || c == '\u{a0}' || c == '\u{1680}' || c == '\u{2000}' || c == '\u{2001}' || c == '\u{2002}'
        || c == '\u{2003}' || c == '\u{2004}' || c == '\u{2005}' || c == '\u{2006}'
        || c == '\u{2007}' || c == '\u{2008}' || c == '\u{2009}' || c == '\u{200a}'
        || c == '\u{2028}' || c == '\u{2029}' || c == '\u{202f}' || c == '\u{205f}'
        || c == '\u{3000}'
}

pub fn is_space(c: char) -> (r: bool)
    ensures
        r == is_space_spec(c),
{
    c == ' ' || c == '\t' || c == '\n' || c == '\u{b}' || c == '\u{c}' || c == '\r' || c == '\u{85}'
        || c == '\u{a0}' || c == '\u{1680}' || c == '\u{2000}' || c == '\u{2001}' || c == '\u{2002}'
        || c == '\u{2003}' || c == '\u{2004}' || c == '\u{2005}' || c == '\u{2006}'
        || c == '\u{2007}' || c == '\u{2008}' || c == '\u{2009}' || c == '\u{200a}'
        || c == '\u{2028}' || c == '\u{2029}' || c == '\u{202f}' || c == '\u{205f}'
        || c == '\u{3000}'
}

/// The characters of `s`, in order.
pub fn chars_of(s: &str) -> (v: Vec<char>)
    ensures
        v@ == s@,
{
    let n = s.unicode_len();
    let mut v: Vec<char> = Vec::new();
    for i in 0..n
        invariant
            n == s@.len(),
            v@ == s@.subrange(0, i as int),
    {
        v.push(s.get_char(i));
    }
    proof {
        assert(v@ =~= s@);
    }
    v
}

/// Relies on `String`'s `FromIterator<char>`: builds the string holding
/// exactly the given characters, in order.
#[verifier::external_body]
pub fn string_from_chars(v: &Vec<char>) -> (s: String)
    ensures
        s@ == v@,
{
    v.iter().collect()
}

/// Whether the character sequences of two vectors are equal.
pub fn eq_chars(a: &Vec<char>, b: &Vec<char>) -> (r: bool)
    ensures
        r == (a@ == b@),
{
    if a.len() != b.len() {
        proof {
            assert(a@ != b@);
        }
        return false;
    }
    for i in 0..a.len()
        invariant
            a@.len() == b@.len(),
            forall|j: int| 0 <= j < i ==> a@[j] == b@[j],
    {
        if a[i] != b[i] {
            proof {
                assert(a@ != b@);
            }
            return false;
        }
    }
    proof {
        assert(a@ =~= b@);
    }
    true
}

/// Whether the characters of `v` spell exactly the string `s`.
pub fn chars_are(v: &Vec<char>, s: &str) -> (r: bool)
    ensures
        r == (v@ == s@),
{
    let sv = chars_of(s);
    eq_chars(v, &sv)
}

/// The index of the first character of `s` that is not whitespace, or the
/// length if there is none.
pub open spec fn first_non_space(s: Seq<char>) -> int
    decreases s.len(),
{
    if s.len() == 0 {
        0
    } else if !is_space_spec(s[0]) {
        0
    } else {
        1 + first_non_space(s.skip(1))
    }
}

pub proof fn lemma_first_non_space_bounds(s: Seq<char>)
    ensures
        0 <= first_non_space(s) <= s.len(),
        forall|j: int| 0 <= j < first_non_space(s) ==> is_space_spec(s[j]),
        first_non_space(s) < s.len() ==> !is_space_spec(s[first_non_space(s)]),
    decreases s.len(),
{
    if s.len() > 0 && is_space_spec(s[0]) {
        lemma_first_non_space_bounds(s.skip(1));
        assert forall|j: int| 0 <= j < first_non_space(s) implies is_space_spec(s[j]) by {
            if j > 0 {
                assert(s.skip(1)[j - 1] == s[j]);
            }
        }
        if first_non_space(s) < s.len() {
            assert(s.skip(1)[first_non_space(s) - 1] == s[first_non_space(s)]);
        }
    }
}

/// `s` with leading and trailing whitespace removed, as `str::trim` leaves it.
pub open spec fn trim_spec(s: Seq<char>) -> Seq<char> {
    let a = first_non_space(s);
    let b = s.len() - first_non_space(s.reverse());
    if a < b {
        s.subrange(a, b)
    } else {
        Seq::empty()
    }
}

/// The trimmed character sequence of `v`.
pub fn trim_chars(v: &Vec<char>) -> (r: Vec<char>)
    ensures
        r@ == trim_spec(v@),
{
    let n = v.len();
    let mut a: usize = 0;
    proof {
        lemma_first_non_space_bounds(v@);
    }
    while a < n && is_space(v[a as usize])
        invariant
            n == v@.len(),
            0 <= a <= n,
            forall|j: int| 0 <= j < a ==> is_space_spec(v@[j]),
            first_non_space(v@) >= a,
        decreases n - a,
    {
        proof {
            lemma_first_non_space_step(v@, a as int);
        }
        a += 1;
    }
    proof {
        lemma_first_non_space_bounds(v@);
        assert(first_non_space(v@) == a);
    }
    let mut b: usize = n;
    while b > a && is_space(v[b - 1])
        invariant
            n == v@.len(),
            a <= b <= n,
            a == first_non_space(v@),
            forall|j: int| b <= j < n ==> is_space_spec(v@[j]),
            v@.len() - first_non_space(v@.reverse()) <= b || b == n,
            forall|j: int| 0 <= j < a ==> is_space_spec(v@[j]),
            a < n ==> !is_space_spec(v@[a as int]),
        decreases b,
    {
        proof {
            lemma_trailing_space_step(v@, b as int, a as int);
        }
        b -= 1;
    }
    let mut r: Vec<char> = Vec::new();
    let mut i: usize = a;
    while i < b
        invariant
            a <= i <= b <= n,
            n == v@.len(),
            r@ == v@.subrange(a as int, i as int),
        decreases b - i,
    {
        r.push(v[i]);
        proof {
            assert(r@ =~= v@.subrange(a as int, i + 1));
        }
        i += 1;
    }
    proof {
        lemma_trim_matches(v@, a as int, b as int);
    }
    r
}

proof fn lemma_first_non_space_step(s: Seq<char>, a: int)
    requires
        0 <= a < s.len(),
        is_space_spec(s[a]),
        first_non_space(s) >= a,
    ensures
        first_non_space(s) >= a + 1,
    decreases a,
{
    lemma_first_non_space_bounds(s);
    if first_non_space(s) == a {
        assert(false);
    }
}

proof fn lemma_rev_prefix(s: Seq<char>, k: int)
    requires
        0 <= k <= s.len(),
        forall|j: int| s.len() - k <= j < s.len() ==> is_space_spec(s[j]),
        k < s.len() ==> !is_space_spec(s[s.len() - k - 1]),
    ensures
        first_non_space(s.reverse()) == k,
{
    let r = s.reverse();
    lemma_first_non_space_bounds(r);
    assert(forall|j: int| 0 <= j < k ==> r[j] == s[s.len() - 1 - j] && is_space_spec(r[j]));
    if k < s.len() {
        assert(r[k] == s[s.len() - k - 1]);
        if first_non_space(r) < k {
            assert(is_space_spec(r[first_non_space(r)]));
            assert(false);
        }
        if first_non_space(r) > k {
            assert(is_space_spec(r[k]));
            assert(false);
        }
    } else {
        if first_non_space(r) < k {
            assert(is_space_spec(r[first_non_space(r)]));
            assert(false);
        }
    }
}

proof fn lemma_trailing_space_step(s: Seq<char>, b: int, a: int)
    requires
        0 <= a < b <= s.len(),
        is_space_spec(s[b - 1]),
        forall|j: int| b <= j < s.len() ==> is_space_spec(s[j]),
    ensures
        s.len() - first_non_space(s.reverse()) <= b - 1,
{
    let r = s.reverse();
    lemma_first_non_space_bounds(r);
    let k = first_non_space(r);
    if s.len() - k > b - 1 {
        // the character at position len - k - 1 >= b - 1 is whitespace,
        // yet reverse position k points at it as the first non-space
        if k < r.len() {
            assert(r[k] == s[s.len() - 1 - k]);
            assert(s.len() - 1 - k >= b - 1);
            assert(is_space_spec(s[s.len() - 1 - k]));
            assert(false);
        }
    }
}

proof fn lemma_trim_matches(s: Seq<char>, a: int, b: int)
    requires
        0 <= a <= b <= s.len(),
        a == first_non_space(s),
        forall|j: int| b <= j < s.len() ==> is_space_spec(s[j]),
        b > a ==> !is_space_spec(s[b - 1]),
        a < s.len() ==> !is_space_spec(s[a]),
    ensures
        trim_spec(s) == s.subrange(a, b),
{
    if b > a {
        lemma_rev_prefix(s, s.len() - b);
        assert(s.len() - first_non_space(s.reverse()) == b);
    } else {
        // everything from a on is whitespace, so a and b sit at the end and
        // the trim is empty
        lemma_first_non_space_bounds(s);
        if a < s.len() {
            assert(is_space_spec(s[a]));
            assert(false);
        }
        lemma_first_non_space_bounds(s.reverse());
        assert(trim_spec(s) =~= s.subrange(a, b));
    }
}

/// Whether `n` occurs in `h` starting at position `i`.
pub open spec fn occurs_at(h: Seq<char>, n: Seq<char>, i: int) -> bool {
    0 <= i && i + n.len() <= h.len() && h.subrange(i, i + n.len()) == n
}

/// Whether `i` is the earliest position at which `n` occurs in `h`.
pub open spec fn is_first_occurrence(h: Seq<char>, n: Seq<char>, i: int) -> bool {
    occurs_at(h, n, i) && forall|j: int| 0 <= j < i ==> !occurs_at(h, n, j)
}

/// The first position at which `n` occurs in `h`, if any.
pub open spec fn find_first(h: Seq<char>, n: Seq<char>) -> Option<int> {
    if exists|i: int| is_first_occurrence(h, n, i) {
        Some(choose|i: int| is_first_occurrence(h, n, i))
    } else {
        None
    }
}

proof fn lemma_find_first_exists(h: Seq<char>, n: Seq<char>, w: int)
    requires
        is_first_occurrence(h, n, w),
    ensures
        find_first(h, n) == Some(w),
{
    let i = choose|i: int| is_first_occurrence(h, n, i);
    if i < w {
        assert(!occurs_at(h, n, i));
    }
    if i > w {
        assert(!occurs_at(h, n, w));
    }
}

/// Whether `n` occurs anywhere in `h`.
pub open spec fn contains_seq(h: Seq<char>, n: Seq<char>) -> bool {
    exists|i: int| occurs_at(h, n, i)
}

/// What a found position means: the needle occurs there and nowhere
/// earlier.
pub proof fn lemma_find_first_some(h: Seq<char>, n: Seq<char>, i: int)
    requires
        find_first(h, n) == Some(i),
    ensures
        is_first_occurrence(h, n, i),
{
    if !(exists|k: int| is_first_occurrence(h, n, k)) {
        assert(find_first(h, n) is None);
        assert(false);
    }
    let w = choose|w: int| is_first_occurrence(h, n, w);
    assert(w == i);
}

/// The first index at which `needle` occurs in `hay`, scanning left to right.
pub fn find_sub(hay: &Vec<char>, needle: &Vec<char>) -> (r: Option<usize>)
    ensures
        match r {
            Some(i) => find_first(hay@, needle@) == Some(i as int),
            None => find_first(hay@, needle@) is None && !contains_seq(hay@, needle@),
        },
{
    let hn = hay.len();
    let nn = needle.len();
    if nn > hn {
        proof {
            assert(forall|i: int| !occurs_at(hay@, needle@, i));
        }
        return None;
    }
    let mut i: usize = 0;
    while i <= hn - nn
        invariant
            nn <= hn,
            hn == hay@.len(),
            nn == needle@.len(),
            0 <= i <= hn - nn + 1,
            forall|j: int| 0 <= j < i ==> !occurs_at(hay@, needle@, j),
        decreases hn + 1 - i,
    {
        let mut k: usize = 0;
        let mut matched = true;
        while k < nn
            invariant
                nn <= hn,
                hn == hay@.len(),
                nn == needle@.len(),
                0 <= i <= hn - nn,
                0 <= k <= nn,
                matched <==> (forall|j: int| 0 <= j < k ==> hay@[i + j] == needle@[j]),
            decreases nn - k,
        {
            if hay[i + k] != needle[k] {
                matched = false;
                k = nn;
            } else {
                k += 1;
            }
        }
        if matched {
            proof {
                assert(hay@.subrange(i as int, i + nn) =~= needle@);
                lemma_find_first_exists(hay@, needle@, i as int);
            }
            return Some(i);
        }
        proof {
            if occurs_at(hay@, needle@, i as int) {
                assert(forall|j: int|
                    0 <= j < nn ==> #[trigger] hay@.subrange(i as int, i + nn)[j] == hay@[i + j]);
            }
        }
        i += 1;
    }
    proof {
        assert(forall|j: int| !occurs_at(hay@, needle@, j));
    }
    None
}

/// Whether `needle` occurs anywhere in `hay`.
pub fn contains_sub(hay: &Vec<char>, needle: &Vec<char>) -> (r: bool)
    ensures
        r == contains_seq(hay@, needle@),
{
    match find_sub(hay, needle) {
        Some(_) => true,
        None => false,
    }
}

/// The character for one decimal digit.
pub open spec fn digit_char(d: int) -> char {
    if d == 0 {
        '0'
    } else if d == 1 {
        '1'
    } else if d == 2 {
        '2'
    } else if d == 3 {
        '3'
    } else if d == 4 {
        '4'
    } else if d == 5 {
        '5'
    } else if d == 6 {
        '6'
    } else if d == 7 {
        '7'
    } else if d == 8 {
        '8'
    } else {
        '9'
    }
}

/// The decimal writing of `n`, without sign or padding.
pub open spec fn dec_str_of(n: nat) -> Seq<char>
    decreases n,
{
    if n < 10 {
        seq![digit_char(n as int)]
    } else {
        dec_str_of(n / 10).push(digit_char((n % 10) as int))
    }
}

fn digit_of(d: u64) -> (c: char)
    requires
        d < 10,
    ensures
        c == digit_char(d as int),
{
    if d == 0 {
        '0'
    } else if d == 1 {
        '1'
    } else if d == 2 {
        '2'
    } else if d == 3 {
        '3'
    } else if d == 4 {
        '4'
    } else if d == 5 {
        '5'
    } else if d == 6 {
        '6'
    } else if d == 7 {
        '7'
    } else if d == 8 {
        '8'
    } else {
        '9'
    }
}

/// The decimal digits of `n`, as characters.
pub fn u64_to_chars(n: u64) -> (v: Vec<char>)
    ensures
        v@ == dec_str_of(n as nat),
    decreases n,
{
    if n < 10 {
        let mut v: Vec<char> = Vec::new();
        v.push(digit_of(n));
        proof {
            assert(v@ =~= dec_str_of(n as nat));
        }
        v
    } else {
        let mut v = u64_to_chars(n / 10);
        v.push(digit_of(n % 10));
        v
    }
}

/// The decimal writing of `n` as a string.
pub fn u64_to_string(n: u64) -> (s: String)
    ensures
        s@ == dec_str_of(n as nat),
{
    let v = u64_to_chars(n);
    string_from_chars(&v)
}

/// The first `n` characters of `s`, or all of them if it is shorter.
pub open spec fn prefix_spec(s: Seq<char>, n: int) -> Seq<char> {
    if s.len() <= n {
        s
    } else {
        s.take(n)
    }
}

/// The string of the first `n` characters of `s`, or all of `s` if shorter.
pub fn char_prefix(s: &str, n: usize) -> (r: String)
    ensures
        r@ == prefix_spec(s@, n as int),
{
    let v = chars_of(s);
    let mut p: Vec<char> = Vec::new();
    let m: usize = if v.len() <= n {
        v.len()
    } else {
        n
    };
    for i in 0..m
        invariant
            m <= v@.len(),
            v@ == s@,
            p@ == s@.subrange(0, i as int),
    {
        p.push(v[i]);
        proof {
            assert(p@ =~= s@.subrange(0, i + 1));
        }
    }
    proof {
        assert(p@ =~= prefix_spec(s@, n as int));
    }
    string_from_chars(&p)
}

/// `s` with every run of two or more spaces shortened to one space, the way
/// repeatedly replacing two spaces by one until none are left leaves it.
pub open spec fn collapse_spaces_spec(s: Seq<char>) -> Seq<char>
    decreases s.len(),
{
    if s.len() < 2 {
        s
    } else if s[0] == ' ' && s[1] == ' ' {
        collapse_spaces_spec(s.skip(1))
    } else {
        seq![s[0]] + collapse_spaces_spec(s.skip(1))
    }
}

/// Collapses every run of spaces in `v` to a single space.
pub fn collapse_spaces(v: &Vec<char>) -> (r: Vec<char>)
    ensures
        r@ == collapse_spaces_spec(v@),
{
    let n = v.len();
    let mut r: Vec<char> = Vec::new();
    proof {
        assert(v@.skip(0) =~= v@);
        assert(r@ + collapse_spaces_spec(v@) =~= collapse_spaces_spec(v@));
    }
    for i in 0..n
        invariant
            n == v@.len(),
            r@ + collapse_spaces_spec(v@.skip(i as int)) == collapse_spaces_spec(v@),
    {
        proof {
            assert(v@.skip(i as int).skip(1) =~= v@.skip(i + 1));
        }
        if i + 1 < n && v[i] == ' ' && v[i + 1] == ' ' {
            // skip this space: the next one carries the run
            proof {
                assert(v@.skip(i as int)[0] == ' ' && v@.skip(i as int)[1] == ' ');
            }
        } else {
            proof {
                let rest = v@.skip(i as int);
                if rest.len() >= 2 {
                    assert(!(rest[0] == ' ' && rest[1] == ' '));
                } else {
                    assert(rest =~= seq![rest[0]]);
                    assert(collapse_spaces_spec(rest.skip(1)) =~= Seq::<char>::empty());
                }
                assert(collapse_spaces_spec(rest) == seq![rest[0]] + collapse_spaces_spec(
                    rest.skip(1),
                ));
            }
            r.push(v[i]);
            proof {
                let rest = v@.skip(i as int);
                assert(r@ + collapse_spaces_spec(rest.skip(1)) =~= (r@.drop_last()) + (
                seq![rest[0]] + collapse_spaces_spec(rest.skip(1))));
            }
        }
    }
    proof {
        assert(v@.skip(n as int) =~= Seq::<char>::empty());
        assert(collapse_spaces_spec(Seq::<char>::empty()) =~= Seq::<char>::empty());
        assert(r@ + Seq::<char>::empty() =~= r@);
    }
    r
}

} // verus!
