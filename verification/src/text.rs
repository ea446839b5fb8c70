//! Character-sequence utilities shared by the configuration, classification
//! and protocol modules: ASCII case folding, trimming, substring search and
//! conversions between `String`/`&str` and `Vec<char>`.

use vstd::prelude::*;

verus! {

/// Relies on std's `String::push`: appends the given character to the end of
/// the string.
pub assume_specification[ String::push ](s: &mut String, c: char)
    ensures
        final(s)@ == old(s)@.push(c),
;

/// The four ASCII whitespace characters that trimming strips.
pub open spec fn is_ws_char(c: char) -> bool {
    c == ' ' || c == '\t' || c == '\n' || c == '\r'
}

/// ASCII case folding of one character; other characters are unchanged.
pub open spec fn to_lower_char(c: char) -> char {
    if 'A' <= c && c <= 'Z' {
        (((c as u8) + 32) as char)
    } else {
        c
    }
}

/// ASCII case folding of a whole sequence.
pub open spec fn lower_seq(s: Seq<char>) -> Seq<char> {
    Seq::new(s.len(), |i: int| to_lower_char(s[i]))
}

/// Number of leading whitespace characters.
pub open spec fn ws_prefix_len(s: Seq<char>) -> int
    decreases s.len(),
{
    if s.len() == 0 {
        0
    } else if is_ws_char(s[0]) {
        1 + ws_prefix_len(s.drop_first())
    } else {
        0
    }
}

/// Number of trailing whitespace characters.
pub open spec fn ws_suffix_len(s: Seq<char>) -> int
    decreases s.len(),
{
    if s.len() == 0 {
        0
    } else if is_ws_char(s[s.len() - 1]) {
        1 + ws_suffix_len(s.drop_last())
    } else {
        0
    }
}

/// The sequence with leading and trailing ASCII whitespace removed.
pub open spec fn trim_seq(s: Seq<char>) -> Seq<char> {
    if ws_prefix_len(s) + ws_suffix_len(s) <= s.len() {
        s.subrange(ws_prefix_len(s), s.len() - ws_suffix_len(s))
    } else {
        Seq::empty()
    }
}

pub proof fn lemma_ws_prefix(s: Seq<char>)
    ensures
        0 <= ws_prefix_len(s) <= s.len(),
        forall|k: int| 0 <= k < ws_prefix_len(s) ==> is_ws_char(s[k]),
        ws_prefix_len(s) < s.len() ==> !is_ws_char(s[ws_prefix_len(s)]),
    decreases s.len(),
{
    if s.len() != 0 && is_ws_char(s[0]) {
        lemma_ws_prefix(s.drop_first());
        assert forall|k: int| 0 <= k < ws_prefix_len(s) implies is_ws_char(s[k]) by {
            if k > 0 {
                assert(s.drop_first()[k - 1] == s[k]);
            }
        }
        if ws_prefix_len(s) < s.len() {
            assert(s.drop_first()[ws_prefix_len(s) - 1] == s[ws_prefix_len(s)]);
        }
    }
}

pub proof fn lemma_ws_suffix(s: Seq<char>)
    ensures
        0 <= ws_suffix_len(s) <= s.len(),
        forall|k: int| s.len() - ws_suffix_len(s) <= k < s.len() ==> is_ws_char(s[k]),
        ws_suffix_len(s) < s.len() ==> !is_ws_char(s[s.len() - ws_suffix_len(s) - 1]),
    decreases s.len(),
{
    if s.len() != 0 && is_ws_char(s[s.len() - 1]) {
        lemma_ws_suffix(s.drop_last());
        assert forall|k: int| s.len() - ws_suffix_len(s) <= k < s.len() implies is_ws_char(
            s[k],
        ) by {
            if k < s.len() - 1 {
                assert(s.drop_last()[k] == s[k]);
            }
        }
        if ws_suffix_len(s) < s.len() {
            assert(s.drop_last()[s.len() - ws_suffix_len(s) - 1] == s[s.len() - ws_suffix_len(s)
                - 1]);
        }
    }
}

/// If every character before `i` is whitespace and `i` is the length or a
/// non-whitespace position, then `i` is exactly the whitespace prefix length.
pub proof fn lemma_ws_prefix_is(s: Seq<char>, i: int)
    requires
        0 <= i <= s.len(),
        forall|k: int| 0 <= k < i ==> is_ws_char(s[k]),
        i < s.len() ==> !is_ws_char(s[i]),
    ensures
        ws_prefix_len(s) == i,
    decreases s.len(),
{
    if s.len() != 0 && is_ws_char(s[0]) {
        assert forall|k: int| 0 <= k < i - 1 implies is_ws_char(s.drop_first()[k]) by {
            assert(s.drop_first()[k] == s[k + 1]);
        }
        if i - 1 < s.drop_first().len() {
            assert(s.drop_first()[i - 1] == s[i]);
        }
        lemma_ws_prefix_is(s.drop_first(), i - 1);
    }
}

pub proof fn lemma_ws_suffix_is(s: Seq<char>, j: int)
    requires
        0 <= j <= s.len(),
        forall|k: int| s.len() - j <= k < s.len() ==> is_ws_char(s[k]),
        j < s.len() ==> !is_ws_char(s[s.len() - j - 1]),
    ensures
        ws_suffix_len(s) == j,
    decreases s.len(),
{
    if s.len() != 0 && is_ws_char(s[s.len() - 1]) {
        assert forall|k: int| s.drop_last().len() - (j - 1) <= k < s.drop_last().len()
            implies is_ws_char(s.drop_last()[k]) by {
            assert(s.drop_last()[k] == s[k]);
        }
        if j - 1 < s.drop_last().len() {
            assert(s.drop_last()[s.len() - j - 1] == s[s.len() - j - 1]);
        }
        lemma_ws_suffix_is(s.drop_last(), j - 1);
    }
}

/// Trimming an already-trimmed sequence changes nothing.
pub proof fn lemma_trim_idempotent(s: Seq<char>)
    ensures
        trim_seq(trim_seq(s)) == trim_seq(s),
{
    lemma_ws_prefix(s);
    lemma_ws_suffix(s);
    let t = trim_seq(s);
    if ws_prefix_len(s) + ws_suffix_len(s) <= s.len() {
        let a = ws_prefix_len(s);
        let b = ws_suffix_len(s);
        if t.len() == 0 {
            lemma_ws_prefix_is(t, 0);
            lemma_ws_suffix_is(t, 0);
            assert(trim_seq(t) =~= t);
        } else {
            assert(t[0] == s[a]);
            assert(t[t.len() - 1] == s[s.len() - b - 1]);
            if a == s.len() {
                assert(false);
            }
            if b == s.len() {
                assert(false);
            }
            lemma_ws_prefix_is(t, 0);
            lemma_ws_suffix_is(t, 0);
            assert(trim_seq(t) =~= t);
        }
    } else {
        lemma_ws_prefix_is(t, 0);
        lemma_ws_suffix_is(t, 0);
        assert(trim_seq(t) =~= t);
    }
}

/// Number of trailing characters satisfying `p`.
pub open spec fn suffix_len_of(s: Seq<char>, p: spec_fn(char) -> bool) -> int
    decreases s.len(),
{
    if s.len() == 0 {
        0
    } else if p(s[s.len() - 1]) {
        1 + suffix_len_of(s.drop_last(), p)
    } else {
        0
    }
}

pub proof fn lemma_suffix_of(s: Seq<char>, p: spec_fn(char) -> bool)
    ensures
        0 <= suffix_len_of(s, p) <= s.len(),
        forall|k: int| s.len() - suffix_len_of(s, p) <= k < s.len() ==> p(s[k]),
        suffix_len_of(s, p) < s.len() ==> !p(s[s.len() - suffix_len_of(s, p) - 1]),
    decreases s.len(),
{
    if s.len() != 0 && p(s[s.len() - 1]) {
        lemma_suffix_of(s.drop_last(), p);
        assert forall|k: int| s.len() - suffix_len_of(s, p) <= k < s.len() implies p(s[k]) by {
            if k < s.len() - 1 {
                assert(s.drop_last()[k] == s[k]);
            }
        }
        if suffix_len_of(s, p) < s.len() {
            assert(s.drop_last()[s.len() - suffix_len_of(s, p) - 1] == s[s.len() - suffix_len_of(
                s,
                p,
            ) - 1]);
        }
    }
}

pub proof fn lemma_suffix_of_is(s: Seq<char>, p: spec_fn(char) -> bool, j: int)
    requires
        0 <= j <= s.len(),
        forall|k: int| s.len() - j <= k < s.len() ==> p(s[k]),
        j < s.len() ==> !p(s[s.len() - j - 1]),
    ensures
        suffix_len_of(s, p) == j,
    decreases s.len(),
{
    if s.len() != 0 && p(s[s.len() - 1]) {
        assert forall|k: int| s.drop_last().len() - (j - 1) <= k < s.drop_last().len() implies p(
            s.drop_last()[k],
        ) by {
            assert(s.drop_last()[k] == s[k]);
        }
        if j - 1 < s.drop_last().len() {
            assert(s.drop_last()[s.len() - j - 1] == s[s.len() - j - 1]);
        }
        lemma_suffix_of_is(s.drop_last(), p, j - 1);
    }
}

/// `needle` occurs in `hay` starting at position `i`.
pub open spec fn match_at(hay: Seq<char>, needle: Seq<char>, i: int) -> bool {
    &&& 0 <= i
    &&& i + needle.len() <= hay.len()
    &&& hay.subrange(i, i + needle.len()) == needle
}

/// `needle` occurs somewhere in `hay`.
pub open spec fn contains_seq(hay: Seq<char>, needle: Seq<char>) -> bool {
    exists|i: int| match_at(hay, needle, i)
}

/// The characters of a string slice, in order.
pub fn str_chars(s: &str) -> (v: Vec<char>)
    ensures
        v@ == s@,
{
    let mut v: Vec<char> = Vec::new();
    for c in it: s.chars()
        invariant
            it.seq() == s@,
            v@ == it.seq().take(it.index() as int),
    {
        v.push(c);
    }
    proof {
        assert(v@ =~= s@);
    }
    v
}

/// Builds a `String` holding exactly the given characters.
pub fn chars_to_string(v: &Vec<char>) -> (s: String)
    ensures
        s@ == v@,
{
    let mut s = String::new();
    let mut i: usize = 0;
    while i < v.len()
        invariant
            i <= v.len(),
            s@ == v@.take(i as int),
        decreases v.len() - i,
    {
        s.push(v[i]);
        proof {
            assert(v@.take(i as int).push(v@[i as int]) =~= v@.take(i + 1));
        }
        i += 1;
    }
    proof {
        assert(v@.take(v.len() as int) =~= v@);
    }
    s
}

/// Character-wise equality of two string slices.
pub fn str_eq(a: &str, b: &str) -> (r: bool)
    ensures
        r == (a@ == b@),
{
    let na = a.unicode_len();
    let nb = b.unicode_len();
    if na != nb {
        return false;
    }
    let mut i: usize = 0;
    while i < na
        invariant
            na == a@.len(),
            nb == b@.len(),
            na == nb,
            i <= na,
            forall|k: int| 0 <= k < i ==> a@[k] == b@[k],
        decreases na - i,
    {
        if a.get_char(i) != b.get_char(i) {
            return false;
        }
        i += 1;
    }
    proof {
        assert(a@ =~= b@);
    }
    true
}

/// ASCII case folding of a character vector.
pub fn lower_chars(v: &Vec<char>) -> (r: Vec<char>)
    ensures
        r@ == lower_seq(v@),
{
    let mut r: Vec<char> = Vec::new();
    let mut i: usize = 0;
    while i < v.len()
        invariant
            i <= v.len(),
            r@.len() == i,
            forall|k: int| 0 <= k < i ==> r@[k] == to_lower_char(v@[k]),
        decreases v.len() - i,
    {
        let c = v[i];
        if 'A' <= c && c <= 'Z' {
            r.push(((c as u8) + 32) as char);
        } else {
            r.push(c);
        }
        i += 1;
    }
    proof {
        assert(r@ =~= lower_seq(v@));
    }
    r
}

/// Removes leading and trailing ASCII whitespace.
pub fn trim_chars(v: &Vec<char>) -> (r: Vec<char>)
    ensures
        r@ == trim_seq(v@),
{
    let n = v.len();
    let mut a: usize = 0;
    while a < n && is_ws(v[a])
        invariant
            n == v.len(),
            a <= n,
            forall|k: int| 0 <= k < a ==> is_ws_char(v@[k]),
        decreases n - a,
    {
        a += 1;
    }
    proof {
        lemma_ws_prefix_is(v@, a as int);
    }
    let mut b: usize = n;
    while b > a && is_ws(v[b - 1])
        invariant
            n == v.len(),
            a <= b <= n,
            forall|k: int| b <= k < n ==> is_ws_char(v@[k]),
            a < n ==> !is_ws_char(v@[a as int]),
        decreases b,
    {
        b -= 1;
    }
    let mut r: Vec<char> = Vec::new();
    let mut i: usize = a;
    while i < b
        invariant
            a <= i <= b <= n,
            n == v.len(),
            r@ == v@.subrange(a as int, i as int),
        decreases b - i,
    {
        r.push(v[i]);
        proof {
            assert(v@.subrange(a as int, i as int).push(v@[i as int]) =~= v@.subrange(
                a as int,
                i + 1,
            ));
        }
        i += 1;
    }
    proof {
        if a == n {
            if n == 0 {
                lemma_ws_suffix_is(v@, 0);
            } else {
                lemma_ws_suffix_is(v@, n as int);
            }
            assert(r@ =~= trim_seq(v@));
        } else {
            if b == a {
                assert(is_ws_char(v@[a as int]));
                assert(false);
            }
            assert(!is_ws_char(v@[b - 1]));
            lemma_ws_suffix_is(v@, (n - b) as int);
            assert(r@ =~= trim_seq(v@));
        }
    }
    r
}

/// Whether one character is ASCII whitespace.
pub fn is_ws(c: char) -> (r: bool)
    ensures
        r == is_ws_char(c),
{
    c == ' ' || c == '\t' || c == '\n' || c == '\r'
}

/// Naive substring search over character vectors.
pub fn contains_chars(hay: &Vec<char>, needle: &Vec<char>) -> (r: bool)
    ensures
        r == contains_seq(hay@, needle@),
{
    let m = needle.len();
    let n = hay.len();
    if m > n {
        proof {
            assert forall|i: int| !match_at(hay@, needle@, i) by {}
        }
        return false;
    }
    let mut i: usize = 0;
    while i <= n - m
        invariant
            m <= n,
            m == needle@.len(),
            n == hay@.len(),
            i <= n - m + 1,
            forall|k: int| 0 <= k < i ==> !match_at(hay@, needle@, k),
        decreases n + 1 - i,
    {
        let mut j: usize = 0;
        let mut hit = true;
        while j < m
            invariant
                m <= n,
                m == needle@.len(),
                n == hay@.len(),
                i + m <= n,
                j <= m,
                hit <==> (forall|k: int| 0 <= k < j ==> hay@[i + k] == needle@[k]),
            decreases m - j,
        {
            if hay[i + j] != needle[j] {
                hit = false;
                proof {
                    assert(!(hay@[i + j] == needle@[j as int]));
                }
                j = m;
            } else {
                proof {
                    assert(hay@[i + j] == needle@[j as int]);
                }
                j += 1;
            }
        }
        if hit {
            proof {
                assert(hay@.subrange(i as int, i + m) =~= needle@);
                assert(match_at(hay@, needle@, i as int));
            }
            return true;
        }
        proof {
            if match_at(hay@, needle@, i as int) {
                assert forall|k: int| 0 <= k < m implies hay@[i + k] == needle@[k] by {
                    assert(hay@.subrange(i as int, i + m)[k] == hay@[i + k]);
                }
                assert(false);
            }
        }
        i += 1;
    }
    proof {
        assert forall|k: int| !match_at(hay@, needle@, k) by {
            if 0 <= k <= n - m {
                assert(!match_at(hay@, needle@, k));
            }
        }
    }
    false
}

/// Case-insensitive equality of two character vectors.
pub fn eq_ignore_case(a: &Vec<char>, b: &Vec<char>) -> (r: bool)
    ensures
        r == (lower_seq(a@) == lower_seq(b@)),
{
    if a.len() != b.len() {
        proof {
            assert(lower_seq(a@).len() != lower_seq(b@).len());
        }
        return false;
    }
    let la = lower_chars(a);
    let lb = lower_chars(b);
    let mut i: usize = 0;
    while i < la.len()
        invariant
            la@.len() == lb@.len(),
            la@ == lower_seq(a@),
            lb@ == lower_seq(b@),
            i <= la@.len(),
            forall|k: int| 0 <= k < i ==> la@[k] == lb@[k],
        decreases la@.len() - i,
    {
        if la[i] != lb[i] {
            return false;
        }
        i += 1;
    }
    proof {
        assert(lower_seq(a@) =~= lower_seq(b@));
    }
    true
}


/// Element-wise equality of two character vectors.
pub fn chars_eq(a: &Vec<char>, b: &Vec<char>) -> (r: bool)
    ensures
        r == (a@ == b@),
{
    if a.len() != b.len() {
        return false;
    }
    let mut i: usize = 0;
    while i < a.len()
        invariant
            a@.len() == b@.len(),
            i <= a@.len(),
            forall|k: int| 0 <= k < i ==> a@[k] == b@[k],
        decreases a@.len() - i,
    {
        if a[i] != b[i] {
            return false;
        }
        i += 1;
    }
    proof {
        assert(a@ =~= b@);
    }
    true
}


/// The numeric code of a character.
pub fn char_code(c: char) -> (r: u32)
    ensures
        r as int == c as int,
{
    proof {
        assert(c as int <= 0x10FFFF);
    }
    c as u32
}

} // verus!
