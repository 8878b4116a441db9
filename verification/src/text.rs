//! Character-level text utilities: moving between `String` and `Vec<char>`,
//! substring search, and whitespace trimming.

use vstd::prelude::*;

verus! {

/// The Unicode white-space property of a character, as `char::is_whitespace`
/// decides it. The full character table is not written out here; the
/// extraction and session logic only needs that the decision is a function of
/// the character.
pub uninterp spec fn is_unicode_ws(c: char) -> bool;

/// Relies on `char::is_whitespace`: the result depends on the character alone.
#[verifier::external_body]
pub(crate) fn char_is_ws(c: char) -> (b: bool)
    ensures
        b == is_unicode_ws(c),
{
    c.is_whitespace()
}

/// Relies on `str::chars`: yields exactly the string's characters in order.
#[verifier::external_body]
pub(crate) fn chars_of(s: &str) -> (v: Vec<char>)
    ensures
        v@ == s@,
{
    s.chars().collect()
}

/// Relies on `String`'s `FromIterator<char>`: collects exactly the given
/// characters in order.
#[verifier::external_body]
pub(crate) fn string_from_chars(v: &Vec<char>) -> (s: String)
    ensures
        s@ == v@,
{
    v.iter().collect()
}

/// Relies on `String::push`: appends one character.
#[verifier::external_body]
pub(crate) fn push_char(s: &mut String, c: char)
    ensures
        final(s)@ == old(s)@.push(c),
{
    s.push(c);
}

/// Relies on `String::pop`: removes and returns the last character, if any.
#[verifier::external_body]
pub(crate) fn pop_char(s: &mut String) -> (r: Option<char>)
    ensures
        old(s)@.len() == 0 ==> final(s)@ == old(s)@ && r is None,
        old(s)@.len() > 0 ==> final(s)@ == old(s)@.drop_last() && r == Some(old(s)@.last()),
{
    s.pop()
}

/// The position of the first occurrence of `n` in `h` at or after `i`,
/// if there is one.
pub open spec fn find_from(h: Seq<char>, n: Seq<char>, i: int) -> Option<int>
    decreases h.len() - i + 1,
{
    if i < 0 || i + n.len() > h.len() {
        None
    } else if h.subrange(i, i + n.len() as int) == n {
        Some(i)
    } else {
        find_from(h, n, i + 1)
    }
}

/// `n` occurs somewhere in `h`.
pub open spec fn contains_sub(h: Seq<char>, n: Seq<char>) -> bool {
    exists|i: int| 0 <= i && i + n.len() <= h.len() && #[trigger] h.subrange(i, i + n.len() as int) == n
}

/// What a successful search means: the needle stands at the found position.
pub proof fn lemma_find_from_some(h: Seq<char>, n: Seq<char>, i: int, p: int)
    requires
        find_from(h, n, i) == Some(p),
    ensures
        i <= p,
        p + n.len() <= h.len(),
        h.subrange(p, p + n.len() as int) == n,
    decreases h.len() - i + 1,
{
    if !(i < 0 || i + n.len() > h.len()) {
        if h.subrange(i, i + n.len() as int) == n {
        } else {
            lemma_find_from_some(h, n, i + 1, p);
        }
    }
}

/// The characters of `h` starting at `i` equal `n`.
fn eq_at(h: &Vec<char>, n: &Vec<char>, i: usize) -> (b: bool)
    requires
        i + n@.len() <= h@.len(),
    ensures
        b == (h@.subrange(i as int, i as int + n@.len() as int) == n@),
{
    let hlen: usize = h.len();
    let mut j: usize = 0;
    while j < n.len()
        invariant
            0 <= j <= n@.len(),
            i + n@.len() <= h@.len(),
            hlen == h@.len(),
            forall|k: int| 0 <= k < j ==> h@[i + k] == n@[k],
        decreases n@.len() - j,
    {
        if h[i + j] != n[j] {
            assert(h@.subrange(i as int, i as int + n@.len() as int)[j as int] != n@[j as int]);
            return false;
        }
        j += 1;
    }
    assert(h@.subrange(i as int, i as int + n@.len() as int) =~= n@);
    true
}

/// Find the first occurrence of `n` in `h` at or after `start`.
pub(crate) fn find_sub(h: &Vec<char>, n: &Vec<char>, start: usize) -> (r: Option<usize>)
    ensures
        match r {
            Some(p) => find_from(h@, n@, start as int) == Some(p as int),
            None => find_from(h@, n@, start as int) is None,
        },
{
    let mut i: usize = start;
    if n.len() > h.len() || start > h.len() - n.len() {
        return None;
    }
    if n.len() == 0 {
        assert(h@.subrange(start as int, start as int) =~= n@);
        return Some(start);
    }
    while i <= h.len() - n.len()
        invariant
            start <= i <= h@.len() - n@.len() + 1,
            1 <= n@.len() <= h@.len(),
            find_from(h@, n@, start as int) == find_from(h@, n@, i as int),
        decreases h@.len() - i,
    {
        if eq_at(h, n, i) {
            return Some(i);
        }
        i += 1;
    }
    None
}

/// The index of the first character at or after `i` that is not white space;
/// the length when there is none.
pub open spec fn first_non_ws(s: Seq<char>, i: int) -> int
    decreases s.len() - i,
{
    if i < 0 || i >= s.len() {
        s.len() as int
    } else if is_unicode_ws(s[i]) {
        first_non_ws(s, i + 1)
    } else {
        i
    }
}

/// One past the index of the last character before `j` that is not white
/// space; `0` when there is none.
pub open spec fn last_non_ws(s: Seq<char>, j: int) -> int
    decreases j,
{
    if j <= 0 || j > s.len() {
        0
    } else if is_unicode_ws(s[j - 1]) {
        last_non_ws(s, j - 1)
    } else {
        j
    }
}

proof fn lemma_first_non_ws_bounds(s: Seq<char>, i: int)
    requires
        0 <= i <= s.len(),
    ensures
        i <= first_non_ws(s, i) <= s.len(),
    decreases s.len() - i,
{
    if i < s.len() && is_unicode_ws(s[i]) {
        lemma_first_non_ws_bounds(s, i + 1);
    }
}

proof fn lemma_last_non_ws_bounds(s: Seq<char>, j: int)
    requires
        0 <= j <= s.len(),
    ensures
        0 <= last_non_ws(s, j) <= j,
    decreases j,
{
    if j > 0 && is_unicode_ws(s[j - 1]) {
        lemma_last_non_ws_bounds(s, j - 1);
    }
}

proof fn lemma_first_non_ws_props(s: Seq<char>, i: int)
    requires
        0 <= i <= s.len(),
    ensures
        forall|k: int| i <= k < first_non_ws(s, i) ==> is_unicode_ws(s[k]),
        first_non_ws(s, i) < s.len() ==> !is_unicode_ws(s[first_non_ws(s, i)]),
    decreases s.len() - i,
{
    lemma_first_non_ws_bounds(s, i);
    if i < s.len() && is_unicode_ws(s[i]) {
        lemma_first_non_ws_props(s, i + 1);
    }
}

proof fn lemma_last_non_ws_props(s: Seq<char>, j: int)
    requires
        0 <= j <= s.len(),
    ensures
        forall|k: int| last_non_ws(s, j) <= k < j ==> is_unicode_ws(s[k]),
        last_non_ws(s, j) > 0 ==> !is_unicode_ws(s[last_non_ws(s, j) - 1]),
    decreases j,
{
    lemma_last_non_ws_bounds(s, j);
    if j > 0 && is_unicode_ws(s[j - 1]) {
        lemma_last_non_ws_props(s, j - 1);
    }
}

/// Trimming leaves nothing exactly when the text is made of white space
/// alone: the vacuous case of a submission.
pub proof fn lemma_trim_empty_iff_all_ws(s: Seq<char>)
    ensures
        spec_trim(s).len() == 0 <==> (forall|k: int| 0 <= k < s.len() ==> is_unicode_ws(s[k])),
{
    lemma_first_non_ws_bounds(s, 0);
    lemma_last_non_ws_bounds(s, s.len() as int);
    lemma_first_non_ws_props(s, 0);
    lemma_last_non_ws_props(s, s.len() as int);
    let a = first_non_ws(s, 0);
    let b = last_non_ws(s, s.len() as int);
    if forall|k: int| 0 <= k < s.len() ==> is_unicode_ws(s[k]) {
        assert(a == s.len());
        assert(b == 0 || !is_unicode_ws(s[b - 1]));
        assert(b == 0);
    } else {
        let k = choose|k: int| 0 <= k < s.len() && !is_unicode_ws(s[k]);
        assert(a <= k);
        assert(b >= k + 1);
    }
}

/// `s` with leading and trailing white space removed, as `str::trim` leaves
/// it.
pub open spec fn spec_trim(s: Seq<char>) -> Seq<char> {
    let a = first_non_ws(s, 0);
    let b = last_non_ws(s, s.len() as int);
    if a <= b {
        s.subrange(a, b)
    } else {
        Seq::empty()
    }
}

/// Remove leading and trailing white space.
pub(crate) fn trim_chars(v: &Vec<char>) -> (t: Vec<char>)
    ensures
        t@ == spec_trim(v@),
{
    let mut a: usize = 0;
    while a < v.len() && char_is_ws(v[a])
        invariant
            0 <= a <= v@.len(),
            first_non_ws(v@, 0) == first_non_ws(v@, a as int),
            forall|k: int| 0 <= k < a ==> is_unicode_ws(v@[k]),
        decreases v@.len() - a,
    {
        a += 1;
    }
    assert(first_non_ws(v@, 0) == a as int);
    assert(a as int == v@.len() || !is_unicode_ws(v@[a as int]));
    let mut b: usize = v.len();
    while b > a && char_is_ws(v[b - 1])
        invariant
            a <= b <= v@.len(),
            a as int == first_non_ws(v@, 0),
            a as int == v@.len() || !is_unicode_ws(v@[a as int]),
            (a as int) < v@.len() ==> b > a,
            last_non_ws(v@, v@.len() as int) == last_non_ws(v@, b as int),
        decreases b,
    {
        b -= 1;
    }
    assert(b > a ==> last_non_ws(v@, v@.len() as int) == b as int);
    if b <= a {
        let empty: Vec<char> = Vec::new();
        proof {
            lemma_last_non_ws_bounds(v@, v@.len() as int);
            assert(a as int == v@.len());
            assert(spec_trim(v@) =~= empty@);
        }
        return empty;
    }
    let mut t: Vec<char> = Vec::new();
    let mut k: usize = a;
    while k < b
        invariant
            a <= k <= b <= v@.len(),
            t@ == v@.subrange(a as int, k as int),
        decreases b - k,
    {
        let c = v[k];
        t.push(c);
        assert(t@ =~= v@.subrange(a as int, k as int + 1));
        k += 1;
    }
    assert(t@ == spec_trim(v@));
    t
}

} // verus!
