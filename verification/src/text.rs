//! Character-level helpers. Every contract of the crate speaks of strings
//! through their view, a `Seq<char>`; the functions here work on `Vec<char>`
//! and convert at the edges.

use vstd::prelude::*;

verus! {

/// `pat` occurs in `s` at position `at`.
pub open spec fn has_at(s: Seq<char>, at: int, pat: Seq<char>) -> bool {
    0 <= at && at + pat.len() <= s.len() && s.subrange(at, at + pat.len()) == pat
}

/// `s` begins with `pat`.
pub open spec fn starts_with(s: Seq<char>, pat: Seq<char>) -> bool {
    has_at(s, 0, pat)
}

/// `s` ends with `pat`.
pub open spec fn ends_with(s: Seq<char>, pat: Seq<char>) -> bool {
    pat.len() <= s.len() && has_at(s, s.len() - pat.len(), pat)
}

/// Position of the first space of `s`, or `s.len()` where it has none.
pub open spec fn first_space(s: Seq<char>) -> int
    decreases s.len(),
{
    if s.len() == 0 || s[0] == ' ' {
        0
    } else {
        1 + first_space(s.skip(1))
    }
}

/// `s` holds a space.
pub open spec fn has_space(s: Seq<char>) -> bool {
    first_space(s) < s.len()
}

/// What stands before the first space of `s` (all of `s` where it has none).
pub open spec fn head_word(s: Seq<char>) -> Seq<char> {
    s.subrange(0, first_space(s))
}

/// What stands behind the first space of `s` (nothing where it has none).
pub open spec fn after_word(s: Seq<char>) -> Seq<char> {
    if has_space(s) {
        s.skip(first_space(s) + 1)
    } else {
        Seq::empty()
    }
}

/// The smaller of two lengths.
pub open spec fn min_int(a: int, b: int) -> int {
    if a <= b {
        a
    } else {
        b
    }
}

/// `first_space` is in range, no space stands before it, and one stands at
/// it unless it is the length.
pub proof fn lemma_first_space(s: Seq<char>)
    ensures
        0 <= first_space(s) <= s.len(),
        forall|i: int| 0 <= i < first_space(s) ==> s[i] != ' ',
        first_space(s) < s.len() ==> s[first_space(s)] == ' ',
    decreases s.len(),
{
    if s.len() == 0 || s[0] == ' ' {
    } else {
        lemma_first_space(s.skip(1));
        assert forall|i: int| 0 <= i < first_space(s) implies s[i] != ' ' by {
            if i > 0 {
                assert(s.skip(1)[i - 1] == s[i]);
            }
        }
        assert(first_space(s) < s.len() ==> s.skip(1)[first_space(s) - 1] == s[first_space(s)]);
    }
}

/// A position with the three properties of `lemma_first_space` is
/// `first_space`.
pub proof fn lemma_first_space_unique(s: Seq<char>, k: int)
    requires
        0 <= k <= s.len(),
        forall|i: int| 0 <= i < k ==> s[i] != ' ',
        k < s.len() ==> s[k] == ' ',
    ensures
        first_space(s) == k,
    decreases s.len(),
{
    if s.len() == 0 || s[0] == ' ' {
    } else {
        assert(k > 0);
        assert forall|i: int| 0 <= i < k - 1 implies s.skip(1)[i] != ' ' by {
            assert(s.skip(1)[i] == s[i + 1]);
        }
        lemma_first_space_unique(s.skip(1), k - 1);
    }
}

/// The texts of a list of strings, in order.
pub open spec fn strings_view(v: Seq<String>) -> Seq<Seq<char>> {
    v.map_values(|s: String| s@)
}

/// `String::push`: the string grows by the one character at its end.
#[verifier::external_body]
fn push_char(s: &mut String, c: char)
    ensures
        final(s)@ == old(s)@.push(c),
{
    s.push(c)
}

/// The characters of `s`.
pub fn to_chars(s: &str) -> (v: Vec<char>)
    ensures
        v@ == s@,
{
    let mut v: Vec<char> = Vec::new();
    for c in it: s.chars()
        invariant
            v@ == it.seq().subrange(0, it.index() as int),
            it.seq() == s@,
    {
        v.push(c);
        assert(v@ =~= it.seq().subrange(0, it.index() + 1 as int));
    }
    assert(s@.subrange(0, s@.len() as int) =~= s@);
    v
}

/// The string made of the characters `v[from..to]`.
pub fn from_chars_range(v: &Vec<char>, from: usize, to: usize) -> (s: String)
    requires
        from <= to <= v.len(),
    ensures
        s@ == v@.subrange(from as int, to as int),
{
    let mut s = String::new();
    let mut i: usize = from;
    while i < to
        invariant
            from <= i <= to <= v.len(),
            s@ == v@.subrange(from as int, i as int),
        decreases to - i,
    {
        push_char(&mut s, v[i]);
        i = i + 1;
        assert(s@ =~= v@.subrange(from as int, i as int));
    }
    s
}

/// The string made of the characters of `v`.
pub fn from_chars(v: &Vec<char>) -> (s: String)
    ensures
        s@ == v@,
{
    assert(v@.subrange(0, v.len() as int) =~= v@);
    from_chars_range(v, 0, v.len())
}

/// A copy of `v[from..to]`.
pub fn slice(v: &Vec<char>, from: usize, to: usize) -> (r: Vec<char>)
    requires
        from <= to <= v.len(),
    ensures
        r@ == v@.subrange(from as int, to as int),
{
    let mut r: Vec<char> = Vec::new();
    let mut i: usize = from;
    while i < to
        invariant
            from <= i <= to <= v.len(),
            r@ == v@.subrange(from as int, i as int),
        decreases to - i,
    {
        r.push(v[i]);
        i = i + 1;
        assert(r@ =~= v@.subrange(from as int, i as int));
    }
    r
}

/// Appends `src` to `dst`.
pub fn append(dst: &mut Vec<char>, src: &Vec<char>)
    ensures
        final(dst)@ == old(dst)@ + src@,
{
    let mut i: usize = 0;
    while i < src.len()
        invariant
            i <= src.len(),
            dst@ == old(dst)@ + src@.subrange(0, i as int),
        decreases src.len() - i,
    {
        dst.push(src[i]);
        i = i + 1;
        assert(dst@ =~= old(dst)@ + src@.subrange(0, i as int));
    }
    assert(src@.subrange(0, src.len() as int) =~= src@);
}

/// Whether two character vectors hold the same text.
pub fn same(a: &Vec<char>, b: &Vec<char>) -> (r: bool)
    ensures
        r == (a@ == b@),
{
    if a.len() != b.len() {
        return false;
    }
    let mut i: usize = 0;
    while i < a.len()
        invariant
            i <= a.len(),
            a.len() == b.len(),
            a@.subrange(0, i as int) == b@.subrange(0, i as int),
        decreases a.len() - i,
    {
        if a[i] != b[i] {
            return false;
        }
        i = i + 1;
        assert(a@.subrange(0, i as int) =~= a@.subrange(0, i - 1).push(a@[i - 1]));
        assert(b@.subrange(0, i as int) =~= b@.subrange(0, i - 1).push(b@[i - 1]));
    }
    assert(a@.subrange(0, a.len() as int) =~= a@);
    assert(b@.subrange(0, b.len() as int) =~= b@);
    true
}

/// Whether `pat` occurs in `v` at position `at`.
pub fn occurs_at(v: &Vec<char>, at: usize, pat: &Vec<char>) -> (r: bool)
    ensures
        r == has_at(v@, at as int, pat@),
{
    if at > v.len() || pat.len() > v.len() - at {
        return false;
    }
    let mut i: usize = 0;
    while i < pat.len()
        invariant
            i <= pat.len(),
            at + pat.len() <= v.len(),
            v@.subrange(at as int, at + i) == pat@.subrange(0, i as int),
        decreases pat.len() - i,
    {
        if v[at + i] != pat[i] {
            assert(v@.subrange(at as int, at + pat.len())[i as int] != pat@[i as int]);
            return false;
        }
        i = i + 1;
        assert(v@.subrange(at as int, at + i) =~= v@.subrange(at as int, at + i - 1).push(
            v@[at + i - 1],
        ));
        assert(pat@.subrange(0, i as int) =~= pat@.subrange(0, i - 1).push(pat@[i - 1]));
    }
    assert(pat@.subrange(0, pat.len() as int) =~= pat@);
    true
}

/// Position of the first space of `v` at or behind `from`, or `v.len()`.
pub fn find_space(v: &Vec<char>, from: usize) -> (r: usize)
    requires
        from <= v.len(),
    ensures
        from <= r <= v.len(),
        r == from + first_space(v@.skip(from as int)),
{
    let mut i: usize = from;
    while i < v.len() && v[i] != ' '
        invariant
            from <= i <= v.len(),
            forall|j: int| from <= j < i ==> v@[j] != ' ',
        decreases v.len() - i,
    {
        i = i + 1;
    }
    proof {
        lemma_first_space_unique(v@.skip(from as int), i - from);
    }
    i
}

/// Whether `v` ends with `pat`.
pub fn ends_with_chars(v: &Vec<char>, pat: &Vec<char>) -> (r: bool)
    ensures
        r == ends_with(v@, pat@),
{
    if pat.len() > v.len() {
        false
    } else {
        occurs_at(v, v.len() - pat.len(), pat)
    }
}

/// Splits `v` at its first space: the word before it, and what follows it
/// if there is a space.
pub fn split_word(v: &Vec<char>) -> (r: (Vec<char>, Option<Vec<char>>))
    ensures
        r.0@ == head_word(v@),
        r.1 is Some == has_space(v@),
        r.1 is Some ==> r.1->0@ == after_word(v@),
{
    assert(v@.skip(0) =~= v@);
    let at = find_space(v, 0);
    let head = slice(v, 0, at);
    if at < v.len() {
        let rest = slice(v, at + 1, v.len());
        assert(v@.subrange(at + 1, v.len() as int) =~= v@.skip(at + 1));
        (head, Some(rest))
    } else {
        (head, None)
    }
}

} // verus!
