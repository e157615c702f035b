//! Character-level searches on strings, with their meaning stated over the
//! character sequence that a string views as.
use vstd::prelude::*;

verus! {

/// `pat` occurs in `s` starting at character index `i`.
pub open spec fn occurs_at(s: Seq<char>, pat: Seq<char>, i: int) -> bool {
    &&& 0 <= i
    &&& i + pat.len() <= s.len()
    &&& s.subrange(i, i + pat.len()) == pat
}

/// `pat` occurs somewhere in `s`.
pub open spec fn contains_seq(s: Seq<char>, pat: Seq<char>) -> bool {
    exists|i: int| occurs_at(s, pat, i)
}

/// `i` is the first index at which `pat` occurs in `s`.
pub open spec fn is_first_occurrence(s: Seq<char>, pat: Seq<char>, i: int) -> bool {
    &&& occurs_at(s, pat, i)
    &&& forall|j: int| 0 <= j < i ==> !occurs_at(s, pat, j)
}

/// `i` is the last index at which the character `c` stands in `s`.
pub open spec fn is_last_index_of(s: Seq<char>, c: char, i: int) -> bool {
    &&& 0 <= i < s.len()
    &&& s[i] == c
    &&& forall|j: int| i < j < s.len() ==> s[j] != c
}

pub open spec fn starts_with(s: Seq<char>, prefix: Seq<char>) -> bool {
    prefix.len() <= s.len() && s.subrange(0, prefix.len() as int) == prefix
}

pub open spec fn ends_with(s: Seq<char>, suffix: Seq<char>) -> bool {
    suffix.len() <= s.len() && s.subrange(s.len() - suffix.len(), s.len() as int) == suffix
}

/// The characters of `s`, in order.
pub fn chars_of(s: &str) -> (v: Vec<char>)
    ensures
        v@ == s@,
{
    let n = s.unicode_len();
    let mut v: Vec<char> = Vec::new();
    let mut i: usize = 0;
    while i < n
        invariant
            n == s@.len(),
            i <= n,
            v@ == s@.subrange(0, i as int),
        decreases n - i,
    {
        v.push(s.get_char(i));
        i = i + 1;
    }
    assert(v@ =~= s@);
    v
}

/// Whether `pat` occurs in `s` at index `i`.
fn matches_at(s: &Vec<char>, pat: &Vec<char>, i: usize) -> (r: bool)
    requires
        i <= s.len(),
    ensures
        r == occurs_at(s@, pat@, i as int),
{
    if pat.len() > s.len() - i {
        return false;
    }
    let mut k: usize = 0;
    while k < pat.len()
        invariant
            i + pat.len() <= s.len(),
            k <= pat.len(),
            forall|m: int| 0 <= m < k ==> s@[i + m] == pat@[m],
        decreases pat.len() - k,
    {
        if s[i + k] != pat[k] {
            assert(s@.subrange(i as int, i + pat@.len())[k as int] != pat@[k as int]);
            return false;
        }
        k = k + 1;
    }
    assert(s@.subrange(i as int, i + pat@.len()) =~= pat@);
    true
}

/// The first character index at which `pat` occurs in `s`.
pub fn find_str(s: &str, pat: &str) -> (r: Option<usize>)
    ensures
        match r {
            Some(i) => is_first_occurrence(s@, pat@, i as int),
            None => !contains_seq(s@, pat@),
        },
{
    let sv = chars_of(s);
    let pv = chars_of(pat);
    if pv.len() > sv.len() {
        return None;
    }
    let last = sv.len() - pv.len();
    let mut i: usize = 0;
    while i < last
        invariant
            sv@ == s@,
            pv@ == pat@,
            last == sv.len() - pv.len(),
            i <= last,
            forall|j: int| 0 <= j < i ==> !occurs_at(s@, pat@, j),
        decreases last - i,
    {
        if matches_at(&sv, &pv, i) {
            return Some(i);
        }
        i = i + 1;
    }
    if matches_at(&sv, &pv, last) {
        return Some(last);
    }
    assert forall|j: int| !occurs_at(s@, pat@, j) by {
        if 0 <= j && j + pat@.len() <= s@.len() {
            assert(j <= last);
        }
    }
    None
}

/// Whether `pat` occurs in `s`.
pub fn contains_str(s: &str, pat: &str) -> (r: bool)
    ensures
        r == contains_seq(s@, pat@),
{
    match find_str(s, pat) {
        Some(i) => {
            assert(occurs_at(s@, pat@, i as int));
            true
        },
        None => false,
    }
}

/// The last character index at which `c` stands in `s`.
pub fn rfind_char(s: &str, c: char) -> (r: Option<usize>)
    ensures
        match r {
            Some(i) => is_last_index_of(s@, c, i as int),
            None => forall|j: int| 0 <= j < s@.len() ==> s@[j] != c,
        },
{
    let sv = chars_of(s);
    let mut i: usize = sv.len();
    while i > 0
        invariant
            sv@ == s@,
            i <= sv.len(),
            forall|j: int| i <= j < s@.len() ==> s@[j] != c,
        decreases i,
    {
        if sv[i - 1] == c {
            return Some(i - 1);
        }
        i = i - 1;
    }
    None
}

/// Whether `s` begins with `prefix`.
pub fn starts_with_str(s: &str, prefix: &str) -> (r: bool)
    ensures
        r == starts_with(s@, prefix@),
{
    let sv = chars_of(s);
    let pv = chars_of(prefix);
    matches_at(&sv, &pv, 0)
}

/// Whether `s` ends with `suffix`.
pub fn ends_with_str(s: &str, suffix: &str) -> (r: bool)
    ensures
        r == ends_with(s@, suffix@),
{
    let sv = chars_of(s);
    let pv = chars_of(suffix);
    if pv.len() > sv.len() {
        return false;
    }
    matches_at(&sv, &pv, sv.len() - pv.len())
}

/// Whether the two strings hold the same characters.
pub fn str_eq(a: &str, b: &str) -> (r: bool)
    ensures
        r == (a@ == b@),
{
    let av = chars_of(a);
    let bv = chars_of(b);
    if av.len() != bv.len() {
        return false;
    }
    let r = matches_at(&av, &bv, 0);
    assert(a@.subrange(0, a@.len() as int) =~= a@);
    r
}

/// A string made of the characters `from..to` of `s`.
pub fn substring(s: &str, from: usize, to: usize) -> (r: String)
    requires
        from <= to <= s@.len(),
    ensures
        r@ == s@.subrange(from as int, to as int),
{
    String::from_str(s.substring_char(from, to))
}

} // verus!
