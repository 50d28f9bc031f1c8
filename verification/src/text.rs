//! Character-level text searching used by the log parser and the archive
//! entry classifier: substring search from either end, and ASCII
//! case-insensitive matching.

use vstd::prelude::*;

verus! {

/// The characters of a string, as indexable data.
pub fn str_chars(s: &str) -> (r: Vec<char>)
    ensures
        r@ == s@,
{
    broadcast use vstd::string::axiom_spec_iter;

    let mut r: Vec<char> = Vec::new();
    for c in it: s.chars()
        invariant
            it.seq() == s@,
            r@ == it.seq().take(it.index() as int),
    {
        r.push(c);
    }
    proof {
        assert(r@ =~= s@);
    }
    r
}

/// Character-for-character equality of two texts.
pub fn chars_eq(a: &Vec<char>, b: &Vec<char>) -> (r: bool)
    ensures
        r == (a@ == b@),
{
    if a.len() != b.len() {
        proof {
            if a@ == b@ {
                assert(a@.len() == b@.len());
            }
        }
        return false;
    }
    let mut i: usize = 0;
    while i < a.len()
        invariant
            i <= a@.len(),
            a@.len() == b@.len(),
            forall|k: int| 0 <= k < i ==> a@[k] == b@[k],
        decreases a@.len() - i,
    {
        if a[i] != b[i] {
            proof {
                if a@ == b@ {
                    assert(a@[i as int] == b@[i as int]);
                }
            }
            return false;
        }
        i = i + 1;
    }
    proof {
        assert(a@ =~= b@);
    }
    true
}

/// Whether two strings hold the same characters.
pub fn str_eq(a: &str, b: &str) -> (r: bool)
    ensures
        r == (a@ == b@),
{
    let ca = str_chars(a);
    let cb = str_chars(b);
    chars_eq(&ca, &cb)
}

/// `pat` occurs in `s` starting at position `i`.
pub open spec fn occurs_at(s: Seq<char>, pat: Seq<char>, i: int) -> bool {
    0 <= i && i + pat.len() <= s.len() && s.subrange(i, i + pat.len()) == pat
}

/// A one-character pattern occurs exactly where that character stands.
pub proof fn lemma_occurs_single(s: Seq<char>, c: char, i: int)
    requires
        0 <= i < s.len(),
    ensures
        occurs_at(s, seq![c], i) <==> s[i] == c,
{
    if s[i] == c {
        assert(s.subrange(i, i + 1) =~= seq![c]);
    }
    if occurs_at(s, seq![c], i) {
        assert(s.subrange(i, i + 1)[0] == s[i]);
    }
}

/// The last position at or before `i` where `pat` occurs, if any.
pub open spec fn spec_rfind_from(s: Seq<char>, pat: Seq<char>, i: int) -> Option<int>
    decreases i + 1,
{
    if i < 0 {
        None
    } else if occurs_at(s, pat, i) {
        Some(i)
    } else {
        spec_rfind_from(s, pat, i - 1)
    }
}

/// The last occurrence of `pat` in `s`, if any.
pub open spec fn spec_rfind(s: Seq<char>, pat: Seq<char>) -> Option<int> {
    spec_rfind_from(s, pat, s.len() - pat.len())
}

/// The position of the first occurrence of character `c` at or after `i`,
/// or the length of `s` when there is none.
pub open spec fn spec_find_char_from(s: Seq<char>, c: char, i: int) -> int
    recommends
        0 <= i <= s.len(),
    decreases s.len() - i,
{
    if i < 0 || i >= s.len() {
        s.len() as int
    } else if s[i] == c {
        i
    } else {
        spec_find_char_from(s, c, i + 1)
    }
}

/// Whether `pat` occurs in `s` at position `i` exactly.
pub fn match_at(hay: &Vec<char>, pat: &Vec<char>, i: usize) -> (b: bool)
    requires
        i + pat@.len() <= hay@.len(),
    ensures
        b == occurs_at(hay@, pat@, i as int),
{
    let mut j: usize = 0;
    while j < pat.len()
        invariant
            j <= pat@.len(),
            i + pat@.len() <= hay@.len(),
            forall|k: int| 0 <= k < j ==> hay@[i + k] == pat@[k],
        decreases pat@.len() - j,
    {
        let n = hay.len();
        proof {
            assert(i + j < n);
        }
        if hay[i + j] != pat[j] {
            proof {
                if occurs_at(hay@, pat@, i as int) {
                    assert(hay@.subrange(i as int, i + pat@.len())[j as int] == hay@[i + j]);
                }
            }
            return false;
        }
        j = j + 1;
    }
    proof {
        assert(hay@.subrange(i as int, i + pat@.len()) =~= pat@);
    }
    true
}

/// The last occurrence of `pat` at or before position `from` in `hay`.
pub fn rfind_from(hay: &Vec<char>, pat: &Vec<char>, from: usize) -> (r: Option<usize>)
    requires
        pat@.len() >= 1,
        from + pat@.len() <= hay@.len(),
    ensures
        match r {
            Some(i) => spec_rfind_from(hay@, pat@, from as int) == Some(i as int) && i
                + pat@.len() <= hay@.len(),
            None => spec_rfind_from(hay@, pat@, from as int) is None,
        },
{
    let n = hay.len();
    proof {
        assert(from + 1 <= n);
    }
    let mut i: usize = from + 1;
    while i > 0
        invariant
            i <= from + 1,
            from + pat@.len() <= hay@.len(),
            spec_rfind_from(hay@, pat@, from as int) == spec_rfind_from(
                hay@,
                pat@,
                i as int - 1,
            ),
        decreases i,
    {
        i = i - 1;
        if match_at(hay, pat, i) {
            return Some(i);
        }
    }
    None
}

/// The last occurrence of `pat` in `hay`.
pub fn rfind(hay: &Vec<char>, pat: &Vec<char>) -> (r: Option<usize>)
    requires
        pat@.len() >= 1,
    ensures
        match r {
            Some(i) => spec_rfind(hay@, pat@) == Some(i as int) && i + pat@.len() <= hay@.len(),
            None => spec_rfind(hay@, pat@) is None,
        },
{
    if pat.len() > hay.len() {
        return None;
    }
    rfind_from(hay, pat, hay.len() - pat.len())
}

/// The last occurrence of character `c` strictly before position `p`.
pub fn rfind_char_before(hay: &Vec<char>, c: char, p: usize) -> (r: Option<usize>)
    requires
        p <= hay@.len(),
    ensures
        match r {
            Some(i) => spec_rfind_from(hay@, seq![c], p - 1) == Some(i as int) && i < p,
            None => spec_rfind_from(hay@, seq![c], p - 1) is None,
        },
{
    let mut i: usize = p;
    while i > 0
        invariant
            i <= p,
            p <= hay@.len(),
            spec_rfind_from(hay@, seq![c], p - 1) == spec_rfind_from(hay@, seq![c], i as int - 1),
        decreases i,
    {
        i = i - 1;
        proof {
            lemma_occurs_single(hay@, c, i as int);
        }
        if hay[i] == c {
            return Some(i);
        }
    }
    None
}

/// The first occurrence of character `c` at or after position `p`, or the
/// text's length when there is none.
pub fn find_char_from(hay: &Vec<char>, c: char, p: usize) -> (r: usize)
    requires
        p <= hay@.len(),
    ensures
        r == spec_find_char_from(hay@, c, p as int),
        p <= r <= hay@.len(),
{
    let mut i: usize = p;
    while i < hay.len()
        invariant
            p <= i <= hay@.len(),
            spec_find_char_from(hay@, c, p as int) == spec_find_char_from(hay@, c, i as int),
        decreases hay@.len() - i,
    {
        if hay[i] == c {
            return i;
        }
        i = i + 1;
    }
    i
}

/// ASCII lowercasing: the 26 uppercase letters map to their lowercase
/// counterparts, every other character stays as it is.
pub open spec fn lower_char(c: char) -> char {
    if 'A' <= c && c <= 'Z' {
        ((c as u8) + 32) as char
    } else {
        c
    }
}

/// ASCII-lowercase a character.
pub fn lower_char_exec(c: char) -> (r: char)
    ensures
        r == lower_char(c),
{
    if 'A' <= c && c <= 'Z' {
        (((c as u8) + 32) as char)
    } else {
        c
    }
}

/// `pat` occurs at position `i` of `s`, compared ASCII case-insensitively.
pub open spec fn occurs_ci_at(s: Seq<char>, pat: Seq<char>, i: int) -> bool {
    0 <= i && i + pat.len() <= s.len() && (forall|j: int|
        0 <= j < pat.len() ==> lower_char(s[i + j]) == lower_char(pat[j]))
}

/// `s` contains `pat` somewhere, compared ASCII case-insensitively.
pub open spec fn spec_contains_ci(s: Seq<char>, pat: Seq<char>) -> bool {
    exists|i: int| occurs_ci_at(s, pat, i)
}

fn match_ci_at(hay: &Vec<char>, lo: usize, pat: &Vec<char>, i: usize) -> (b: bool)
    requires
        lo + i + pat@.len() <= hay@.len(),
    ensures
        b == occurs_ci_at(hay@.skip(lo as int), pat@, i as int),
{
    let mut j: usize = 0;
    while j < pat.len()
        invariant
            j <= pat@.len(),
            lo + i + pat@.len() <= hay@.len(),
            forall|k: int|
                0 <= k < j ==> lower_char(hay@.skip(lo as int)[i + k]) == lower_char(pat@[k]),
        decreases pat@.len() - j,
    {
        let n = hay.len();
        proof {
            assert(lo + i + j < n);
        }
        if lower_char_exec(hay[lo + i + j]) != lower_char_exec(pat[j]) {
            proof {
                assert(hay@.skip(lo as int)[i + j] == hay@[lo + i + j]);
            }
            return false;
        }
        proof {
            assert(hay@.skip(lo as int)[i + j] == hay@[lo + i + j]);
        }
        j = j + 1;
    }
    true
}

/// Whether the window `[lo, hi)` of `hay` contains `pat`, compared ASCII
/// case-insensitively.
pub fn contains_ci(hay: &Vec<char>, lo: usize, hi: usize, pat: &Vec<char>) -> (b: bool)
    requires
        lo <= hi <= hay@.len(),
    ensures
        b == spec_contains_ci(hay@.subrange(lo as int, hi as int), pat@),
{
    let ghost window: Seq<char> = hay@.subrange(lo as int, hi as int);
    if pat.len() > hi - lo {
        proof {
            assert forall|i: int| !occurs_ci_at(window, pat@, i) by {}
        }
        return false;
    }
    let last: usize = hi - lo - pat.len();
    let mut i: usize = 0;
    while i <= last
        invariant
            i <= last + 1,
            lo <= hi <= hay@.len(),
            pat@.len() <= hi - lo,
            last == hi - lo - pat@.len(),
            window == hay@.subrange(lo as int, hi as int),
            forall|k: int| 0 <= k < i ==> !occurs_ci_at(window, pat@, k),
        decreases last + 1 - i,
    {
        proof {
            assert forall|j: int| 0 <= j < window.len() implies window[j] == hay@.skip(lo as int)[j]
            by {}
        }
        if match_ci_at(hay, lo, pat, i) {
            proof {
                assert forall|j: int|
                    0 <= j < pat@.len() implies lower_char(window[i + j]) == lower_char(pat@[j]) by {
                    assert(window[i + j] == hay@.skip(lo as int)[i + j]);
                }
                assert(occurs_ci_at(window, pat@, i as int));
            }
            return true;
        }
        proof {
            if occurs_ci_at(window, pat@, i as int) {
                assert forall|j: int|
                    0 <= j < pat@.len() implies lower_char(hay@.skip(lo as int)[i + j])
                    == lower_char(pat@[j]) by {
                    assert(hay@.skip(lo as int)[i + j] == window[i + j]);
                }
            }
        }
        i = i + 1;
    }
    proof {
        assert forall|k: int| !occurs_ci_at(window, pat@, k) by {
            if 0 <= k <= last {
            } else if k > last {
                assert(k + pat@.len() > window.len());
            }
        }
    }
    false
}

/// `s` ends with `suffix`.
pub open spec fn spec_ends_with(s: Seq<char>, suffix: Seq<char>) -> bool {
    suffix.len() <= s.len() && s.subrange(s.len() - suffix.len(), s.len() as int) == suffix
}

/// Whether the text ends with the given suffix.
pub fn ends_with(s: &Vec<char>, suffix: &Vec<char>) -> (b: bool)
    ensures
        b == spec_ends_with(s@, suffix@),
{
    if suffix.len() > s.len() {
        return false;
    }
    let start = s.len() - suffix.len();
    let b = match_at(s, suffix, start);
    proof {
        assert(occurs_at(s@, suffix@, start as int) == spec_ends_with(s@, suffix@));
    }
    b
}

} // verus!
