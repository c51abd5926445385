use vstd::prelude::*;

verus! {

/// The pattern occurs in the haystack starting at position `i`.
pub open spec fn contains_at(hay: Seq<char>, pat: Seq<char>, i: int) -> bool {
    &&& 0 <= i
    &&& i + pat.len() <= hay.len()
    &&& hay.subrange(i, i + pat.len() as int) == pat
}

/// Plain substring containment: the pattern occurs somewhere in the
/// haystack. The empty pattern is contained in every string.
pub open spec fn spec_contains(hay: Seq<char>, pat: Seq<char>) -> bool {
    exists|i: int| contains_at(hay, pat, i)
}

/// Whether the characters of `hay` starting at `i` spell out `pat`.
fn match_at(hay: &str, pat: &str, i: usize, n: usize, m: usize) -> (r: bool)
    requires
        n == hay@.len(),
        m == pat@.len(),
        i + m <= n,
    ensures
        r == contains_at(hay@, pat@, i as int),
{
    let mut j: usize = 0;
    while j < m
        invariant
            n == hay@.len(),
            m == pat@.len(),
            i + m <= n,
            j <= m,
            forall|k: int| 0 <= k < j ==> hay@[i + k] == pat@[k],
        decreases m - j,
    {
        if hay.get_char(i + j) != pat.get_char(j) {
            proof {
                assert(hay@.subrange(i as int, i + m)[j as int] == hay@[i + j]);
            }
            return false;
        }
        j = j + 1;
    }
    proof {
        assert(hay@.subrange(i as int, i + m) =~= pat@);
    }
    true
}

/// Substring search, the test behind the name filter's `includes` and
/// `excludes` patterns when no regex is asked for.
pub fn contains_sub(hay: &str, pat: &str) -> (r: bool)
    ensures
        r == spec_contains(hay@, pat@),
{
    let n: usize = hay.unicode_len();
    let m: usize = pat.unicode_len();
    if m == 0 {
        proof {
            assert(hay@.subrange(0, 0) =~= pat@);
            assert(contains_at(hay@, pat@, 0));
        }
        return true;
    }
    if m > n {
        proof {
            assert(forall|i: int| !contains_at(hay@, pat@, i));
        }
        return false;
    }
    let count: usize = n - m + 1;
    let mut i: usize = 0;
    while i < count
        invariant
            1 <= m <= n,
            count == n - m + 1,
            n == hay@.len(),
            m == pat@.len(),
            i <= count,
            forall|k: int| 0 <= k < i ==> !contains_at(hay@, pat@, k),
        decreases count - i,
    {
        if match_at(hay, pat, i, n, m) {
            return true;
        }
        i = i + 1;
    }
    proof {
        assert forall|k: int| !contains_at(hay@, pat@, k) by {
            if 0 <= k < i {
            }
        }
    }
    false
}

/// ASCII case folding on a character's code: the upper-case letters fold to
/// their lower-case forms, everything else stays itself.
pub open spec fn lower_code(u: int) -> int {
    if 65 <= u <= 90 {
        u + 32
    } else {
        u
    }
}

/// Equality of two strings up to ASCII case.
pub open spec fn eq_icase(s: Seq<char>, t: Seq<char>) -> bool {
    &&& s.len() == t.len()
    &&& forall|i: int|
        0 <= i < s.len() ==> lower_code(#[trigger] (s[i]) as u32 as int) == lower_code(t[i] as u32 as int)
}

/// Compare two strings, treating ASCII upper- and lower-case letters as
/// equal.
pub fn eq_ignore_case(s: &str, t: &str) -> (r: bool)
    ensures
        r == eq_icase(s@, t@),
{
    let n: usize = s.unicode_len();
    if n != t.unicode_len() {
        return false;
    }
    let mut i: usize = 0;
    while i < n
        invariant
            n == s@.len(),
            n == t@.len(),
            i <= n,
            forall|k: int|
                0 <= k < i ==> lower_code(#[trigger] (s@[k]) as u32 as int) == lower_code(t@[k] as u32 as int),
        decreases n - i,
    {
        let a: u32 = s.get_char(i) as u32;
        let b: u32 = t.get_char(i) as u32;
        let la: u32 = if 65 <= a && a <= 90 {
            a + 32
        } else {
            a
        };
        let lb: u32 = if 65 <= b && b <= 90 {
            b + 32
        } else {
            b
        };
        if la != lb {
            return false;
        }
        i = i + 1;
    }
    true
}

/// Whether the regex crate accepts this pattern; its `Regex::new` succeeds
/// or fails on the pattern alone.
pub uninterp spec fn regex_ok(pat: Seq<char>) -> bool;

/// What the regex crate's `Regex::is_match` answers for this pattern and
/// text; the answer depends on the two strings alone.
pub uninterp spec fn regex_match_of(pat: Seq<char>, text: Seq<char>) -> bool;

/// Relies on regex's `Regex::new`, which succeeds exactly when the pattern
/// is a valid regex, and `Regex::is_match`, which tells whether the text
/// holds a match of the pattern; both answers are functions of their string
/// arguments alone.
#[verifier::external_body]
pub(crate) fn regex_is_match(pat: &str, text: &str) -> (r: Option<bool>)
    ensures
        (r is Some) == regex_ok(pat@),
        r matches Some(b) ==> b == regex_match_of(pat@, text@),
{
    match regex::Regex::new(pat) {
        Ok(re) => Some(re.is_match(text)),
        Err(_) => None,
    }
}

/// What a name-filter pattern means: a plain substring test, or, when the
/// regex flag is set, a match of the pattern as a regex. A pattern that is
/// not a valid regex matches no name at all.
pub open spec fn spec_pattern_matches(use_regex: bool, pat: Seq<char>, name: Seq<char>) -> bool {
    if use_regex {
        regex_ok(pat) && regex_match_of(pat, name)
    } else {
        spec_contains(name, pat)
    }
}

pub fn pattern_matches(use_regex: bool, pat: &str, name: &str) -> (r: bool)
    ensures
        r == spec_pattern_matches(use_regex, pat@, name@),
{
    if use_regex {
        match regex_is_match(pat, name) {
            Some(b) => b,
            None => false,
        }
    } else {
        contains_sub(name, pat)
    }
}

} // verus!
