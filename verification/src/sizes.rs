use vstd::prelude::*;

use crate::dates::{digit_val, is_digit};
use crate::errors::SortError;

verus! {

/// A non-empty run of ASCII decimal digits.
pub open spec fn all_digits(s: Seq<char>) -> bool {
    s.len() > 0 && forall|i: int| 0 <= i < s.len() ==> is_digit(#[trigger] s[i])
}

/// The decimal value of a digit string.
pub open spec fn dec_value(s: Seq<char>) -> int
    decreases s.len(),
{
    if s.len() == 0 {
        0
    } else {
        dec_value(s.drop_last()) * 10 + digit_val(s.last())
    }
}

/// A size argument that parses: digits only, and a value a `u64` can hold.
pub open spec fn spec_size_valid(s: Seq<char>) -> bool {
    all_digits(s) && dec_value(s) <= u64::MAX
}

proof fn lemma_dec_value_nonneg(s: Seq<char>)
    requires
        forall|i: int| 0 <= i < s.len() ==> is_digit(#[trigger] s[i]),
    ensures
        dec_value(s) >= 0,
    decreases s.len(),
{
    if s.len() > 0 {
        lemma_dec_value_nonneg(s.drop_last());
    }
}

/// A digit string is worth at least any of its prefixes.
proof fn lemma_dec_value_prefix_le(s: Seq<char>, j: int)
    requires
        forall|i: int| 0 <= i < s.len() ==> is_digit(#[trigger] s[i]),
        0 <= j <= s.len(),
    ensures
        dec_value(s.subrange(0, j)) <= dec_value(s),
    decreases s.len(),
{
    if j == s.len() {
        assert(s.subrange(0, j) =~= s);
    } else {
        assert(s.drop_last().subrange(0, j) =~= s.subrange(0, j));
        lemma_dec_value_prefix_le(s.drop_last(), j);
        lemma_dec_value_nonneg(s.drop_last());
    }
}

/// Parse a size argument, a plain decimal count of kilobytes. Anything
/// else, in particular a negative number, is `InvalidSize`.
pub fn parse_size(s: &str) -> (r: Result<u64, SortError>)
    ensures
        (r is Ok) == spec_size_valid(s@),
        r matches Ok(v) ==> v == dec_value(s@),
        r matches Err(e) ==> e == SortError::InvalidSize,
{
    let n: usize = s.unicode_len();
    if n == 0 {
        return Err(SortError::InvalidSize);
    }
    let mut acc: u64 = 0;
    let mut i: usize = 0;
    while i < n
        invariant
            n == s@.len(),
            i <= n,
            forall|k: int| 0 <= k < i ==> is_digit(#[trigger] s@[k]),
            acc == dec_value(s@.subrange(0, i as int)),
        decreases n - i,
    {
        let c: char = s.get_char(i);
        let v: u32 = c as u32;
        if v < 48 || v > 57 {
            return Err(SortError::InvalidSize);
        }
        let d: u64 = (v - 48) as u64;
        proof {
            assert(s@.subrange(0, i + 1).drop_last() =~= s@.subrange(0, i as int));
        }
        if acc > (u64::MAX - d) / 10 {
            proof {
                assert(dec_value(s@.subrange(0, i + 1)) > u64::MAX);
                if spec_size_valid(s@) {
                    lemma_dec_value_prefix_le(s@, i + 1);
                }
            }
            return Err(SortError::InvalidSize);
        }
        acc = acc * 10 + d;
        i = i + 1;
    }
    proof {
        assert(s@.subrange(0, n as int) =~= s@);
    }
    Ok(acc)
}

} // verus!
