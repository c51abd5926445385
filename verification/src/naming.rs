use vstd::prelude::*;

use crate::dates::is_digit;
use crate::entry::{ext_of, FileEntry};

verus! {

/// The sorting modes that share one destination folder. The type mode is
/// apart: it makes one folder per extension instead, named by
/// [`unique_extensions`].
#[derive(Clone, Copy, Debug, PartialEq, Eq, Structural)]
pub enum SortMode {
    Date,
    Name,
    Size,
    Multisort,
}

/// The fixed default folder name of each mode.
pub open spec fn spec_default_name(mode: SortMode) -> Seq<char> {
    match mode {
        SortMode::Date => "Sorted_by_Date"@,
        SortMode::Name => "Sorted_by_Name"@,
        SortMode::Size => "Sorted_by_Size"@,
        SortMode::Multisort => "Multisort"@,
    }
}

/// What the destination folder is called: a non-empty user override wins,
/// otherwise the mode's default literal.
pub open spec fn spec_name_for(mode: SortMode, user_override: Option<Seq<char>>) -> Seq<char> {
    match user_override {
        Some(o) => if o.len() > 0 {
            o
        } else {
            spec_default_name(mode)
        },
        None => spec_default_name(mode),
    }
}

/// Compute the destination folder name for one job. The same mode and the
/// same override always give the same name.
pub fn name_for(mode: SortMode, user_override: Option<&String>) -> (r: String)
    ensures
        user_override matches Some(s) ==> r@ == spec_name_for(mode, Some(s@)),
        user_override is None ==> r@ == spec_name_for(mode, None),
{
    match user_override {
        Some(s) => {
            if s.as_str().unicode_len() > 0 {
                return s.clone();
            }
        },
        None => {},
    }
    match mode {
        SortMode::Date => String::from_str("Sorted_by_Date"),
        SortMode::Name => String::from_str("Sorted_by_Name"),
        SortMode::Size => String::from_str("Sorted_by_Size"),
        SortMode::Multisort => String::from_str("Multisort"),
    }
}

/// Naming is stable: one mode and one override determine the folder name;
/// two runs with the same inputs agree.
pub proof fn lemma_naming_idempotent(
    mode: SortMode,
    user_override: Option<Seq<char>>,
    r1: Seq<char>,
    r2: Seq<char>,
)
    requires
        r1 == spec_name_for(mode, user_override),
        r2 == spec_name_for(mode, user_override),
    ensures
        r1 == r2,
{
}

/// The first second the fifteen-character timestamp cannot write: midnight
/// of the year 10000.
pub const STAMP_LIMIT: i64 = 253402300800;

/// The compact UTC text, `YYYYMMDDTHHMMSS`, of a timestamp.
pub uninterp spec fn stamp_text_of(ts: i64) -> Seq<char>;

/// Relies on chrono's `DateTime::from_timestamp`, defined on this whole
/// range, and its `format` with `%Y%m%dT%H%M%S`: a pure rendering of the
/// UTC date and time as four zero-padded digits of the year, then two each
/// for month, day, hour, minute and second around a literal `T`.
#[verifier::external_body]
fn utc_stamp(ts: i64) -> (r: String)
    requires
        0 <= ts < STAMP_LIMIT,
    ensures
        r@ == stamp_text_of(ts),
        r@.len() == 15,
        r@[8] == 'T',
        forall|i: int| 0 <= i < 15 && i != 8 ==> is_digit(r@[i]),
{
    let dt = chrono::DateTime::from_timestamp(ts, 0).unwrap();
    dt.format("%Y%m%dT%H%M%S").to_string()
}

/// Relies on std's `SystemTime::now` and `duration_since`: the system
/// clock's reading in whole seconds since the Unix epoch. A clock standing
/// before the epoch reads as a negative stand-in and one beyond `i64`
/// seconds saturates, so no reading can make this call unwind; nothing can
/// be promised of the value.
#[verifier::external_body]
fn now_epoch_secs() -> (r: i64) {
    match std::time::SystemTime::now().duration_since(std::time::UNIX_EPOCH) {
        Ok(d) => i64::try_from(d.as_secs()).unwrap_or(i64::MAX),
        Err(_) => -1,
    }
}

/// The timestamped naming scheme: `Cabinet-<stamp>-<suffix>`.
pub open spec fn spec_stamped(stamp: Seq<char>, suffix: Seq<char>) -> Seq<char> {
    "Cabinet-"@ + stamp + "-"@ + suffix
}

/// Build the timestamped folder name for a given clock reading; `None`
/// exactly when the reading lies outside the years the fifteen-character
/// stamp can write.
pub fn stamped_folder_name(ts: i64, suffix: &str) -> (r: Option<String>)
    ensures
        (r is Some) == (0 <= ts < STAMP_LIMIT),
        r matches Some(s) ==> {
            &&& s@ == spec_stamped(stamp_text_of(ts), suffix@)
            &&& s@.len() == suffix@.len() + 24
            &&& s@.subrange(0, 8) == "Cabinet-"@
            &&& s@[16] == 'T'
            &&& s@[23] == '-'
            &&& s@.subrange(24, s@.len() as int) == suffix@
            &&& forall|i: int| 8 <= i < 23 && i != 16 ==> is_digit(s@[i])
        },
{
    if ts < 0 || ts >= STAMP_LIMIT {
        return None;
    }
    let stamp = utc_stamp(ts);
    let mut out = String::from_str("Cabinet-");
    out.append(stamp.as_str());
    out.append("-");
    out.append(suffix);
    proof {
        reveal_strlit("Cabinet-");
        reveal_strlit("-");
        assert(out@ =~= spec_stamped(stamp_text_of(ts), suffix@));
        assert(out@.subrange(0, 8) =~= "Cabinet-"@);
        assert(out@.subrange(24, out@.len() as int) =~= suffix@);
    }
    Some(out)
}

/// Name one sorting job's folder under the timestamped scheme, stamped
/// with the clock's present reading; `None` only when the clock stands
/// outside the years the stamp can write.
pub fn set_folder_name(suffix: &str) -> (r: Option<String>)
    ensures
        r matches Some(s) ==> {
            &&& s@.len() == suffix@.len() + 24
            &&& s@.subrange(0, 8) == "Cabinet-"@
            &&& s@[16] == 'T'
            &&& s@[23] == '-'
            &&& s@.subrange(24, s@.len() as int) == suffix@
            &&& forall|i: int| 8 <= i < 23 && i != 16 ==> is_digit(s@[i])
        },
{
    let ts: i64 = now_epoch_secs();
    stamped_folder_name(ts, suffix)
}

/// Two names of the timestamped scheme that share a suffix differ only in
/// the fifteen characters of the stamp: the lead-in and the tail agree.
pub proof fn lemma_stamped_varies_only_in_stamp(
    a: Seq<char>,
    b: Seq<char>,
    suffix: Seq<char>,
    s1: Seq<char>,
    s2: Seq<char>,
)
    requires
        a.len() == 15,
        b.len() == 15,
        s1 == spec_stamped(a, suffix),
        s2 == spec_stamped(b, suffix),
    ensures
        s1.len() == s2.len(),
        s1.subrange(0, 8) == s2.subrange(0, 8),
        s1.subrange(8, 23) == a,
        s2.subrange(8, 23) == b,
        s1.subrange(23, s1.len() as int) == s2.subrange(23, s2.len() as int),
{
    reveal_strlit("Cabinet-");
    reveal_strlit("-");
    assert(s1.subrange(0, 8) =~= s2.subrange(0, 8));
    assert(s1.subrange(8, 23) =~= a);
    assert(s2.subrange(8, 23) =~= b);
    assert(s1.subrange(23, s1.len() as int) =~= s2.subrange(23, s2.len() as int));
}

/// The extensions among the regular files of a snapshot, each once, in
/// order of first appearance: the folder names of the sort-all variant of
/// the type mode.
pub open spec fn spec_unique_exts(s: Seq<FileEntry>) -> Seq<Seq<char>>
    decreases s.len(),
{
    if s.len() == 0 {
        Seq::empty()
    } else {
        let rest = spec_unique_exts(s.drop_last());
        if s.last().is_file {
            match ext_of(s.last().name@) {
                Some(x) => if rest.contains(x) {
                    rest
                } else {
                    rest.push(x)
                },
                None => rest,
            }
        } else {
            rest
        }
    }
}

/// Whether the vector already holds this exact string.
fn contains_string(v: &Vec<String>, x: &String) -> (r: bool)
    ensures
        r == v.deep_view().contains(x@),
{
    let mut i: usize = 0;
    while i < v.len()
        invariant
            i <= v@.len(),
            forall|k: int| 0 <= k < i ==> v.deep_view()[k] != x@,
        decreases v@.len() - i,
    {
        if v[i] == *x {
            proof {
                assert(v.deep_view()[i as int] == x@);
            }
            return true;
        }
        i = i + 1;
    }
    proof {
        assert forall|k: int| 0 <= k < v.deep_view().len() implies v.deep_view()[k] != x@ by {}
    }
    false
}

/// List the extensions of the regular files, each once, in order of first
/// appearance.
pub fn unique_extensions(entries: &Vec<FileEntry>) -> (r: Vec<String>)
    ensures
        r.deep_view() == spec_unique_exts(entries@),
{
    let mut result: Vec<String> = Vec::new();
    let mut i: usize = 0;
    while i < entries.len()
        invariant
            i <= entries@.len(),
            result.deep_view() == spec_unique_exts(entries@.subrange(0, i as int)),
        decreases entries@.len() - i,
    {
        proof {
            assert(entries@.subrange(0, i + 1).drop_last() =~= entries@.subrange(0, i as int));
            assert(entries@.subrange(0, i + 1).last() == entries@[i as int]);
        }
        let e = &entries[i];
        if e.is_file {
            match e.extension() {
                Some(x) => {
                    if !contains_string(&result, &x) {
                        result.push(x);
                        proof {
                            assert(result.deep_view() =~= spec_unique_exts(
                                entries@.subrange(0, i + 1),
                            ));
                        }
                    }
                },
                None => {},
            }
        }
        i = i + 1;
    }
    proof {
        assert(entries@.subrange(0, entries@.len() as int) =~= entries@);
    }
    result
}

} // verus!
