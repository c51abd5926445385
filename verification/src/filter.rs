use vstd::prelude::*;

use crate::criteria::{matches_entry, FilterCriteria};
use crate::entry::FileEntry;

verus! {

/// The subsequence of `s` that passes the filter, in the original
/// directory-listing order.
pub open spec fn spec_filtered(c: FilterCriteria, s: Seq<FileEntry>) -> Seq<FileEntry>
    decreases s.len(),
{
    if s.len() == 0 {
        Seq::empty()
    } else {
        let rest = spec_filtered(c, s.drop_last());
        if c.spec_matches(s.last()) {
            rest.push(s.last())
        } else {
            rest
        }
    }
}

/// Narrow a directory snapshot to the entries that pass every switched-on
/// predicate, keeping the listing order. One narrowing pass decides all the
/// active attributes at once, so a window that no file can satisfy simply
/// yields zero matches.
pub fn filter_entries(entries: Vec<FileEntry>, c: &FilterCriteria) -> (r: Vec<FileEntry>)
    ensures
        r@ == spec_filtered(*c, entries@),
{
    let ghost s = entries@;
    let mut rest = entries;
    let mut result: Vec<FileEntry> = Vec::new();
    while rest.len() > 0
        invariant
            rest@.len() <= s.len(),
            rest@ == s.subrange(s.len() - rest@.len(), s.len() as int),
            result@ == spec_filtered(*c, s.subrange(0, s.len() - rest@.len())),
        decreases rest@.len(),
    {
        let ghost done = s.len() - rest@.len();
        let e = rest.remove(0);
        proof {
            assert(e == s[done]);
            assert(rest@ =~= s.subrange(s.len() - rest@.len(), s.len() as int));
            assert(s.subrange(0, done + 1).drop_last() =~= s.subrange(0, done));
            assert(s.subrange(0, done + 1).last() == s[done]);
        }
        if matches_entry(c, &e) {
            result.push(e);
        }
    }
    proof {
        assert(s.subrange(0, s.len() as int) =~= s);
    }
    result
}

/// Soundness of the filter: every entry it keeps comes from the input, is a
/// regular file, and independently satisfies every switched-on predicate of
/// the criteria; no kept entry violates any of them.
pub proof fn lemma_filter_sound(c: FilterCriteria, s: Seq<FileEntry>)
    ensures
        forall|i: int|
            0 <= i < spec_filtered(c, s).len() ==> c.spec_matches(
                #[trigger] spec_filtered(c, s)[i],
            ) && spec_filtered(c, s)[i].is_file,
        forall|i: int|
            0 <= i < spec_filtered(c, s).len() ==> s.contains(#[trigger] spec_filtered(c, s)[i]),
    decreases s.len(),
{
    if s.len() > 0 {
        lemma_filter_sound(c, s.drop_last());
        let f = spec_filtered(c, s);
        let fd = spec_filtered(c, s.drop_last());
        assert forall|i: int| 0 <= i < f.len() implies s.contains(#[trigger] f[i]) by {
            if i < fd.len() {
                let j = choose|j: int| 0 <= j < s.drop_last().len() && s.drop_last()[j] == fd[i];
                assert(s[j] == f[i]);
            } else {
                assert(f[i] == s.last());
                assert(s[s.len() - 1] == f[i]);
            }
        }
    }
}

/// An entry that fails any switched-on predicate is never among the
/// matches, whatever else the snapshot holds: a run moves only matching
/// files, so such a file stays in its original place.
pub proof fn lemma_nonmatching_never_selected(c: FilterCriteria, s: Seq<FileEntry>, e: FileEntry)
    requires
        !c.spec_matches(e),
    ensures
        !spec_filtered(c, s).contains(e),
    decreases s.len(),
{
    if s.len() > 0 {
        lemma_nonmatching_never_selected(c, s.drop_last(), e);
        let f = spec_filtered(c, s);
        let fd = spec_filtered(c, s.drop_last());
        if f.contains(e) {
            let j = choose|j: int| 0 <= j < f.len() && f[j] == e;
            if c.spec_matches(s.last()) {
                if j < fd.len() {
                    assert(fd[j] == e);
                } else {
                    assert(e == s.last());
                }
            } else {
                assert(fd[j] == e);
            }
        }
    }
}

/// The criteria narrowed to the name dimension alone.
pub open spec fn only_name(c: FilterCriteria) -> FilterCriteria {
    FilterCriteria {
        date_before: None,
        date_after: None,
        name_include: c.name_include,
        name_exclude: c.name_exclude,
        use_regex: c.use_regex,
        size_min_kb: None,
        size_max_kb: None,
        extension: None,
    }
}

/// The name and date dimensions together.
pub open spec fn name_date(c: FilterCriteria) -> FilterCriteria {
    FilterCriteria { date_before: c.date_before, date_after: c.date_after, ..only_name(c) }
}

/// The criteria narrowed to the date dimension alone.
pub open spec fn only_date(c: FilterCriteria) -> FilterCriteria {
    FilterCriteria { name_include: None, name_exclude: None, ..name_date(c) }
}

/// The name, date and size dimensions together.
pub open spec fn name_date_size(c: FilterCriteria) -> FilterCriteria {
    FilterCriteria { size_min_kb: c.size_min_kb, size_max_kb: c.size_max_kb, ..name_date(c) }
}

/// The criteria narrowed to the size dimension alone.
pub open spec fn only_size(c: FilterCriteria) -> FilterCriteria {
    FilterCriteria {
        date_before: None,
        date_after: None,
        name_include: None,
        name_exclude: None,
        ..name_date_size(c)
    }
}

/// The criteria narrowed to the extension dimension alone.
pub open spec fn only_ext(c: FilterCriteria) -> FilterCriteria {
    FilterCriteria {
        name_include: None,
        name_exclude: None,
        size_min_kb: None,
        size_max_kb: None,
        date_before: None,
        date_after: None,
        ..c
    }
}

/// Two narrowing passes fuse into one filter that asks for both at once.
proof fn lemma_filter_fusion(
    c1: FilterCriteria,
    c2: FilterCriteria,
    c3: FilterCriteria,
    s: Seq<FileEntry>,
)
    requires
        forall|e: FileEntry| #[trigger]
            c3.spec_matches(e) == (c1.spec_matches(e) && c2.spec_matches(e)),
    ensures
        spec_filtered(c2, spec_filtered(c1, s)) == spec_filtered(c3, s),
    decreases s.len(),
{
    if s.len() > 0 {
        lemma_filter_fusion(c1, c2, c3, s.drop_last());
        let x = s.last();
        let f1 = spec_filtered(c1, s.drop_last());
        if c1.spec_matches(x) {
            assert(f1.push(x).drop_last() =~= f1);
            assert(f1.push(x).last() == x);
        }
    }
}

/// The multisort combination rule: narrowing the candidates one attribute
/// dimension at a time, in the name, date, size, extension order, ends at
/// exactly the entries that satisfy every active dimension at once. A pass
/// that leaves no candidate leaves the whole pipeline with zero matches.
pub proof fn lemma_passes_narrow_to_and(c: FilterCriteria, s: Seq<FileEntry>)
    ensures
        spec_filtered(
            only_ext(c),
            spec_filtered(only_size(c), spec_filtered(only_date(c), spec_filtered(only_name(c), s))),
        ) == spec_filtered(c, s),
{
    lemma_filter_fusion(only_name(c), only_date(c), name_date(c), s);
    lemma_filter_fusion(name_date(c), only_size(c), name_date_size(c), s);
    lemma_filter_fusion(name_date_size(c), only_ext(c), c, s);
}

/// The size boundary: with `min` and `max` both set to the same value, the
/// size window holds exactly the entries whose truncated kilobyte size is
/// that value.
pub proof fn lemma_size_boundary(c: FilterCriteria, e: FileEntry, x: u64)
    requires
        c.size_min_kb == Some(x),
        c.size_max_kb == Some(x),
    ensures
        c.size_ok(e) <==> e.spec_size_kb() == x,
{
}

/// An impossible size window, `min` above `max`, keeps nothing at all: the
/// filter reports zero matches rather than an error.
pub proof fn lemma_empty_size_window(c: FilterCriteria, s: Seq<FileEntry>)
    requires
        c.size_min_kb matches Some(mn) && c.size_max_kb matches Some(mx) && mn > mx,
    ensures
        spec_filtered(c, s) == Seq::<FileEntry>::empty(),
    decreases s.len(),
{
    if s.len() > 0 {
        lemma_empty_size_window(c, s.drop_last());
    }
}

} // verus!
