use vstd::prelude::*;

verus! {

/// A snapshot of one directory entry, taken once per run: everything the
/// filters read of a file. `modified_secs` is the modification time in whole
/// seconds since the Unix epoch, `size_bytes` the length in bytes, and
/// `is_file` whether the entry is a regular file; directories are never
/// candidates for sorting.
#[derive(Debug)]
pub struct FileEntry {
    pub name: String,
    pub size_bytes: u64,
    pub modified_secs: i64,
    pub is_file: bool,
}

/// The extension of a file name: the characters after the last `.`, or
/// `None` when the name holds no `.` at all. A name that ends in `.` has the
/// empty extension.
pub open spec fn ext_of(name: Seq<char>) -> Option<Seq<char>>
    decreases name.len(),
{
    if name.len() == 0 {
        None
    } else if name.last() == '.' {
        Some(Seq::empty())
    } else {
        match ext_of(name.drop_last()) {
            Some(e) => Some(e.push(name.last())),
            None => None,
        }
    }
}

/// When position `j` holds the last `.` of the name, the extension is
/// exactly what follows it.
proof fn lemma_ext_of_after_last_dot(name: Seq<char>, j: int)
    requires
        0 <= j < name.len(),
        name[j] == '.',
        forall|k: int| j < k < name.len() ==> name[k] != '.',
    ensures
        ext_of(name) == Some(name.subrange(j + 1, name.len() as int)),
    decreases name.len(),
{
    if j == name.len() - 1 {
        assert(name.subrange(j + 1, name.len() as int) =~= Seq::<char>::empty());
    } else {
        assert(name.drop_last()[j] == '.');
        lemma_ext_of_after_last_dot(name.drop_last(), j);
        assert(name.drop_last().subrange(j + 1, name.len() - 1).push(name.last()) =~= name
            .subrange(j + 1, name.len() as int));
    }
}

/// A name without any `.` has no extension.
proof fn lemma_ext_of_no_dot(name: Seq<char>)
    requires
        forall|k: int| 0 <= k < name.len() ==> name[k] != '.',
    ensures
        ext_of(name) is None,
    decreases name.len(),
{
    if name.len() > 0 {
        lemma_ext_of_no_dot(name.drop_last());
    }
}

impl FileEntry {
    /// Size in whole kilobytes: bytes divided by 1000, truncated.
    pub open spec fn spec_size_kb(&self) -> int {
        self.size_bytes as int / 1000
    }

    pub fn size_kb(&self) -> (r: u64)
        ensures
            r == self.spec_size_kb(),
    {
        self.size_bytes / 1000
    }

    pub open spec fn spec_extension(&self) -> Option<Seq<char>> {
        ext_of(self.name@)
    }

    /// The extension of this entry's name, or `None` for an extensionless
    /// name.
    pub fn extension(&self) -> (r: Option<String>)
        ensures
            match r {
                Some(e) => self.spec_extension() == Some(e@),
                None => self.spec_extension() is None,
            },
    {
        let s: &str = self.name.as_str();
        let n: usize = s.unicode_len();
        let mut i: usize = n;
        while i > 0
            invariant
                i <= n,
                n == s@.len(),
                s@ == self.name@,
                forall|k: int| i <= k < n ==> s@[k] != '.',
            decreases i,
        {
            i = i - 1;
            if s.get_char(i) == '.' {
                let e: &str = s.substring_char(i + 1, n);
                proof {
                    lemma_ext_of_after_last_dot(self.name@, i as int);
                }
                return Some(String::from_str(e));
            }
        }
        proof {
            lemma_ext_of_no_dot(self.name@);
        }
        None
    }
}

} // verus!
