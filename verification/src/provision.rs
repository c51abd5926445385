use vstd::prelude::*;

use crate::errors::SortError;

verus! {

/// What the folder provisioner is to do, once it is known whether the
/// destination already exists and what the user answered.
#[derive(Clone, Copy, Debug, PartialEq, Eq, Structural)]
pub enum FolderPlan {
    /// The folder is not there yet: create it.
    Create,
    /// The folder exists and the user agreed to place files in it anyway.
    UseExisting,
}

/// Drop one trailing line feed, then one trailing carriage return: what a
/// console line read leaves at the end of the answer.
pub open spec fn spec_chop(s: Seq<char>, c: char) -> Seq<char> {
    if s.len() > 0 && s.last() == c {
        s.drop_last()
    } else {
        s
    }
}

pub open spec fn spec_trim_line_end(s: Seq<char>) -> Seq<char> {
    spec_chop(spec_chop(s, '\n'), '\r')
}

pub fn trim_line_end(s: &str) -> (r: &str)
    ensures
        r@ == spec_trim_line_end(s@),
{
    let mut t: &str = s;
    let mut n: usize = t.unicode_len();
    if n > 0 && t.get_char(n - 1) == '\n' {
        t = t.substring_char(0, n - 1);
        n = n - 1;
        proof {
            assert(t@ =~= spec_chop(s@, '\n'));
        }
    }
    if n > 0 && t.get_char(n - 1) == '\r' {
        t = t.substring_char(0, n - 1);
        proof {
            assert(t@ =~= spec_trim_line_end(s@));
        }
    }
    t
}

/// Only the explicit affirmative answer `y` lets an existing folder be
/// reused; any other answer declines.
pub fn reuse_allowed(answer: &str) -> (r: bool)
    ensures
        r == (answer@ == "y"@),
{
    let a = String::from_str(answer);
    let y = String::from_str("y");
    a == y
}

/// Decide the folder step. A missing folder is created; an existing one is
/// reused only on the user's affirmative answer, and any other answer
/// aborts the whole job before a single file is moved.
pub fn provision_outcome(already_exists: bool, reuse_confirmed: bool) -> (r: Result<
    FolderPlan,
    SortError,
>)
    ensures
        !already_exists ==> r == Ok::<FolderPlan, SortError>(FolderPlan::Create),
        already_exists && reuse_confirmed ==> r == Ok::<FolderPlan, SortError>(
            FolderPlan::UseExisting,
        ),
        already_exists && !reuse_confirmed ==> r == Err::<FolderPlan, SortError>(
            SortError::UserAborted,
        ),
{
    if !already_exists {
        Ok(FolderPlan::Create)
    } else if reuse_confirmed {
        Ok(FolderPlan::UseExisting)
    } else {
        Err(SortError::UserAborted)
    }
}

} // verus!
