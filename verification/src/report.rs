use vstd::prelude::*;

verus! {

/// The tally of one run: how many of the matched files were actually
/// moved. A failed move is final for its file within the run, but never
/// stops the batch.
#[derive(Clone, Copy, Debug, PartialEq, Eq, Structural)]
pub struct SortReport {
    pub moved_count: usize,
    pub total_count: usize,
}

/// How many of the outcomes are true.
pub open spec fn count_true(s: Seq<bool>) -> int
    decreases s.len(),
{
    if s.len() == 0 {
        0
    } else {
        count_true(s.drop_last()) + if s.last() {
            1int
        } else {
            0int
        }
    }
}

/// Tally the per-file outcomes of the move step: how many renames
/// succeeded, out of how many were attempted.
pub fn summarize(outcomes: &Vec<bool>) -> (r: SortReport)
    ensures
        r.total_count == outcomes@.len(),
        r.moved_count == count_true(outcomes@),
        r.moved_count <= r.total_count,
{
    let mut moved: usize = 0;
    let mut i: usize = 0;
    while i < outcomes.len()
        invariant
            i <= outcomes@.len(),
            moved == count_true(outcomes@.subrange(0, i as int)),
            moved <= i,
        decreases outcomes@.len() - i,
    {
        proof {
            assert(outcomes@.subrange(0, i + 1).drop_last() =~= outcomes@.subrange(0, i as int));
        }
        if outcomes[i] {
            moved = moved + 1;
        }
        i = i + 1;
    }
    proof {
        assert(outcomes@.subrange(0, outcomes@.len() as int) =~= outcomes@);
    }
    SortReport { moved_count: moved, total_count: i }
}

/// The whole-percent progress shown after `idx` of `total` files are done;
/// always short of one hundred while work remains.
pub fn progress_percent(idx: usize, total: usize) -> (r: u64)
    requires
        idx < total,
    ensures
        r == idx as int * 100 / (total as int),
        r <= 99,
{
    let w: u128 = (idx as u128 * 100) / (total as u128);
    proof {
        assert(idx as int * 100 / (total as int) <= 99) by (nonlinear_arith)
            requires
                0 <= idx < total,
        ;
    }
    w as u64
}

/// The character of one decimal digit.
pub open spec fn digit_char(d: int) -> char {
    if d == 0 {
        '0'
    } else if d == 1 {
        '1'
    } else if d == 2 {
        '2'
    } else if d == 3 {
        '3'
    } else if d == 4 {
        '4'
    } else if d == 5 {
        '5'
    } else if d == 6 {
        '6'
    } else if d == 7 {
        '7'
    } else if d == 8 {
        '8'
    } else {
        '9'
    }
}

/// The decimal digits of a positive number, most significant first.
pub open spec fn dec_digits(n: int) -> Seq<char>
    decreases n,
{
    if n <= 0 {
        Seq::empty()
    } else {
        dec_digits(n / 10).push(digit_char(n % 10))
    }
}

/// How a count is written: its decimal digits, and a single `0` for zero.
pub open spec fn spec_dec_string(n: int) -> Seq<char> {
    if n == 0 {
        seq!['0']
    } else {
        dec_digits(n)
    }
}

/// The one-character text of a decimal digit.
fn digit_str(d: usize) -> (r: &'static str)
    requires
        d < 10,
    ensures
        r@ =~= seq![digit_char(d as int)],
{
    let r: &'static str = match d {
        0 => "0",
        1 => "1",
        2 => "2",
        3 => "3",
        4 => "4",
        5 => "5",
        6 => "6",
        7 => "7",
        8 => "8",
        _ => "9",
    };
    proof {
        reveal_strlit("0");
        reveal_strlit("1");
        reveal_strlit("2");
        reveal_strlit("3");
        reveal_strlit("4");
        reveal_strlit("5");
        reveal_strlit("6");
        reveal_strlit("7");
        reveal_strlit("8");
        reveal_strlit("9");
    }
    r
}

/// Write a count in decimal.
pub fn usize_to_string(n: usize) -> (r: String)
    ensures
        r@ == spec_dec_string(n as int),
{
    if n == 0 {
        let r = String::from_str("0");
        proof {
            reveal_strlit("0");
            assert(r@ =~= spec_dec_string(0));
        }
        return r;
    }
    let mut out = String::new();
    let mut m: usize = n;
    while m > 0
        invariant
            dec_digits(m as int) + out@ =~= dec_digits(n as int),
        decreases m,
    {
        let d: usize = m % 10;
        let mut piece = String::from_str(digit_str(d));
        piece.append(out.as_str());
        proof {
            assert(dec_digits(m as int) =~= dec_digits(m as int / 10) + seq![
                digit_char(m as int % 10),
            ]);
            assert(dec_digits(m as int / 10) + piece@ =~= dec_digits(n as int));
        }
        out = piece;
        m = m / 10;
    }
    out
}

impl SortReport {
    /// The closing summary line: `Sorted <moved>/<total> files into
    /// folders`.
    pub fn summary_line(&self) -> (r: String)
        ensures
            r@ == "Sorted "@ + spec_dec_string(self.moved_count as int) + "/"@ + spec_dec_string(
                self.total_count as int,
            ) + " files into folders"@,
    {
        let mut out = String::from_str("Sorted ");
        out.append(usize_to_string(self.moved_count).as_str());
        out.append("/");
        out.append(usize_to_string(self.total_count).as_str());
        out.append(" files into folders");
        proof {
            assert(out@ =~= "Sorted "@ + spec_dec_string(self.moved_count as int) + "/"@
                + spec_dec_string(self.total_count as int) + " files into folders"@);
        }
        out
    }
}

} // verus!
