//! The bounded log window.
//!
//! A window is the last `WINDOW_LIMIT` lines of a file (all of them when the
//! file is shorter), kept in original file order, or reversed when the client
//! asked for the newest line first.
use vstd::prelude::*;
use crate::WINDOW_LIMIT;

verus! {

/// Index of the first line that belongs to the window of a file with
/// `total` lines.
pub open spec fn window_start(total: int) -> int {
    if total > WINDOW_LIMIT as int {
        total - WINDOW_LIMIT as int
    } else {
        0
    }
}

/// The window drawn from `lines`: the last `WINDOW_LIMIT` of them (all, when
/// there are no more than that), reversed when `newest_first` holds.
pub open spec fn window_spec(lines: Seq<Seq<char>>, newest_first: bool) -> Seq<Seq<char>> {
    let tail = lines.subrange(window_start(lines.len() as int), lines.len() as int);
    if newest_first {
        tail.reverse()
    } else {
        tail
    }
}

/// Law: a file with no more lines than the limit is shown whole — the window
/// is the file's lines in original order, or exactly their reversal.
pub proof fn lemma_window_short_file(lines: Seq<Seq<char>>, newest_first: bool)
    requires
        lines.len() <= WINDOW_LIMIT as int,
    ensures
        !newest_first ==> window_spec(lines, newest_first) == lines,
        newest_first ==> window_spec(lines, newest_first) == lines.reverse(),
        window_spec(lines, newest_first).len() == lines.len(),
{
    assert(lines.subrange(0, lines.len() as int) =~= lines);
}

/// Law: a file with more lines than the limit is cut to exactly the limit —
/// the window is the file's last `WINDOW_LIMIT` lines, in original order or
/// exactly reversed.
pub proof fn lemma_window_long_file(lines: Seq<Seq<char>>, newest_first: bool)
    requires
        lines.len() > WINDOW_LIMIT as int,
    ensures
        window_spec(lines, newest_first).len() == WINDOW_LIMIT as int,
        forall|i: int|
            0 <= i < WINDOW_LIMIT as int && !newest_first ==> window_spec(lines, newest_first)[i]
                == lines[lines.len() - WINDOW_LIMIT as int + i],
        forall|i: int|
            0 <= i < WINDOW_LIMIT as int && newest_first ==> window_spec(lines, newest_first)[i]
                == lines[lines.len() - 1 - i],
{
}

/// Cut `lines` down to the window: the last `WINDOW_LIMIT` lines, reversed
/// when `newest_first` holds.
pub fn window(lines: &Vec<String>, newest_first: bool) -> (r: Vec<String>)
    ensures
        r.deep_view() == window_spec(lines.deep_view(), newest_first),
{
    let total = lines.len();
    let start = if total > WINDOW_LIMIT {
        total - WINDOW_LIMIT
    } else {
        0
    };
    let ghost tail = lines.deep_view().subrange(start as int, total as int);
    let mut out: Vec<String> = Vec::new();
    if newest_first {
        let mut i: usize = total;
        while i > start
            invariant
                start <= i <= total,
                total == lines.len(),
                start == window_start(total as int),
                tail == lines.deep_view().subrange(start as int, total as int),
                out.deep_view() =~= lines.deep_view().subrange(i as int, total as int).reverse(),
            decreases i - start,
        {
            i = i - 1;
            let ghost pre = out.deep_view();
            let line = lines[i].clone();
            proof {
                assert(line@ == lines.deep_view()[i as int]);
            }
            out.push(line);
            proof {
                assert(out.deep_view() =~= pre.push(lines.deep_view()[i as int]));
                assert(out.deep_view() =~= lines.deep_view().subrange(i as int, total as int).reverse());
            }
        }
        proof {
            assert(out.deep_view() =~= tail.reverse());
        }
    } else {
        let mut i: usize = start;
        while i < total
            invariant
                start <= i <= total,
                total == lines.len(),
                start == window_start(total as int),
                tail == lines.deep_view().subrange(start as int, total as int),
                out.deep_view() =~= lines.deep_view().subrange(start as int, i as int),
            decreases total - i,
        {
            let ghost pre = out.deep_view();
            let line = lines[i].clone();
            proof {
                assert(line@ == lines.deep_view()[i as int]);
            }
            out.push(line);
            i = i + 1;
            proof {
                assert(out.deep_view() =~= pre.push(lines.deep_view()[i - 1]));
                assert(out.deep_view() =~= lines.deep_view().subrange(start as int, i as int));
            }
        }
    }
    out
}

/// The window's lines joined into one snippet, a single newline between
/// neighbouring lines.
pub open spec fn join_spec(lines: Seq<Seq<char>>) -> Seq<char>
    decreases lines.len(),
{
    if lines.len() == 0 {
        Seq::empty()
    } else if lines.len() == 1 {
        lines[0]
    } else {
        join_spec(lines.drop_last()) + seq!['\n'] + lines.last()
    }
}

/// Join lines into one snippet with a newline between neighbours.
pub fn join_lines(lines: &Vec<String>) -> (r: String)
    ensures
        r@ == join_spec(lines.deep_view()),
{
    let mut out = String::new();
    let mut i: usize = 0;
    while i < lines.len()
        invariant
            i <= lines.len(),
            out@ == join_spec(lines.deep_view().subrange(0, i as int)),
        decreases lines.len() - i,
    {
        if i > 0 {
            out.append("\n");
            proof {
                reveal_strlit("\n");
                assert("\n"@ =~= seq!['\n']);
            }
        }
        out.append(lines[i].as_str());
        proof {
            let part = lines.deep_view().subrange(0, i + 1);
            assert(part.drop_last() =~= lines.deep_view().subrange(0, i as int));
            assert(part.last() == lines.deep_view()[i as int]);
            assert(out@ =~= join_spec(part));
        }
        i = i + 1;
    }
    proof {
        assert(lines.deep_view().subrange(0, lines.deep_view().len() as int) =~= lines.deep_view());
    }
    out
}

} // verus!
