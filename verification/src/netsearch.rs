//! Line scan of the remote shop's search-result page: the lines between a
//! result heading and the end of its anchor are grouped into blocks, each
//! bracketed by a begin and an end mark.

use vstd::prelude::*;
use crate::text::{contains_sub, contains_str};

verus! {

/// The class of a result heading line.
pub open spec fn heading_chars() -> Seq<char> {
    "green bold nospace"@
}

/// The closing-anchor fragment that ends a block.
pub open spec fn anchor_end_chars() -> Seq<char> {
    "/a"@
}

/// The begin mark emitted before each block.
pub open spec fn begin_mark_chars() -> Seq<char> {
    "BEGIN BLOCK"@
}

/// The end mark emitted after each block.
pub open spec fn end_mark_chars() -> Seq<char> {
    "END BLOCK"@
}

/// One scan step: the lines emitted so far and whether the scan is inside a
/// block, after consuming `lines`. A heading line opens a block (emitting
/// the begin mark), every line of an open block is emitted, and a line with
/// the closing-anchor fragment closes the block (emitting the end mark).
pub open spec fn net_scan(lines: Seq<Seq<char>>) -> (Seq<Seq<char>>, bool)
    decreases lines.len(),
{
    if lines.len() == 0 {
        (Seq::empty(), false)
    } else {
        let prior = net_scan(lines.drop_last());
        let line = lines.last();
        let begin = contains_sub(line, heading_chars());
        let inside = begin || prior.1;
        let with_begin = if begin {
            prior.0.push(begin_mark_chars())
        } else {
            prior.0
        };
        let with_line = if inside {
            with_begin.push(line)
        } else {
            with_begin
        };
        let ends = inside && contains_sub(line, anchor_end_chars());
        if ends {
            (with_line.push(end_mark_chars()), false)
        } else {
            (with_line, inside)
        }
    }
}

/// Select the result-block lines of a search page, each block bracketed by
/// the begin and end marks.
pub fn net_search_blocks(lines: &Vec<String>) -> (r: Vec<String>)
    ensures
        r.deep_view() == net_scan(lines.deep_view()).0,
{
    let ghost lv = lines.deep_view();
    let n = lines.len();
    let mut out: Vec<String> = Vec::new();
    let mut inside = false;
    proof {
        assert(lv.take(0) =~= Seq::<Seq<char>>::empty());
        assert(out.deep_view() =~= net_scan(lv.take(0)).0);
    }
    let mut i: usize = 0;
    while i < n
        invariant
            i <= n,
            n == lines@.len(),
            lv == lines.deep_view(),
            out.deep_view() == net_scan(lv.take(i as int)).0,
            inside == net_scan(lv.take(i as int)).1,
        decreases n - i,
    {
        proof {
            assert(lv.take(i as int + 1).drop_last() =~= lv.take(i as int));
            assert(lv.take(i as int + 1).last() == lv[i as int]);
        }
        let line = &lines[i];
        let ghost out_pre = out.deep_view();
        let begins = contains_str(line.as_str(), "green bold nospace");
        if begins {
            out.push(String::from_str("BEGIN BLOCK"));
            proof {
                assert(out.deep_view() =~= out_pre.push(begin_mark_chars()));
            }
            inside = true;
        }
        let ghost out_mid = out.deep_view();
        if inside {
            out.push(line.clone());
            proof {
                assert(out.deep_view() =~= out_mid.push(lv[i as int]));
            }
        }
        let ghost out_lined = out.deep_view();
        if inside && contains_str(line.as_str(), "/a") {
            out.push(String::from_str("END BLOCK"));
            proof {
                assert(out.deep_view() =~= out_lined.push(end_mark_chars()));
            }
            inside = false;
        }
        i += 1;
    }
    proof {
        assert(lv.take(n as int) =~= lv);
    }
    out
}

} // verus!
