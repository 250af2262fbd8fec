//! Line-oriented scan of a detail page's text for the direct-download link.
//!
//! The first line that contains the marker is authoritative: when that line
//! lacks an extractable `href="..."` attribute the scan reports a parse
//! failure and no later marker line is consulted.

use vstd::prelude::*;
use crate::text::{
    contains_sub, contains_str, find_sub, find_sub_from, lemma_find_sub_from_found,
};

verus! {

/// Result of scanning a detail page's text for the direct-download link.
#[derive(Debug)]
pub enum LocateResult {
    /// The extracted link.
    Url(String),
    /// No line contains the marker.
    NotFound,
    /// The first marker line lacks an extractable link.
    ParseFailure,
}

/// The marker that indicates a direct-download control on a line.
pub open spec fn marker_chars() -> Seq<char> {
    "Direct Download"@
}

/// The opening of the quoted hypertext attribute.
pub open spec fn attr_chars() -> Seq<char> {
    "href=\""@
}

/// The closing quote.
pub open spec fn quote_chars() -> Seq<char> {
    "\""@
}

/// The link on a line: the text between the end of the first `href="` and
/// the next quote, if both are present.
pub open spec fn line_url(line: Seq<char>) -> Option<Seq<char>> {
    let h = find_sub_from(line, attr_chars(), 0);
    if h == -1 {
        None
    } else {
        let start = h + attr_chars().len();
        let q = find_sub_from(line, quote_chars(), start);
        if q == -1 {
            None
        } else {
            Some(line.subrange(start, q))
        }
    }
}

/// Index of the first line at or after `from` that contains the marker, or
/// -1 if there is none.
pub open spec fn first_marker_line(lines: Seq<Seq<char>>, from: int) -> int
    recommends
        0 <= from,
    decreases lines.len() - from,
    when 0 <= from
{
    if from >= lines.len() {
        -1
    } else if contains_sub(lines[from], marker_chars()) {
        from
    } else {
        first_marker_line(lines, from + 1)
    }
}

/// Scan the page's lines for the single direct-download link.
///
/// With no marker line the scan reports `NotFound`. Otherwise the first
/// marker line decides: its quoted attribute if it has one, `ParseFailure`
/// if it lacks one, whatever later lines hold.
pub fn extract_url(base_text: &Vec<String>) -> (r: LocateResult)
    ensures
        ({
            let lines = base_text.deep_view();
            let m = first_marker_line(lines, 0);
            &&& m == -1 ==> r is NotFound
            &&& m != -1 ==> match line_url(lines[m]) {
                Some(u) => r matches LocateResult::Url(s) && s@ == u,
                None => r is ParseFailure,
            }
        }),
{
    let ghost lines = base_text.deep_view();
    let n = base_text.len();
    let mut i: usize = 0;
    while i < n
        invariant
            i <= n,
            n == base_text@.len(),
            lines == base_text.deep_view(),
            first_marker_line(lines, 0) == first_marker_line(lines, i as int),
        decreases n - i,
    {
        let line = &base_text[i];
        proof {
            assert(lines[i as int] == line@);
        }
        if contains_str(line.as_str(), "Direct Download") {
            proof {
                assert(first_marker_line(lines, i as int) == i);
            }
            match find_sub(line.as_str(), "href=\"", 0) {
                Some(h) => {
                    let line_len = line.as_str().unicode_len();
                    proof {
                        lemma_find_sub_from_found(line@, attr_chars(), 0);
                        reveal_strlit("href=\"");
                        reveal_strlit("\"");
                    }
                    let start = h + 6;
                    match find_sub(line.as_str(), "\"", start) {
                        Some(q) => {
                            proof {
                                lemma_find_sub_from_found(line@, quote_chars(), start as int);
                            }
                            let url = line.as_str().substring_char(start, q);
                            return LocateResult::Url(url.to_owned());
                        },
                        None => {
                            return LocateResult::ParseFailure;
                        },
                    }
                },
                None => {
                    return LocateResult::ParseFailure;
                },
            }
        }
        i += 1;
    }
    LocateResult::NotFound
}

} // verus!
