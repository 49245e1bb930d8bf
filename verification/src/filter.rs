//! Dropping keep-alive heartbeats from the line stream.
//!
//! On a long-lived streaming connection the server sends empty lines to
//! keep intermediaries from closing it. They carry no data and must never
//! reach the decoder; every non-empty line passes through untouched and in
//! order.

use vstd::prelude::*;
use crate::lines::line_views;

verus! {

/// Whether a line survives the filter: only non-empty lines do.
pub open spec fn non_blank() -> spec_fn(Seq<u8>) -> bool {
    |l: Seq<u8>| l.len() != 0
}

/// Filtering one more line from the right keeps it exactly when it is
/// non-empty.
proof fn lemma_filter_non_blank_push(s: Seq<Seq<u8>>, x: Seq<u8>)
    ensures
        s.push(x).filter(non_blank()) == (if x.len() != 0 {
            s.filter(non_blank()).push(x)
        } else {
            s.filter(non_blank())
        }),
{
    reveal(Seq::filter);
    assert(s.push(x).drop_last() =~= s);
}

/// Every line that survives the filter is non-empty: nothing blank ever
/// reaches the decoder.
pub proof fn lemma_kept_lines_non_blank(lines: Seq<Seq<u8>>, i: int)
    requires
        0 <= i < lines.filter(non_blank()).len(),
    ensures
        lines.filter(non_blank())[i].len() != 0,
{
    lines.lemma_filter_pred(non_blank(), i);
}

/// Drops every empty line and keeps the rest, in order.
pub fn filter_blank_lines(lines: Vec<Vec<u8>>) -> (kept: Vec<Vec<u8>>)
    ensures
        line_views(kept@) == line_views(lines@).filter(non_blank()),
{
    let ghost all = lines@;
    let mut rest = lines;
    let mut kept: Vec<Vec<u8>> = Vec::new();
    let ghost k: int = 0;
    while rest.len() > 0
        invariant
            0 <= k <= all.len(),
            rest@ =~= all.skip(k),
            line_views(kept@) == line_views(all.take(k)).filter(non_blank()),
        decreases rest.len(),
    {
        proof {
            assert(all.take(k + 1) =~= all.take(k).push(all[k]));
            assert(line_views(all.take(k + 1)) =~= line_views(all.take(k)).push(all[k]@));
            lemma_filter_non_blank_push(line_views(all.take(k)), all[k]@);
        }
        let line = rest.remove(0);
        assert(line@ == all[k]@);
        if line.len() > 0 {
            kept.push(line);
            assert(line_views(kept@) =~= line_views(all.take(k + 1)).filter(non_blank()));
        }
        proof {
            k = k + 1;
            assert(rest@ =~= all.skip(k));
        }
    }
    proof {
        assert(all.take(k) =~= all);
    }
    kept
}

} // verus!
