//! The live trade log: numbering of its records.

use vstd::prelude::*;

verus! {

/// Id of the next trade record: one past the last record's id, or 1 for an
/// empty log.
pub open spec fn next_id_after(ids: Seq<u32>) -> int {
    if ids.len() == 0 {
        1
    } else {
        ids.last() + 1
    }
}

/// Id of the next record given the ids in the log, in order. The last id must
/// be below `u32::MAX`.
pub fn next_trade_id(ids: &[u32]) -> (r: u32)
    requires
        ids@.len() > 0 ==> ids@.last() < u32::MAX,
    ensures
        r == next_id_after(ids@),
{
    if ids.len() == 0 {
        1
    } else {
        ids[ids.len() - 1] + 1
    }
}

} // verus!
