//! The chronological order of two timestamps, in the form that a sort takes.

use core::cmp::Ordering;
use vstd::prelude::*;
use crate::timestamp::Timestamp;

verus! {

/// Compares two timestamps in time: `Less` where `a` is the earlier one,
/// `Greater` where `b` is, `Equal` where they are the same.
pub fn compare_in_time(a: &Timestamp, b: &Timestamp) -> (o: Ordering)
    ensures
        o is Less <==> a.spec_before(b),
        o is Greater <==> b.spec_before(a),
        o is Equal <==> *a == *b,
{
    if a.before(b) {
        Ordering::Less
    } else if b.before(a) {
        Ordering::Greater
    } else {
        Ordering::Equal
    }
}

} // verus!
