//! The creation date: a number of seconds becomes a point in time.

use vstd::prelude::*;
use crate::torrent::Timestamp;

verus! {

/// Turns an optional number of seconds since the epoch into the point in
/// time that it names, in UTC and without a fraction of a second. Every
/// number converts; no number gives no point in time.
pub fn deserialize(val: Option<i64>) -> (r: Option<Timestamp>)
    ensures
        r.deep_view() == val,
{
    match val {
        Some(seconds) => Some(Timestamp { seconds }),
        None => None,
    }
}

} // verus!
