use vstd::prelude::*;

verus! {

/// The number of seconds in a day without a leap second.
pub const SECONDS_IN_DAY: i64 = 86_400;

} // verus!
