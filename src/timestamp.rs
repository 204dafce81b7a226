use vstd::prelude::*;

verus! {

/// A record last written at `last` (seconds since the epoch) is stale at
/// `current` when the clock is unavailable (zero), runs behind the record, or
/// more than `limit` seconds have passed.
pub open spec fn exceeded_spec(last: u64, current: u64, limit: u64) -> bool {
    current == 0 || last > current || current - last > limit
}

pub fn exceeded(last: u64, current: u64, limit: u64) -> (r: bool)
    ensures
        r == exceeded_spec(last, current, limit),
{
    current == 0 || last > current || current - last > limit
}

/// A record exactly `limit` seconds old is still fresh, one a second older is
/// stale, and a zero clock or a record dated after the clock is always stale.
pub proof fn lemma_staleness_boundary(last: u64, current: u64, limit: u64)
    ensures
        current > 0 && last <= current && current - last == limit ==> !exceeded_spec(last, current, limit),
        current > 0 && last <= current && current - last == limit + 1 ==> exceeded_spec(last, current, limit),
        current == 0 ==> exceeded_spec(last, current, limit),
        last > current ==> exceeded_spec(last, current, limit),
{
}

} // verus!
