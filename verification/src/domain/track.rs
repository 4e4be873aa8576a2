//! The time window a track plays for.

use vstd::prelude::*;

verus! {

/// A track's time window must start at or after zero, and be non-empty
/// (`end_ms` strictly after `start_ms`).
pub open spec fn valid_time_range(start_ms: int, end_ms: int) -> bool {
    start_ms >= 0 && end_ms > start_ms
}

/// Checks a track's time window: it starts at or after zero and ends
/// strictly after it starts. A negative start is refused even when the end
/// is still later than the start.
pub fn is_valid_time_range(start_ms: i32, end_ms: i32) -> (valid: bool)
    ensures
        valid == valid_time_range(start_ms as int, end_ms as int),
        valid == (start_ms >= 0 && end_ms > start_ms),
{
    start_ms >= 0 && end_ms > start_ms
}


/// A time window is valid exactly when it starts at or after zero and ends
/// strictly after it starts; nothing bounds its length or its position.
pub proof fn valid_windows_are_exactly_the_nonnegative_nonempty_ones(start_ms: int, end_ms: int)
    ensures
        valid_time_range(start_ms, end_ms) <==> (start_ms >= 0 && end_ms > start_ms),
{
}

/// Lengthening a valid window at its end keeps it valid, and so does
/// moving it later: validity depends on no upper bound.
pub proof fn valid_windows_stay_valid_when_lengthened_or_moved_later(
    start_ms: int,
    end_ms: int,
    extra: int,
)
    requires
        valid_time_range(start_ms, end_ms),
        extra >= 0,
    ensures
        valid_time_range(start_ms, end_ms + extra),
        valid_time_range(start_ms + extra, end_ms + extra),
{
}

} // verus!
