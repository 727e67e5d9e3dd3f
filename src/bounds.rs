use vstd::prelude::*;
use crate::error::Error;

verus! {

/// One end of a range of timestamps.
#[derive(Clone, Copy, Debug, PartialEq, Eq, Structural)]
pub enum TimestampBound {
    Included(i64),
    Excluded(i64),
    Unbounded,
}

/// A range of timestamps, each end of which may be included, excluded or open.
#[derive(Clone, Copy, Debug, PartialEq, Eq, Structural)]
pub struct TimestampRange {
    pub start: TimestampBound,
    pub end: TimestampBound,
}

impl TimestampRange {
    /// `start..=end`
    pub fn inclusive(start: i64, end: i64) -> (r: TimestampRange)
        ensures
            r == (TimestampRange {
                start: TimestampBound::Included(start),
                end: TimestampBound::Included(end),
            }),
    {
        TimestampRange { start: TimestampBound::Included(start), end: TimestampBound::Included(end) }
    }

    /// `start..end`
    pub fn half_open(start: i64, end: i64) -> (r: TimestampRange)
        ensures
            r == (TimestampRange {
                start: TimestampBound::Included(start),
                end: TimestampBound::Excluded(end),
            }),
    {
        TimestampRange { start: TimestampBound::Included(start), end: TimestampBound::Excluded(end) }
    }

    /// `start..`
    pub fn starting_at(start: i64) -> (r: TimestampRange)
        ensures
            r == (TimestampRange {
                start: TimestampBound::Included(start),
                end: TimestampBound::Unbounded,
            }),
    {
        TimestampRange { start: TimestampBound::Included(start), end: TimestampBound::Unbounded }
    }

    /// `..`
    pub fn full() -> (r: TimestampRange)
        ensures
            r == (TimestampRange { start: TimestampBound::Unbounded, end: TimestampBound::Unbounded }),
    {
        TimestampRange { start: TimestampBound::Unbounded, end: TimestampBound::Unbounded }
    }
}

/// The least timestamp that a lower bound admits, saturating at `i64::MAX`.
pub open spec fn spec_lower(b: TimestampBound) -> i64 {
    match b {
        TimestampBound::Included(v) => v,
        TimestampBound::Excluded(v) => if v == i64::MAX {
            v
        } else {
            (v + 1) as i64
        },
        TimestampBound::Unbounded => i64::MIN,
    }
}

/// The greatest timestamp that an upper bound admits, saturating at `i64::MIN`.
pub open spec fn spec_upper(b: TimestampBound) -> i64 {
    match b {
        TimestampBound::Included(v) => v,
        TimestampBound::Excluded(v) => if v == i64::MIN {
            v
        } else {
            (v - 1) as i64
        },
        TimestampBound::Unbounded => i64::MAX,
    }
}

/// What a seek primitive's status means: success when it is not negative.
pub open spec fn spec_seek_status(code: i32) -> Result<(), Error> {
    if code >= 0 {
        Ok(())
    } else {
        Err(Error::SeekFailed(code))
    }
}

pub fn lower_bound(b: TimestampBound) -> (r: i64)
    ensures
        r == spec_lower(b),
{
    match b {
        TimestampBound::Included(v) => v,
        TimestampBound::Excluded(v) => if v == i64::MAX {
            v
        } else {
            v + 1
        },
        TimestampBound::Unbounded => i64::MIN,
    }
}

pub fn upper_bound(b: TimestampBound) -> (r: i64)
    ensures
        r == spec_upper(b),
{
    match b {
        TimestampBound::Included(v) => v,
        TimestampBound::Excluded(v) => if v == i64::MIN {
            v
        } else {
            v - 1
        },
        TimestampBound::Unbounded => i64::MAX,
    }
}

/// The absolute `(min, max)` pair that a seek over `range` submits.
pub fn seek_bounds(range: TimestampRange) -> (r: (i64, i64))
    ensures
        r == (spec_lower(range.start), spec_upper(range.end)),
        range.end == TimestampBound::Excluded(i64::MIN) ==> r.1 == i64::MIN,
        range.start == TimestampBound::Excluded(i64::MAX) ==> r.0 == i64::MAX,
        range.start == TimestampBound::Included(i64::MAX) ==> r.0 == i64::MAX,
        range.start == TimestampBound::Unbounded && range.end == TimestampBound::Unbounded ==> r == (i64::MIN, i64::MAX),
{
    (lower_bound(range.start), upper_bound(range.end))
}

/// Maps a seek primitive's status to the result of a seek.
pub fn seek_status(code: i32) -> (r: Result<(), Error>)
    ensures
        r == spec_seek_status(code),
{
    if code >= 0 {
        Ok(())
    } else {
        Err(Error::SeekFailed(code))
    }
}

} // verus!
