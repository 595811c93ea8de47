//! Spans of time in whole microseconds.

use vstd::prelude::*;

verus! {

/// The length in whole microseconds of a `core::time::Duration`.
pub uninterp spec fn std_micros(duration: core::time::Duration) -> nat;

/// `core::time::Duration::from_micros`: the span of that many microseconds.
#[verifier::external_body]
fn std_from_micros(micros: u64) -> (r: core::time::Duration)
    ensures
        std_micros(r) == micros,
{
    core::time::Duration::from_micros(micros)
}

/// A span of time in microseconds; it may be negative.
#[derive(Clone, Copy, Debug, PartialEq, Eq, Structural, PartialOrd, Ord)]
pub struct Duration {
    micros: i64,
}

/// `value` held to the range of `i64`.
pub open spec fn saturated(value: int) -> int {
    if value > i64::MAX {
        i64::MAX as int
    } else if value < i64::MIN {
        i64::MIN as int
    } else {
        value
    }
}

/// Multiplies by a positive factor, holding the result to the range of
/// `i64`.
fn saturating_scale(value: i64, factor: i64) -> (r: i64)
    requires
        factor > 0,
    ensures
        r == saturated(value * factor),
{
    match value.checked_mul(factor) {
        Some(v) => v,
        None => {
            if value < 0 {
                assert(value * factor < 0) by (nonlinear_arith)
                    requires
                        value < 0,
                        factor > 0,
                ;
                i64::MIN
            } else {
                assert(value * factor >= 0) by (nonlinear_arith)
                    requires
                        value >= 0,
                        factor > 0,
                ;
                i64::MAX
            }
        },
    }
}

impl View for Duration {
    type V = int;

    /// The span in microseconds.
    closed spec fn view(&self) -> int {
        self.micros as int
    }
}

impl Duration {
    /// The span of the given number of microseconds.
    pub fn microseconds(micros: i64) -> (r: Duration)
        ensures
            r@ == micros,
    {
        Duration { micros }
    }

    /// The span of the given number of milliseconds, held to the range of
    /// `i64` microseconds.
    pub fn milliseconds(millis: i64) -> (r: Duration)
        ensures
            r@ == saturated(millis * 1_000),
    {
        Duration { micros: saturating_scale(millis, 1_000) }
    }

    /// The span of the given number of seconds, held to the range of `i64`
    /// microseconds.
    pub fn seconds(secs: i64) -> (r: Duration)
        ensures
            r@ == saturated(secs * 1_000_000),
    {
        Duration { micros: saturating_scale(secs, 1_000_000) }
    }

    /// The span in microseconds.
    pub fn num_microseconds(&self) -> (r: Option<i64>)
        ensures
            r == Some(self@ as i64),
            i64::MIN <= self@ <= i64::MAX,
    {
        Some(self.micros)
    }

    /// The span as a standard duration; a negative span has none.
    pub fn to_std(self) -> (r: Result<core::time::Duration, ()>)
        ensures
            self@ < 0 ==> r is Err,
            self@ >= 0 ==> (r matches Ok(d) && std_micros(d) == self@),
    {
        if self.micros < 0 {
            return Err(());
        }
        Ok(std_from_micros(self.micros as u64))
    }

    /// The span in microseconds, with zero in place of a negative span.
    pub fn clamped_micros(self) -> (r: u64)
        ensures
            r == if self@ < 0 {
                0
            } else {
                self@
            },
    {
        if self.micros < 0 {
            0
        } else {
            self.micros as u64
        }
    }
}

/// The span as a standard duration, with zero in place of a negative span.
pub fn duration_to_std(duration: Duration) -> (r: core::time::Duration)
    ensures
        std_micros(r) == if duration@ < 0 {
            0
        } else {
            duration@
        },
{
    match duration.to_std() {
        Ok(d) => d,
        Err(_) => std_from_micros(0),
    }
}

} // verus!
