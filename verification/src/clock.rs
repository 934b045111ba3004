//! The stream clock: converts a presentation timestamp (a tick count in a
//! stream's time base) into the wall-clock delay that remains before the
//! frame is due.

use vstd::prelude::*;

verus! {

/// Nanoseconds in one second.
pub const NANOS_PER_SECOND: u64 = 1_000_000_000;

/// An immutable time base (a rational number of seconds per tick) together
/// with a fixed playback epoch: the wall-clock instant, in nanoseconds on
/// the caller's monotonic clock, captured when playback started.
///
/// The epoch is set once at construction and never mutated, so every
/// conversion from a timestamp to a delay is a pure function of
/// (epoch, time base, pts).
pub struct StreamClock {
    time_base_num: u32,
    time_base_den: u32,
    epoch_nanos: u64,
}

impl StreamClock {
    /// The numerator of the time base, in seconds per tick.
    pub closed spec fn time_base_num(&self) -> u32 {
        self.time_base_num
    }

    /// The denominator of the time base.
    pub closed spec fn time_base_den(&self) -> u32 {
        self.time_base_den
    }

    /// The playback epoch, in nanoseconds.
    pub closed spec fn epoch_nanos(&self) -> u64 {
        self.epoch_nanos
    }

    /// A clock is well formed when its time base denominator is not zero.
    pub open spec fn wf(&self) -> bool {
        self.time_base_den() > 0
    }

    /// The wall-clock instant, in nanoseconds, at which a frame with
    /// presentation timestamp `pts` is due: the epoch plus
    /// `pts * time_base_num / time_base_den` seconds, rounded down to a
    /// whole number of nanoseconds.
    pub open spec fn target_nanos(&self, pts: int) -> int {
        self.epoch_nanos() + pts * (self.time_base_num() as int) * (NANOS_PER_SECOND as int)
            / (self.time_base_den() as int)
    }

    /// The delay that remains, at instant `now_nanos`, before a frame with
    /// timestamp `pts` is due.  A frame without a timestamp is presented
    /// immediately, and a target instant already in the past yields a zero
    /// delay (no negative sleeps, no catch-up).  A delay beyond what fits
    /// in 64 bits of nanoseconds is clipped to `u64::MAX`.
    pub open spec fn spec_delay_nanos(&self, pts: Option<i64>, now_nanos: u64) -> u64 {
        match pts {
            None => 0u64,
            Some(p) => {
                let diff = self.target_nanos(p as int) - now_nanos;
                if diff <= 0 {
                    0u64
                } else if diff > u64::MAX {
                    u64::MAX
                } else {
                    diff as u64
                }
            },
        }
    }

    /// Captures a clock from a stream's time base and the playback epoch.
    pub fn new(time_base_num: u32, time_base_den: u32, epoch_nanos: u64) -> (clock: Self)
        requires
            time_base_den > 0,
        ensures
            clock.wf(),
            clock.time_base_num() == time_base_num,
            clock.time_base_den() == time_base_den,
            clock.epoch_nanos() == epoch_nanos,
    {
        StreamClock { time_base_num, time_base_den, epoch_nanos }
    }

    /// Computes the remaining presentation delay for a frame.
    ///
    /// A negative timestamp precedes the start of the stream and has no
    /// presentation instant; it is excluded.
    pub fn delay_nanos(&self, pts: Option<i64>, now_nanos: u64) -> (delay: u64)
        requires
            self.wf(),
            pts matches Some(p) ==> p >= 0,
        ensures
            delay == self.spec_delay_nanos(pts, now_nanos),
    {
        match pts {
            None => 0,
            Some(p) => {
                let num = self.time_base_num as u128;
                let den = self.time_base_den as u128;
                proof {
                    assert((p as int) * (num as int) <= (i64::MAX as int) * (u32::MAX as int))
                        by (nonlinear_arith)
                        requires
                            0 <= p as int <= i64::MAX as int,
                            0 <= num as int <= u32::MAX as int,
                    ;
                }
                let ticks: u128 = (p as u128) * num;
                proof {
                    assert(
                        (ticks as int) * (NANOS_PER_SECOND as int)
                            <= (i64::MAX as int) * (u32::MAX as int) * (NANOS_PER_SECOND as int)
                    ) by (nonlinear_arith)
                        requires
                            0 <= ticks as int <= (i64::MAX as int) * (u32::MAX as int),
                    ;
                }
                let offset: u128 = (ticks * (NANOS_PER_SECOND as u128)) / den;
                let target: u128 = (self.epoch_nanos as u128) + offset;
                proof {
                    assert(offset == (p as int) * (self.time_base_num() as int)
                        * (NANOS_PER_SECOND as int) / (self.time_base_den() as int));
                }
                if target <= now_nanos as u128 {
                    0
                } else {
                    let diff: u128 = target - (now_nanos as u128);
                    if diff > u64::MAX as u128 {
                        u64::MAX
                    } else {
                        diff as u64
                    }
                }
            },
        }
    }
}

} // verus!
