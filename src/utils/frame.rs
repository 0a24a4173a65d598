//! A frame timer.
//!
//! Readings of the monotonic clock are kept as nanoseconds since the moment
//! the timer was created. Each frame produces an immutable snapshot holding
//! the start of the timer, the previous frame's reading and the current one.
use vstd::prelude::*;

verus! {

#[verifier::external_type_specification]
#[verifier::external_body]
pub struct ExInstant(std::time::Instant);

/// Relies on `Instant::now`: it returns a reading of the monotonic clock.
/// Nothing is promised of the value.
pub assume_specification[ std::time::Instant::now ]() -> std::time::Instant;

/// Relies on `Instant::elapsed`: the time since the given instant, which the
/// standard library saturates at zero. Nothing is promised of the value.
pub assume_specification[ std::time::Instant::elapsed ](self_: &std::time::Instant) -> std::time::Duration;

/// Relies on `Duration::as_nanos`: the whole number of nanoseconds in a
/// duration.
pub assume_specification[ core::time::Duration::as_nanos ](self_: &core::time::Duration) -> u128;

/// The difference `later - earlier`, or zero when `earlier` is the later one,
/// as the standard library computes the difference of two instants.
pub open spec fn elapsed_between(earlier: u64, later: u64) -> u64 {
    if earlier <= later {
        (later - earlier) as u64
    } else {
        0
    }
}

/// A number of nanoseconds given as `u128`, held in `u64`: the largest `u64`
/// stands for every longer time.
pub open spec fn saturated_nanos(nanos: u128) -> u64 {
    if nanos <= u64::MAX as u128 {
        nanos as u64
    } else {
        u64::MAX
    }
}

/// Converts `nanos` to `u64`, saturating at `u64::MAX` (over 584 years).
pub fn saturating_nanos(nanos: u128) -> (r: u64)
    ensures
        r == saturated_nanos(nanos),
{
    if nanos <= u64::MAX as u128 {
        nanos as u64
    } else {
        u64::MAX
    }
}

/// The frame timer: the clock's origin, and the reading of the last frame.
pub struct Frame {
    origin: std::time::Instant,
    start: u64,
    last: u64,
}

/// A snapshot taken at the start of a frame.
pub struct FrameInstant {
    start: u64,
    last: u64,
    now: u64,
}

impl Frame {
    /// The reading at which the timer started.
    pub closed spec fn start_reading(&self) -> u64 {
        self.start
    }

    /// The reading of the most recent frame (the start, before any frame).
    pub closed spec fn last_reading(&self) -> u64 {
        self.last
    }

    /// A timer that starts now.
    pub fn new_now() -> (r: Self)
        ensures
            r.start_reading() == 0,
            r.last_reading() == 0,
    {
        let now = std::time::Instant::now();
        Frame { origin: now, start: 0, last: 0 }
    }

    /// Records a new frame whose clock reading is `now`: the snapshot holds
    /// the timer's start, the previous frame's reading and `now`, and `now`
    /// becomes the last reading.
    pub fn mark_new_frame_at(&mut self, now: u64) -> (r: FrameInstant)
        ensures
            r.start_reading() == old(self).start_reading(),
            r.last_reading() == old(self).last_reading(),
            r.now_reading() == now,
            final(self).start_reading() == old(self).start_reading(),
            final(self).last_reading() == now,
    {
        let last = self.last;
        self.last = now;
        FrameInstant { start: self.start, last, now }
    }

    /// Records a new frame at the current time.
    pub fn mark_new_frame(&mut self) -> (r: FrameInstant)
        ensures
            r.start_reading() == old(self).start_reading(),
            r.last_reading() == old(self).last_reading(),
            final(self).start_reading() == old(self).start_reading(),
            final(self).last_reading() == r.now_reading(),
    {
        let elapsed = self.origin.elapsed();
        let now = saturating_nanos(elapsed.as_nanos());
        self.mark_new_frame_at(now)
    }
}

impl FrameInstant {
    /// The reading at which the timer started.
    pub closed spec fn start_reading(&self) -> u64 {
        self.start
    }

    /// The reading of the previous frame.
    pub closed spec fn last_reading(&self) -> u64 {
        self.last
    }

    /// The reading of this frame.
    pub closed spec fn now_reading(&self) -> u64 {
        self.now
    }

    /// Nanoseconds from the start of the timer to this frame.
    pub fn total_duration(&self) -> (r: u64)
        ensures
            r == elapsed_between(self.start_reading(), self.now_reading()),
    {
        self.now.saturating_sub(self.start)
    }

    /// Nanoseconds from the previous frame to this one.
    pub fn last_frame_duration(&self) -> (r: u64)
        ensures
            r == elapsed_between(self.last_reading(), self.now_reading()),
    {
        self.now.saturating_sub(self.last)
    }
}

} // verus!
