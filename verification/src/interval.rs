use vstd::prelude::*;

use crate::clock::now_millis;

verus! {

/// An elapsed-wall-time latch: once armed, it reports true as soon as its
/// duration has passed, and re-arms itself from that moment.
#[derive(Clone, Copy, PartialEq, Eq, Structural, Debug)]
pub struct Interval {
    pub armed: bool,
    pub start_ms: u64,
    pub duration_ms: u64,
}

impl Interval {
    /// Whether the latch has elapsed when the wall clock reads `now`.
    pub open spec fn elapsed_at(self, now: u64) -> bool {
        self.armed && now >= self.start_ms + self.duration_ms
    }

    pub fn new() -> (r: Interval)
        ensures
            !r.armed,
    {
        Interval { armed: false, start_ms: 0, duration_ms: 0 }
    }

    /// Arm the latch for `frequency` seconds from the current wall-clock time.
    pub fn set(&mut self, frequency: u32)
        ensures
            final(self).armed,
            final(self).duration_ms == frequency as u64 * 1000,
    {
        self.start_ms = now_millis();
        self.duration_ms = (frequency as u64) * 1000;
        self.armed = true;
    }

    /// Disarm the latch.
    pub fn cancel(&mut self)
        ensures
            !final(self).armed,
            final(self).start_ms == old(self).start_ms,
            final(self).duration_ms == old(self).duration_ms,
    {
        self.armed = false;
    }

    /// Whether the latch has elapsed at the given time; on elapse the latch
    /// re-arms from that time, otherwise it is untouched.
    pub fn check_elapsed_at(&mut self, now: u64) -> (r: bool)
        ensures
            r == old(self).elapsed_at(now),
            r ==> *final(self) == (Interval { start_ms: now, ..*old(self) }),
            !r ==> *final(self) == *old(self),
    {
        if self.armed && now >= self.start_ms && now - self.start_ms >= self.duration_ms {
            self.start_ms = now;
            true
        } else {
            false
        }
    }

    /// Whether the latch has elapsed at the current wall-clock reading. The
    /// clock is outside the simulation, so only this much is promised: a
    /// disarmed latch never reports true, and the latch is untouched unless it
    /// reports true, in which case it stays armed for the same duration.
    pub fn is_ellapsed(&mut self) -> (r: bool)
        ensures
            !old(self).armed ==> !r,
            r ==> final(self).armed && final(self).duration_ms == old(self).duration_ms,
            !r ==> *final(self) == *old(self),
    {
        let now = now_millis();
        self.check_elapsed_at(now)
    }
}

} // verus!
