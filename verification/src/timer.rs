//! The one-shot countdown behind the tearing scene.
//!
//! The tearing scene waits a fixed delay, then despawns every marked joint
//! once. The countdown is modelled exactly: the host hands in each frame's
//! elapsed time in milliseconds, and the tick reports the one frame on which
//! the countdown crosses its deadline.

use vstd::prelude::*;

verus! {

/// How long the tearing scene waits before despawning its marked joints, in
/// milliseconds.
pub const DESPAWN_DELAY: u64 = 4_000;

/// A one-shot countdown: once `elapsed` reaches `duration` it is finished
/// and stays finished.
#[derive(Clone, Copy, Debug, PartialEq, Eq, Structural)]
pub struct CountdownTimer {
    /// The full delay, in milliseconds; always positive.
    pub duration: u64,
    /// How much of the delay has passed, in milliseconds; never beyond
    /// `duration`.
    pub elapsed: u64,
}

impl CountdownTimer {
    /// A countdown is well formed when its delay is positive and its elapsed
    /// time has not run past the delay.
    pub open spec fn wf(self) -> bool {
        0 < self.duration && self.elapsed <= self.duration
    }

    /// Whether the countdown has run out.
    pub open spec fn spec_finished(self) -> bool {
        self.elapsed >= self.duration
    }

    /// A fresh countdown over the given positive delay.
    pub fn new(duration: u64) -> (t: Self)
        requires
            0 < duration,
        ensures
            t.wf(),
            t.duration == duration,
            t.elapsed == 0,
    {
        CountdownTimer { duration, elapsed: 0 }
    }

    /// Advances the countdown by `delta` milliseconds, clamping at the
    /// deadline, and reports whether this very tick crossed it.
    pub fn tick(&mut self, delta: u64) -> (just_finished: bool)
        requires
            old(self).wf(),
        ensures
            final(self).wf(),
            final(self).duration == old(self).duration,
            final(self).elapsed == (if old(self).elapsed + delta >= old(self).duration {
                old(self).duration as int
            } else {
                old(self).elapsed + delta
            }),
            just_finished == (!old(self).spec_finished() && final(self).spec_finished()),
            final(self).spec_finished() == (old(self).elapsed + delta >= old(self).duration),
    {
        let remaining: u64 = self.duration - self.elapsed;
        if delta >= remaining {
            let was_finished: bool = self.elapsed >= self.duration;
            self.elapsed = self.duration;
            !was_finished
        } else {
            self.elapsed = self.elapsed + delta;
            false
        }
    }
}

/// The tearing scene's despawn state: its countdown.
#[derive(Clone, Copy, Debug, PartialEq, Eq, Structural)]
pub struct DespawnResource {
    pub timer: CountdownTimer,
}

impl DespawnResource {
    /// The resource as the tearing scene arms it: a fresh countdown over
    /// [`DESPAWN_DELAY`].
    pub fn armed() -> (r: Self)
        ensures
            r.timer.wf(),
            r.timer.duration == DESPAWN_DELAY,
            r.timer.elapsed == 0,
    {
        DespawnResource { timer: CountdownTimer::new(DESPAWN_DELAY) }
    }
}

/// One frame of the tearing scene's despawn system: advances the countdown
/// by the frame's `delta` milliseconds and decides whether the marked joints
/// are to be despawned now — exactly once, on the tick that crosses the
/// deadline.
pub fn despawn(resource: &mut DespawnResource, delta: u64) -> (despawn_now: bool)
    requires
        old(resource).timer.wf(),
    ensures
        final(resource).timer.wf(),
        final(resource).timer.duration == old(resource).timer.duration,
        despawn_now == (!old(resource).timer.spec_finished() && old(resource).timer.elapsed
            + delta >= old(resource).timer.duration),
        final(resource).timer.spec_finished() == (old(resource).timer.elapsed + delta >= old(
            resource,
        ).timer.duration),
{
    resource.timer.tick(delta)
}

} // verus!
