//! The counters of a host loop: the time that has passed and the steps that
//! a behaviour has taken.

use vstd::prelude::*;

verus! {

/// `total + step`, starting again from 0 above `u64::MAX`.
pub open spec fn wrapped_sum_u64(total: u64, step: u64) -> u64 {
    if total + step > u64::MAX {
        (total + step - u64::MAX - 1) as u64
    } else {
        (total + step) as u64
    }
}

/// The time that has passed on the animation's clock, in milliseconds. Its
/// view is that number.
pub struct FrameClock {
    elapsed_ms: u64,
}

impl View for FrameClock {
    type V = u64;

    closed spec fn view(&self) -> u64 {
        self.elapsed_ms
    }
}

impl FrameClock {
    /// A clock at 0.
    pub fn new() -> (clock: FrameClock)
        ensures
            clock@ == 0,
    {
        FrameClock { elapsed_ms: 0 }
    }

    /// Counts a frame of `frame_ms` milliseconds and gives the time that had
    /// passed before it: the first frame of a run is polled at 0.
    pub fn advance(&mut self, frame_ms: u64) -> (before: u64)
        ensures
            before == old(self)@,
            final(self)@ == wrapped_sum_u64(old(self)@, frame_ms),
    {
        let before: u64 = self.elapsed_ms;
        self.elapsed_ms = before.wrapping_add(frame_ms);
        before
    }
}

/// The number of steps that a behaviour has taken. Its view is that number.
pub struct StepCounter {
    count: u32,
}

impl View for StepCounter {
    type V = u32;

    closed spec fn view(&self) -> u32 {
        self.count
    }
}

impl StepCounter {
    /// A counter at 0.
    pub fn new() -> (counter: StepCounter)
        ensures
            counter@ == 0,
    {
        StepCounter { count: 0 }
    }

    /// Counts one step and gives its number, from 0, as long as that is at
    /// most `limit`. Steps beyond the limit are counted and not numbered;
    /// above `u32::MAX` the count starts again from 0.
    pub fn step(&mut self, limit: u32) -> (number: Option<u32>)
        ensures
            number == (if old(self)@ <= limit {
                Some(old(self)@)
            } else {
                None
            }),
            final(self)@ == (if old(self)@ == u32::MAX {
                0u32
            } else {
                (old(self)@ + 1) as u32
            }),
    {
        let number: u32 = self.count;
        self.count = number.wrapping_add(1);
        if number <= limit {
            Some(number)
        } else {
            None
        }
    }
}

/// As long as the clock does not wrap, it shows the sum of the frames
/// counted, and each frame is polled at the sum of the frames before it.
pub proof fn lemma_clock_adds_up(total: u64, frame_ms: u64)
    requires
        total + frame_ms <= u64::MAX,
    ensures
        wrapped_sum_u64(total, frame_ms) == total + frame_ms,
{
}

} // verus!
