use crate::frame_rate::{kept, window, FrameRate};
use vstd::prelude::*;

verus! {

/// Per-frame timing: the time of the previous frame, and the window of
/// recent frame times from which the frame rate is measured. Times are
/// microseconds since the Unix epoch.
pub struct FrameClock {
    pub frame_rate: FrameRate,
    pub last_frame_time: i64,
}

impl FrameClock {
    /// A clock started at `now`, measuring the frame rate over the last
    /// `max_store` frames.
    pub fn new(max_store: usize, now: i64) -> (r: Self)
        requires
            max_store >= 2,
        ensures
            r.last_frame_time == now,
            r.frame_rate@ == Seq::<i64>::empty(),
            r.frame_rate.max_store() == max_store,
    {
        FrameClock { frame_rate: FrameRate::new(max_store), last_frame_time: now }
    }

    /// Starts a frame at `current_time`: returns the time since the previous
    /// frame, makes `current_time` the previous frame's time and records it
    /// in the frame-rate window.
    pub fn tick(&mut self, current_time: i64) -> (delta: i64)
        requires
            i64::MIN <= current_time - old(self).last_frame_time <= i64::MAX,
        ensures
            delta == current_time - old(self).last_frame_time,
            final(self).last_frame_time == current_time,
            final(self).frame_rate@ == window(
                old(self).frame_rate@.push(current_time),
                old(self).frame_rate.max_store(),
            ),
            final(self).frame_rate.max_store() == old(self).frame_rate.max_store(),
            final(self).frame_rate@.last() == current_time,
            final(self).frame_rate@.len() == kept(
                old(self).frame_rate@.len() + 1,
                old(self).frame_rate.max_store(),
            ),
    {
        let delta = current_time - self.last_frame_time;
        self.last_frame_time = current_time;
        self.frame_rate.add(current_time);
        delta
    }
}

} // verus!
