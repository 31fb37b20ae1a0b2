//! Frame-rate bookkeeping: accumulates elapsed time and recomputes a
//! displayed FPS value once per accumulated second.

use vstd::prelude::*;

verus! {

pub struct System {
    /// Milliseconds accumulated towards the next FPS sample.
    pub time: u32,
    /// Frames counted since the last FPS sample.
    pub count: i32,
    /// Most recently displayed frames-per-second value.
    pub fps: i32,
}

/// The frame-rate bookkeeping after counting one frame of `dt`
/// milliseconds: once a whole second has accumulated, the frame count is
/// published as the FPS value and the next sample starts.
pub open spec fn counted_fps(s: System, dt: u32) -> System {
    if s.time + dt >= 1000 {
        System { time: (s.time + dt - 1000) as u32, count: 0, fps: (s.count + 1) as i32 }
    } else {
        System { time: (s.time + dt) as u32, count: (s.count + 1) as i32, fps: s.fps }
    }
}

impl System {
    pub fn new() -> (s: System)
        ensures
            s.time == 0,
            s.count == 0,
            s.fps == 0,
    {
        System { time: 0, count: 0, fps: 0 }
    }

    /// Counts one frame; once a whole second has accumulated, publishes the
    /// frame count as the FPS value and starts the next sample.
    pub fn count_fps(&mut self, dt: u32)
        requires
            old(self).time + dt <= u32::MAX,
            old(self).count < i32::MAX,
        ensures
            *final(self) == counted_fps(*old(self), dt),
    {
        self.time = self.time + dt;
        self.count = self.count + 1;
        if self.time >= 1000 {
            self.fps = self.count;
            self.time = self.time - 1000;
            self.count = 0;
        }
    }
}

} // verus!
