//! The decisions of the frame loop: what an event changes, how long a frame
//! may take, and what to do once a frame is drawn.

use crate::common::Size;
use vstd::prelude::*;

verus! {

/// What the loop reads from one event of the window system.
#[derive(Clone, Copy, Debug, PartialEq, Eq, Structural)]
pub enum LoopEvent {
    /// The user asked to leave.
    Quit,
    /// The window now has this width and height.
    Resized(i32, i32),
    /// Anything else.
    Other,
}

/// The window size in pixels and whether the loop goes on.
#[derive(Clone, Copy, Debug, PartialEq, Eq, Structural)]
pub struct LoopState {
    pub size: Size,
    pub running: bool,
}

/// What to do after a frame was presented.
#[derive(Clone, Copy, Debug, PartialEq, Eq, Structural)]
pub enum Pace {
    /// The frame was fast: sleep for this many nanoseconds.
    Sleep(u64),
    /// The frame took its whole time or more: go on at once and say so.
    Overrun,
}

/// The sum of the frame times and the number of frames so far.
#[derive(Clone, Copy, Debug, PartialEq, Eq, Structural)]
pub struct FrameStats {
    pub total_frame_time: u128,
    pub num_frames: u128,
}

/// The state after `event`: a quit stops the loop, a resize sets the size
/// (each number taken as unsigned, bit for bit), anything else changes nothing.
pub open spec fn after_event(state: LoopState, event: LoopEvent) -> LoopState {
    match event {
        LoopEvent::Quit => LoopState { running: false, ..state },
        LoopEvent::Resized(w, h) => LoopState {
            size: Size { w: w as u32, h: h as u32 },
            ..state
        },
        LoopEvent::Other => state,
    }
}

/// Takes one event into the state of the loop.
pub fn handle_event(state: LoopState, event: LoopEvent) -> (next: LoopState)
    ensures
        next == after_event(state, event),
{
    match event {
        LoopEvent::Quit => LoopState { size: state.size, running: false },
        LoopEvent::Resized(w, h) => {
            let width = #[verifier::truncate]
            (w as u32);
            let height = #[verifier::truncate]
            (h as u32);
            LoopState { size: Size { w: width, h: height }, running: state.running }
        },
        LoopEvent::Other => state,
    }
}

/// The time one frame may take at `fps` frames a second, in nanoseconds,
/// rounded down.
pub fn wait_time_nanos(fps: i32) -> (nanos: u64)
    requires
        fps > 0,
    ensures
        nanos == 1_000_000_000int / (fps as int),
{
    (1_000_000_000i32 / fps) as u64
}

/// A frame that took less than its time is followed by a sleep for the rest
/// of it; any other frame is an overrun.
pub fn pace(frame_nanos: u128, wait_nanos: u64) -> (p: Pace)
    ensures
        frame_nanos < wait_nanos ==> p == Pace::Sleep((wait_nanos - frame_nanos) as u64),
        frame_nanos >= wait_nanos ==> p == Pace::Overrun,
{
    if frame_nanos < wait_nanos as u128 {
        Pace::Sleep(wait_nanos - frame_nanos as u64)
    } else {
        Pace::Overrun
    }
}

impl FrameStats {
    /// No frame yet.
    pub fn new() -> (s: FrameStats)
        ensures
            s == (FrameStats { total_frame_time: 0, num_frames: 0 }),
    {
        FrameStats { total_frame_time: 0, num_frames: 0 }
    }

    /// Counts one more frame that took `frame_nanos`.
    pub fn record(&mut self, frame_nanos: u128)
        requires
            old(self).total_frame_time + frame_nanos <= u128::MAX,
            old(self).num_frames < u128::MAX,
        ensures
            final(self).total_frame_time == old(self).total_frame_time + frame_nanos,
            final(self).num_frames == old(self).num_frames + 1,
    {
        self.total_frame_time = self.total_frame_time + frame_nanos;
        self.num_frames = self.num_frames + 1;
    }
}

} // verus!
