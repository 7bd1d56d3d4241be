//! Timing of the frames the engine renders: which frame it is, when it started and how
//! long the one before took.
use vstd::prelude::*;
use std::time::{Duration, Instant};

verus! {

/// `std::time::Instant`, carried through as an opaque value.
#[verifier::external_type_specification]
#[verifier::external_body]
pub struct ExInstant(Instant);

/// What `Duration::from_millis` gives for `millis`.
pub uninterp spec fn duration_of_millis(millis: u64) -> Duration;

/// What `later - earlier` gives for two instants (the time between them, zero when
/// `earlier` is the later one).
pub uninterp spec fn elapsed_between(later: Instant, earlier: Instant) -> Duration;

/// `Instant::now()`: the current time. Nothing is stated of it, as it depends on the clock.
#[verifier::external_body]
fn instant_now() -> Instant {
    Instant::now()
}

/// `Duration::from_millis(millis)`, a function of `millis` alone.
#[verifier::external_body]
fn duration_from_millis(millis: u64) -> (r: Duration)
    ensures
        r == duration_of_millis(millis),
{
    Duration::from_millis(millis)
}

/// `later - earlier` on instants (`Instant::duration_since`, which saturates at zero),
/// a function of the two instants alone.
#[verifier::external_body]
fn duration_between(later: Instant, earlier: Instant) -> (r: Duration)
    ensures
        r == elapsed_between(later, earlier),
{
    later - earlier
}

/// The frame being rendered: its number, when it started, how long the previous frame
/// took, when the previous one started and when the application started.
#[derive(Debug, Clone, Copy)]
pub struct FrameInfo {
    pub current_frame_index: u32,
    pub current_frame_time: Instant,
    pub current_frame_delta_time: Duration,
    pub last_frame_start_time: Instant,
    pub app_start_time: Instant,
}

impl Default for FrameInfo {
    /// Frame zero, with no time elapsed; all instants are read from the clock.
    fn default() -> (r: Self)
        ensures
            r.current_frame_index == 0,
            r.current_frame_delta_time == duration_of_millis(0),
    {
        FrameInfo {
            current_frame_index: 0,
            current_frame_time: instant_now(),
            current_frame_delta_time: duration_from_millis(0),
            last_frame_start_time: instant_now(),
            app_start_time: instant_now(),
        }
    }
}

impl FrameInfo {
    /// Starts a frame at `now`: it becomes the current frame time, and the time since the
    /// previous frame started becomes the delta time.
    pub fn begin_frame(&mut self, now: Instant)
        ensures
            *final(self) == (FrameInfo {
                current_frame_time: now,
                current_frame_delta_time: elapsed_between(now, old(self).last_frame_start_time),
                ..*old(self)
            }),
    {
        self.current_frame_delta_time = duration_between(now, self.last_frame_start_time);
        self.current_frame_time = now;
    }

    /// Starts a frame now, as read from the clock; the delta time is measured from the
    /// previous frame's start to that instant.
    pub fn start_frame(&mut self)
        ensures
            final(self).current_frame_delta_time == elapsed_between(
                final(self).current_frame_time,
                old(self).last_frame_start_time,
            ),
            final(self).current_frame_index == old(self).current_frame_index,
            final(self).last_frame_start_time == old(self).last_frame_start_time,
            final(self).app_start_time == old(self).app_start_time,
    {
        let now = instant_now();
        self.begin_frame(now);
    }

    /// After the scene has been updated: the current frame's start becomes the start the
    /// next frame measures from.
    pub fn end_update(&mut self)
        ensures
            *final(self) == (FrameInfo {
                last_frame_start_time: old(self).current_frame_time,
                ..*old(self)
            }),
    {
        self.last_frame_start_time = self.current_frame_time;
    }

    /// After a frame was rendered: the next frame's number.
    pub fn end_frame(&mut self)
        requires
            old(self).current_frame_index < u32::MAX,
        ensures
            *final(self) == (FrameInfo {
                current_frame_index: (old(self).current_frame_index + 1) as u32,
                ..*old(self)
            }),
    {
        self.current_frame_index = self.current_frame_index + 1;
    }
}

} // verus!
