//! Activity tracking and adaptive frame rate.
//!
//! Desktop renders at 60 FPS while the user is active and 30 FPS once no
//! input arrived for 5 s; mobile renders at 30 FPS active and 15 FPS after
//! 3 s without input.

use crate::clock::{duration_as_nanos, duration_nanos, duration_of_micros, micros_duration};
use std::time::Duration;
use std::time::Instant;
use vstd::prelude::*;

verus! {

/// Idle threshold of a desktop tracker (seconds).
pub const DESKTOP_IDLE_SECS: u64 = 5;

/// Idle threshold of a mobile tracker (seconds).
pub const MOBILE_IDLE_SECS: u64 = 3;

/// Whether a tracker with the given threshold is idle after `elapsed_ns`
/// nanoseconds without input: strictly more than the threshold.
pub open spec fn idle_after(elapsed_ns: int, threshold_secs: int) -> bool {
    elapsed_ns > threshold_secs * 1_000_000_000
}

/// Frames per second for a platform and an activity state.
pub open spec fn fps_for(is_mobile: bool, idle: bool) -> u32 {
    if is_mobile {
        if idle { 15 } else { 30 }
    } else {
        if idle { 30 } else { 60 }
    }
}

/// Microseconds per frame at `fps` frames per second.
pub open spec fn micros_per_frame(fps: u32) -> u64
    recommends
        fps > 0,
{
    (1_000_000int / (fps as int)) as u64
}

/// Tracks user input to throttle rendering when the user is idle.
pub struct ActivityTracker {
    /// When the last input was seen.
    pub last_input: Instant,
    idle_threshold_secs: u64,
    is_mobile: bool,
}

impl ActivityTracker {
    /// Whether this is a mobile tracker.
    pub closed spec fn mobile(&self) -> bool {
        self.is_mobile
    }

    /// The idle threshold in seconds.
    pub closed spec fn threshold_secs(&self) -> nat {
        self.idle_threshold_secs as nat
    }

    /// When the last input was seen.
    pub closed spec fn last_input_at(&self) -> Instant {
        self.last_input
    }

    /// A desktop tracker (5 s idle threshold), active now.
    pub fn new() -> (t: Self)
        ensures
            !t.mobile(),
            t.threshold_secs() == DESKTOP_IDLE_SECS,
    {
        ActivityTracker {
            last_input: Instant::now(),
            idle_threshold_secs: DESKTOP_IDLE_SECS,
            is_mobile: false,
        }
    }

    /// A mobile tracker (3 s idle threshold), active now.
    pub fn new_mobile() -> (t: Self)
        ensures
            t.mobile(),
            t.threshold_secs() == MOBILE_IDLE_SECS,
    {
        ActivityTracker {
            last_input: Instant::now(),
            idle_threshold_secs: MOBILE_IDLE_SECS,
            is_mobile: true,
        }
    }

    /// Record user input (keyboard, mouse, touch) now.
    pub fn on_input(&mut self)
        ensures
            call_ensures(Instant::now, (), final(self).last_input_at()),
            final(self).mobile() == old(self).mobile(),
            final(self).threshold_secs() == old(self).threshold_secs(),
    {
        self.last_input = Instant::now();
    }

    /// Whether the tracker is idle after `elapsed_ns` nanoseconds without
    /// input.
    pub fn is_idle_after(&self, elapsed_ns: u128) -> (b: bool)
        ensures
            b == idle_after(elapsed_ns as int, self.threshold_secs() as int),
    {
        elapsed_ns > self.idle_threshold_secs as u128 * 1_000_000_000
    }

    /// Whether no input arrived for longer than the idle threshold, by the
    /// time elapsed since the last input as the clock reads it.
    pub fn is_idle(&self) -> (b: bool)
        ensures
            exists|d: Duration|
                #![trigger call_ensures(Instant::elapsed, (&self.last_input_at(),), d)]
                call_ensures(Instant::elapsed, (&self.last_input_at(),), d) && b == idle_after(
                    duration_as_nanos(d) as int,
                    self.threshold_secs() as int,
                ),
    {
        let d = self.last_input.elapsed();
        proof {
            assert(call_ensures(Instant::elapsed, (&self.last_input_at(),), d));
        }
        self.is_idle_after(duration_nanos(&d))
    }

    /// Target frames per second after `elapsed_ns` nanoseconds without input.
    pub fn target_fps_after(&self, elapsed_ns: u128) -> (fps: u32)
        ensures
            fps == fps_for(self.mobile(), idle_after(elapsed_ns as int, self.threshold_secs() as int)),
    {
        let idle = self.is_idle_after(elapsed_ns);
        if self.is_mobile {
            if idle { 15 } else { 30 }
        } else {
            if idle { 30 } else { 60 }
        }
    }

    /// Target frames per second: desktop 60 active / 30 idle, mobile
    /// 30 active / 15 idle, by the time elapsed since the last input as the
    /// clock reads it.
    pub fn target_fps(&self) -> (fps: u32)
        ensures
            exists|d: Duration|
                #![trigger call_ensures(Instant::elapsed, (&self.last_input_at(),), d)]
                call_ensures(Instant::elapsed, (&self.last_input_at(),), d) && fps == fps_for(
                    self.mobile(),
                    idle_after(duration_as_nanos(d) as int, self.threshold_secs() as int),
                ),
    {
        let d = self.last_input.elapsed();
        proof {
            assert(call_ensures(Instant::elapsed, (&self.last_input_at(),), d));
        }
        self.target_fps_after(duration_nanos(&d))
    }

    /// Microseconds between frames after `elapsed_ns` nanoseconds without
    /// input.
    pub fn frame_micros_after(&self, elapsed_ns: u128) -> (m: u64)
        ensures
            m == micros_per_frame(
                fps_for(self.mobile(), idle_after(elapsed_ns as int, self.threshold_secs() as int)),
            ),
    {
        let fps = self.target_fps_after(elapsed_ns);
        1_000_000 / fps as u64
    }

    /// Time to wait between frames at the current target rate (as of the
    /// clock's reading of the time since the last input).
    pub fn frame_duration(&self) -> (d: Duration)
        ensures
            exists|since: Duration|
                #![trigger call_ensures(Instant::elapsed, (&self.last_input_at(),), since)]
                call_ensures(Instant::elapsed, (&self.last_input_at(),), since) && d
                    == duration_of_micros(
                    micros_per_frame(
                        fps_for(
                            self.mobile(),
                            idle_after(duration_as_nanos(since) as int, self.threshold_secs() as int),
                        ),
                    ),
                ),
    {
        let since = self.last_input.elapsed();
        proof {
            assert(call_ensures(Instant::elapsed, (&self.last_input_at(),), since));
        }
        micros_duration(self.frame_micros_after(duration_nanos(&since)))
    }

    /// Time since the last input, as the clock reads it.
    pub fn idle_duration(&self) -> (d: Duration)
        ensures
            call_ensures(Instant::elapsed, (&self.last_input_at(),), d),
    {
        self.last_input.elapsed()
    }
}

impl Default for ActivityTracker {
    fn default() -> (t: Self)
        ensures
            !t.mobile(),
            t.threshold_secs() == DESKTOP_IDLE_SECS,
    {
        ActivityTracker::new()
    }
}

/// Going idle never raises the frame rate: on each platform the idle rate is
/// half the active rate.
pub proof fn lemma_idle_halves_fps(is_mobile: bool)
    ensures
        fps_for(is_mobile, true) * 2 == fps_for(is_mobile, false),
{
}

/// A frame lasts `1_000_000 / fps` microseconds; at every rate the tracker
/// picks, the frames of one second fit in one second.
pub proof fn lemma_frames_fit_in_a_second(is_mobile: bool, idle: bool)
    ensures
        micros_per_frame(fps_for(is_mobile, idle)) * fps_for(is_mobile, idle) <= 1_000_000,
        micros_per_frame(fps_for(is_mobile, idle)) > 0,
{
    let f = fps_for(is_mobile, idle);
    assert(micros_per_frame(f) * f <= 1_000_000) by (nonlinear_arith)
        requires
            f == 15 || f == 30 || f == 60,
            micros_per_frame(f) == 1_000_000int / (f as int),
    ;
}

/// Idleness is monotone in time: once idle, a tracker stays idle as long
/// as no input arrives.
pub proof fn lemma_idle_is_monotone(e1: int, e2: int, threshold_secs: int)
    requires
        e1 <= e2,
        idle_after(e1, threshold_secs),
    ensures
        idle_after(e2, threshold_secs),
{
}

} // verus!
