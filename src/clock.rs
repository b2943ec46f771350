use crate::selector::{select_window, window_start};
use std::time::Instant;
use vstd::prelude::*;

verus! {

#[verifier::external_type_specification]
#[verifier::external_body]
pub struct ExInstant(Instant);

/// Relies on `std::time::Instant::elapsed` (read as whole nanoseconds through
/// `Duration::as_nanos`): the time that has passed since `start`. It depends
/// on the system clock, so nothing is promised of the value.
#[verifier::external_body]
fn elapsed_since(start: &Instant) -> (r: u128) {
    start.elapsed().as_nanos()
}

/// Playback position against wall-clock time: the instant playback began and
/// the total length of the track.
pub struct PlaybackClock {
    start: Instant,
    duration_nanos: u64,
}

impl PlaybackClock {
    /// Total length of the track, in nanoseconds.
    pub closed spec fn duration(&self) -> nat {
        self.duration_nanos as nat
    }

    /// The instant playback began.
    pub closed spec fn start(&self) -> Instant {
        self.start
    }

    /// The length of the track is never zero: progress divides by it.
    #[verifier::type_invariant]
    spec fn positive_duration(&self) -> bool {
        self.duration_nanos > 0
    }

    pub fn new(start: Instant, duration_nanos: u64) -> (r: Self)
        requires
            duration_nanos > 0,
        ensures
            r.start() == start,
            r.duration() == duration_nanos,
    {
        Self { start, duration_nanos }
    }

    pub fn duration_nanos(&self) -> (r: u64)
        ensures
            r == self.duration(),
            r > 0,
    {
        proof {
            use_type_invariant(self);
        }
        self.duration_nanos
    }

    /// Nanoseconds passed since playback began, read from the system clock.
    pub fn elapsed_nanos(&self) -> u128 {
        elapsed_since(&self.start)
    }

    /// The first sample of the window to analyse now, in a track of
    /// `sample_count` samples; `None` when the window would reach the end.
    /// Whatever the clock reads, the answer is the selection for some elapsed
    /// time.
    pub fn current_window_start(&self, sample_count: usize) -> (r: Option<usize>)
        ensures
            exists|e: nat|
                match #[trigger] window_start(sample_count as nat, e, self.duration()) {
                    Some(s) => r == Some(s as usize),
                    None => r is None,
                },
    {
        let d = self.duration_nanos();
        let e = self.elapsed_nanos();
        let r = select_window(sample_count, e, d);
        assert(match window_start(sample_count as nat, e as nat, self.duration()) {
            Some(s) => r == Some(s as usize),
            None => r is None,
        });
        r
    }
}

} // verus!
