use crate::clock::PlaybackClock;
use crate::selector::{select_window, window_start, FFT_SIZE};
use crate::visual::{keep_last, Visual};
use std::time::Instant;
use vstd::prelude::*;

verus! {

/// The `FFT_SIZE` samples of `samples` that start at `start`.
pub open spec fn window_of(samples: Seq<i16>, start: nat) -> Seq<i16> {
    samples.subrange(start as int, start + FFT_SIZE)
}

/// The samples to analyse at `elapsed` out of `duration`, if any.
pub open spec fn window_at_spec(samples: Seq<i16>, elapsed: nat, duration: nat) -> Option<
    Seq<i16>,
> {
    match window_start(samples.len(), elapsed, duration) {
        Some(s) => Some(window_of(samples, s)),
        None => None,
    }
}

/// Copies the `FFT_SIZE` samples that start at `start`.
pub fn copy_window(samples: &Vec<i16>, start: usize) -> (r: Vec<i16>)
    requires
        start + FFT_SIZE <= samples@.len(),
    ensures
        r@ == window_of(samples@, start as nat),
{
    let mut out: Vec<i16> = Vec::with_capacity(FFT_SIZE);
    let mut i: usize = start;
    let len = samples.len();
    let end: usize = start + FFT_SIZE;
    while i < end
        invariant
            start <= i <= end,
            end == start + FFT_SIZE,
            end <= len,
            len == samples@.len(),
            out@ == samples@.subrange(start as int, i as int),
        decreases end - i,
    {
        out.push(samples[i]);
        i = i + 1;
        assert(out@ =~= samples@.subrange(start as int, i as int));
    }
    out
}

/// One playback session: the decoded samples of the whole track, the clock
/// that says where playback stands, and the buffer of magnitudes drawn on
/// screen.
pub struct App<T> {
    visual: Visual<T>,
    clock: PlaybackClock,
    samples: Vec<i16>,
}

impl<T> App<T> {
    /// The decoded samples, in temporal order.
    pub closed spec fn sample_seq(&self) -> Seq<i16> {
        self.samples@
    }

    /// The magnitudes currently held for drawing, oldest first.
    pub closed spec fn buffer(&self) -> Seq<T> {
        self.visual@
    }

    /// Capacity of the buffer of magnitudes.
    pub closed spec fn capacity(&self) -> nat {
        self.visual.capacity()
    }

    /// The instant playback began.
    pub closed spec fn start(&self) -> Instant {
        self.clock.start()
    }

    /// Total length of the track, in nanoseconds.
    pub closed spec fn duration(&self) -> nat {
        self.clock.duration()
    }

    pub fn new(window_size: usize, duration_nanos: u64, start: Instant, samples: Vec<i16>) -> (r:
        Self)
        requires
            duration_nanos > 0,
        ensures
            r.sample_seq() == samples@,
            r.buffer() == Seq::<T>::empty(),
            r.capacity() == window_size,
            r.start() == start,
            r.duration() == duration_nanos,
    {
        Self {
            visual: Visual::new(window_size),
            clock: PlaybackClock::new(start, duration_nanos),
            samples,
        }
    }

    /// The buffer of magnitudes, for drawing.
    pub fn visual(&self) -> (r: &Visual<T>)
        ensures
            r@ == self.buffer(),
            r.capacity() == self.capacity(),
    {
        &self.visual
    }

    /// The samples to analyse when `elapsed_nanos` of playback have passed:
    /// `None` when the window would reach the end of the track.
    pub fn window_at(&self, elapsed_nanos: u128) -> (r: Option<Vec<i16>>)
        ensures
            match window_at_spec(self.sample_seq(), elapsed_nanos as nat, self.duration()) {
                Some(w) => r matches Some(v) && v@ == w,
                None => r is None,
            },
    {
        let d = self.clock.duration_nanos();
        match select_window(self.samples.len(), elapsed_nanos, d) {
            Some(s) => Some(copy_window(&self.samples, s)),
            None => None,
        }
    }

    /// The samples to analyse now, by the system clock. Whatever the clock
    /// reads, the answer is the window for some elapsed time.
    pub fn current_window(&self) -> (r: Option<Vec<i16>>)
        ensures
            exists|e: nat|
                match #[trigger] window_at_spec(self.sample_seq(), e, self.duration()) {
                    Some(w) => r matches Some(v) && v@ == w,
                    None => r is None,
                },
    {
        let e = self.clock.elapsed_nanos();
        let r = self.window_at(e);
        assert(match window_at_spec(self.sample_seq(), e as nat, self.duration()) {
            Some(w) => r matches Some(v) && v@ == w,
            None => r is None,
        });
        r
    }
}

impl<T: Copy> App<T> {
    /// Publishes one tick's magnitudes into the buffer as a single update.
    pub fn publish(&mut self, magnitudes: &Vec<T>)
        ensures
            final(self).buffer() == keep_last(old(self).buffer() + magnitudes@, old(self).capacity()),
            final(self).capacity() == old(self).capacity(),
            final(self).sample_seq() == old(self).sample_seq(),
            final(self).duration() == old(self).duration(),
            final(self).buffer().len() <= final(self).capacity(),
    {
        self.visual.push_batch(magnitudes);
    }

    /// A copy of the magnitudes held for drawing, oldest first.
    pub fn snapshot(&self) -> (r: Vec<T>)
        ensures
            r@ == self.buffer(),
    {
        self.visual.snapshot()
    }
}

} // verus!
