//! Decode-synchronised spectral visualisation core: playback clock, window
//! selection over decoded samples, and a bounded FIFO buffer of magnitudes.

mod clock;
mod pipeline;
mod selector;
mod visual;

pub use clock::PlaybackClock;
pub use pipeline::{copy_window, window_at_spec, window_of, App};
pub use selector::{lemma_no_window_near_end, select_window, start_index, window_start, FFT_SIZE};
pub use visual::{
    keep_last, lemma_batch_replaces, lemma_fifo_order, lemma_pushes_bounded, lemma_pushes_keep_last,
    pushed_one_by_one, Visual,
};
