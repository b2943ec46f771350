use vstd::prelude::*;

verus! {

/// Width of the transform: the number of consecutive samples analysed at once.
pub const FFT_SIZE: usize = 128;

/// Index of the first sample of the window at progress `elapsed / duration`
/// through a track of `sample_count` samples: `floor(sample_count * progress)`.
pub open spec fn start_index(sample_count: nat, elapsed: nat, duration: nat) -> nat
    recommends
        duration > 0,
{
    (sample_count * elapsed) / duration
}

/// The window to analyse at progress `elapsed / duration`, if any: it starts at
/// `start_index` and is valid only when its end stays strictly below the
/// sample count. Progress is not clamped; past the end there is no window.
pub open spec fn window_start(sample_count: nat, elapsed: nat, duration: nat) -> Option<nat>
    recommends
        duration > 0,
{
    let s = start_index(sample_count, elapsed, duration);
    if s + FFT_SIZE < sample_count {
        Some(s)
    } else {
        None
    }
}

/// Selects the first sample of the window for the playback instant at which
/// `elapsed_nanos` out of `duration_nanos` have passed.
pub fn select_window(sample_count: usize, elapsed_nanos: u128, duration_nanos: u64) -> (r: Option<
    usize,
>)
    requires
        duration_nanos > 0,
    ensures
        r matches Some(s) ==> window_start(sample_count as nat, elapsed_nanos as nat, duration_nanos as nat) == Some(s as nat),
        r is None ==> window_start(sample_count as nat, elapsed_nanos as nat, duration_nanos as nat) is None,
{
    let ghost n = sample_count as nat;
    let ghost e = elapsed_nanos as nat;
    let ghost d = duration_nanos as nat;
    if elapsed_nanos >= duration_nanos as u128 {
        proof {
            assert(n * e >= n * d) by (nonlinear_arith)
                requires
                    e >= d,
            ;
            assert((n * e) / d >= n) by (nonlinear_arith)
                requires
                    n * e >= n * d,
                    d > 0,
            ;
        }
        return None;
    }
    proof {
        assert(n * e <= n * d) by (nonlinear_arith)
            requires
                e < d,
        ;
        assert(n * e <= 0xffff_ffff_ffff_ffff * 0xffff_ffff_ffff_ffff) by (nonlinear_arith)
            requires
                n <= 0xffff_ffff_ffff_ffff,
                e <= 0xffff_ffff_ffff_ffff,
        ;
    }
    let product: u128 = sample_count as u128 * elapsed_nanos;
    let start: u128 = product / duration_nanos as u128;
    proof {
        assert((n * e) / d <= n) by (nonlinear_arith)
            requires
                n * e <= n * d,
                d > 0,
        ;
    }
    let start: usize = start as usize;
    if sample_count > FFT_SIZE && start < sample_count - FFT_SIZE {
        Some(start)
    } else {
        None
    }
}

/// Near the end of the track there is never a window: once the progress
/// `elapsed / duration` reaches `(sample_count - FFT_SIZE) / sample_count`,
/// the selection yields none.
pub proof fn lemma_no_window_near_end(sample_count: nat, elapsed: nat, duration: nat)
    requires
        duration > 0,
        sample_count > 0,
        elapsed * sample_count >= (sample_count - FFT_SIZE) * duration,
    ensures
        window_start(sample_count, elapsed, duration) is None,
{
    let n = sample_count;
    let w = FFT_SIZE as int;
    if n > w {
        let b = (n - w) as nat;
        assert((n * elapsed) / duration >= b) by (nonlinear_arith)
            requires
                elapsed * n >= b * duration,
                duration > 0,
        ;
    }
}

} // verus!
