use spectrum_viz::{copy_window, select_window, App, PlaybackClock, Visual, FFT_SIZE};
use std::time::Instant;

fn ramp(n: usize) -> Vec<i16> {
    (0..n).map(|i| (i % 30000) as i16).collect()
}

#[test]
fn midpoint_of_long_track_selects_window() {
    assert_eq!(FFT_SIZE, 128);
    assert_eq!(select_window(10000, 1, 2), Some(5000));
    let samples = ramp(10000);
    let w = copy_window(&samples, 5000);
    assert_eq!(w.len(), 128);
    assert_eq!(w[..], samples[5000..5128]);
}

#[test]
fn window_past_end_of_short_track_is_skipped() {
    // progress 0.9 of 200 samples: start 180, end 308 >= 200
    assert_eq!(select_window(200, 9, 10), None);
}

#[test]
fn window_touching_the_end_is_skipped() {
    // start 72: 72 + 128 == 200, not strictly below the sample count
    assert_eq!(select_window(200, 36, 100), None);
    // start 71: 71 + 128 == 199 < 200
    assert_eq!(select_window(200, 71, 200), Some(71));
}

#[test]
fn no_window_at_or_after_end_of_track() {
    assert_eq!(select_window(10000, 2, 2), None);
    assert_eq!(select_window(10000, 5, 2), None);
    assert_eq!(select_window(10000, u128::MAX, 1), None);
}

#[test]
fn no_window_in_track_shorter_than_transform() {
    assert_eq!(select_window(0, 0, 1), None);
    assert_eq!(select_window(128, 0, 1), None);
    assert_eq!(select_window(129, 0, 1), Some(0));
}

#[test]
fn start_index_rounds_down() {
    // 1000 * 1 / 3 = 333.33...
    assert_eq!(select_window(1000, 1, 3), Some(333));
    // the threshold (n - FFT_SIZE) / n = 872 / 1000 gives no window
    assert_eq!(select_window(1000, 872, 1000), None);
    assert_eq!(select_window(1000, 871, 1000), Some(871));
}

#[test]
fn large_values_do_not_overflow() {
    let n = usize::MAX;
    let d = u64::MAX;
    // with n == d the start index is the elapsed time itself
    assert_eq!(select_window(n, (d / 2) as u128, d), Some((d / 2) as usize));
    assert_eq!(select_window(n, (d - 128) as u128, d), None);
    assert_eq!(select_window(n, (d - 129) as u128, d), Some(n - 129));
}

#[test]
fn clock_reports_positive_duration() {
    let c = PlaybackClock::new(Instant::now(), 7);
    assert_eq!(c.duration_nanos(), 7);
}

#[test]
fn clock_at_start_of_long_track_selects_first_window() {
    let c = PlaybackClock::new(Instant::now(), u64::MAX);
    assert_eq!(c.current_window_start(10000), Some(0));
}

#[test]
fn clock_after_end_of_short_track_selects_nothing() {
    let earlier = Instant::now()
        .checked_sub(std::time::Duration::from_secs(1))
        .unwrap();
    let c = PlaybackClock::new(earlier, 1);
    assert!(c.elapsed_nanos() >= 1_000_000_000);
    assert_eq!(c.current_window_start(10000), None);
}

#[test]
fn app_window_at_matches_selection() {
    let samples = ramp(10000);
    let app: App<f32> = App::new(FFT_SIZE, 2_000_000_000, Instant::now(), samples.clone());
    let w = app.window_at(1_000_000_000).unwrap();
    assert_eq!(w[..], samples[5000..5128]);
    assert!(app.window_at(2_000_000_000).is_none());
    let short: App<f32> = App::new(FFT_SIZE, 10, Instant::now(), ramp(200));
    assert!(short.window_at(9).is_none());
}

#[test]
fn app_current_window_at_start() {
    let samples = ramp(1000);
    let app: App<f32> = App::new(FFT_SIZE, u64::MAX, Instant::now(), samples.clone());
    let w = app.current_window().unwrap();
    assert_eq!(w[..], samples[0..128]);
}

#[test]
fn app_publish_replaces_previous_tick() {
    let mut app: App<f32> = App::new(4, 1, Instant::now(), ramp(10));
    assert!(app.snapshot().is_empty());
    app.publish(&vec![1.0, 2.0, 3.0, 4.0]);
    assert_eq!(app.snapshot(), vec![1.0, 2.0, 3.0, 4.0]);
    app.publish(&vec![5.0, 6.0, 7.0, 8.0]);
    assert_eq!(app.snapshot(), vec![5.0, 6.0, 7.0, 8.0]);
    assert_eq!(app.visual().len(), 4);
    assert_eq!(app.visual().window_size(), 4);
}

#[test]
fn visual_push_evicts_oldest() {
    let mut v: Visual<u32> = Visual::new(3);
    assert_eq!(v.len(), 0);
    for x in 1..=5u32 {
        v.push(x);
        assert!(v.len() <= 3);
    }
    assert_eq!(v.len(), 3);
    assert_eq!(v.snapshot(), vec![3, 4, 5]);
}

#[test]
fn visual_below_capacity_keeps_everything() {
    let mut v: Visual<u32> = Visual::new(5);
    v.push(9);
    v.push(8);
    assert_eq!(v.snapshot(), vec![9, 8]);
    assert_eq!(v.window_size(), 5);
}

#[test]
fn visual_zero_capacity_holds_nothing() {
    let mut v: Visual<u32> = Visual::new(0);
    v.push(1);
    v.push_batch(&vec![2, 3]);
    assert_eq!(v.len(), 0);
}

#[test]
fn visual_batch_keeps_last_values_in_order() {
    let mut v: Visual<i64> = Visual::new(4);
    v.push_batch(&vec![1, 2]);
    v.push_batch(&vec![3, 4, 5]);
    assert_eq!(v.snapshot(), vec![2, 3, 4, 5]);
    v.push_batch(&(10..20).collect::<Vec<i64>>());
    assert_eq!(v.snapshot(), vec![16, 17, 18, 19]);
}

#[test]
fn visual_full_batches_never_mix_ticks() {
    let mut v: Visual<u32> = Visual::new(128);
    for tick in 0..5u32 {
        let batch: Vec<u32> = (0..128).map(|i| tick * 1000 + i).collect();
        v.push_batch(&batch);
        let snap = v.snapshot();
        assert_eq!(snap.len(), 128);
        assert!(snap.iter().all(|x| x / 1000 == tick));
        assert_eq!(snap, batch);
    }
}
