use alarm_listener::debounce::{DetectionDebouncer, DetectionState, DEFAULT_MIN_INTERVAL_MS};

fn count_triggers(debouncer: &mut DetectionDebouncer, frames: &[(bool, u64)]) -> Vec<bool> {
    frames.iter().map(|&(tone, at)| debouncer.observe(tone, at)).collect()
}

#[test]
fn bouncing_tone_within_cooldown_fires_once() {
    let mut debouncer = DetectionDebouncer::new(3_600_000);
    let fired = count_triggers(
        &mut debouncer,
        &[(false, 0), (true, 128), (true, 256), (false, 384), (true, 512)],
    );
    assert_eq!(fired, vec![false, true, false, false, false]);
}

#[test]
fn two_rising_edges_beyond_the_cooldown_fire_twice() {
    let mut debouncer = DetectionDebouncer::new(DEFAULT_MIN_INTERVAL_MS);
    let fired = count_triggers(
        &mut debouncer,
        &[(false, 0), (true, 128), (true, 256), (false, 384), (true, 5128)],
    );
    assert_eq!(fired, vec![false, true, false, false, true]);
    assert_eq!(fired.iter().filter(|&&f| f).count(), 2);
}

#[test]
fn rising_edge_just_short_of_the_cooldown_is_suppressed() {
    let mut debouncer = DetectionDebouncer::new(5000);
    assert!(debouncer.observe(true, 1000));
    assert!(!debouncer.observe(false, 2000));
    assert!(!debouncer.observe(true, 5999));
    assert!(!debouncer.observe(false, 6000));
    assert!(debouncer.observe(true, 6001));
}

#[test]
fn suppressed_edge_does_not_restart_the_cooldown() {
    let mut debouncer = DetectionDebouncer::new(5000);
    assert!(debouncer.observe(true, 0));
    assert!(!debouncer.observe(false, 100));
    assert!(!debouncer.observe(true, 4000));
    assert_eq!(debouncer.state().last_trigger_time, Some(0));
    assert!(!debouncer.observe(false, 4100));
    assert!(debouncer.observe(true, 5000));
    assert_eq!(debouncer.state().last_trigger_time, Some(5000));
}

#[test]
fn sustained_tone_fires_once_however_long_it_lasts() {
    let mut debouncer = DetectionDebouncer::new(5000);
    let mut fired = 0;
    for i in 0..200u64 {
        if debouncer.observe(true, i * 128) {
            fired += 1;
        }
    }
    assert_eq!(fired, 1);
}

#[test]
fn first_rising_edge_fires_at_once() {
    let mut debouncer = DetectionDebouncer::new(5000);
    assert_eq!(
        debouncer.state(),
        DetectionState { last_frame_tone_present: false, last_trigger_time: None }
    );
    assert!(debouncer.observe(true, 3));
    assert_eq!(
        debouncer.state(),
        DetectionState { last_frame_tone_present: true, last_trigger_time: Some(3) }
    );
}

#[test]
fn previous_frame_is_updated_whether_or_not_a_trigger_fired() {
    let mut debouncer = DetectionDebouncer::new(5000);
    assert!(debouncer.observe(true, 0));
    assert!(!debouncer.observe(false, 10));
    assert!(!debouncer.state().last_frame_tone_present);
    assert!(!debouncer.observe(true, 20));
    assert!(debouncer.state().last_frame_tone_present);
    assert_eq!(debouncer.state().last_trigger_time, Some(0));
}

#[test]
fn clock_that_goes_back_counts_as_no_time_passed() {
    let mut debouncer = DetectionDebouncer::new(5000);
    assert!(debouncer.observe(true, 10_000));
    assert!(!debouncer.observe(false, 10_001));
    assert!(!debouncer.observe(true, 2));
    let mut eager = DetectionDebouncer::new(0);
    assert!(eager.observe(true, 10_000));
    assert!(!eager.observe(false, 10_001));
    assert!(eager.observe(true, 2));
}

#[test]
fn interval_is_kept() {
    let mut debouncer = DetectionDebouncer::new(1234);
    assert_eq!(debouncer.min_interval_ms(), 1234);
    debouncer.observe(true, 0);
    assert_eq!(debouncer.min_interval_ms(), 1234);
    assert_eq!(DEFAULT_MIN_INTERVAL_MS, 5000);
}
