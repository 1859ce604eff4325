use alarm_listener::audio::{SampleFrame, DEFAULT_FRAME_LENGTH};

#[test]
fn bytes_become_samples_by_value_without_sign_extension() {
    let frame = SampleFrame::from_bytes(&vec![0x00, 0x01, 0x7f, 0x80, 0xfe, 0xff], 6);
    assert_eq!(frame.samples, vec![0, 1, 127, 128, 254, 255]);
}

#[test]
fn short_read_is_padded_with_zeros() {
    let frame = SampleFrame::from_bytes(&vec![9, 8, 7], DEFAULT_FRAME_LENGTH);
    assert_eq!(frame.len(), 1024);
    assert_eq!(&frame.samples[..4], &[9, 8, 7, 0]);
    assert!(frame.samples[3..].iter().all(|&s| s == 0));
}

#[test]
fn bytes_beyond_the_frame_are_dropped() {
    let frame = SampleFrame::from_bytes(&vec![1, 2, 3, 4, 5], 2);
    assert_eq!(frame.samples, vec![1, 2]);
    assert_eq!(SampleFrame::from_bytes(&vec![1, 2, 3], 0).samples, Vec::<i16>::new());
}

#[test]
fn first_difference_is_taken_against_the_raw_history() {
    let frame = SampleFrame { samples: vec![10, 13, 13, 4, 255, 0] };
    assert_eq!(frame.first_difference(), vec![0, 3, 0, -9, 251, -255]);
}

#[test]
fn first_difference_of_a_constant_signal_is_zero() {
    let frame = SampleFrame { samples: vec![200; 1024] };
    assert_eq!(frame.first_difference(), vec![0; 1024]);
}

#[test]
fn first_difference_spans_the_full_sample_range() {
    let frame = SampleFrame { samples: vec![i16::MIN, i16::MAX, i16::MIN] };
    assert_eq!(frame.first_difference(), vec![0, 65535, -65535]);
}

#[test]
fn first_difference_of_an_empty_or_single_frame() {
    assert_eq!(SampleFrame { samples: vec![] }.first_difference(), Vec::<i32>::new());
    assert_eq!(SampleFrame { samples: vec![-7] }.first_difference(), vec![0]);
}

#[test]
fn first_difference_carries_no_state_between_frames() {
    let a = SampleFrame { samples: vec![5, 9, 2] };
    let b = SampleFrame { samples: vec![5, 9, 2] };
    let first = a.first_difference();
    let _ = SampleFrame { samples: vec![100, -100] }.first_difference();
    assert_eq!(first, b.first_difference());
    assert_eq!(first, a.first_difference());
}

#[test]
fn scaled_difference_of_a_constant_signal_is_silent() {
    let rc = 1.0f32 / (3000.0 * 2.0 * std::f32::consts::PI);
    let dt = 1.0f32 / 8000.0;
    let alpha = dt / (rc + dt);
    let frame = SampleFrame::from_bytes(&vec![0x55; 1024], 1024);
    let filtered: Vec<i16> =
        frame.first_difference().iter().map(|&d| (alpha * d as f32) as i16).collect();
    assert!(filtered.iter().all(|&s| s == 0));
}
