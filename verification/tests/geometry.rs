use pcoplayer::controller::{initialize, update_height, Resizer, StreamInfo, WindowState};
use pcoplayer::geometry::{window_frame_size, GeometryError, ResizerParams, Size};

#[test]
fn worked_example_adjusted_height() {
    // chrome=(16,39), video aspect 1280/720, interface height 32, outer width 816
    // => height = 39 + (816-16)*720/1280 + 32 = 521
    let mut p = ResizerParams::new();
    p.init_window_frame_size(Size { width: 16, height: 39 });
    p.set_video_size(Size { width: 1280, height: 720 }).unwrap();
    p.set_interface_height(32);
    assert_eq!(p.adjusted_window_height(816), 521);
}

#[test]
fn worked_example_update_height() {
    let mut r = Resizer::new(0);
    r.init_window_frame_size(Size { width: 16, height: 39 });
    r.set_video_size(Size { width: 1280, height: 720 }).unwrap();
    r.set_interface_height(32);
    let request = update_height(&r, Size { width: 816, height: 600 });
    assert_eq!(request, Some(Size { width: 816, height: 521 }));
}

#[test]
fn update_height_is_noop_before_initialization() {
    let r = Resizer::new(0);
    assert_eq!(update_height(&r, Size { width: 816, height: 600 }), None);
}

#[test]
fn initialize_chrome_is_idempotent() {
    let mut r = Resizer::new(0);
    let first = initialize(
        &mut r,
        Size { width: 816, height: 660 },
        Size { width: 800, height: 589 },
        Size { width: 1280, height: 720 },
    );
    assert!(matches!(first, Ok(Some(_))));
    assert!(r.is_initialized_window_frame_size());
    let h1 = r.adjusted_window_height(816);
    // A second call with identical measurements changes nothing and requests
    // no resize.
    let second = initialize(
        &mut r,
        Size { width: 816, height: 660 },
        Size { width: 800, height: 589 },
        Size { width: 1280, height: 720 },
    );
    assert_eq!(second, Ok(None));
    assert!(r.is_initialized_window_frame_size());
    assert_eq!(r.adjusted_window_height(816), h1);
}

#[test]
fn initialize_reports_a_measurement_error_and_allows_a_retry() {
    let mut r = Resizer::new(0);
    let out = initialize(
        &mut r,
        Size { width: 100, height: 100 },
        Size { width: 200, height: 50 },
        Size { width: 1280, height: 720 },
    );
    assert_eq!(out, Err(GeometryError::MeasurementError));
    assert!(!r.is_initialized_window_frame_size());
    // The failure is retryable: a later call with realized geometry works.
    let out = initialize(
        &mut r,
        Size { width: 816, height: 660 },
        Size { width: 800, height: 589 },
        Size { width: 1280, height: 720 },
    );
    assert!(matches!(out, Ok(Some(_))));
}

#[test]
fn initialize_stays_idempotent_whatever_the_measurements() {
    // Once the chrome is measured, even a degenerate measurement is a
    // successful no-op rather than an error.
    let mut r = Resizer::new(0);
    let first = initialize(
        &mut r,
        Size { width: 816, height: 660 },
        Size { width: 800, height: 589 },
        Size { width: 1280, height: 720 },
    );
    assert!(matches!(first, Ok(Some(_))));
    let again = initialize(
        &mut r,
        Size { width: 100, height: 100 },
        Size { width: 200, height: 50 },
        Size { width: 1280, height: 720 },
    );
    assert_eq!(again, Ok(None));
    assert!(r.is_initialized_window_frame_size());
}

#[test]
fn window_frame_size_measures_the_difference() {
    assert_eq!(
        window_frame_size(816, 660, 800, 589),
        Some(Size { width: 16, height: 71 })
    );
    assert_eq!(window_frame_size(100, 100, 200, 50), None);
    assert_eq!(window_frame_size(100, 100, 50, 200), None);
}

#[test]
fn set_video_size_rejects_zero_dimensions() {
    let mut p = ResizerParams::new();
    assert_eq!(
        p.set_video_size(Size { width: 0, height: 9 }),
        Err(GeometryError::InvalidDimension)
    );
    assert_eq!(
        p.set_video_size(Size { width: 16, height: 0 }),
        Err(GeometryError::InvalidDimension)
    );
    assert_eq!(p.set_video_size(Size { width: 16, height: 9 }), Ok(()));
}

#[test]
fn chrome_inset_is_immutable_once_measured() {
    let mut p = ResizerParams::new();
    p.init_window_frame_size(Size { width: 10, height: 20 });
    p.init_window_frame_size(Size { width: 99, height: 99 });
    p.set_video_size(Size { width: 100, height: 100 }).unwrap();
    // With a square aspect and no interface strip the height is
    // chrome.height + (w - chrome.width): only the first inset counts.
    assert_eq!(p.adjusted_window_height(110), 120);
}

#[test]
fn aspect_round_trip_within_one_unit_for_tall_video() {
    let mut p = ResizerParams::new();
    p.init_window_frame_size(Size { width: 10, height: 30 });
    p.set_video_size(Size { width: 720, height: 1280 }).unwrap();
    p.set_interface_height(25);
    for w in [330u32, 331, 500, 977, 2000] {
        let h = p.adjusted_window_height(w);
        let w2 = p.adjusted_window_width(h);
        assert!(w2 <= w);
        assert!(w - w2 <= 1);
    }
}

#[test]
fn aspect_round_trip_never_grows_for_wide_video() {
    let mut p = ResizerParams::new();
    p.init_window_frame_size(Size { width: 16, height: 39 });
    p.set_video_size(Size { width: 1280, height: 720 }).unwrap();
    for w in [320u32, 321, 817, 1023, 4000] {
        let h = p.adjusted_window_height(w);
        let w2 = p.adjusted_window_width(h);
        assert!(w2 <= w);
        // One height unit scales back to at most ceil(1280/720) = 2 width
        // units of rounding error.
        assert!(w - w2 <= 2);
    }
}

#[test]
fn adjusted_height_clamps_at_zero() {
    let mut p = ResizerParams::new();
    p.init_window_frame_size(Size { width: 500, height: 10 });
    p.set_video_size(Size { width: 16, height: 9 }).unwrap();
    // The view width is negative; the derived height would be negative too
    // and is clamped to zero... here 10 + (100-500)*9/16 = 10 - 225 < 0.
    assert_eq!(p.adjusted_window_height(100), 0);
}

#[test]
fn window_state_carries_stream_info() {
    let state = WindowState {
        resizer: Resizer::new(3),
        stream_info: StreamInfo {
            url: Some("http://example.com/stream".to_string()),
            channel_name: None,
            contact_url: None,
        },
    };
    assert_eq!(
        state.stream_info.url.as_deref(),
        Some("http://example.com/stream")
    );
    assert_eq!(state.resizer.into_original_handler(), 3);
}
