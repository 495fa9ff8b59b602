use pcoplayer::geometry::{GeometryError, Size};
use pcoplayer::registry::Registry;

#[test]
fn install_and_erase_round_trip() {
    let mut reg = Registry::new();
    assert!(!reg.contains(100));
    assert!(reg.install(100, 555));
    assert!(reg.contains(100));
    // A second install under the same handle is refused.
    assert!(!reg.install(100, 777));
    let resizer = reg.erase(100).unwrap();
    assert_eq!(resizer.into_original_handler(), 555);
    assert!(!reg.contains(100));
    assert!(reg.erase(100).is_none());
}

#[test]
fn windows_are_independent() {
    let mut reg = Registry::new();
    assert!(reg.install(1, 10));
    assert!(reg.install(2, 20));
    assert!(reg.init_window_frame_size(1, Size { width: 16, height: 39 }));
    assert_eq!(reg.set_video_size(1, Size { width: 1280, height: 720 }), Some(Ok(())));
    assert!(reg.set_interface_height(1, 32));
    let one = reg.get(1).unwrap();
    assert_eq!(one.adjusted_window_height(816), 521);
    let two = reg.get(2).unwrap();
    assert!(!two.is_initialized_window_frame_size());
}

#[test]
fn mutations_under_an_unknown_handle_are_refused() {
    let mut reg = Registry::new();
    assert!(!reg.init_window_frame_size(9, Size { width: 1, height: 1 }));
    assert_eq!(reg.set_video_size(9, Size { width: 1, height: 1 }), None);
    assert!(!reg.set_interface_height(9, 5));
    assert!(reg.get(9).is_none());
}

#[test]
fn invalid_video_size_is_reported_through_the_registry() {
    let mut reg = Registry::new();
    assert!(reg.install(1, 0));
    assert_eq!(
        reg.set_video_size(1, Size { width: 0, height: 720 }),
        Some(Err(GeometryError::InvalidDimension))
    );
}
