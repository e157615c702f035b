use zerolaunch::window_layout::{place_setting_window, setting_window_placement_fits, WindowPlacement};

#[test]
fn default_position_is_centred() {
    assert_eq!(
        place_setting_window(0, 0, 1000, 600, 0, 0, 1920, 1080),
        WindowPlacement { x: 460, y: 240, centered: true }
    );
}

#[test]
fn position_on_screen_is_kept() {
    assert_eq!(
        place_setting_window(100, 50, 800, 500, 0, 0, 1920, 1080),
        WindowPlacement { x: 100, y: 50, centered: false }
    );
}

#[test]
fn position_off_screen_is_centred_on_monitor() {
    assert_eq!(
        place_setting_window(1800, 50, 800, 500, 1920, 0, 1280, 1024),
        WindowPlacement { x: 1920 + 240, y: 262, centered: true }
    );
    assert_eq!(
        place_setting_window(1500, 700, 800, 500, 0, 0, 1920, 1080).centered,
        true
    );
}

#[test]
fn centring_rounds_toward_zero_when_window_is_larger() {
    assert_eq!(
        place_setting_window(0, 0, 801, 501, 0, 0, 800, 500),
        WindowPlacement { x: 0, y: 0, centered: true }
    );
    assert_eq!(
        place_setting_window(0, 0, 803, 500, 10, 0, 800, 500),
        WindowPlacement { x: 9, y: 0, centered: true }
    );
}

#[test]
fn placement_fit_check() {
    assert!(setting_window_placement_fits(100, 50, 800, 500, 0, 0, 1920, 1080));
    assert!(!setting_window_placement_fits(i32::MAX, 5, 800, 500, 0, 0, 1920, 1080));
    assert!(setting_window_placement_fits(0, 0, 800, 500, 0, 0, 1920, 1080));
    assert!(!setting_window_placement_fits(0, 0, 800, 500, i32::MAX, 0, 1920, 1080));
}
