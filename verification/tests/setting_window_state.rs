use zerolaunch::setting_window_state::{PartialSettingWindowState, SettingWindowState, SettingWindowStateInner};

fn state(x: i32, y: i32, w: u32, h: u32) -> SettingWindowStateInner {
    SettingWindowStateInner { window_x: x, window_y: y, window_width: w, window_height: h }
}

#[test]
fn defaults_are_origin_and_2000_by_1200() {
    assert_eq!(SettingWindowStateInner::default(), state(0, 0, 2000, 1200));
    assert_eq!(SettingWindowStateInner::default_window_x(), 0);
    assert_eq!(SettingWindowStateInner::default_window_y(), 0);
    assert_eq!(SettingWindowStateInner::default_window_width(), 2000);
    assert_eq!(SettingWindowStateInner::default_window_height(), 1200);
}

#[test]
fn update_overwrites_only_present_fields() {
    let mut s = state(10, 20, 800, 600);
    s.update(PartialSettingWindowState { window_x: Some(-5), window_y: None, window_width: Some(1024), window_height: None });
    assert_eq!(s, state(-5, 20, 1024, 600));
}

#[test]
fn to_partial_holds_every_field() {
    let s = state(1, 2, 3, 4);
    assert_eq!(
        s.to_partial(),
        PartialSettingWindowState { window_x: Some(1), window_y: Some(2), window_width: Some(3), window_height: Some(4) }
    );
}

#[test]
fn update_with_own_partial_is_identity() {
    let mut s = state(7, -8, 900, 700);
    let p = s.to_partial();
    s.update(p);
    assert_eq!(s, state(7, -8, 900, 700));
}

#[test]
fn empty_update_changes_nothing() {
    let mut s = state(7, 8, 9, 10);
    s.update(PartialSettingWindowState::default());
    assert_eq!(s, state(7, 8, 9, 10));
}

#[test]
fn complete_update_reads_back() {
    let mut s = state(7, 8, 9, 10);
    let p = PartialSettingWindowState { window_x: Some(100), window_y: Some(200), window_width: Some(300), window_height: Some(400) };
    s.update(p.clone());
    assert_eq!(s.to_partial(), p);
}

#[test]
fn two_updates_compose() {
    let first = PartialSettingWindowState { window_x: Some(1), window_y: Some(2), window_width: None, window_height: None };
    let second = PartialSettingWindowState { window_x: None, window_y: Some(3), window_width: Some(4), window_height: None };
    let mut a = state(0, 0, 10, 10);
    a.update(first.clone());
    a.update(second.clone());
    let mut b = state(0, 0, 10, 10);
    b.update(PartialSettingWindowState { window_x: Some(1), window_y: Some(3), window_width: Some(4), window_height: None });
    assert_eq!(a, b);
}

#[test]
fn shared_state_getters_follow_updates() {
    let mut s = SettingWindowState::default();
    assert_eq!(s.get_window_x(), 0);
    assert_eq!(s.get_window_width(), 2000);
    s.update(PartialSettingWindowState { window_x: Some(50), window_y: Some(60), window_width: None, window_height: Some(900) });
    assert_eq!(s.get_window_x(), 50);
    assert_eq!(s.get_window_y(), 60);
    assert_eq!(s.get_window_width(), 2000);
    assert_eq!(s.get_window_height(), 900);
    assert_eq!(s.to_partial().window_height, Some(900));
}
