use livestar::surface::{
    choose_surface_format, power_mode, reported_dimension, window_dimension, FramePlan, PowerMode,
    SurfaceState,
};

#[test]
fn power_follows_battery_saving() {
    assert_eq!(power_mode(true), PowerMode::LowPower);
    assert_eq!(power_mode(false), PowerMode::HighPerformance);
}

#[test]
fn first_srgb_format_wins() {
    assert_eq!(choose_surface_format(&vec![false, true, true]), 1);
    assert_eq!(choose_surface_format(&vec![true, false]), 0);
    assert_eq!(choose_surface_format(&vec![false, false, false]), 0);
    assert_eq!(choose_surface_format(&vec![false]), 0);
}

#[test]
fn dimensions_are_clamped() {
    assert_eq!(window_dimension(-5), 1);
    assert_eq!(window_dimension(0), 1);
    assert_eq!(window_dimension(1080), 1080);
    assert_eq!(reported_dimension(-5), 0);
    assert_eq!(reported_dimension(0), 0);
    assert_eq!(reported_dimension(720), 720);
}

#[test]
fn new_surface_is_visible_and_sized() {
    let s = SurfaceState::new(1080, 0, 300);
    assert_eq!((s.width(), s.height(), s.visible(), s.star_count()), (1080, 1, true, 300));
    assert_eq!(s.frame_plan(), FramePlan::DrawStars { vertices: 6, instances: 300 });
}

#[test]
fn resize_never_gives_zero_size() {
    let mut s = SurfaceState::new(100, 100, 7);
    s.resize(0, 0);
    assert_eq!((s.width(), s.height()), (1, 1));
    assert_ne!(s.frame_plan(), FramePlan::Skip);
    s.resize(reported_dimension(-3), 640);
    assert_eq!((s.width(), s.height()), (1, 640));
    assert_eq!(s.star_count(), 7);
    assert!(s.visible());
}

#[test]
fn frames_render_only_while_visible() {
    let mut s = SurfaceState::new(10, 10, 1);
    assert!(s.on_frame());
    assert!(!s.set_visible(false));
    assert!(!s.on_frame());
    assert!(s.set_visible(true));
    assert!(s.on_frame());
    assert_eq!((s.width(), s.height(), s.star_count()), (10, 10, 1));
}

#[test]
fn no_stars_only_clears() {
    let s = SurfaceState::new(10, 10, 0);
    assert_eq!(s.frame_plan(), FramePlan::ClearOnly);
}

#[test]
fn frame_follows_last_visibility_change() {
    let mut s = SurfaceState::new(640, 480, 12);
    s.resize(100, 0);
    assert!(s.on_frame());
    s.set_visible(false);
    s.resize(300, 200);
    assert!(!s.on_frame());
    s.set_visible(false);
    s.set_visible(true);
    s.resize(0, 50);
    assert!(s.on_frame());
    s.set_visible(false);
    assert!(!s.on_frame());
    assert_eq!(s.star_count(), 12);
    assert_eq!(s.frame_plan(), FramePlan::DrawStars { vertices: 6, instances: 12 });
}
