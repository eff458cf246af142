use mandel_explorer::env::is_test_build;
use mandel_explorer::event::pointer_delta;
use mandel_explorer::math::{IRect, IVec2, URect, UVec2};

#[test]
fn urect_intersects_half_open() {
    let a = URect::from_pos_size(UVec2::new(0, 0), UVec2::new(128, 128));
    let b = URect::from_pos_size(UVec2::new(128, 0), UVec2::new(128, 128));
    let c = URect::from_pos_size(UVec2::new(127, 127), UVec2::new(2, 2));
    assert!(!a.intersects(&b));
    assert!(!b.intersects(&a));
    assert!(a.intersects(&c));
    assert!(b.intersects(&c));
}

#[test]
fn urect_intersects_near_u32_limit() {
    let a = URect::from_pos_size(UVec2::new(u32::MAX - 1, 0), UVec2::new(u32::MAX, 1));
    let b = URect::from_pos_size(UVec2::new(0, 0), UVec2::new(10, 1));
    assert!(!a.intersects(&b));
    assert!(!b.intersects(&a));
}

#[test]
fn urect_center_and_upper_right() {
    let r = URect::from_pos_size(UVec2::new(10, 20), UVec2::new(7, 8));
    assert_eq!(r.center(), UVec2::new(13, 24));
    assert_eq!(r.upper_right(), UVec2::new(17, 28));
}

#[test]
fn irect_center_rounds_toward_zero() {
    let r = IRect::from_pos_size(IVec2::new(10, -10), IVec2::new(-5, 5));
    assert_eq!(r.center(), IVec2::new(8, -8));
}

#[test]
fn irect_intersects_negative_positions() {
    let a = IRect::from_pos_size(IVec2::new(-10, -10), IVec2::new(10, 10));
    let b = IRect::from_pos_size(IVec2::new(-1, -1), IVec2::new(5, 5));
    let c = IRect::from_pos_size(IVec2::new(0, -10), IVec2::new(5, 5));
    assert!(a.intersects(&b));
    assert!(!a.intersects(&c));
}

#[test]
fn irect_from_urect_keeps_coordinates() {
    let u = URect::from_pos_size(UVec2::new(1, 2), UVec2::new(3, 4));
    let i = IRect::from_urect(u);
    assert_eq!(i, IRect::from_pos_size(IVec2::new(1, 2), IVec2::new(3, 4)));
}

#[test]
fn pointer_delta_of_drag() {
    let d = pointer_delta(UVec2::new(100, 100), UVec2::new(150, 120));
    assert_eq!(d, Some(IVec2::new(50, 20)));
    let back = pointer_delta(UVec2::new(150, 120), UVec2::new(100, 100));
    assert_eq!(back, Some(IVec2::new(-50, -20)));
    assert_eq!(pointer_delta(UVec2::new(0, 0), UVec2::new(u32::MAX, 0)), None);
}

#[test]
fn library_is_not_a_test_build() {
    assert!(!is_test_build());
}
