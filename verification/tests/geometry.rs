use fy_canvas::component::{midpoint_of, ControlPoint, Point};

#[test]
fn new_control_point_is_not_selected() {
    let cp = ControlPoint::new(3, 4, 8);
    assert_eq!(cp, ControlPoint { point: Point { x: 3, y: 4 }, width: 8, selected: false });
}

#[test]
fn hit_box_includes_its_four_corners() {
    let cp = ControlPoint::new(100, 50, 8);
    assert!(cp.can_select(104, 54));
    assert!(cp.can_select(104, 46));
    assert!(cp.can_select(96, 54));
    assert!(cp.can_select(96, 46));
    assert!(cp.can_select(100, 50));
}

#[test]
fn hit_box_ends_one_pixel_past_each_side() {
    let cp = ControlPoint::new(100, 50, 8);
    assert!(!cp.can_select(105, 50));
    assert!(!cp.can_select(95, 50));
    assert!(!cp.can_select(100, 55));
    assert!(!cp.can_select(100, 45));
}

#[test]
fn odd_width_is_halved_downward() {
    let cp = ControlPoint::new(0, 0, 9);
    assert!(cp.can_select(4, -4));
    assert!(!cp.can_select(5, 0));
    assert!(!cp.can_select(0, -5));
}

#[test]
fn hit_box_of_width_zero_or_one_is_the_centre_pixel() {
    for width in [0u32, 1u32] {
        let cp = ControlPoint::new(7, -3, width);
        assert!(cp.can_select(7, -3));
        assert!(!cp.can_select(8, -3));
        assert!(!cp.can_select(7, -2));
        assert!(!cp.can_select(6, -3));
    }
}

#[test]
fn hit_test_does_not_overflow_at_the_edge_of_the_grid() {
    let cp = ControlPoint::new(i32::MAX, i32::MIN, u32::MAX);
    assert!(cp.can_select(i32::MAX, i32::MIN));
    assert!(cp.can_select(0, -1));
    assert!(!cp.can_select(0, 0));
    assert!(!cp.can_select(-1, -1));
    let far = ControlPoint::new(i32::MAX, i32::MAX, 2);
    assert!(far.can_select(i32::MAX, i32::MAX));
    assert!(far.can_select(i32::MAX - 1, i32::MAX - 1));
    assert!(!far.can_select(i32::MAX - 2, i32::MAX));
}

#[test]
fn hit_test_leaves_the_handle_as_it_was() {
    let cp = ControlPoint::new(10, 10, 8);
    let before = cp;
    let _ = cp.can_select(10, 10);
    let _ = cp.can_select(500, 500);
    assert_eq!(cp, before);
}

#[test]
fn midpoint_is_halved_toward_the_first_point() {
    assert_eq!(midpoint_of(210, 110), 160);
    assert_eq!(midpoint_of(130, 240), 185);
    assert_eq!(midpoint_of(0, 3), 1);
    assert_eq!(midpoint_of(0, -3), -1);
    assert_eq!(midpoint_of(5, 5), 5);
    assert_eq!(midpoint_of(-4, -1), -3);
    assert_eq!(midpoint_of(-1, -4), -2);
}

#[test]
fn midpoint_does_not_overflow_across_the_whole_grid() {
    assert_eq!(midpoint_of(i32::MIN, i32::MAX), -1);
    assert_eq!(midpoint_of(i32::MAX, i32::MIN), 0);
    assert_eq!(midpoint_of(i32::MAX, i32::MAX), i32::MAX as i64);
}
