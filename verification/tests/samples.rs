use fy_canvas::component::{ComponentStyle, ControlPoint, Point};
use fy_canvas::render::FyRender;
use fy_canvas::shape::Shape;
use fy_canvas::{
    fit_axis, test_create_circle_component, test_create_line_component,
    test_create_rect_component, FitAxis, FyCanvas, SAMPLE_CONTROL_WIDTH, SAMPLE_RECT_HEIGHT,
    SAMPLE_RECT_WIDTH,
};

fn sample_style() -> ComponentStyle {
    ComponentStyle {
        font: "16px serif".to_string(),
        line_width: 2,
        line_color: "blue".to_string(),
        line_focus_color: "red".to_string(),
        control_line_width: 2,
        control_width: 8,
        control_line_color: "blue".to_string(),
        control_fill_color: "red".to_string(),
    }
}

#[test]
fn sample_sizes_have_their_values() {
    assert_eq!(SAMPLE_CONTROL_WIDTH, 8);
    assert_eq!(SAMPLE_RECT_WIDTH, 200);
    assert_eq!(SAMPLE_RECT_HEIGHT, 100);
}

#[test]
fn sample_rect_spans_200_by_100_from_its_start() {
    match test_create_rect_component(3, -50, 20) {
        Shape::Rect(r) => {
            assert_eq!(r.id, 3);
            assert_eq!(r.style, sample_style());
            assert_eq!((r.width, r.height), (200, 100));
            assert_eq!(r.title, "抓拍区域");
            assert_eq!(r.start_control, ControlPoint::new(-50, 20, 8));
            assert_eq!(r.end_control, ControlPoint::new(150, 120, 8));
            assert!(!r.selected);
        }
        other => panic!("not a rectangle: {:?}", other),
    }
}

#[test]
fn sample_rect_reaches_the_edge_of_the_grid() {
    match test_create_rect_component(3, i32::MAX - 200, i32::MAX - 100) {
        Shape::Rect(r) => {
            assert_eq!(r.end_control.point, Point { x: i32::MAX, y: i32::MAX });
        }
        other => panic!("not a rectangle: {:?}", other),
    }
}

#[test]
fn sample_line_runs_between_its_two_points() {
    match test_create_line_component(4, 210, 130, 110, 240) {
        Shape::Line(l) => {
            assert_eq!(l.id, 4);
            assert_eq!(l.style, sample_style());
            assert_eq!(l.title, "边界线");
            assert_eq!(l.start_control, ControlPoint::new(210, 130, 8));
            assert_eq!(l.end_control, ControlPoint::new(110, 240, 8));
            assert!(!l.selected);
        }
        other => panic!("not a line: {:?}", other),
    }
}

#[test]
fn sample_circle_has_its_end_handle_a_radius_to_the_right() {
    match test_create_circle_component(5, 210, 130, 100) {
        Shape::Circle(c) => {
            assert_eq!(c.id, 5);
            assert_eq!(c.style, sample_style());
            assert_eq!(c.title, "圆形");
            assert_eq!(c.start_control, ControlPoint::new(210, 130, 8));
            assert_eq!(c.end_control, ControlPoint::new(310, 130, 8));
            assert_eq!(c.radius, 100);
            assert!(!c.selected);
        }
        other => panic!("not a circle: {:?}", other),
    }
    match test_create_circle_component(6, i32::MIN, 0, u32::MAX) {
        Shape::Circle(c) => assert_eq!(c.end_control.point, Point { x: i32::MAX, y: 0 }),
        other => panic!("not a circle: {:?}", other),
    }
}

#[test]
fn new_canvas_is_idle_and_holds_the_two_samples() {
    let canvas = FyCanvas::new(640, 480);
    assert_eq!(canvas.width, 640);
    assert_eq!(canvas.height, 480);
    assert_eq!(
        canvas.render,
        FyRender { width: 640, height: 480, select_id: None, mouse_pressed: false }
    );
    assert_eq!(canvas.childs.len(), 2);
    assert_eq!(canvas.childs.shape_at(0), Some(&test_create_rect_component(1, 100, 100)));
    assert_eq!(canvas.childs.shape_at(1), Some(&test_create_line_component(4, 210, 130, 110, 240)));
}

#[test]
fn new_render_is_idle() {
    assert_eq!(
        FyRender::new(3, 4),
        FyRender { width: 3, height: 4, select_id: None, mouse_pressed: false }
    );
}

#[test]
fn wide_image_is_fitted_to_the_width() {
    assert_eq!(fit_axis(400, 300, 800, 400), FitAxis::Width);
    assert_eq!(fit_axis(400, 300, 401, 300), FitAxis::Width);
}

#[test]
fn tall_or_equal_image_is_fitted_to_the_height() {
    assert_eq!(fit_axis(400, 300, 400, 400), FitAxis::Height);
    assert_eq!(fit_axis(400, 300, 800, 600), FitAxis::Height);
    assert_eq!(fit_axis(400, 300, 400, 300), FitAxis::Height);
    assert_eq!(fit_axis(400, 300, 399, 300), FitAxis::Height);
}

#[test]
fn fit_with_a_side_of_zero_follows_the_cross_products() {
    assert_eq!(fit_axis(400, 300, 800, 0), FitAxis::Width);
    assert_eq!(fit_axis(400, 300, 0, 0), FitAxis::Height);
    assert_eq!(fit_axis(400, 300, 0, 10), FitAxis::Height);
    assert_eq!(fit_axis(400, 0, 800, 400), FitAxis::Height);
    assert_eq!(fit_axis(0, 300, 800, 400), FitAxis::Width);
    assert_eq!(fit_axis(0, 0, 0, 0), FitAxis::Height);
}

#[test]
fn fit_of_the_largest_sizes_does_not_overflow() {
    assert_eq!(fit_axis(u32::MAX, u32::MAX, u32::MAX, u32::MAX), FitAxis::Height);
    assert_eq!(fit_axis(u32::MAX - 1, u32::MAX, u32::MAX, u32::MAX), FitAxis::Width);
    assert_eq!(fit_axis(u32::MAX, u32::MAX - 1, u32::MAX, u32::MAX), FitAxis::Height);
}
