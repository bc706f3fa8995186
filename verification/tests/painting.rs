use fy_canvas::component::{
    paint_title, CircleComponent, Component, ComponentStyle, ControlPoint, LineComponent,
    RectComponent, LINE_TITLE_OFFSET, TITLE_ALIGN, TITLE_BASELINE, TITLE_OFFSET,
};
use fy_canvas::draw::DrawOp;
use fy_canvas::shape::Shape;

fn plain_style() -> ComponentStyle {
    ComponentStyle {
        font: "12px sans".to_string(),
        line_width: 3,
        line_color: "green".to_string(),
        line_focus_color: "orange".to_string(),
        control_line_width: 1,
        control_width: 8,
        control_line_color: "black".to_string(),
        control_fill_color: "white".to_string(),
    }
}

fn handle_ops(left: i64, top: i64, width: u32) -> Vec<DrawOp> {
    vec![
        DrawOp::SetLineWidth(1),
        DrawOp::SetFillStyle("white".to_string()),
        DrawOp::FillRect { x: left, y: top, width, height: width },
        DrawOp::SetStrokeStyle("black".to_string()),
        DrawOp::StrokeRect { x: left, y: top, width, height: width },
    ]
}

fn title_ops(text: &str, x: i64, y: i64) -> Vec<DrawOp> {
    vec![
        DrawOp::SetFillStyle("green".to_string()),
        DrawOp::SetTextBaseline("middle"),
        DrawOp::SetTextAlign("cetner"),
        DrawOp::SetFont("12px sans".to_string()),
        DrawOp::FillText { text: text.to_string(), x, y },
    ]
}

fn plain_rect() -> RectComponent {
    RectComponent {
        id: 1,
        style: plain_style(),
        width: 200,
        height: 100,
        title: "area".to_string(),
        start_control: ControlPoint::new(100, 100, 8),
        end_control: ControlPoint::new(300, 200, 8),
        selected: false,
    }
}

fn plain_line() -> LineComponent {
    LineComponent {
        id: 4,
        style: plain_style(),
        title: "edge".to_string(),
        start_control: ControlPoint::new(210, 130, 8),
        end_control: ControlPoint::new(110, 240, 8),
        selected: false,
    }
}

fn plain_circle() -> CircleComponent {
    CircleComponent {
        id: 5,
        style: plain_style(),
        title: "round".to_string(),
        start_control: ControlPoint::new(50, 60, 8),
        end_control: ControlPoint::new(81, 60, 9),
        radius: 31,
        selected: false,
    }
}

#[test]
fn title_constants_have_their_values() {
    assert_eq!(TITLE_BASELINE, "middle");
    assert_eq!(TITLE_ALIGN, "cetner");
    assert_eq!(TITLE_OFFSET, 16);
    assert_eq!(LINE_TITLE_OFFSET, 4);
}

#[test]
fn handle_is_painted_as_a_filled_then_outlined_square() {
    let mut ops = vec![DrawOp::BeginPath];
    ControlPoint::new(100, 50, 8).paint(&plain_style(), &mut ops);
    let mut expected = vec![DrawOp::BeginPath];
    expected.extend(handle_ops(96, 46, 8));
    assert_eq!(ops, expected);
}

#[test]
fn handle_of_odd_width_is_painted_from_its_rounded_half() {
    let mut ops = Vec::new();
    ControlPoint::new(-3, 0, 9).paint(&plain_style(), &mut ops);
    assert_eq!(ops, handle_ops(-7, -4, 9));
}

#[test]
fn title_is_painted_after_what_is_there_already() {
    let mut ops = vec![DrawOp::Stroke];
    paint_title(&plain_style(), &"hello".to_string(), -2, 7, &mut ops);
    let mut expected = vec![DrawOp::Stroke];
    expected.extend(title_ops("hello", -2, 7));
    assert_eq!(ops, expected);
}

#[test]
fn rect_title_sits_on_the_top_edge_half_way_along() {
    assert_eq!(plain_rect().title_position(), (200, 100));
    let mut r = plain_rect();
    r.width = 7;
    assert_eq!(r.title_position(), (103, 100));
}

#[test]
fn rect_top_left_is_the_lesser_corner_of_its_handles() {
    let mut r = plain_rect();
    r.start_control.point.x = 400;
    assert_eq!(r.title_position(), (400, 100));
    r.start_control.point.y = 250;
    assert_eq!(r.title_position(), (400, 200));
    r.start_control.point.x = 10;
    assert_eq!(r.title_position(), (110, 200));
}

#[test]
fn line_and_circle_titles_sit_half_way_between_the_handles() {
    assert_eq!(plain_line().title_position(), (160, 185));
    assert_eq!(plain_circle().title_position(), (65, 60));
}

#[test]
fn rect_is_painted_outline_handles_title() {
    let mut expected = vec![
        DrawOp::SetStrokeStyle("green".to_string()),
        DrawOp::SetLineWidth(3),
        DrawOp::StrokeRect { x: 100, y: 100, width: 200, height: 100 },
    ];
    expected.extend(handle_ops(96, 96, 8));
    expected.extend(handle_ops(296, 196, 8));
    expected.extend(title_ops("area", 184, 116));
    assert_eq!(plain_rect().paint(), expected);
    assert_eq!(Shape::Rect(plain_rect()).paint(), expected);
}

#[test]
fn line_is_painted_outline_handles_title() {
    let mut expected = vec![
        DrawOp::SetStrokeStyle("green".to_string()),
        DrawOp::SetLineWidth(3),
        DrawOp::BeginPath,
        DrawOp::MoveTo { x: 210, y: 130 },
        DrawOp::LineTo { x: 110, y: 240 },
        DrawOp::Stroke,
    ];
    expected.extend(handle_ops(206, 126, 8));
    expected.extend(handle_ops(106, 236, 8));
    expected.extend(title_ops("edge", 164, 189));
    assert_eq!(plain_line().paint(), expected);
    assert_eq!(Shape::Line(plain_line()).paint(), expected);
}

#[test]
fn circle_is_painted_outline_handles_title() {
    let mut expected = vec![
        DrawOp::SetStrokeStyle("green".to_string()),
        DrawOp::SetLineWidth(3),
        DrawOp::BeginPath,
        DrawOp::Arc { x: 50, y: 60, radius: 31 },
        DrawOp::Stroke,
    ];
    expected.extend(handle_ops(46, 56, 8));
    expected.extend(handle_ops(77, 56, 9));
    expected.extend(title_ops("round", 49, 76));
    assert_eq!(plain_circle().paint(), expected);
    assert_eq!(Shape::Circle(plain_circle()).paint(), expected);
}

#[test]
fn painting_does_not_change_the_shape() {
    let r = plain_rect();
    let _ = r.paint();
    assert_eq!(r, plain_rect());
    let s = Shape::Line(plain_line());
    let _ = s.paint();
    assert_eq!(s, Shape::Line(plain_line()));
}

#[test]
fn painting_at_the_edge_of_the_grid_does_not_overflow() {
    let mut r = plain_rect();
    r.start_control = ControlPoint::new(i32::MIN, i32::MIN, u32::MAX);
    r.end_control = ControlPoint::new(i32::MAX, i32::MAX, u32::MAX);
    r.width = u32::MAX;
    let ops = r.paint();
    assert_eq!(ops.len(), 18);
    let half = (u32::MAX / 2) as i64;
    assert_eq!(
        ops[5],
        DrawOp::FillRect {
            x: i32::MIN as i64 - half,
            y: i32::MIN as i64 - half,
            width: u32::MAX,
            height: u32::MAX
        }
    );
    assert_eq!(
        ops[17],
        DrawOp::FillText {
            text: "area".to_string(),
            x: i32::MIN as i64 + half - 16,
            y: i32::MIN as i64 + 16
        }
    );
}
