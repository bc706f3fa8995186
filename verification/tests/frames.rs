use fy_canvas::component::Component;
use fy_canvas::draw::DrawOp;
use fy_canvas::registry::Registry;
use fy_canvas::render::FyRender;
use fy_canvas::{
    test_create_circle_component, test_create_line_component, test_create_rect_component, FyCanvas,
};

#[test]
fn frame_of_no_shapes_erases_and_copies_the_cache() {
    let ops = FyRender::new(640, 480).paint(&Registry::new());
    assert_eq!(
        ops,
        vec![
            DrawOp::ClearRect { x: 0, y: 0, width: 640, height: 480 },
            DrawOp::DrawCache { x: 0, y: 0 },
        ]
    );
}

#[test]
fn frame_draws_the_shapes_in_their_order_on_top() {
    let mut registry = Registry::new();
    registry.insert(test_create_circle_component(5, 10, 10, 4));
    registry.insert(test_create_rect_component(1, 100, 100));
    registry.insert(test_create_line_component(4, 210, 130, 110, 240));
    let mut expected = vec![
        DrawOp::ClearRect { x: 0, y: 0, width: 30, height: 20 },
        DrawOp::DrawCache { x: 0, y: 0 },
    ];
    expected.extend(test_create_circle_component(5, 10, 10, 4).paint());
    expected.extend(test_create_rect_component(1, 100, 100).paint());
    expected.extend(test_create_line_component(4, 210, 130, 110, 240).paint());
    let ops = FyRender::new(30, 20).paint(&registry);
    assert_eq!(ops.len(), 2 + 20 + 18 + 21);
    assert_eq!(ops, expected);
}

#[test]
fn frame_shows_the_shapes_as_they_are_when_it_is_painted() {
    let mut canvas = FyCanvas::new(640, 480);
    let before = canvas.paint();
    assert_eq!(before[4], DrawOp::StrokeRect { x: 100, y: 100, width: 200, height: 100 });
    assert_eq!(before[7], DrawOp::FillRect { x: 96, y: 96, width: 8, height: 8 });
    canvas.on_pointer_down(100, 100);
    canvas.on_pointer_move(150, 160, true);
    let after = canvas.paint();
    assert_eq!(after.len(), before.len());
    assert_eq!(after[0], DrawOp::ClearRect { x: 0, y: 0, width: 640, height: 480 });
    assert_eq!(after[1], DrawOp::DrawCache { x: 0, y: 0 });
    assert_eq!(after[4], DrawOp::StrokeRect { x: 150, y: 160, width: 200, height: 100 });
    assert_eq!(after[7], DrawOp::FillRect { x: 146, y: 156, width: 8, height: 8 });
    assert_eq!(
        after[19],
        DrawOp::FillText { text: "抓拍区域".to_string(), x: 234, y: 176 }
    );
    assert_eq!(after[20..], before[20..]);
    assert_eq!(canvas.paint(), after);
}
