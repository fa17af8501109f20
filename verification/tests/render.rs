use libwaysip::render::{label_of_selection, rect_on_display, screen_labels, DrawOp, Rect};
use libwaysip::state::{BoxInfo, LayerSurfaceInfo};
use libwaysip::{Color, Position, Size, Style};

fn surface() -> LayerSurfaceInfo {
    let style = Style {
        background_color: Color { r: 1, g: 1, b: 1, a: 1 },
        foreground_color: Color { r: 2, g: 2, b: 2, a: 2 },
        border_text_color: Color { r: 3, g: 3, b: 3, a: 3 },
        box_color: Color { r: 4, g: 4, b: 4, a: 4 },
        border_weight: 512,
        font_size: 12,
        font_name: "Sans".to_string(),
    };
    LayerSurfaceInfo::new(1, 2, 3, 4, None, 0, style)
}

fn sub(x: i64, y: i64) -> Position<i64> {
    Position { x: 256 * x, y: 256 * y }
}

#[test]
fn a_rectangle_is_seen_from_its_display() {
    assert_eq!(
        rect_on_display(sub(2000, 100), sub(2100, 50), Position { x: 1920, y: 0 }),
        Rect { x: 256 * 80, y: 256 * 100, width: 256 * 100, height: -256 * 50 }
    );
    assert_eq!(
        rect_on_display(
            Position { x: i64::MIN, y: i64::MAX },
            Position { x: i64::MAX, y: i64::MIN },
            Position { x: 1, y: -1 }
        ),
        Rect { x: i64::MIN, y: i64::MAX, width: i64::MAX, height: i64::MIN }
    );
}

#[test]
fn the_label_of_a_selection() {
    assert_eq!(label_of_selection(sub(10, 20), sub(110, 70)), "10,20, 100x50");
    assert_eq!(label_of_selection(sub(110, 70), sub(10, 20)), "110,70, -100x-50");
    assert_eq!(
        label_of_selection(Position { x: 255, y: -255 }, Position { x: 256, y: 513 }),
        "0,0, 0x3"
    );
}

#[test]
fn the_labels_of_a_display() {
    assert_eq!(
        screen_labels("DP-1", "Dell U2720Q", Position { x: -1920, y: 30 }),
        ("DP-1  Dell U2720Q".to_string(), "pos: -1920, 30".to_string())
    );
}

#[test]
fn a_selection_without_an_end_is_only_veiled() {
    let ops = surface().redraw(
        sub(0, 0),
        None,
        Position { x: 0, y: 0 },
        Size { width: 800, height: 600 },
        true,
        None,
    );
    assert_eq!(
        ops,
        vec![
            DrawOp::Clear { color: Color { r: 1, g: 1, b: 1, a: 1 } },
            DrawOp::Present { width: 800, height: 600 },
        ]
    );
}

#[test]
fn a_dragged_area_is_painted_with_its_label() {
    let ops = surface().redraw(
        sub(2000, 100),
        Some(sub(2100, 150)),
        Position { x: 1920, y: 0 },
        Size { width: 800, height: 600 },
        true,
        None,
    );
    assert_eq!(
        ops,
        vec![
            DrawOp::Clear { color: Color { r: 1, g: 1, b: 1, a: 1 } },
            DrawOp::Selection {
                rect: Rect { x: 256 * 80, y: 256 * 100, width: 256 * 100, height: 256 * 50 },
                fill: Color { r: 2, g: 2, b: 2, a: 2 },
                border: Color { r: 3, g: 3, b: 3, a: 3 },
                border_weight: 512,
            },
            DrawOp::Text {
                text: "2000,100, 100x50".to_string(),
                x: 256 * 190,
                y: 256 * 160,
                bold: true,
                color: Color { r: 3, g: 3, b: 3, a: 3 },
            },
            DrawOp::Present { width: 800, height: 600 },
        ]
    );
}

#[test]
fn candidate_boxes_are_painted_beneath_the_selection() {
    let boxes = vec![
        BoxInfo { start_x: 0, start_y: 0, end_x: 25600, end_y: 25600 },
        BoxInfo { start_x: 51200, start_y: 0, end_x: 76800, end_y: 25600 },
    ];
    let ops = surface().redraw(
        sub(0, 0),
        Some(sub(100, 100)),
        Position { x: 10, y: 20 },
        Size { width: 800, height: 600 },
        false,
        Some(&boxes),
    );
    assert_eq!(
        ops,
        vec![
            DrawOp::Clear { color: Color { r: 1, g: 1, b: 1, a: 1 } },
            DrawOp::Candidate {
                rect: Rect { x: -2560, y: -5120, width: 25600, height: 25600 },
                color: Color { r: 4, g: 4, b: 4, a: 4 },
            },
            DrawOp::Candidate {
                rect: Rect { x: 48640, y: -5120, width: 25600, height: 25600 },
                color: Color { r: 4, g: 4, b: 4, a: 4 },
            },
            DrawOp::Selection {
                rect: Rect { x: -2560, y: -5120, width: 25600, height: 25600 },
                fill: Color { r: 2, g: 2, b: 2, a: 2 },
                border: Color { r: 3, g: 3, b: 3, a: 3 },
                border_weight: 512,
            },
            DrawOp::Present { width: 800, height: 600 },
        ]
    );
    let none = surface().redraw(
        sub(0, 0),
        None,
        Position { x: 0, y: 0 },
        Size { width: 8, height: 6 },
        false,
        Some(&Vec::new()),
    );
    assert_eq!(none.len(), 2);
}

#[test]
fn the_selected_display_is_labelled() {
    let ops = surface().redraw_select_screen(
        true,
        Size { width: 1280, height: 1024 },
        Position { x: 1920, y: 0 },
        "DP-2",
        "Right",
        Size { width: 90, height: 17 },
        Size { width: 120, height: 18 },
    );
    assert_eq!(
        ops,
        vec![
            DrawOp::Clear { color: Color { r: 2, g: 2, b: 2, a: 2 } },
            DrawOp::Text {
                text: "DP-2  Right".to_string(),
                x: 256 * 10,
                y: 256 * 60,
                bold: false,
                color: Color { r: 3, g: 3, b: 3, a: 3 },
            },
            DrawOp::Text {
                text: "pos: 1920, 0".to_string(),
                x: 256 * 10,
                y: 256 * (17 + 65),
                bold: false,
                color: Color { r: 3, g: 3, b: 3, a: 3 },
            },
            DrawOp::Backdrop {
                rect: Rect {
                    x: 256 * 5,
                    y: 256 * 55,
                    width: 256 * (120 + 10),
                    height: 256 * (17 + 18 + 16)
                },
                color: Color { r: 1, g: 1, b: 1, a: 1 },
            },
            DrawOp::Present { width: 1280, height: 1024 },
        ]
    );
}

#[test]
fn other_displays_are_veiled() {
    let ops = surface().redraw_select_screen(
        false,
        Size { width: 1280, height: 1024 },
        Position { x: 1920, y: 0 },
        "DP-2",
        "Right",
        Size { width: 90, height: 17 },
        Size { width: 120, height: 18 },
    );
    assert_eq!(
        ops,
        vec![
            DrawOp::Clear { color: Color { r: 1, g: 1, b: 1, a: 1 } },
            DrawOp::Present { width: 1280, height: 1024 },
        ]
    );
}
