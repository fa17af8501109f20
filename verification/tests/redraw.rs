use libwaysip::geometry::LogicalUpdate;
use libwaysip::redraw::{FrameRequest, PaintJob};
use libwaysip::state::{BoxInfo, CursorImage, LayerSurfaceInfo, SelectionType, WaysipState};
use libwaysip::{Position, Size, Style};

fn two_displays(kind: SelectionType) -> WaysipState {
    let mut state = WaysipState::new(kind);
    state.register(10);
    state.register(20);
    state.attach_geometry(0, 11);
    state.attach_geometry(1, 21);
    state.update_logical(11, LogicalUpdate::LogicalSize { width: 1920, height: 1080 });
    state.update_logical(11, LogicalUpdate::Name { name: "DP-1".to_string() });
    state.update_logical(11, LogicalUpdate::Description { description: "Left".to_string() });
    state.update_logical(21, LogicalUpdate::LogicalPosition { x: 1920, y: 0 });
    state.update_logical(21, LogicalUpdate::LogicalSize { width: 1280, height: 1024 });
    state.update_logical(21, LogicalUpdate::Name { name: "DP-2".to_string() });
    state.update_logical(21, LogicalUpdate::Description { description: "Right".to_string() });
    for base in [10u32, 20] {
        state.push_surface(LayerSurfaceInfo::new(
            base + 2,
            base + 3,
            base + 4,
            base + 5,
            Some(CursorImage { hotspot_x: 0, hotspot_y: 0 }),
            0,
            Style::default(),
        ));
    }
    state
}

#[test]
fn commit_asks_for_a_frame_of_every_surface() {
    let state = two_displays(SelectionType::Area);
    assert_eq!(
        state.commit(),
        vec![FrameRequest { surface: 13, index: 0 }, FrameRequest { surface: 23, index: 1 }]
    );
    assert_eq!(WaysipState::new(SelectionType::Area).commit(), vec![]);
}

#[test]
fn nothing_is_painted_before_the_selection_starts() {
    let mut state = two_displays(SelectionType::Area);
    assert_eq!(state.redraw(12), vec![]);
    assert!(!state.wl_surfaces[0].drawn);
}

#[test]
fn redraw_ignores_unknown_surfaces() {
    let mut state = two_displays(SelectionType::Screen);
    state.ensure_init(12);
    assert_eq!(state.redraw(77), vec![]);
}

#[test]
fn a_selection_is_painted_on_the_surface_it_was_asked_for() {
    let mut state = two_displays(SelectionType::Area);
    state.start_pos = Some(Position { x: 2560, y: 2560 });
    state.end_pos = Some(Position { x: 5120, y: 7680 });
    assert_eq!(
        state.redraw(22),
        vec![PaintJob::Selection {
            index: 1,
            start: Position { x: 2560, y: 2560 },
            end: Some(Position { x: 5120, y: 7680 }),
            offset: Position { x: 1920, y: 0 },
            size: Size { width: 1280, height: 1024 },
            draw_text: true,
            draw_boxes: false,
        }]
    );
    assert!(state.wl_surfaces[1].drawn);
    assert!(!state.wl_surfaces[0].drawn);
}

#[test]
fn boxes_are_painted_without_a_label() {
    let mut state = two_displays(SelectionType::PredefinedBoxes);
    state.set_boxes(vec![BoxInfo { start_x: 0, start_y: 0, end_x: 256, end_y: 256 }]);
    state.start_pos = Some(Position { x: 0, y: 0 });
    assert_eq!(
        state.redraw(12),
        vec![PaintJob::Selection {
            index: 0,
            start: Position { x: 0, y: 0 },
            end: None,
            offset: Position { x: 0, y: 0 },
            size: Size { width: 1920, height: 1080 },
            draw_text: false,
            draw_boxes: true,
        }]
    );
}

#[test]
fn every_shown_display_is_painted_when_a_display_is_selected() {
    let mut state = two_displays(SelectionType::Screen);
    state.ensure_init(12);
    state.ensure_init(22);
    state.pointer_enter(23, 0, 0);
    let jobs = state.redraw(12);
    assert_eq!(
        jobs,
        vec![
            PaintJob::Screen {
                index: 0,
                selected: false,
                size: Size { width: 1920, height: 1080 },
                position: Position { x: 0, y: 0 },
                name: "DP-1".to_string(),
                description: "Left".to_string(),
            },
            PaintJob::Screen {
                index: 1,
                selected: true,
                size: Size { width: 1280, height: 1024 },
                position: Position { x: 1920, y: 0 },
                name: "DP-2".to_string(),
                description: "Right".to_string(),
            },
        ]
    );
    assert!(state.wl_surfaces[0].drawn && state.wl_surfaces[1].drawn);
}

#[test]
fn displays_that_were_never_shown_are_not_painted() {
    let mut state = two_displays(SelectionType::Screen);
    state.ensure_init(22);
    let jobs = state.redraw(12);
    assert_eq!(jobs.len(), 1);
    assert!(matches!(jobs[0], PaintJob::Screen { index: 1, selected: false, .. }));
    assert!(!state.wl_surfaces[0].drawn);
}

#[test]
fn a_stale_frame_is_dropped() {
    let mut state = two_displays(SelectionType::Screen);
    state.ensure_init(12);
    state.ensure_init(22);
    state.pointer_enter(23, 0, 0);
    assert_eq!(state.frame_done(0), vec![]);
    assert!(!state.wl_surfaces[0].drawn);
    assert_eq!(state.frame_done(1).len(), 2);
}

#[test]
fn a_current_frame_repaints_the_current_display() {
    let mut state = two_displays(SelectionType::Area);
    state.pointer_enter(23, 0, 0);
    state.start_pos = Some(Position { x: 0, y: 0 });
    let jobs = state.frame_done(1);
    assert_eq!(jobs.len(), 1);
    assert!(matches!(jobs[0], PaintJob::Selection { index: 1, .. }));
    assert_eq!(state.redraw_current_surface().len(), 1);
}
