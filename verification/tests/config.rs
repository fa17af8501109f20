use libwaysip::error::{BindFailure, BoxInfoError, Capability, ColorError, WaySipError};
use libwaysip::gui_selector::{IcedSelector, Message, ViewMode};
use libwaysip::state::WaysipState;
use libwaysip::{
    AreaSelectorGUI, BoxInfo, Color, GUISelection, Position, SelectionType, Style, WaySip,
};

#[test]
fn a_configuration_starts_from_the_defaults() {
    let config = WaySip::new();
    assert_eq!(config, WaySip::default());
    assert_eq!(config.selection_type, SelectionType::Area);
    assert_eq!(config.style, Style::default());
    assert_eq!(config.predefined_boxes, None);
    assert_eq!(config.aspect_ratio, None);
    assert_eq!(SelectionType::default(), SelectionType::Area);
}

#[test]
fn every_setting_changes_its_own_field() {
    let red = Color { r: 255, g: 0, b: 0, a: 255 };
    let green = Color { r: 0, g: 255, b: 0, a: 255 };
    let blue = Color { r: 0, g: 0, b: 255, a: 255 };
    let grey = Color { r: 9, g: 9, b: 9, a: 9 };
    let boxes = vec![BoxInfo { start_x: 1, start_y: 2, end_x: 3, end_y: 4 }];
    let config = WaySip::new()
        .with_selection_type(SelectionType::PredefinedBoxes)
        .with_background_color(red)
        .with_foreground_color(green)
        .with_border_text_color(blue)
        .with_box_color(grey)
        .with_border_weight(512)
        .with_font_size(14)
        .with_font_name("Mono".to_string())
        .with_predefined_boxes(boxes.clone())
        .with_aspect_ratio(16, 9);
    assert_eq!(
        config,
        WaySip {
            selection_type: SelectionType::PredefinedBoxes,
            style: Style {
                background_color: red,
                foreground_color: green,
                border_text_color: blue,
                box_color: grey,
                border_weight: 512,
                font_size: 14,
                font_name: "Mono".to_string(),
            },
            predefined_boxes: Some(boxes),
            aspect_ratio: Some((16, 9)),
        }
    );
}

#[test]
fn a_session_begins_with_its_configuration() {
    let boxes = vec![BoxInfo { start_x: 1, start_y: 2, end_x: 3, end_y: 4 }];
    let (state, style) = WaySip::new()
        .with_selection_type(SelectionType::Screen)
        .with_font_size(20)
        .with_predefined_boxes(boxes.clone())
        .with_aspect_ratio(4, 3)
        .begin();
    assert_eq!(style.font_size, 20);
    assert!(state.running);
    assert!(state.is_screen() && !state.is_area() && !state.is_predefined_boxes());
    assert_eq!(state.predefined_boxes, Some(boxes));
    assert_eq!(state.aspect_ratio, Some((4, 3)));
    assert_eq!(state.current_pos, Position { x: 0, y: 0 });
    assert_eq!(state.start_pos, None);
    assert_eq!(state.end_pos, None);
    assert_eq!(state.last_redraw, None);
    assert!(state.wloutput_infos.is_empty() && state.wl_surfaces.is_empty());
    assert!(state.is_wf());
    assert!(state.area_info().is_none());
}

#[test]
fn a_new_state_knows_its_kind() {
    assert!(WaysipState::new(SelectionType::Area).is_area());
    assert!(WaysipState::new(SelectionType::Screen).is_screen());
    assert!(WaysipState::new(SelectionType::PredefinedBoxes).is_predefined_boxes());
    let point = WaysipState::new(SelectionType::Point);
    assert!(!point.is_area() && !point.is_screen() && !point.is_predefined_boxes());
}

#[test]
fn a_state_with_a_stray_current_display_is_not_valid() {
    let mut state = WaysipState::new(SelectionType::Area);
    assert!(state.is_wf());
    state.current_screen = 1;
    assert!(!state.is_wf());
}

#[test]
fn the_messages_of_the_errors() {
    assert_eq!(
        WaySipError::InitFailed("x".to_string()).message(),
        "Failed to initialize app state"
    );
    assert_eq!(WaySipError::DispatchError("x".to_string()).message(), "Wayland dispatch failed!");
    assert_eq!(WaySipError::CursorThemeFetchFailed.message(), "Cannot get cursor");
    assert_eq!(
        WaySipError::NotSupportedProtocol {
            capability: Capability::LayerShell,
            failure: BindFailure::NotPresent
        }
        .message(),
        "Protocol not supported: layer shell"
    );
    assert_eq!(Capability::Compositor.name(), "compositor");
    assert_eq!(Capability::CursorShape.name(), "cursor shape");
    assert_eq!(Capability::SharedMemory.name(), "shared memory");
    assert_eq!(Capability::Seat.name(), "seat");
    assert_eq!(Capability::OutputGeometry.name(), "output geometry");
    assert_eq!(
        ColorError::InvalidColorFormat("#12".to_string()).message(),
        "Invalid color format `#12`, expected `#rrggbbaa/rrggbbaa`"
    );
    assert_eq!(
        BoxInfoError::InvalidBoxString("a".to_string()).message(),
        "Invalid string format for Box `a`, expected `x,y WIDTHxHEIGHT`"
    );
    assert_eq!(
        BoxInfoError::InvalidBoxCoordsString("b".to_string()).message(),
        "Invalid box coordinates string `b`, expected `x,y`"
    );
    assert_eq!(
        BoxInfoError::InvalidBoxSizeString("c".to_string()).message(),
        "Invalid box size string `c`, expected `WIDTHxHEIGHT`"
    );
}

#[test]
fn the_chooser_switches_lists_and_ends_on_a_pick() {
    assert_eq!(AreaSelectorGUI::new(), AreaSelectorGUI);
    let mut chooser = IcedSelector::new(2, 3);
    assert_eq!(chooser.mode, ViewMode::Screens);
    assert_eq!(chooser.update(Message::ShowWindows), None);
    assert_eq!(chooser.mode, ViewMode::Windows);
    assert_eq!(chooser.update(Message::Other), None);
    assert_eq!(chooser.mode, ViewMode::Windows);
    assert_eq!(chooser.update(Message::ShowScreens), None);
    assert_eq!(chooser.mode, ViewMode::Screens);
    assert_eq!(chooser.update(Message::ScreenSelected(2)), Some(GUISelection::Output(2)));
    assert_eq!(chooser.update(Message::ScreenSelected(3)), Some(GUISelection::Failed));
    assert_eq!(chooser.update(Message::WindowSelected(1)), Some(GUISelection::Toplevel(1)));
    assert_eq!(chooser.update(Message::WindowSelected(2)), Some(GUISelection::Failed));
    assert_eq!(chooser, IcedSelector { mode: ViewMode::Screens, toplevels: 2, outputs: 3 });
    assert_eq!(chooser.title(), "Waysip - Area Selector");
    assert_eq!(IcedSelector::namespace(), "waysip_area_selector");
}
