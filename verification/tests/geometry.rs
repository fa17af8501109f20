use libwaysip::geometry::{LogicalUpdate, OutputUpdate};
use libwaysip::state::{ScreenInfo, SelectionType, WaysipState, WlOutputInfo, ZXdgOutputInfo};
use libwaysip::{Position, Size};

#[test]
fn a_registered_display_has_no_geometry() {
    let mut state = WaysipState::new(SelectionType::Area);
    state.register(7);
    assert_eq!(state.wloutput_infos, vec![WlOutputInfo::new(7)]);
    assert_eq!(state.wloutput_infos[0].get_output(), 7);
    assert_eq!(state.wloutput_infos[0].get_name(), "");
    assert_eq!(state.wloutput_infos[0].get_description(), "");
    assert_eq!(state.wloutput_infos[0].get_size(), Size { width: 0, height: 0 });
    assert!(state.wloutput_infos[0].xdg_output_info.is_none());
    assert!(!state.is_searchable(1));
}

#[test]
fn displays_are_kept_in_the_order_of_discovery() {
    let mut state = WaysipState::new(SelectionType::Area);
    state.register(7);
    state.register(3);
    assert_eq!(state.find_output(3), Some(1));
    assert_eq!(state.find_output(7), Some(0));
    assert_eq!(state.find_output(9), None);
}

#[test]
fn attached_geometry_starts_empty() {
    let mut state = WaysipState::new(SelectionType::Area);
    state.register(7);
    state.attach_geometry(0, 8);
    assert_eq!(state.wloutput_infos[0].xdg_output_info, Some(ZXdgOutputInfo::new(8)));
    let geometry = state.wloutput_infos[0].xdg_output_info.as_ref().unwrap();
    assert_eq!(geometry.zxdg_output, 8);
    assert_eq!(geometry.size, Size { width: 0, height: 0 });
    assert_eq!(geometry.start_position, Position { x: 0, y: 0 });
    assert!(state.is_searchable(8) && state.is_searchable(1));
}

#[test]
fn the_last_report_of_a_property_stands() {
    let mut state = WaysipState::new(SelectionType::Area);
    state.register(7);
    state.register(9);
    state.attach_geometry(0, 8);
    state.attach_geometry(1, 10);
    state.update_logical(10, LogicalUpdate::Name { name: "first".to_string() });
    state.update_logical(10, LogicalUpdate::LogicalSize { width: 1, height: 2 });
    state.update_logical(10, LogicalUpdate::LogicalPosition { x: -5, y: 6 });
    state.update_logical(10, LogicalUpdate::Name { name: "second".to_string() });
    state.update_logical(10, LogicalUpdate::Description { description: "about".to_string() });
    state.update_logical(10, LogicalUpdate::LogicalSize { width: 3, height: 4 });
    state.update_logical(10, LogicalUpdate::Other);
    let geometry = state.wloutput_infos[1].xdg_output_info.as_ref().unwrap();
    assert_eq!(geometry.name, "second");
    assert_eq!(geometry.description, "about");
    assert_eq!(geometry.size, Size { width: 3, height: 4 });
    assert_eq!(geometry.start_position, Position { x: -5, y: 6 });
    assert_eq!(state.wloutput_infos[0].xdg_output_info, Some(ZXdgOutputInfo::new(8)));
}

#[test]
fn reports_of_unknown_objects_are_dropped() {
    let mut state = WaysipState::new(SelectionType::Area);
    state.register(7);
    state.attach_geometry(0, 8);
    state.update_logical(99, LogicalUpdate::LogicalSize { width: 3, height: 4 });
    assert_eq!(state.wloutput_infos[0].xdg_output_info, Some(ZXdgOutputInfo::new(8)));
}

#[test]
fn reports_on_a_display_update_it() {
    let mut state = WaysipState::new(SelectionType::Area);
    state.register(7);
    state.register(9);
    state.update_output(9, OutputUpdate::Name { name: "HDMI-A-1".to_string() });
    state.update_output(9, OutputUpdate::Description { description: "Beamer".to_string() });
    state.update_output(9, OutputUpdate::Mode { width: 3840, height: 2160 });
    state.update_output(9, OutputUpdate::Other);
    assert_eq!(state.wloutput_infos[1].get_name(), "HDMI-A-1");
    assert_eq!(state.wloutput_infos[1].get_description(), "Beamer");
    assert_eq!(state.wloutput_infos[1].get_size(), Size { width: 3840, height: 2160 });
    assert_eq!(state.wloutput_infos[0], WlOutputInfo::new(7));
}

#[test]
fn the_snapshot_of_a_display_holds_both_sizes() {
    let mut state = WaysipState::new(SelectionType::Area);
    state.register(7);
    state.update_output(7, OutputUpdate::Name { name: "eDP-1".to_string() });
    state.update_output(7, OutputUpdate::Description { description: "Panel".to_string() });
    state.update_output(7, OutputUpdate::Mode { width: 3840, height: 2160 });
    state.attach_geometry(0, 8);
    state.update_logical(8, LogicalUpdate::LogicalSize { width: 1920, height: 1080 });
    state.update_logical(8, LogicalUpdate::LogicalPosition { x: 100, y: 200 });
    state.update_logical(8, LogicalUpdate::Name { name: "logical".to_string() });
    let info = state.wloutput_infos[0].get_screen_info();
    assert_eq!(
        info,
        ScreenInfo {
            position: Position { x: 100, y: 200 },
            screen_size: Size { width: 1920, height: 1080 },
            wl_output: 7,
            output_size: Size { width: 3840, height: 2160 },
            name: "eDP-1".to_string(),
            description: "Panel".to_string(),
        }
    );
    assert_eq!(info.get_wloutput(), 7);
    assert_eq!(info.get_wloutput_size(), Size { width: 3840, height: 2160 });
    assert_eq!(info.get_size(), Size { width: 1920, height: 1080 });
    assert_eq!(info.get_name(), "eDP-1");
    assert_eq!(info.get_description(), "Panel");
    assert_eq!(info.get_position(), Position { x: 100, y: 200 });
}

#[test]
fn size_from_a_pair() {
    assert_eq!(Size::from((3, 4)), Size { width: 3, height: 4 });
    assert_eq!(Size::from((3i64, 4i64)), Size { width: 3i64, height: 4i64 });
}

#[test]
fn a_display_that_appears_later_does_not_disturb_the_reports() {
    let mut state = WaysipState::new(SelectionType::Area);
    state.register(7);
    state.attach_geometry(0, 8);
    state.register(9);
    assert!(state.is_searchable(8));
    assert!(!state.is_searchable(10));
    state.update_logical(8, LogicalUpdate::LogicalSize { width: 3, height: 4 });
    let geometry = state.wloutput_infos[0].xdg_output_info.as_ref().unwrap();
    assert_eq!(geometry.size, Size { width: 3, height: 4 });
    assert!(state.wloutput_infos[1].xdg_output_info.is_none());
}
