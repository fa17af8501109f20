use libwaysip::error::{BindFailure, Capability, WaySipError};
use libwaysip::geometry::LogicalUpdate;
use libwaysip::session::{
    bound, connected, cursor_source, dispatched, seat_devices, themed_cursor_name, CursorSource,
    SeatDevices, Step, SurfacePlan, CURSOR_SIZE,
};
use libwaysip::state::{SelectionType, WaysipState};

#[test]
fn a_session_is_set_up_in_a_fixed_order() {
    let mut steps = vec![Step::first()];
    while let Some(next) = steps.last().unwrap().next() {
        steps.push(next);
    }
    assert_eq!(
        steps,
        vec![
            Step::Connect,
            Step::Bind(Capability::Compositor),
            Step::Bind(Capability::CursorShape),
            Step::Bind(Capability::SharedMemory),
            Step::LoadCursor,
            Step::Bind(Capability::Seat),
            Step::Discover,
            Step::Bind(Capability::OutputGeometry),
            Step::AttachGeometry,
            Step::Synchronize,
            Step::Bind(Capability::LayerShell),
            Step::CreateSurfaces,
            Step::Run,
            Step::Finish,
        ]
    );
}

#[test]
fn two_barriers_precede_the_creation_of_surfaces() {
    let mut waits = 0;
    let mut step = Step::first();
    while step != Step::CreateSurfaces {
        if step == Step::Discover || step == Step::Synchronize {
            waits += 1;
        }
        step = step.next().unwrap();
    }
    assert_eq!(waits, 2);
}

#[test]
fn capabilities_are_bound_in_the_versions_the_session_knows() {
    assert_eq!(Capability::Compositor.versions(), (1, 5));
    assert_eq!(Capability::CursorShape.versions(), (1, 1));
    assert_eq!(Capability::SharedMemory.versions(), (1, 1));
    assert_eq!(Capability::Seat.versions(), (1, 1));
    assert_eq!(Capability::OutputGeometry.versions(), (1, 3));
    assert_eq!(Capability::LayerShell.versions(), (3, 4));
}

#[test]
fn a_missing_required_capability_is_fatal_and_named() {
    for capability in [
        Capability::Compositor,
        Capability::SharedMemory,
        Capability::Seat,
        Capability::OutputGeometry,
        Capability::LayerShell,
    ] {
        assert!(capability.is_required());
        assert_eq!(bound(capability, None), Ok(true));
        assert_eq!(
            bound(capability, Some(BindFailure::NotPresent)),
            Err(WaySipError::NotSupportedProtocol { capability, failure: BindFailure::NotPresent })
        );
    }
    assert_eq!(
        bound(Capability::LayerShell, Some(BindFailure::UnsupportedVersion)),
        Err(WaySipError::NotSupportedProtocol {
            capability: Capability::LayerShell,
            failure: BindFailure::UnsupportedVersion
        })
    );
}

#[test]
fn a_missing_shape_manager_is_not_fatal() {
    assert!(!Capability::CursorShape.is_required());
    assert_eq!(bound(Capability::CursorShape, Some(BindFailure::NotPresent)), Ok(false));
    assert_eq!(bound(Capability::CursorShape, None), Ok(true));
}

#[test]
fn a_session_needs_a_cursor() {
    assert_eq!(cursor_source(true, true), Ok(CursorSource::Negotiated));
    assert_eq!(cursor_source(true, false), Ok(CursorSource::Negotiated));
    assert_eq!(cursor_source(false, true), Ok(CursorSource::Themed));
    assert_eq!(cursor_source(false, false), Err(WaySipError::CursorThemeFetchFailed));
}

#[test]
fn the_crosshair_is_looked_up_before_the_plain_pointer() {
    assert_eq!(themed_cursor_name(0), Some("crosshair"));
    assert_eq!(themed_cursor_name(1), Some("left_ptr"));
    assert_eq!(themed_cursor_name(2), None);
    assert_eq!(themed_cursor_name(usize::MAX), None);
    assert_eq!(CURSOR_SIZE, 23);
}

#[test]
fn a_compositor_out_of_reach_is_fatal() {
    assert_eq!(connected(None), Ok(()));
    assert_eq!(
        connected(Some("no socket".to_string())),
        Err(WaySipError::InitFailed("no socket".to_string()))
    );
}

#[test]
fn a_fault_of_the_connection_is_fatal() {
    assert_eq!(dispatched(None), Ok(()));
    assert_eq!(
        dispatched(Some("broken pipe".to_string())),
        Err(WaySipError::DispatchError("broken pipe".to_string()))
    );
}

#[test]
fn a_seat_is_asked_for_the_devices_it_has() {
    assert_eq!(seat_devices(0), SeatDevices { keyboard: false, pointer: false });
    assert_eq!(seat_devices(1), SeatDevices { keyboard: false, pointer: true });
    assert_eq!(seat_devices(2), SeatDevices { keyboard: true, pointer: false });
    assert_eq!(seat_devices(3), SeatDevices { keyboard: true, pointer: true });
    assert_eq!(seat_devices(4), SeatDevices { keyboard: false, pointer: false });
    assert_eq!(seat_devices(7), SeatDevices { keyboard: true, pointer: true });
}

fn display_of(width: i32, height: i32) -> WaysipState {
    let mut state = WaysipState::new(SelectionType::Area);
    for output in 0..12 {
        state.register(output);
        state.attach_geometry(output as usize, 100 + output);
    }
    state.update_logical(111, LogicalUpdate::LogicalSize { width, height });
    state
}

#[test]
fn a_surface_is_planned_from_the_logical_size() {
    assert_eq!(
        display_of(1920, 1080).surface_plan(11),
        Some(SurfacePlan {
            namespace: "nobody_11".to_string(),
            width: 1920,
            height: 1080,
            pool_size: 8_294_400
        })
    );
}

#[test]
fn a_display_without_extent_cannot_be_covered() {
    let state = display_of(1920, 1080);
    assert_eq!(state.surface_plan(0), None);
    assert_eq!(display_of(0, 1080).surface_plan(11), None);
    assert_eq!(display_of(1920, -1).surface_plan(11), None);
    assert_eq!(display_of(32768, 16384).surface_plan(11), None);
    assert!(display_of(32768, 16383).surface_plan(11).is_some());
}
