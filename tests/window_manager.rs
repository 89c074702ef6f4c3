use crab_wm::crab_layout::CrabLayout;
use crab_wm::crab_state::{CrabState, Dispatch, DragState, DragType, TopLevel, WindowState};
use crab_wm::floating_layout::FloatingLayout;
use crab_wm::logger::{log_to_file, Level, LevelFilter};
use crab_wm::protocol::{
    Attributes, ConfigureRequest, ConfigureValues, Geometry, MapState, Request, SetMode, StackMode,
    WmError, WmEvent, FRAME_EVENT_MASK, NO_WINDOW, ROOT_EVENT_MASK,
};
use crab_wm::sequence_filter::{is_at_or_behind, SequenceFilter};

const ROOT: u32 = 1;

fn fresh() -> CrabState {
    CrabState::new(CrabLayout::Floating(FloatingLayout), 0, ROOT, 2, 3, 4)
}

fn geometry(x: i16, y: i16) -> Geometry {
    Geometry { x, y, width: 640, height: 480, border_width: 0 }
}

fn manage(state: &mut CrabState, window: u32, frame: u32) -> Result<Vec<Request>, WmError> {
    FloatingLayout.manage_window(state, window, &geometry(5, 6), frame)
}

fn clients(state: &CrabState) -> Vec<u32> {
    let mut v: Vec<u32> = state.window_states.iter().map(|s| s.window).collect();
    v.sort();
    v
}

#[test]
fn wrapping_comparison() {
    assert!(is_at_or_behind(5, 5));
    assert!(is_at_or_behind(4, 5));
    assert!(!is_at_or_behind(6, 5));
    assert!(is_at_or_behind(u64::MAX, 0));
    assert!(!is_at_or_behind(0, u64::MAX));
    assert!(!is_at_or_behind(1u64 << 63, 0));
    assert!(is_at_or_behind((1u64 << 63) + 1, 0));
}

#[test]
fn registered_echo_is_suppressed_once() {
    let mut f = SequenceFilter::new();
    f.expect_suppression(7);
    assert!(!f.should_suppress(Some(3)));
    assert!(f.should_suppress(Some(7)));
    assert!(!f.should_suppress(Some(7)));
}

#[test]
fn other_sequence_is_not_suppressed() {
    let mut f = SequenceFilter::new();
    f.expect_suppression(7);
    assert!(!f.should_suppress(Some(6)));
    assert!(!f.should_suppress(None));
    assert!(f.should_suppress(Some(7)));
}

#[test]
fn stale_entry_is_discarded() {
    let mut f = SequenceFilter::new();
    f.expect_suppression(7);
    f.expect_suppression(12);
    assert!(!f.should_suppress(Some(9)));
    assert!(!f.should_suppress(Some(7)));
    assert!(f.should_suppress(Some(12)));
}

#[test]
fn suppression_across_wraparound() {
    let mut f = SequenceFilter::new();
    f.expect_suppression(2);
    assert!(!f.should_suppress(Some(u64::MAX)));
    assert!(f.should_suppress(Some(2)));
}

#[test]
fn manage_issues_framing_requests() {
    let mut st = fresh();
    let r = FloatingLayout.manage_window(&mut st, 10, &geometry(-3, 40), 20).unwrap();
    assert_eq!(
        r,
        vec![
            Request::CreateWindow {
                window: 20,
                parent: ROOT,
                x: -3,
                y: 40,
                width: 640,
                height: 480,
                border_width: 1,
                event_mask: FRAME_EVENT_MASK,
            },
            Request::GrabServer,
            Request::ChangeSaveSet { mode: SetMode::Insert, window: 10 },
            Request::ReparentWindow { window: 10, parent: 20, x: 0, y: 0, suppress_echo: true },
            Request::MapWindow { window: 10 },
            Request::MapWindow { window: 20 },
            Request::UngrabServer,
        ]
    );
    assert_eq!(
        st.window_states,
        vec![WindowState { window: 10, frame_window: 20, x: -3, y: 40, width: 640 }]
    );
}

#[test]
fn event_masks() {
    assert_eq!(FRAME_EVENT_MASK, 0x8_807f);
    assert_eq!(ROOT_EVENT_MASK, 0x18_0005);
}

#[test]
fn manage_again_is_rejected() {
    let mut st = fresh();
    manage(&mut st, 10, 20).unwrap();
    assert_eq!(manage(&mut st, 10, 21), Err(WmError::AlreadyManaged(10)));
    assert_eq!(manage(&mut st, 20, 21), Err(WmError::AlreadyManaged(20)));
    assert_eq!(st.window_states.len(), 1);
}

#[test]
fn frame_in_use_is_rejected() {
    let mut st = fresh();
    manage(&mut st, 10, 20).unwrap();
    assert_eq!(manage(&mut st, 11, 20), Err(WmError::FrameInUse(20)));
    assert_eq!(manage(&mut st, 12, 12), Err(WmError::FrameInUse(12)));
    assert_eq!(manage(&mut st, 13, 10), Err(WmError::FrameInUse(10)));
    assert_eq!(clients(&st), vec![10]);
}

#[test]
fn registry_follows_manage_and_unmap() {
    let mut st = fresh();
    manage(&mut st, 10, 20).unwrap();
    manage(&mut st, 11, 21).unwrap();
    FloatingLayout.handle_unmap_notify_event(&mut st, 10);
    manage(&mut st, 12, 22).unwrap();
    manage(&mut st, 10, 23).unwrap();
    FloatingLayout.handle_unmap_notify_event(&mut st, 11);
    assert_eq!(clients(&st), vec![10, 12]);
}

#[test]
fn unmap_releases_the_client() {
    let mut st = fresh();
    FloatingLayout.manage_window(&mut st, 10, &geometry(-7, 9), 20).unwrap();
    let r = FloatingLayout.handle_unmap_notify_event(&mut st, 10);
    assert_eq!(
        r,
        vec![
            Request::ChangeSaveSet { mode: SetMode::Delete, window: 10 },
            Request::ReparentWindow { window: 10, parent: ROOT, x: -7, y: 9, suppress_echo: false },
            Request::DestroyWindow { window: 20 },
        ]
    );
    assert!(st.window_states.is_empty());
}

#[test]
fn unmap_of_untracked_window_is_a_no_op() {
    let mut st = fresh();
    manage(&mut st, 10, 20).unwrap();
    let before = st.window_states.clone();
    assert!(FloatingLayout.handle_unmap_notify_event(&mut st, 99).is_empty());
    assert!(FloatingLayout.handle_unmap_notify_event(&mut st, 20).is_empty());
    assert_eq!(st.window_states, before);
}

#[test]
fn unmap_ends_drag_of_that_window() {
    let mut st = fresh();
    manage(&mut st, 10, 20).unwrap();
    assert!(st.begin_drag(20, DragType::Move, 0, 0));
    FloatingLayout.handle_unmap_notify_event(&mut st, 10);
    assert_eq!(st.drag_window, None);
}

fn configure_request(window: u32, value_mask: u16) -> ConfigureRequest {
    ConfigureRequest {
        window,
        x: -4,
        y: 8,
        width: 300,
        height: 200,
        border_width: 2,
        sibling: 77,
        stack_mode: StackMode::Below,
        value_mask,
    }
}

#[test]
fn configure_values_follow_the_mask() {
    let v = ConfigureValues::from_configure_request(&configure_request(5, 0x7f));
    assert_eq!(v.x, Some(-4));
    assert_eq!(v.y, Some(8));
    assert_eq!(v.width, Some(300));
    assert_eq!(v.height, Some(200));
    assert_eq!(v.border_width, Some(2));
    assert_eq!(v.sibling, Some(77));
    assert_eq!(v.stack_mode, Some(StackMode::Below));
    let w = ConfigureValues::from_configure_request(&configure_request(5, 0x05));
    assert_eq!(w.x, Some(-4));
    assert_eq!(w.y, None);
    assert_eq!(w.width, Some(300));
    assert_eq!(w.height, None);
    assert_eq!(w.sibling, None);
}

#[test]
fn configure_request_of_unmanaged_window_drops_stacking() {
    let mut st = fresh();
    let r = FloatingLayout.handle_configure_request_event(&mut st, configure_request(5, 0x7f)).unwrap();
    assert_eq!(
        r,
        vec![Request::ConfigureWindow {
            window: 5,
            values: ConfigureValues {
                x: Some(-4),
                y: Some(8),
                width: Some(300),
                height: Some(200),
                border_width: Some(2),
                sibling: None,
                stack_mode: None,
            },
        }]
    );
}

#[test]
fn configure_request_of_managed_window_is_refused() {
    let mut st = fresh();
    manage(&mut st, 10, 20).unwrap();
    let r = FloatingLayout.handle_configure_request_event(&mut st, configure_request(10, 0x0f));
    assert_eq!(r, Err(WmError::ConfigureManaged(10)));
    assert_eq!(st.window_states.len(), 1);
}

#[test]
fn exposes_are_coalesced_until_flush() {
    let mut st = fresh();
    FloatingLayout.handle_expose_event(&mut st, 10);
    FloatingLayout.handle_expose_event(&mut st, 10);
    FloatingLayout.handle_expose_event(&mut st, 11);
    assert_eq!(st.flush(), vec![10, 11]);
    assert!(st.flush().is_empty());
    FloatingLayout.handle_expose_event(&mut st, 10);
    assert_eq!(st.flush(), vec![10]);
}

#[test]
fn enter_focuses_and_raises() {
    let mut st = fresh();
    manage(&mut st, 10, 20).unwrap();
    let raise = ConfigureValues { stack_mode: Some(StackMode::Above), ..ConfigureValues::new() };
    let expected = vec![
        Request::SetInputFocus { focus: 10 },
        Request::ConfigureWindow { window: 20, values: raise },
    ];
    assert_eq!(FloatingLayout.handle_enter_notify_event(&mut st, 10), expected);
    assert_eq!(FloatingLayout.handle_enter_notify_event(&mut st, 20), expected);
    assert!(FloatingLayout.handle_enter_notify_event(&mut st, 99).is_empty());
}

#[test]
fn leave_drops_focus() {
    let mut st = fresh();
    manage(&mut st, 10, 20).unwrap();
    FloatingLayout.handle_enter_notify_event(&mut st, 10);
    let expected = vec![Request::SetInputFocus { focus: NO_WINDOW }];
    assert_eq!(FloatingLayout.handle_leave_notify_event(&mut st, 20), expected);
    assert_eq!(FloatingLayout.handle_leave_notify_event(&mut st, 99), expected);
}

fn moved_to(frame: u32, x: i32, y: i32) -> Vec<Request> {
    vec![Request::ConfigureWindow {
        window: frame,
        values: ConfigureValues { x: Some(x), y: Some(y), ..ConfigureValues::new() },
    }]
}

#[test]
fn drag_moves_the_frame() {
    let mut st = fresh();
    manage(&mut st, 10, 20).unwrap();
    assert!(st.begin_drag(10, DragType::Move, 10, 20));
    assert_eq!(FloatingLayout.handle_motion_notify_event(&mut st, 120, 160), moved_to(20, 130, 180));
}

#[test]
fn drag_with_negative_offset() {
    let mut st = fresh();
    manage(&mut st, 10, 20).unwrap();
    assert!(st.begin_drag(20, DragType::Move, -50, -200));
    assert_eq!(FloatingLayout.handle_motion_notify_event(&mut st, 30, 100), moved_to(20, -20, -100));
    assert_eq!(
        FloatingLayout.handle_motion_notify_event(&mut st, i16::MIN, i16::MIN),
        moved_to(20, -32818, -32968)
    );
}

#[test]
fn drag_session_lifecycle() {
    let mut st = fresh();
    manage(&mut st, 10, 20).unwrap();
    assert!(FloatingLayout.handle_motion_notify_event(&mut st, 1, 1).is_empty());
    assert!(!st.begin_drag(99, DragType::Move, 0, 0));
    assert!(st.begin_drag(10, DragType::Resize, 3, 4));
    assert!(!st.begin_drag(10, DragType::Move, 0, 0));
    let ws = WindowState::new(10, 20, &geometry(5, 6));
    assert_eq!(st.end_drag(), Some(DragState::new(ws, DragType::Resize, 3, 4)));
    assert_eq!(st.end_drag(), None);
    assert!(FloatingLayout.handle_motion_notify_event(&mut st, 1, 1).is_empty());
}

#[test]
fn handle_event_routes_and_filters() {
    let mut st = fresh();
    assert_eq!(st.handle_event(WmEvent::MapRequest { window: 10 }, Some(1)), Ok(Dispatch::Adopt(10)));
    manage(&mut st, 10, 20).unwrap();
    st.expect_suppression(5);
    assert_eq!(
        st.handle_event(WmEvent::UnmapNotify { window: 10 }, Some(5)),
        Ok(Dispatch::Requests(Vec::new()))
    );
    assert_eq!(st.window_states.len(), 1);
    match st.handle_event(WmEvent::UnmapNotify { window: 10 }, Some(6)) {
        Ok(Dispatch::Requests(v)) => assert_eq!(v.len(), 3),
        other => panic!("unexpected {:?}", other),
    }
    assert!(st.window_states.is_empty());
    assert_eq!(st.handle_event(WmEvent::ClientMessage, Some(7)), Ok(Dispatch::Shutdown));
    assert_eq!(st.handle_event(WmEvent::Other, None), Ok(Dispatch::Requests(Vec::new())));
}

#[test]
fn handle_event_reports_refused_configure() {
    let mut st = fresh();
    manage(&mut st, 10, 20).unwrap();
    assert_eq!(
        st.handle_event(WmEvent::ConfigureRequest(configure_request(20, 1)), None),
        Err(WmError::ConfigureManaged(20))
    );
}

#[test]
fn startup_adopts_mapped_windows() {
    let mut st = fresh();
    let viewable = Some(Attributes { override_redirect: false, map_state: MapState::Viewable });
    let children = vec![
        TopLevel { window: 10, frame_window: 20, geometry: Some(geometry(1, 2)), attributes: viewable },
        TopLevel {
            window: 11,
            frame_window: 21,
            geometry: Some(geometry(1, 2)),
            attributes: Some(Attributes { override_redirect: true, map_state: MapState::Viewable }),
        },
        TopLevel {
            window: 12,
            frame_window: 22,
            geometry: Some(geometry(1, 2)),
            attributes: Some(Attributes { override_redirect: false, map_state: MapState::Unmapped }),
        },
        TopLevel { window: 13, frame_window: 23, geometry: None, attributes: viewable },
        TopLevel { window: 14, frame_window: 24, geometry: Some(geometry(3, 4)), attributes: viewable },
    ];
    let r = st.map_windows(&children);
    assert_eq!(r.len(), 14);
    assert_eq!(r[3], Request::ReparentWindow { window: 10, parent: 20, x: 0, y: 0, suppress_echo: true });
    assert_eq!(r[10], Request::ReparentWindow { window: 14, parent: 24, x: 0, y: 0, suppress_echo: true });
    assert_eq!(clients(&st), vec![10, 14]);
}

#[test]
fn find_window_state_by_client_or_frame() {
    let mut st = fresh();
    manage(&mut st, 10, 20).unwrap();
    let expected = WindowState { window: 10, frame_window: 20, x: 5, y: 6, width: 640 };
    assert_eq!(st.find_window_state(10), Some(expected));
    assert_eq!(st.find_window_state(20), Some(expected));
    assert_eq!(st.find_window_state(30), None);
}

#[test]
fn log_levels() {
    let r = log_to_file(String::from("up"), LevelFilter::Warn).unwrap();
    assert_eq!(r.level, Level::Warn);
    assert_eq!(r.message, "up");
    assert_eq!(log_to_file(String::from("x"), LevelFilter::Error).unwrap().level, Level::Error);
    assert_eq!(log_to_file(String::from("x"), LevelFilter::Info).unwrap().level, Level::Info);
    assert_eq!(log_to_file(String::from("x"), LevelFilter::Debug).unwrap().level, Level::Debug);
    assert!(log_to_file(String::from("x"), LevelFilter::Trace).is_none());
    assert!(log_to_file(String::from("x"), LevelFilter::Off).is_none());
}
