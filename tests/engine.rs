use reparent_wm::engine::{
    adoption_plan, frame_spec_for, in_list, selected_changes, ConfigureRequest, FrameSpec,
    KeyCommand, Request, WindowAttributes, WindowChanges, WindowManager, WmFault, BUTTON1_MASK,
    BUTTON3_MASK, CONTROL_MASK, CW_HEIGHT, CW_WIDTH, CW_X, CW_STACK_MODE, FRAME_BACKGROUND_COLOR,
    FRAME_BORDER_COLOR, FRAME_BORDER_WIDTH, IS_VIEWABLE, MOVE_BUTTON, RESIZE_BUTTON,
};
use reparent_wm::errors::request_code_name;
use reparent_wm::Position;

const ROOT: u64 = 1;
const PROTOCOLS: u64 = 300;
const DELETE: u64 = 301;
const CLOSE_KEY: u32 = 70;
const CYCLE_KEY: u32 = 23;

fn manager() -> WindowManager {
    WindowManager::create(ROOT, PROTOCOLS, DELETE, CLOSE_KEY, CYCLE_KEY)
}

fn attrs(override_redirect: bool, map_state: i32) -> WindowAttributes {
    WindowAttributes { x: 5, y: 6, width: 640, height: 480, override_redirect, map_state }
}

fn managed(clients: &[(u64, u64)]) -> WindowManager {
    let mut wm = manager();
    for &(c, f) in clients {
        assert!(wm.frame(c, f).is_ok());
    }
    wm
}

#[test]
fn frame_returns_setup_requests() {
    let mut wm = manager();
    let reqs = wm.frame(10, 110).unwrap();
    assert_eq!(
        reqs,
        vec![
            Request::SelectSubstructure { window: 110 },
            Request::AddToSaveSet { window: 10 },
            Request::Reparent { window: 10, parent: 110, x: 0, y: 0 },
            Request::MapWindow { window: 110 },
            Request::GrabButton { button: MOVE_BUTTON, modifiers: CONTROL_MASK, window: 10 },
            Request::GrabButton { button: RESIZE_BUTTON, modifiers: CONTROL_MASK, window: 10 },
            Request::GrabKey { keycode: CLOSE_KEY, modifiers: CONTROL_MASK, window: 10 },
            Request::GrabKey { keycode: CYCLE_KEY, modifiers: CONTROL_MASK, window: 10 },
        ]
    );
    assert_eq!(wm.frame_of(10), Some(110));
    assert_eq!(wm.clients.len(), 1);
}

#[test]
fn frame_twice_is_refused() {
    let mut wm = managed(&[(10, 110)]);
    assert_eq!(wm.frame(10, 111), Err(WmFault::AlreadyFramed));
    assert_eq!(wm.frame_of(10), Some(110));
    assert_eq!(wm.clients.len(), 1);
    assert_eq!(
        wm.plan_frame(10, &attrs(false, IS_VIEWABLE), false),
        Err(WmFault::AlreadyFramed)
    );
    assert!(wm.unframe(10).is_ok());
    assert!(wm.frame(10, 111).is_ok());
    assert_eq!(wm.frame_of(10), Some(111));
}

#[test]
fn frame_refuses_self_frame() {
    let mut wm = manager();
    assert_eq!(wm.frame(10, 10), Err(WmFault::FrameIsClient));
    assert_eq!(wm.frame_of(10), None);
}

#[test]
fn unframe_takes_down_frame() {
    let mut wm = managed(&[(10, 110), (20, 120)]);
    let reqs = wm.unframe(10).unwrap();
    assert_eq!(
        reqs,
        vec![Request::UnmapWindow { window: 110 }, Request::DestroyWindow { window: 110 }]
    );
    assert_eq!(wm.frame_of(10), None);
    assert_eq!(wm.frame_of(20), Some(120));
    assert_eq!(wm.unframe(10), Err(WmFault::NotAClient));
}

#[test]
fn registry_follows_frames_and_unframes() {
    let mut wm = managed(&[(10, 110), (20, 120), (30, 130)]);
    assert!(wm.unframe(20).is_ok());
    assert!(wm.frame(40, 140).is_ok());
    assert!(wm.unframe(10).is_ok());
    assert_eq!(wm.clients.len(), 2);
    assert_eq!(wm.clients.entry(0), (30, 130));
    assert_eq!(wm.clients.entry(1), (40, 140));
    assert!(wm.clients.contains(30) && wm.clients.contains(40));
    assert!(!wm.clients.contains(10) && !wm.clients.contains(20));
}

#[test]
fn plan_frame_for_new_window_ignores_map_state() {
    let wm = manager();
    let spec = wm.plan_frame(10, &attrs(true, 0), false).unwrap().unwrap();
    assert_eq!(
        spec,
        FrameSpec {
            x: 5,
            y: 6,
            width: 640,
            height: 480,
            border_width: FRAME_BORDER_WIDTH,
            border_color: FRAME_BORDER_COLOR,
            background_color: FRAME_BACKGROUND_COLOR,
        }
    );
}

#[test]
fn pre_existing_windows_that_decline_are_not_framed() {
    assert!(frame_spec_for(&attrs(true, IS_VIEWABLE), true).is_none());
    assert!(frame_spec_for(&attrs(false, 0), true).is_none());
    assert!(frame_spec_for(&attrs(false, IS_VIEWABLE), true).is_some());
}

#[test]
fn adoption_frames_n_minus_m_windows() {
    let windows = vec![
        (1001, attrs(false, IS_VIEWABLE)),
        (1002, attrs(true, IS_VIEWABLE)),
        (1003, attrs(false, 0)),
        (1004, attrs(false, IS_VIEWABLE)),
        (1005, attrs(true, 1)),
    ];
    let plan = adoption_plan(&windows);
    assert_eq!(plan.len(), 5 - 3);
    assert_eq!(plan[0].0, 1001);
    assert_eq!(plan[1].0, 1004);
    assert!(adoption_plan(&Vec::new()).is_empty());
}

#[test]
fn map_request_frames_then_maps() {
    let mut wm = manager();
    let reqs = wm.on_map_request(10, 110).unwrap();
    assert_eq!(reqs.len(), 9);
    assert_eq!(reqs[8], Request::MapWindow { window: 10 });
    assert_eq!(wm.frame_of(10), Some(110));
}

fn configure(window: u64, value_mask: u64) -> ConfigureRequest {
    ConfigureRequest {
        window,
        x: 11,
        y: 12,
        width: 300,
        height: 200,
        border_width: 2,
        above: 77,
        detail: 1,
        value_mask,
    }
}

#[test]
fn configure_size_only_keeps_position_and_stacking() {
    let wm = managed(&[(10, 110)]);
    let e = configure(10, CW_WIDTH | CW_HEIGHT);
    let changes = WindowChanges {
        x: None,
        y: None,
        width: Some(300),
        height: Some(200),
        border_width: None,
        sibling: None,
        stack_mode: None,
    };
    assert_eq!(
        wm.on_configure_request(&e),
        vec![
            Request::Configure { window: 110, changes },
            Request::Configure { window: 10, changes },
        ]
    );
}

#[test]
fn configure_unmanaged_window_goes_to_window_only() {
    let wm = manager();
    let e = configure(10, CW_X | CW_STACK_MODE);
    let reqs = wm.on_configure_request(&e);
    assert_eq!(reqs.len(), 1);
    assert_eq!(
        reqs[0],
        Request::Configure {
            window: 10,
            changes: WindowChanges {
                x: Some(11),
                y: None,
                width: None,
                height: None,
                border_width: None,
                sibling: None,
                stack_mode: Some(1),
            },
        }
    );
    assert_eq!(selected_changes(&configure(10, 0x7f)).sibling, Some(77));
}

#[test]
fn motion_with_button1_moves_frame() {
    let mut wm = managed(&[(10, 110)]);
    let reqs = wm
        .on_button_press(10, Position::new(100, 100), Position::new(10, 10), Position::new(200, 150))
        .unwrap();
    assert_eq!(reqs, vec![Request::Raise { window: 110 }]);
    let reqs = wm.on_motion_notify(10, Position::new(130, 95), BUTTON1_MASK).unwrap();
    assert_eq!(reqs, vec![Request::Move { window: 110, x: 40, y: 5 }]);
}

#[test]
fn motion_with_button3_resizes_clamped_at_zero() {
    let mut wm = managed(&[(10, 110)]);
    assert!(wm
        .on_button_press(10, Position::new(100, 100), Position::new(10, 10), Position::new(200, 150))
        .is_ok());
    let reqs = wm.on_motion_notify(10, Position::new(-150, 110), BUTTON3_MASK).unwrap();
    assert_eq!(
        reqs,
        vec![
            Request::Resize { window: 110, width: 0, height: 160 },
            Request::Resize { window: 10, width: 0, height: 160 },
        ]
    );
}

#[test]
fn motion_saturates_at_coordinate_limits() {
    let mut wm = managed(&[(10, 110)]);
    assert!(wm
        .on_button_press(10, Position::new(i32::MIN, 0), Position::new(i32::MAX, 0), Position::new(i32::MAX, 5))
        .is_ok());
    let reqs = wm.on_motion_notify(10, Position::new(0, 0), BUTTON1_MASK).unwrap();
    assert_eq!(reqs, vec![Request::Move { window: 110, x: i32::MAX, y: 0 }]);
    let reqs = wm.on_motion_notify(10, Position::new(i32::MAX, 0), BUTTON3_MASK).unwrap();
    assert_eq!(reqs[0], Request::Resize { window: 110, width: u32::MAX, height: 5 });
}

#[test]
fn motion_without_drag_button_does_nothing() {
    let wm = managed(&[(10, 110)]);
    assert_eq!(wm.on_motion_notify(10, Position::new(1, 1), 0), Ok(vec![]));
}

#[test]
fn drag_events_on_unknown_window_are_faults() {
    let mut wm = manager();
    let p = Position::new(1, 2);
    assert_eq!(wm.on_button_press(10, p, p, p), Err(WmFault::NotAClient));
    assert_eq!(wm.on_motion_notify(10, p, BUTTON1_MASK), Err(WmFault::NotAClient));
}

#[test]
fn close_key_sends_delete_message_when_supported() {
    let wm = managed(&[(10, 110)]);
    let reqs = wm.on_key_press(10, CLOSE_KEY, CONTROL_MASK, &vec![5, DELETE]).unwrap();
    assert_eq!(
        reqs,
        vec![Request::SendProtocolMessage { window: 10, message_type: PROTOCOLS, protocol: DELETE }]
    );
}

#[test]
fn close_key_kills_client_without_delete_protocol() {
    let wm = managed(&[(10, 110)]);
    let reqs = wm.on_key_press(10, CLOSE_KEY, CONTROL_MASK, &vec![5, 6]).unwrap();
    assert_eq!(reqs, vec![Request::KillClient { window: 10 }]);
    let reqs = wm.on_key_press(10, CLOSE_KEY, CONTROL_MASK, &vec![]).unwrap();
    assert_eq!(reqs, vec![Request::KillClient { window: 10 }]);
}

#[test]
fn cycle_key_moves_to_next_and_wraps() {
    let wm = managed(&[(10, 110), (20, 120), (30, 130)]);
    let reqs = wm.on_key_press(10, CYCLE_KEY, CONTROL_MASK, &vec![]).unwrap();
    assert_eq!(reqs, vec![Request::Raise { window: 120 }, Request::Focus { window: 20 }]);
    let reqs = wm.on_key_press(30, CYCLE_KEY, CONTROL_MASK, &vec![]).unwrap();
    assert_eq!(reqs, vec![Request::Raise { window: 110 }, Request::Focus { window: 10 }]);
    assert_eq!(wm.cycle_focus(99), Err(WmFault::NotAClient));
}

#[test]
fn keys_without_control_are_ignored() {
    let wm = managed(&[(10, 110)]);
    assert_eq!(wm.classify_key(CLOSE_KEY, 0), KeyCommand::Other);
    assert_eq!(wm.classify_key(CYCLE_KEY, CONTROL_MASK | 1), KeyCommand::Cycle);
    assert_eq!(wm.classify_key(CLOSE_KEY, CONTROL_MASK), KeyCommand::Close);
    assert_eq!(wm.on_key_press(10, 99, CONTROL_MASK, &vec![DELETE]), Ok(vec![]));
}

#[test]
fn unmap_reported_by_root_is_ignored() {
    let mut wm = managed(&[(10, 110)]);
    assert!(wm.on_unmap_notify(10, ROOT).is_empty());
    assert_eq!(wm.frame_of(10), Some(110));
}

#[test]
fn unmap_reported_by_frame_unframes() {
    let mut wm = managed(&[(10, 110)]);
    let reqs = wm.on_unmap_notify(10, 110);
    assert_eq!(
        reqs,
        vec![Request::UnmapWindow { window: 110 }, Request::DestroyWindow { window: 110 }]
    );
    assert_eq!(wm.frame_of(10), None);
    assert!(wm.on_unmap_notify(110, ROOT).is_empty());
    assert!(wm.on_unmap_notify(10, 110).is_empty());
}

#[test]
fn in_list_finds_members() {
    assert!(in_list(&vec![1, 2, 3], 3));
    assert!(!in_list(&vec![1, 2, 3], 4));
    assert!(!in_list(&vec![], 1));
}

#[test]
fn request_codes_have_names() {
    assert_eq!(request_code_name(0), "");
    assert_eq!(request_code_name(1), "CreateWindow");
    assert_eq!(request_code_name(12), "ConfigureWindow");
    assert_eq!(request_code_name(113), "KillClient");
    assert_eq!(request_code_name(120), "NoOperation");
    assert_eq!(request_code_name(121), "unknown");
    assert_eq!(request_code_name(255), "unknown");
}

#[test]
fn cycle_with_one_client_refocuses_it() {
    let wm = managed(&[(10, 110)]);
    let reqs = wm.cycle_focus(10).unwrap();
    assert_eq!(reqs, vec![Request::Raise { window: 110 }, Request::Focus { window: 10 }]);
}

#[test]
fn new_manager_starts_with_empty_drag_session() {
    let wm = manager();
    assert_eq!(wm.drag_start_pos, Position::new(0, 0));
    assert_eq!(wm.drag_start_frame_pos, Position::new(0, 0));
    assert_eq!(wm.drag_start_frame_size, Position::new(0, 0));
    assert_eq!(wm.clients.len(), 0);
}
