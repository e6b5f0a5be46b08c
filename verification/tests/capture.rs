use dingtalk_wayland_screenshare::capture::{HookState, PlanError};
use dingtalk_wayland_screenshare::portal::{PortalSession, PortalStream};

fn session(streams: Vec<PortalStream>, fd: Option<i32>) -> PortalSession<i32> {
    PortalSession { session_handle: "/s".to_string(), fd, streams }
}

#[test]
fn one_capture_at_a_time() {
    let mut state: HookState<&str, PortalSession<i32>> = HookState::new();
    assert!(state.capture().is_none());
    assert!(state.request());
    assert!(!state.request());
    let stream = PortalStream { node_id: 4, pipewire_serial: Some(90) };
    let mut portal = session(vec![stream], Some(11));
    let plan = state.plan(&mut portal).unwrap();
    assert_eq!((plan.fd, plan.node_id), (11, 4));
    assert_eq!(plan.target_object, Some("90".to_string()));
    assert_eq!(portal.fd, None);
    state.succeed("capture", portal);
    assert_eq!(state.capture(), Some(&"capture"));
    assert!(!state.request());

    let (capture, portal) = state.tear_down();
    assert_eq!(capture, Some("capture"));
    assert_eq!(portal.unwrap().session_handle, "/s");
    assert!(state.capture().is_none());
    assert!(state.request());
}

#[test]
fn a_failed_start_can_be_repeated() {
    let mut state: HookState<(), PortalSession<i32>> = HookState::new();
    assert!(state.request());
    state.fail();
    assert!(state.request());
    let mut empty = session(vec![], Some(1));
    assert_eq!(state.plan(&mut empty).unwrap_err(), PlanError::NoStreams);
    assert_eq!(empty.fd, Some(1));
    assert!(state.request());
    let stream = PortalStream { node_id: 4, pipewire_serial: None };
    let mut used = session(vec![stream], None);
    assert_eq!(state.plan(&mut used).unwrap_err(), PlanError::ConnectionTaken);
    assert!(state.request());
    let mut fresh = session(vec![stream], Some(2));
    assert_eq!(state.plan(&mut fresh).unwrap().target_object, None);
}

#[test]
fn plan_errors_in_words() {
    assert_eq!(PlanError::NoStreams.message(), "Portal returned no stream node IDs");
    assert_eq!(PlanError::ConnectionTaken.message(), "PipeWire FD already consumed");
}

#[test]
fn nothing_to_tear_down() {
    let mut state: HookState<i32, i32> = HookState::new();
    assert_eq!(state.tear_down(), (None, None));
}
