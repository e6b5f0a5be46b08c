use dingtalk_wayland_screenshare::portal::{
    collect_streams, extract_string, get_sender_name, id_at, lookup, rand_id, Handshake,
    OptionValue, PortalAction, PortalCall, PortalError, PortalRequest, PortalResponse,
    PortalScalar, PortalSession, PortalStream, PortalValue, Stage, StreamEntry,
};

fn scalar(key: &str, value: PortalScalar) -> (String, PortalValue) {
    (key.to_string(), PortalValue::Scalar(value))
}

fn granted(results: Vec<(String, PortalValue)>) -> Option<PortalResponse> {
    Some(PortalResponse { code: 0, results })
}

fn session_granted() -> Option<PortalResponse> {
    granted(vec![scalar("session_handle", PortalScalar::Text("/session/1".to_string()))])
}

fn sent(action: Result<PortalAction, PortalError>) -> PortalRequest {
    match action {
        Ok(PortalAction::Send(request)) => request,
        other => panic!("not a request: {:?}", other),
    }
}

fn text_of<'a>(request: &'a PortalRequest, key: &str) -> &'a str {
    match lookup(&request.options, key) {
        Some(OptionValue::Text(text)) => text,
        other => panic!("not a text: {:?}", other),
    }
}

#[test]
fn sender_names() {
    assert_eq!(get_sender_name(Some(":1.42")), "1_42");
    assert_eq!(get_sender_name(Some("a.b.c")), "a_b_c");
    assert_eq!(get_sender_name(Some("::x")), ":x");
    assert_eq!(get_sender_name(Some("")), "");
    assert_eq!(get_sender_name(None), "");
}

#[test]
fn tokens_come_from_the_clock() {
    assert_eq!(id_at(None), "0");
    assert_eq!(id_at(Some((1, 5))), "3b9aca05");
    let id = rand_id();
    let nanos = u128::from_str_radix(&id, 16).unwrap();
    assert!(nanos > 1_500_000_000_000_000_000);
    assert_eq!(id, id.to_lowercase());
}

#[test]
fn a_cast_is_granted_in_three_steps() {
    let (mut handshake, first) = Handshake::begin(Some(":1.42"), "aa", "bb");
    assert_eq!(handshake.stage(), Stage::AwaitSession);
    assert_eq!(first.call, PortalCall::CreateSession);
    assert_eq!(first.call.member(), "CreateSession");
    assert_eq!(first.path, "/org/freedesktop/portal/desktop/request/1_42/req_aa");
    assert_eq!(first.session_handle, None);
    assert_eq!(first.parent_window, None);
    assert_eq!(first.options.len(), 2);
    assert_eq!(text_of(&first, "session_handle_token"), "sess_bb");
    assert_eq!(text_of(&first, "handle_token"), "req_aa");

    let second = sent(handshake.on_response(session_granted(), "cc"));
    assert_eq!(handshake.stage(), Stage::AwaitSources);
    assert_eq!(second.call.member(), "SelectSources");
    assert_eq!(second.path, "/org/freedesktop/portal/desktop/request/1_42/req_cc");
    assert_eq!(second.session_handle, Some("/session/1".to_string()));
    assert_eq!(second.options.len(), 4);
    assert_eq!(text_of(&second, "handle_token"), "req_cc");
    assert!(matches!(lookup(&second.options, "types"), Some(OptionValue::Number(3))));
    assert!(matches!(lookup(&second.options, "multiple"), Some(OptionValue::Flag(false))));
    assert!(matches!(lookup(&second.options, "cursor_mode"), Some(OptionValue::Number(2))));

    let third = sent(handshake.on_response(granted(vec![]), "dd"));
    assert_eq!(handshake.stage(), Stage::AwaitStart);
    assert_eq!(third.call.member(), "Start");
    assert_eq!(third.path, "/org/freedesktop/portal/desktop/request/1_42/req_dd");
    assert_eq!(third.session_handle, Some("/session/1".to_string()));
    assert_eq!(third.parent_window, Some(String::new()));
    assert_eq!(third.options.len(), 1);

    let entries = vec![
        StreamEntry {
            node_id: 57,
            props: vec![("pipewire-serial".to_string(), PortalScalar::Unsigned(1234))],
        },
        StreamEntry { node_id: 58, props: vec![] },
    ];
    let answer = granted(vec![("streams".to_string(), PortalValue::Streams(entries))]);
    match handshake.on_response(answer, "ee") {
        Ok(PortalAction::OpenRemote(handle)) => assert_eq!(handle, "/session/1"),
        other => panic!("not opened: {:?}", other),
    }
    assert_eq!(handshake.stage(), Stage::AwaitRemote);

    let mut session = handshake.finish(9);
    assert_eq!(session.session_handle, "/session/1");
    assert_eq!(
        session.streams,
        vec![
            PortalStream { node_id: 57, pipewire_serial: Some(1234) },
            PortalStream { node_id: 58, pipewire_serial: None },
        ]
    );
    assert_eq!(session.take_fd(), Some(9));
    assert_eq!(session.take_fd(), None);
}

#[test]
fn an_object_path_names_the_session_too() {
    let (mut handshake, _) = Handshake::begin(Some(":1.42"), "aa", "bb");
    let handle = PortalScalar::Path("/a/b_C/9".to_string());
    let second = sent(handshake.on_response(granted(vec![scalar("session_handle", handle)]), "cc"));
    assert_eq!(second.session_handle, Some("/a/b_C/9".to_string()));
}

fn first_failure(response: Option<PortalResponse>) -> PortalError {
    let (mut handshake, _) = Handshake::begin(Some(":1.42"), "aa", "bb");
    let error = handshake.on_response(response, "cc").unwrap_err();
    assert_eq!(handshake.stage(), Stage::Failed);
    error
}

#[test]
fn session_failures() {
    assert_eq!(first_failure(None), PortalError::NoResponse(PortalCall::CreateSession));
    assert_eq!(
        first_failure(Some(PortalResponse { code: 2, results: vec![] })),
        PortalError::Refused(PortalCall::CreateSession, 2)
    );
    assert_eq!(first_failure(granted(vec![])), PortalError::MissingSessionHandle);
    assert_eq!(
        first_failure(granted(vec![scalar("session_handle", PortalScalar::Unsigned(3))])),
        PortalError::SessionHandleType
    );
    for path in ["", ".", "/double//slashes", "/end/with/slash/", "/ha.d", "//", "no/slash"] {
        let handle = PortalScalar::Text(path.to_string());
        assert_eq!(
            first_failure(granted(vec![scalar("session_handle", handle)])),
            PortalError::SessionHandlePath
        );
    }
}

#[test]
fn later_failures() {
    let (mut handshake, _) = Handshake::begin(Some(":1.42"), "aa", "bb");
    sent(handshake.on_response(session_granted(), "cc"));
    let refusal = Some(PortalResponse { code: 1, results: vec![] });
    assert_eq!(
        handshake.on_response(refusal, "dd").unwrap_err(),
        PortalError::Refused(PortalCall::SelectSources, 1)
    );

    for (answer, expected) in [
        (None, PortalError::NoResponse(PortalCall::Start)),
        (granted(vec![]), PortalError::MissingStreams),
        (granted(vec![scalar("streams", PortalScalar::Other)]), PortalError::StreamsType),
    ] {
        let (mut handshake, _) = Handshake::begin(Some(":1.42"), "aa", "bb");
        sent(handshake.on_response(session_granted(), "cc"));
        sent(handshake.on_response(granted(vec![]), "dd"));
        assert_eq!(handshake.on_response(answer, "ee").unwrap_err(), expected);
        assert_eq!(handshake.stage(), Stage::Failed);
    }
}

#[test]
fn error_messages() {
    assert_eq!(
        PortalError::NoResponse(PortalCall::SelectSources).message(),
        "No response for SelectSources"
    );
    assert_eq!(
        PortalError::Refused(PortalCall::Start, 17).message(),
        "Start failed with response code 17"
    );
    assert_eq!(
        PortalError::MissingSessionHandle.message(),
        "Missing session_handle in CreateSession response"
    );
    assert_eq!(
        PortalError::SessionHandleType.message(),
        "Failed to extract string from variant"
    );
    assert_eq!(PortalError::SessionHandlePath.message(), "Invalid object path");
    assert_eq!(PortalError::MissingStreams.message(), "Missing streams in Start response");
    assert_eq!(PortalError::StreamsType.message(), "incorrect type");
}

#[test]
fn strings_in_values() {
    let text = PortalValue::Scalar(PortalScalar::Text("a".to_string()));
    assert_eq!(extract_string(&text), Ok("a".to_string()));
    let path = PortalValue::Scalar(PortalScalar::Path("/a".to_string()));
    assert_eq!(extract_string(&path), Ok("/a".to_string()));
    let other = PortalValue::Scalar(PortalScalar::Other);
    assert_eq!(extract_string(&other), Err(PortalError::SessionHandleType));
}

#[test]
fn serials_of_another_type_are_passed_over() {
    let entries = vec![StreamEntry {
        node_id: 3,
        props: vec![
            ("size".to_string(), PortalScalar::Other),
            ("pipewire-serial".to_string(), PortalScalar::Text("5".to_string())),
        ],
    }];
    assert_eq!(
        collect_streams(&entries),
        vec![PortalStream { node_id: 3, pipewire_serial: None }]
    );
}

#[test]
fn a_connection_is_handed_out_once() {
    let mut session = PortalSession {
        session_handle: "/s".to_string(),
        fd: Some("fd"),
        streams: vec![],
    };
    assert_eq!(session.take_fd(), Some("fd"));
    assert_eq!(session.take_fd(), None);
}

#[test]
fn requests_made_at_different_times_are_told_apart() {
    let (_, first) = Handshake::begin(Some(":1.42"), &id_at(Some((1, 15))), "s");
    let (_, second) = Handshake::begin(Some(":1.42"), &id_at(Some((1, 16))), "s");
    assert_ne!(first.path, second.path);
    assert_eq!(first.path, "/org/freedesktop/portal/desktop/request/1_42/req_3b9aca0f");
}

#[test]
fn requests_are_answered_on_object_paths() {
    for name in [":1.42", ":1.x_Y.9"] {
        let (_, request) = Handshake::begin(Some(name), &rand_id(), &rand_id());
        assert!(zbus::zvariant::ObjectPath::try_from(request.path.as_str()).is_ok());
    }
}
