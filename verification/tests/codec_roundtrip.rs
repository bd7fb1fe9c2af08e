use niri_burst::clock::get_time_ms;
use niri_burst::codec::{
    check_dispatch_reply, check_handshake_reply, classify_reply_line, consume_command_line,
    decode_window_event, frame_line, subscribe_line, DispatchError, HandshakeError, ProtocolError,
    ReplyOutcome,
};

#[test]
fn subscribe_request_is_the_event_stream_line() {
    let line = subscribe_line();
    assert_eq!(line, "\"EventStream\"\n");
}

#[test]
fn consume_command_renders_the_exact_json_line() {
    let line = consume_command_line(42);
    assert_eq!(
        line,
        "{\"Action\":{\"ConsumeOrExpelWindowLeft\":{\"id\":42}}}\n"
    );
}

#[test]
fn frame_line_appends_one_newline() {
    assert_eq!(frame_line("abc"), "abc\n");
    assert_eq!(frame_line(""), "\n");
}

#[test]
fn consume_command_round_trips_through_the_collaborator_codec() {
    let line = consume_command_line(7);
    let request: niri_ipc::Request = serde_json::from_str(line.trim_end()).unwrap();
    match request {
        niri_ipc::Request::Action(niri_ipc::Action::ConsumeOrExpelWindowLeft { id }) => {
            assert_eq!(id, Some(7));
        }
        other => panic!("decoded to the wrong request: {:?}", other),
    }
}

#[test]
fn success_reply_round_trips_to_success() {
    let reply: niri_ipc::Reply = Ok(niri_ipc::Response::Handled);
    let line = serde_json::to_string(&reply).unwrap();
    assert!(matches!(classify_reply_line(&line), ReplyOutcome::Success));
    assert!(check_handshake_reply(&line).is_ok());
    assert!(check_dispatch_reply(&line).is_ok());
}

#[test]
fn failure_reply_round_trips_with_its_message() {
    let reply: niri_ipc::Reply = Err("no such window".to_string());
    let line = serde_json::to_string(&reply).unwrap();
    match classify_reply_line(&line) {
        ReplyOutcome::Failure(m) => assert_eq!(m, "no such window"),
        other => panic!("expected a failure classification, got {:?}", other),
    }
    match check_handshake_reply(&line) {
        Err(HandshakeError::Refused(m)) => assert_eq!(m, "no such window"),
        other => panic!("expected a refusal, got {:?}", other),
    }
    match check_dispatch_reply(&line) {
        Err(DispatchError::Refused(m)) => assert_eq!(m, "no such window"),
        other => panic!("expected a refusal, got {:?}", other),
    }
}

#[test]
fn malformed_reply_is_classified_as_malformed() {
    assert!(matches!(
        classify_reply_line("not a reply"),
        ReplyOutcome::Malformed
    ));
    assert!(matches!(
        check_handshake_reply("not a reply"),
        Err(HandshakeError::MalformedReply)
    ));
    assert!(matches!(
        check_dispatch_reply("not a reply"),
        Err(DispatchError::MalformedReply)
    ));
}

fn sample_window(id: u64, pos: Option<(usize, usize)>) -> niri_ipc::Window {
    niri_ipc::Window {
        id,
        title: Some("terminal".to_string()),
        app_id: Some("org.example.Terminal".to_string()),
        pid: Some(4321),
        workspace_id: Some(2),
        is_focused: true,
        is_floating: false,
        is_urgent: false,
        layout: niri_ipc::WindowLayout {
            pos_in_scrolling_layout: pos,
            tile_size: (640.0, 480.0),
            window_size: (640, 480),
            tile_pos_in_workspace_view: Some((10.0, 20.0)),
            window_offset_in_tile: (0.0, 0.0),
        },
        focus_timestamp: None,
    }
}

#[test]
fn window_event_line_decodes_to_id_and_column() {
    let event = niri_ipc::Event::WindowOpenedOrChanged {
        window: sample_window(99, Some((4, 2))),
    };
    let line = serde_json::to_string(&event).unwrap();
    let decoded = decode_window_event(&line).unwrap().unwrap();
    assert_eq!(decoded.id, 99);
    assert_eq!(decoded.column_position, Some((4, 2)));
}

#[test]
fn other_event_kinds_are_ignored_not_errors() {
    let event = niri_ipc::Event::WindowClosed { id: 5 };
    let line = serde_json::to_string(&event).unwrap();
    assert!(decode_window_event(&line).unwrap().is_none());
}

#[test]
fn malformed_event_line_is_a_decode_error() {
    assert!(matches!(
        decode_window_event("{ not json"),
        Err(ProtocolError::MalformedEvent)
    ));
}

#[test]
fn clock_reads_after_the_epoch() {
    let a = get_time_ms().expect("the clock reads after the epoch here");
    assert!(a > 0);
}
