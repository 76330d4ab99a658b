use pty_relay::bridge::{PollOutcome, PtyCommand, PtyIoLoop, WriteOutcome};
use pty_relay::protocol::{
    ClientMessage, InboundText, classify_text, connected_frame, disconnected_frame, error_frame,
    output_frame,
};
use pty_relay::session::{Session, SessionState, TickAction};
use pty_relay::{CLIENT_TIMEOUT_MS, HEARTBEAT_INTERVAL_MS};

fn connect_text() -> String {
    String::from(
        "{\"type\":\"connect\",\"credentials\":{\"hostname\":\"example.net\",\"port\":22,\
         \"username\":\"alice\",\"password\":\"secret\"},\"col_width\":100,\"row_height\":40}",
    )
}

#[test]
fn connect_message_parses() {
    match classify_text(&connect_text()) {
        InboundText::Control(ClientMessage::Connect { credentials, col_width, row_height }) => {
            assert_eq!(credentials.hostname, "example.net");
            assert_eq!(credentials.port, 22);
            assert_eq!(credentials.username, "alice");
            assert_eq!(credentials.password, "secret");
            assert_eq!(col_width, Some(100));
            assert_eq!(row_height, Some(40));
        }
        other => panic!("unexpected: {:?}", other),
    }
}

#[test]
fn input_message_parses_with_alias() {
    match classify_text("{\"type\":\"input\",\"data\":\"echo hi\\n\"}") {
        InboundText::Control(ClientMessage::Input { data }) => assert_eq!(data, "echo hi\n"),
        other => panic!("unexpected: {:?}", other),
    }
    match classify_text("{\"type\":\"input\",\"content\":\"ls\"}") {
        InboundText::Control(ClientMessage::Input { data }) => assert_eq!(data, "ls"),
        other => panic!("unexpected: {:?}", other),
    }
}

#[test]
fn escapes_decode_in_strings() {
    match classify_text("{\"type\":\"input\",\"data\":\"\\u0041\\t\\\"\\\\\\u00e9\"}") {
        InboundText::Control(ClientMessage::Input { data }) => {
            assert_eq!(data, "A\t\"\\\u{e9}");
        }
        other => panic!("unexpected: {:?}", other),
    }
}

#[test]
fn resize_and_disconnect_parse() {
    match classify_text("{\"type\":\"resize\",\"width\":100,\"height\":40}") {
        InboundText::Control(ClientMessage::Resize { width, height }) => {
            assert_eq!((width, height), (100, 40));
        }
        other => panic!("unexpected: {:?}", other),
    }
    assert!(matches!(
        classify_text("{\"type\":\"disconnect\"}"),
        InboundText::Control(ClientMessage::Disconnect)
    ));
}

#[test]
fn non_json_text_is_raw_input() {
    match classify_text("ls -la\n") {
        InboundText::Raw(t) => assert_eq!(t, "ls -la\n"),
        other => panic!("unexpected: {:?}", other),
    }
}

#[test]
fn malformed_json_falls_back_to_raw_input() {
    for text in [
        "{\"type\":\"input\"",
        "{\"type\":\"resize\",\"width\":-1,\"height\":2}",
        "{\"type\":\"connect\",\"credentials\":{\"hostname\":\"h\",\"port\":70000,\
         \"username\":\"u\",\"password\":\"p\"}}",
        "{\"type\":\"input\",\"data\":\"a\",\"content\":\"b\"}",
        "{\"type\":\"nope\"}",
        "{broken",
    ] {
        match classify_text(text) {
            InboundText::Raw(t) => assert_eq!(t, text),
            other => panic!("unexpected for {text}: {:?}", other),
        }
    }
    assert!(matches!(classify_text(""), InboundText::Empty));
}

#[test]
fn unknown_fields_are_tolerated() {
    match classify_text(
        "{\"extra\":[1,2,{\"x\":null}],\"type\":\"input\",\"data\":\"ok\",\"more\":1.5e3}",
    ) {
        InboundText::Control(ClientMessage::Input { data }) => assert_eq!(data, "ok"),
        other => panic!("unexpected: {:?}", other),
    }
}

#[test]
fn frames_render_exactly() {
    assert_eq!(
        connected_frame("example.net", 22, "alice"),
        "{\"host\":\"example.net\",\"port\":22,\"type\":\"connected\",\"username\":\"alice\"}"
    );
    assert_eq!(
        error_frame("bad \"quote\"\n"),
        "{\"message\":\"bad \\\"quote\\\"\\n\",\"type\":\"error\"}"
    );
    assert_eq!(
        output_frame("hi\u{1}"),
        "{\"content\":\"hi\\u0001\",\"data\":\"hi\\u0001\",\"type\":\"output\"}"
    );
    assert_eq!(disconnected_frame(), "{\"type\":\"disconnected\"}");
}

#[test]
fn session_connect_flow_emits_connected() {
    let mut s = Session::new(0);
    assert!(matches!(s.state(), SessionState::Idle));
    let step = s.handle_text(&connect_text());
    assert!(step.frames.is_empty());
    let req = step.connect.expect("connect request");
    assert_eq!(req.credentials.hostname, "example.net");
    assert_eq!((req.cols, req.rows), (100, 40));
    assert!(matches!(s.state(), SessionState::Connecting));
    let frames = s.on_connect_result(true, "");
    assert_eq!(frames.len(), 1);
    assert_eq!(
        frames[0],
        "{\"host\":\"example.net\",\"port\":22,\"type\":\"connected\",\"username\":\"alice\"}"
    );
    assert!(matches!(s.state(), SessionState::Connected));
}

#[test]
fn session_rejects_second_connect() {
    let mut s = Session::new(0);
    let _ = s.handle_text(&connect_text());
    let _ = s.on_connect_result(true, "");
    let step = s.handle_text(&connect_text());
    assert!(step.connect.is_none());
    assert_eq!(step.frames.len(), 1);
    assert!(step.frames[0].contains("\"type\":\"error\""));
    assert!(matches!(s.state(), SessionState::Connected));
}

#[test]
fn failed_connect_returns_to_idle_and_allows_retry() {
    let mut s = Session::new(0);
    let _ = s.handle_text(&connect_text());
    let frames = s.on_connect_result(false, "SSH连接失败: auth");
    assert_eq!(frames.len(), 1);
    assert_eq!(frames[0], error_frame("SSH连接失败: auth"));
    assert!(matches!(s.state(), SessionState::Idle));
    let step = s.handle_text(&connect_text());
    assert!(step.connect.is_some());
    assert!(step.frames.is_empty());
    assert!(matches!(s.state(), SessionState::Connecting));
}

#[test]
fn input_before_connect_yields_error_frame() {
    let mut s = Session::new(0);
    let step = s.handle_text("{\"type\":\"input\",\"data\":\"ls\"}");
    assert_eq!(step.frames.len(), 1);
    assert!(step.frames[0].contains("\"type\":\"error\""));
    assert!(step.commands.is_empty());
}

#[test]
fn raw_input_is_forwarded_when_connected() {
    let mut s = Session::new(0);
    let _ = s.handle_text(&connect_text());
    let _ = s.on_connect_result(true, "");
    let step = s.handle_text("ls -la\n");
    assert!(step.frames.is_empty());
    assert_eq!(step.commands.len(), 1);
    match &step.commands[0] {
        PtyCommand::Write(d) => assert_eq!(d.as_slice(), b"ls -la\n"),
        other => panic!("unexpected: {:?}", other),
    }
}

#[test]
fn heartbeat_timeout_emits_one_disconnected_then_errors() {
    let mut s = Session::new(1000);
    let _ = s.handle_text(&connect_text());
    let _ = s.on_connect_result(true, "");
    assert!(matches!(s.heartbeat_tick(1000 + HEARTBEAT_INTERVAL_MS), TickAction::Ping));
    match s.heartbeat_tick(1001 + CLIENT_TIMEOUT_MS) {
        TickAction::Timeout { frame, close_transport } => {
            assert_eq!(frame, disconnected_frame());
            assert!(close_transport);
        }
        other => panic!("unexpected: {:?}", other),
    }
    assert!(matches!(s.state(), SessionState::Closed));
    assert!(matches!(s.heartbeat_tick(2000 + CLIENT_TIMEOUT_MS), TickAction::Stopped));
    let step = s.handle_text("{\"type\":\"input\",\"data\":\"ls\"}");
    assert_eq!(step.frames.len(), 1);
    assert!(step.frames[0].contains("\"type\":\"error\""));
    assert!(matches!(s.state(), SessionState::Closed));
}

#[test]
fn pong_keeps_session_alive() {
    let mut s = Session::new(0);
    s.record_activity(CLIENT_TIMEOUT_MS);
    assert!(matches!(s.heartbeat_tick(2 * CLIENT_TIMEOUT_MS), TickAction::Ping));
}

#[test]
fn remote_eof_emits_disconnected() {
    let mut s = Session::new(0);
    let _ = s.handle_text(&connect_text());
    let _ = s.on_connect_result(true, "");
    let frames = s.on_bridge_closed();
    assert_eq!(frames.len(), 1);
    assert_eq!(frames[0], disconnected_frame());
    assert!(matches!(s.state(), SessionState::Closed));
    assert!(s.on_bridge_closed().is_empty());
}

#[test]
fn client_disconnect_tears_down() {
    let mut s = Session::new(0);
    let _ = s.handle_text(&connect_text());
    let _ = s.on_connect_result(true, "");
    let step = s.handle_text("{\"type\":\"disconnect\"}");
    assert_eq!(step.frames.len(), 1);
    assert_eq!(step.frames[0], disconnected_frame());
    assert!(matches!(step.commands[0], PtyCommand::Close));
    assert!(matches!(s.state(), SessionState::Closing));
    assert!(s.on_bridge_closed().is_empty());
    assert!(matches!(s.state(), SessionState::Closed));
}

#[test]
fn output_frames_pass_bytes_through() {
    let s = Session::new(0);
    let frame = s.on_output(&b"hi\r\n".to_vec());
    assert_eq!(frame, "{\"content\":\"hi\\r\\n\",\"data\":\"hi\\r\\n\",\"type\":\"output\"}");
    assert!(frame.contains("hi"));
}

#[test]
fn bridge_flushes_partial_writes_in_order() {
    let mut io = PtyIoLoop::new();
    assert!(matches!(
        io.on_command(Some(PtyCommand::Write(b"abcdef".to_vec()))),
        PollOutcome::Staged
    ));
    assert!(io.has_pending());
    assert_eq!(io.write_chunk(), b"abcdef".to_vec());
    io.on_write_result(WriteOutcome::Accepted(2));
    assert_eq!(io.write_chunk(), b"cdef".to_vec());
    io.on_write_result(WriteOutcome::WouldBlock);
    assert_eq!(io.write_chunk(), b"cdef".to_vec());
    io.on_write_result(WriteOutcome::Accepted(1));
    assert_eq!(io.write_chunk(), b"def".to_vec());
    io.on_write_result(WriteOutcome::Accepted(3));
    assert!(!io.has_pending());
    assert!(!io.is_done());
}

#[test]
fn bridge_resize_applies_while_write_pending() {
    let mut io = PtyIoLoop::new();
    let _ = io.on_command(Some(PtyCommand::Write(b"xy".to_vec())));
    io.on_write_result(WriteOutcome::Accepted(1));
    // the drain step sees the resize before the pending write finishes
    // draining; the staged bytes still arrive whole and in order
    assert!(io.has_pending());
    io.on_write_result(WriteOutcome::Accepted(1));
    assert!(!io.has_pending());
    match io.on_command(Some(PtyCommand::Resize { width: 100, height: 40 })) {
        PollOutcome::ResizeNow { width, height } => assert_eq!((width, height), (100, 40)),
        other => panic!("unexpected: {:?}", other),
    }
}

#[test]
fn bridge_close_is_idempotent() {
    let mut io = PtyIoLoop::new();
    assert!(matches!(io.on_command(Some(PtyCommand::Close)), PollOutcome::CloseNow));
    assert!(io.is_done());
    io.close();
    io.close();
    assert!(io.is_done());
}

#[test]
fn bridge_stops_on_eof_and_errors() {
    let mut io = PtyIoLoop::new();
    io.on_read_data(&b"out".to_vec());
    io.on_read_eof();
    assert!(io.is_done());

    let mut io2 = PtyIoLoop::new();
    let _ = io2.on_command(Some(PtyCommand::Write(b"z".to_vec())));
    io2.on_write_result(WriteOutcome::Failed);
    assert!(io2.is_done());

    let mut io3 = PtyIoLoop::new();
    io3.on_read_error();
    assert!(io3.is_done());

    let mut io4 = PtyIoLoop::new();
    io4.on_forward_failed();
    assert!(io4.is_done());

    let mut io5 = PtyIoLoop::new();
    io5.on_producers_gone();
    assert!(io5.is_done());
}

#[test]
fn end_to_end_echo_scenario() {
    // client connects, sends input, resizes mid-write; the write drains
    // whole and the shell's answer comes back as an output frame
    let mut s = Session::new(0);
    let step = s.handle_text(&connect_text());
    assert!(step.connect.is_some());
    let _ = s.on_connect_result(true, "");
    let mut io = PtyIoLoop::new();

    let step = s.handle_text("{\"type\":\"input\",\"data\":\"echo hi\\n\"}");
    assert_eq!(step.commands.len(), 1);
    let mut queue: Vec<PtyCommand> = step.commands;
    let step = s.handle_text("{\"type\":\"resize\",\"width\":100,\"height\":40}");
    queue.extend(step.commands);

    let mut sent: Vec<u8> = Vec::new();
    let mut resized = false;
    for cmd in queue {
        match io.on_command(Some(cmd)) {
            PollOutcome::Staged => {
                // the channel accepts the write in pieces
                while io.has_pending() {
                    let chunk = io.write_chunk();
                    let n = 3.min(chunk.len());
                    sent.extend_from_slice(&chunk[..n]);
                    io.on_write_result(WriteOutcome::Accepted(n));
                }
            }
            PollOutcome::ResizeNow { width, height } => {
                assert_eq!((width, height), (100, 40));
                resized = true;
            }
            other => panic!("unexpected: {:?}", other),
        }
    }
    assert!(resized);
    assert_eq!(sent, b"echo hi\n".to_vec());

    io.on_read_data(&b"hi\r\n".to_vec());
    let frame = s.on_output(&b"hi\r\n".to_vec());
    assert!(frame.contains("hi"));
    assert!(frame.contains("\"type\":\"output\""));
}
