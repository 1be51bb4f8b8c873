use monoterminal_master::errors::{ServerError, SessionError, WebRtcError};
use monoterminal_master::handler::{
    clipboard_get_response, clipboard_set_error, detection_response, health_check_response,
    monomind_args, monomind_response, number_lines, operation_error, pairing_code_response,
    peer_id_response, plan_request, process_request, upgrade_failed, upgrade_response,
    AttachTarget, AuthService, Claims, ClientMessage, ClipboardError, DashboardCommand, Detection,
    DoctorIssue, DoctorReport, ErrorCode, IssueSeverity, MonomindRun, Plan, ProjectDir,
};
use monoterminal_master::handler::{respond, Response, Served};
use monoterminal_master::manager::{
    closed_clients, layout_persistence_key, split_source, validate_dimensions, NamedSessions,
    OutputBuffer, ReadEvent, Resolution, SendOutcome,
};
use monoterminal_master::pairing::PairingCode;
use monoterminal_master::session::Line;

struct FixedAuth;

impl AuthService for FixedAuth {
    fn verify_access(&self, token: &str) -> Result<Claims, String> {
        if token == "good" {
            Ok(Claims { sub: "alice".to_string() })
        } else {
            Err("expired".to_string())
        }
    }
}

fn attach(session_id: &str, name: &str, token: &str) -> ClientMessage {
    ClientMessage::Attach {
        session_id: session_id.to_string(),
        session_name: name.to_string(),
        rows: 24,
        cols: 80,
        auth_token: token.to_string(),
    }
}

#[test]
fn attach_requires_a_token_outside_dev_mode() {
    match process_request(attach("", "", ""), false, None, &FixedAuth) {
        Err(ServerError::AuthFailed(m)) => assert_eq!(m, "Missing authentication token"),
        other => panic!("unexpected {:?}", other),
    }
    match process_request(attach("", "", "bad"), false, None, &FixedAuth) {
        Err(ServerError::AuthFailed(m)) => assert_eq!(m, "JWT verification failed: expired"),
        other => panic!("unexpected {:?}", other),
    }
    match process_request(attach("", "w/t", "good"), false, None, &FixedAuth) {
        Ok(Plan::Attach { target: AttachTarget::Named { name, rows, cols }, user }) => {
            assert_eq!((name.as_str(), rows, cols), ("w/t", 24, 80));
            assert_eq!(user.as_deref(), Some("alice"));
        }
        other => panic!("unexpected {:?}", other),
    }
    match process_request(attach("", "", ""), true, None, &FixedAuth) {
        Ok(Plan::Attach { target: AttachTarget::New { rows: 24, cols: 80 }, user: None }) => {}
        other => panic!("unexpected {:?}", other),
    }
}

#[test]
fn attach_to_an_existing_session_parses_its_uuid() {
    match plan_request(attach("550e8400-e29b-41d4-a716-446655440000", "", ""), true, None, None) {
        Ok(Plan::Attach { target: AttachTarget::Existing(id), .. }) => {
            assert_eq!(id, 0x550e8400_e29b_41d4_a716_446655440000)
        }
        other => panic!("unexpected {:?}", other),
    }
    match plan_request(attach("nope", "", ""), true, None, None) {
        Err(ServerError::InvalidMessage(m)) => assert!(m.starts_with("Invalid session_id UUID: ")),
        other => panic!("unexpected {:?}", other),
    }
}

#[test]
fn input_and_resize_route_to_panes() {
    let input = |pane: Option<&str>| ClientMessage::Input {
        data: b"ls\n".to_vec(),
        auth_token: String::new(),
        pane_id: pane.map(|p| p.to_string()),
    };
    match plan_request(input(None), true, None, None) {
        Err(ServerError::InvalidMessage(m)) => assert_eq!(m, "Not attached to session"),
        other => panic!("unexpected {:?}", other),
    }
    assert!(matches!(
        plan_request(input(Some("pane-1")), true, Some(9), None),
        Ok(Plan::SendInputToPane { root: 9, ref pane_id, .. }) if pane_id == "pane-1"
    ));
    assert!(matches!(
        plan_request(input(Some("")), true, Some(9), None),
        Ok(Plan::SendInput { session: 9, .. })
    ));
    let resize = ClientMessage::Resize { rows: 65_536 + 30, cols: 100, auth_token: String::new(), pane_id: None };
    assert!(matches!(
        plan_request(resize, true, Some(3), None),
        Ok(Plan::ResizeSession { session: 3, rows: 30, cols: 100, .. })
    ));
}

#[test]
fn other_requests_are_planned() {
    assert!(matches!(
        plan_request(ClientMessage::Dashboard { command: "account_peer_id".to_string(), params: vec![] }, false, None, None),
        Ok(Plan::Dashboard(DashboardCommand::PeerId))
    ));
    assert!(matches!(
        plan_request(ClientMessage::HealthCheck { project_dir: String::new() }, false, Some(4), None),
        Ok(Plan::HealthCheck(ProjectDir::SessionDefault(Some(4))))
    ));
    match plan_request(ClientMessage::Upgrade { project_dir: "/p".to_string(), confirmed: false }, false, None, None) {
        Err(ServerError::InvalidMessage(m)) => assert_eq!(m, "Upgrade requires user confirmation"),
        other => panic!("unexpected {:?}", other),
    }
    match plan_request(ClientMessage::SplitPane { pane_id: String::new(), direction: 0, new_session_shell: String::new() }, false, Some(1), None) {
        Err(ServerError::InvalidMessage(m)) => assert_eq!(m, "SplitPaneCommand missing pane_id"),
        other => panic!("unexpected {:?}", other),
    }
    match plan_request(ClientMessage::ClipboardSet { content: "x".to_string() }, false, None, None) {
        Err(ServerError::InvalidMessage(m)) => assert_eq!(m, "Client not attached to session"),
        other => panic!("unexpected {:?}", other),
    }
    for (msg, text) in [
        (ClientMessage::Search, "Search feature not yet implemented"),
        (ClientMessage::ClipboardGetResponse, "Client sent server→client message type"),
        (ClientMessage::ServerToClient, "Client sent server/P2P message type"),
        (ClientMessage::Empty, "Empty envelope"),
    ] {
        match plan_request(msg, false, Some(1), None) {
            Err(ServerError::InvalidMessage(m)) => assert_eq!(m, text),
            other => panic!("unexpected {:?}", other),
        }
    }
}

#[test]
fn responses_are_built_from_outcomes() {
    let lines = vec![Line::from_bytes(b"a"), Line::from_bytes(b"b")];
    let numbered = number_lines(&lines);
    assert_eq!(numbered[1].line_number, 1);
    assert_eq!(numbered[1].data, b"b");
    assert_eq!(
        operation_error("Resize failed: ", &SessionError::InvalidDimensions(600, 80)),
        ServerError::InvalidMessage("Resize failed: Invalid dimensions: rows=600, cols=80".to_string())
    );
    let r = clipboard_get_response(3, "r1".to_string(), Err(ClipboardError::RateLimitExceeded { retry_after: 5 }), &String::new());
    assert!(!r.authorized);
    assert_eq!(r.error, "Rate limit exceeded. Retry after 5 seconds");
    let ok = clipboard_get_response(3, "r1".to_string(), Ok("text".to_string()), &String::new());
    assert_eq!((ok.mime_type.as_str(), ok.authorized), ("text/plain", true));
    assert_eq!(
        clipboard_set_error(&ClipboardError::SizeLimitExceeded, &String::new()),
        ServerError::InvalidMessage("Clipboard size exceeds 1MB limit".to_string())
    );
}

#[test]
fn dashboard_responses() {
    let r = peer_id_response(1, None);
    assert_eq!(r.json_data, "{\"error\":\"P2P is not enabled on this daemon (no --relay-url configured)\"}");
    assert_eq!(r.error, ErrorCode::ServerError);
    let r = peer_id_response(1, Some("ab\"c"));
    assert_eq!(r.json_data, "{\"peer_id\":\"ab\\\"c\"}");
    let r = pairing_code_response(2, Some(Ok(PairingCode { code: "XY".to_string(), expires_at: -5 })));
    assert_eq!(r.json_data, "{\"code\":\"XY\",\"expires_at\":-5}");
    let r = pairing_code_response(2, Some(Err(WebRtcError::Timeout("t".to_string()))));
    assert_eq!(r.json_data, "{\"error\":\"Timeout: t\"}");
    let args = monomind_args("status", &vec![("org".to_string(), "x".to_string())]);
    assert_eq!(args, vec!["monomind@latest", "status", "--json", "--org", "x"]);
    let r = monomind_response(4, MonomindRun::Failed { stderr: "boom".to_string(), exit_code: Some(2) });
    assert_eq!(r.json_data, "{\"error\":\"boom\",\"exitCode\":2}");
    let r = monomind_response(4, MonomindRun::Failed { stderr: "x".to_string(), exit_code: None });
    assert_eq!(r.json_data, "{\"error\":\"x\",\"exitCode\":null}");
    let r = monomind_response(4, MonomindRun::Succeeded("{}".to_string()));
    assert_eq!((r.json_data.as_str(), r.error), ("{}", ErrorCode::Unknown));
}

#[test]
fn monomind_reports_are_converted() {
    let report = DoctorReport {
        installed: true,
        version: None,
        control_server_reachable: false,
        broker_registered: true,
        last_check: 77,
        issues: vec![DoctorIssue { severity: IssueSeverity::Warning, message: "m".to_string(), resolution: None }],
    };
    let h = health_check_response(1, report);
    assert_eq!(h.version, "");
    assert_eq!(h.issues[0].resolution, "");
    assert_eq!(h.last_check_timestamp, 77);
    let u = upgrade_response(1, upgrade_failed(&"disk".to_string()));
    assert_eq!(u.output, "Upgrade failed: disk");
    assert!(!u.success);
    let d = detection_response(1, Detection { found: false, monomind_root: None, suggest_install: true, dismiss_file_exists: false }, "Install!");
    assert_eq!(d.banner_text, "Install!");
}

#[test]
fn test_validate_dimensions() {
    assert!(validate_dimensions(0, 80).is_err());
    assert!(validate_dimensions(24, 0).is_err());
    assert!(validate_dimensions(600, 80).is_err());
    assert!(validate_dimensions(500, 500).is_ok());
    assert!(matches!(validate_dimensions(24, 501), Err(SessionError::InvalidDimensions(24, 501))));
}

#[test]
fn named_sessions_resolve_and_rename() {
    let mut named = NamedSessions::new();
    let live = vec![10u128, 20];
    assert_eq!(named.resolve("a", None, &live), Resolution::Create);
    named.insert("a", 10);
    assert_eq!(named.resolve("a", None, &live), Resolution::Existing(10));
    assert_eq!(named.resolve("b", Some("a"), &live), Resolution::Renamed(10));
    assert_eq!(named.get("a"), None);
    assert_eq!(named.get("b"), Some(10));
    named.insert("c", 99);
    assert_eq!(named.resolve("c", None, &live), Resolution::Create);
    assert_eq!(named.remove("c"), Some(99));
    assert_eq!(layout_persistence_key("u", 1), "u:00000000-0000-0000-0000-000000000001");
    assert_eq!(split_source(None), (None, 24, 80));
}

#[test]
fn pty_output_is_flushed_on_newline_size_or_time() {
    let mut out = OutputBuffer::new();
    let s = out.step(ReadEvent::Data(b"ab".to_vec()), 10);
    assert!(s.flush.is_none() && !s.stop);
    let s = out.step(ReadEvent::Data(b"c\n".to_vec()), 10);
    let f = s.flush.unwrap();
    assert_eq!((f.data.as_slice(), f.sequence, f.touch), (&b"abc\n"[..], 0, true));
    let s = out.step(ReadEvent::Data(b"x".to_vec()), 100);
    assert_eq!(s.flush.unwrap().sequence, 1);
    let s = out.step(ReadEvent::Data(vec![b'y'; 4096]), 0);
    assert_eq!(s.flush.unwrap().data.len(), 4096);
    let _ = out.step(ReadEvent::Data(b"z".to_vec()), 0);
    let s = out.step(ReadEvent::Timeout, 0);
    assert_eq!(s.flush.unwrap().data, b"z");
    let _ = out.step(ReadEvent::Data(b"tail".to_vec()), 0);
    let s = out.step(ReadEvent::Eof, 0);
    assert!(s.stop);
    let f = s.flush.unwrap();
    assert_eq!((f.data.as_slice(), f.sequence), (&b"tail"[..], 4));
    assert!(out.step(ReadEvent::Error, 0).stop);
    let gone = closed_clients(&vec![(1, SendOutcome::Sent), (2, SendOutcome::Closed), (3, SendOutcome::Full), (4, SendOutcome::Closed)]);
    assert_eq!(gone, vec![2, 4]);
}

struct RecordingAuth {
    seen: std::cell::RefCell<Vec<String>>,
}

impl AuthService for RecordingAuth {
    fn verify_access(&self, token: &str) -> Result<Claims, String> {
        self.seen.borrow_mut().push(token.to_string());
        Ok(Claims { sub: format!("user-of-{}", token) })
    }
}

#[test]
fn the_message_token_is_handed_to_the_verifier() {
    let auth = RecordingAuth { seen: std::cell::RefCell::new(Vec::new()) };
    match process_request(attach("", "", "tok-1"), false, None, &auth) {
        Ok(Plan::Attach { user, .. }) => assert_eq!(user.as_deref(), Some("user-of-tok-1")),
        other => panic!("unexpected {:?}", other),
    }
    assert_eq!(*auth.seen.borrow(), vec!["tok-1".to_string()]);
    // Development mode never asks the verifier.
    let _ = process_request(attach("", "", "tok-2"), true, None, &auth);
    assert_eq!(auth.seen.borrow().len(), 1);
}

#[test]
fn every_response_echoes_its_request_number() {
    match respond(41, Served::Upgraded(upgrade_failed(&"disk".to_string()))) {
        Some(Response::Upgrade(u)) => {
            assert_eq!(u.sequence_number, 41);
            assert!(!u.success);
        }
        _ => panic!("expected an upgrade response"),
    }
    match respond(7, Served::Layout(vec![1, 2, 3])) {
        Some(Response::Layout { sequence_number, update }) => {
            assert_eq!(sequence_number, 7);
            assert_eq!(update, vec![1, 2, 3]);
        }
        _ => panic!("expected a layout response"),
    }
    match respond(9, Served::PeerId(Some("abcd".to_string()))) {
        Some(Response::Dashboard(d)) => {
            assert_eq!(d.sequence_number, 9);
            assert_eq!(d.json_data, "{\"peer_id\":\"abcd\"}");
            assert_eq!(d.error, ErrorCode::Unknown);
        }
        _ => panic!("expected a dashboard response"),
    }
    assert!(respond(3, Served::Done).is_none());
}
