//! The server-side session state machine, driven end to end with a counting
//! mock in place of the CAL backend.

use edcs::adapter::{EdssError, EdssMouseEvent, BTN_LEFT};
use edcs::config::{EdcsConfig, EdssConfig};
use edcs::schema::{EdcsCalParams, EdcsKeyData, EdcsMessage, EdcsMessagePayload, EdcsMessageType,
    EdcsMouseEvent, EdcsMouseMove, EdcsResponse, EdcsResponsePayload, EdcsSetupEdcsData,
    EdcsSetupStreamData, EdcsStatus, EdcsStreamParams};
use edcs::session::{BackendAction, BackendOutcome, EdcsHandler, Phase, Step};

fn cfg() -> EdcsConfig {
    EdcsConfig {
        ip: "127.0.0.1".to_string(),
        port: 47000,
        cert_path: "certs/server.pem".to_string(),
        key_path: "certs/server.key".to_string(),
        edss_config: EdssConfig {
            plugin_name: "cal_x11".to_string(),
            ip: "127.0.0.1".to_string(),
            port: 47100,
        },
    }
}

fn dict(entries: &[(&str, &str)]) -> Vec<(String, String)> {
    entries.iter().map(|(k, v)| (k.to_string(), v.to_string())).collect()
}

/// A backend double that counts every call made into it.
#[derive(Default)]
struct MockBackend {
    opens: u32,
    init_servers: u32,
    starts: u32,
    closes: u32,
    updates: u32,
    mouse_events: Vec<EdssMouseEvent>,
    keyboard_events: Vec<EdcsKeyData>,
    fail_with: Option<u32>,
}

impl MockBackend {
    fn perform(&mut self, action: &BackendAction) -> BackendOutcome {
        if let Some(code) = self.fail_with {
            return BackendOutcome::Failed(EdssError(code));
        }
        match action {
            BackendAction::OpenCal { .. } => {
                self.opens += 1;
                BackendOutcome::OpenedCal { cal_option_dict: dict(&[("vgpuId", "")]) }
            }
            BackendAction::InitServer(_) => {
                self.init_servers += 1;
                BackendOutcome::InitialisedServer { sdp: "v=0...".to_string() }
            }
            BackendAction::StartStream => {
                self.starts += 1;
                BackendOutcome::Done
            }
            BackendAction::CloseStream => {
                self.closes += 1;
                BackendOutcome::Done
            }
            BackendAction::UpdateStream(_) => {
                self.updates += 1;
                BackendOutcome::Done
            }
            BackendAction::WriteMouse(e) => {
                self.mouse_events.push(*e);
                BackendOutcome::Done
            }
            BackendAction::WriteKeyboard(k) => {
                self.keyboard_events.push(*k);
                BackendOutcome::Done
            }
        }
    }
}

fn drive(
    h: &mut EdcsHandler,
    c: &EdcsConfig,
    b: &mut MockBackend,
    m: EdcsMessage,
) -> Option<EdcsResponse> {
    match h.handle_message(c, &m) {
        Step::Reply(r) => r,
        Step::Invoke(a) => {
            let o = b.perform(&a);
            h.apply_outcome(c, &a, o)
        }
    }
}

fn setup_edcs_msg() -> EdcsMessage {
    EdcsMessage {
        message_type: EdcsMessageType::SetupEdcs,
        payload: Some(EdcsMessagePayload::SetupEdcsParams(EdcsStreamParams {
            bitrate: 10_000_000,
            framerate: 60,
        })),
    }
}

fn setup_stream_msg() -> EdcsMessage {
    EdcsMessage {
        message_type: EdcsMessageType::SetupStream,
        payload: Some(EdcsMessagePayload::SetupStreamParams(EdcsCalParams {
            cal_option_dict: dict(&[("vgpuId", "2")]),
        })),
    }
}

fn bare(message_type: EdcsMessageType) -> EdcsMessage {
    EdcsMessage { message_type, payload: None }
}

/// Scenario: SetupEdcs answers Ok with the capability dictionary and leaves
/// the session adapter-initialised.
#[test]
fn setup_edcs_initialises_the_adapter() {
    let c = cfg();
    let mut h = EdcsHandler::default();
    let mut b = MockBackend::default();
    let resp = drive(&mut h, &c, &mut b, setup_edcs_msg());
    assert_eq!(
        resp,
        Some(EdcsResponse {
            status: EdcsStatus::EdcsOk,
            payload: Some(EdcsResponsePayload::SetupEdcsData(EdcsSetupEdcsData {
                cal_option_dict: dict(&[("vgpuId", "")]),
            })),
        })
    );
    assert_eq!(h.phase(), Phase::AdapterInitialised);
    assert_eq!(b.opens, 1);
}

/// Scenario: SetupStream then answers Ok with the stream parameters and the
/// SDP, and the session is stream-configured.
#[test]
fn setup_stream_configures_the_stream() {
    let c = cfg();
    let mut h = EdcsHandler::default();
    let mut b = MockBackend::default();
    drive(&mut h, &c, &mut b, setup_edcs_msg());
    let resp = drive(&mut h, &c, &mut b, setup_stream_msg());
    assert_eq!(
        resp,
        Some(EdcsResponse {
            status: EdcsStatus::EdcsOk,
            payload: Some(EdcsResponsePayload::SetupStreamData(EdcsSetupStreamData {
                out_stream_params: Some(EdcsStreamParams { bitrate: 10_000_000, framerate: 60 }),
                sdp: "v=0...".to_string(),
            })),
        })
    );
    assert_eq!(h.phase(), Phase::StreamConfigured);
    assert_eq!(b.init_servers, 1);
}

/// Scenario: StartStream answers a bare Ok and the session is streaming.
#[test]
fn start_stream_starts_streaming() {
    let c = cfg();
    let mut h = EdcsHandler::default();
    let mut b = MockBackend::default();
    drive(&mut h, &c, &mut b, setup_edcs_msg());
    drive(&mut h, &c, &mut b, setup_stream_msg());
    let resp = drive(&mut h, &c, &mut b, bare(EdcsMessageType::StartStream));
    assert_eq!(resp, Some(EdcsResponse { status: EdcsStatus::EdcsOk, payload: None }));
    assert_eq!(h.phase(), Phase::Streaming);
    assert!(h.adapter_streaming());
    assert_eq!(b.starts, 1);
}

/// Scenario: mouse moves while streaming produce no responses and reach the
/// backend in order.
#[test]
fn mouse_moves_produce_no_responses() {
    let c = cfg();
    let mut h = EdcsHandler::default();
    let mut b = MockBackend::default();
    drive(&mut h, &c, &mut b, setup_edcs_msg());
    drive(&mut h, &c, &mut b, setup_stream_msg());
    drive(&mut h, &c, &mut b, bare(EdcsMessageType::StartStream));
    for (x, y) in [(100, 200), (101, 200)] {
        let resp = drive(
            &mut h,
            &c,
            &mut b,
            EdcsMessage {
                message_type: EdcsMessageType::WriteMouseEvent,
                payload: Some(EdcsMessagePayload::MouseEvent(EdcsMouseEvent::Move(
                    EdcsMouseMove { x, y },
                ))),
            },
        );
        assert_eq!(resp, None);
    }
    assert_eq!(h.phase(), Phase::Streaming);
    assert_eq!(
        b.mouse_events,
        vec![EdssMouseEvent::MoveTo { x: 100, y: 200 }, EdssMouseEvent::MoveTo { x: 101, y: 200 }]
    );
}

/// Scenario: CloseStream from a streaming session answers Ok, the adapter is
/// dropped and the session is closed.
#[test]
fn close_stream_closes_the_session() {
    let c = cfg();
    let mut h = EdcsHandler::default();
    let mut b = MockBackend::default();
    drive(&mut h, &c, &mut b, setup_edcs_msg());
    drive(&mut h, &c, &mut b, setup_stream_msg());
    drive(&mut h, &c, &mut b, bare(EdcsMessageType::StartStream));
    let resp = drive(&mut h, &c, &mut b, bare(EdcsMessageType::CloseStream));
    assert_eq!(resp, Some(EdcsResponse { status: EdcsStatus::EdcsOk, payload: None }));
    assert_eq!(h.phase(), Phase::Closed);
    assert_eq!(b.closes, 1);
}

/// Scenario: a keyboard event sent while the session is fresh answers
/// StreamNotStarted and the session stays fresh.
#[test]
fn keyboard_event_in_fresh_session_is_refused() {
    let c = cfg();
    let mut h = EdcsHandler::default();
    let mut b = MockBackend::default();
    let resp = drive(
        &mut h,
        &c,
        &mut b,
        EdcsMessage {
            message_type: EdcsMessageType::WriteKeyboardEvent,
            payload: Some(EdcsMessagePayload::KeyboardEvent(EdcsKeyData {
                btn_typ: 30,
                pressed: true,
            })),
        },
    );
    assert_eq!(resp, Some(EdcsResponse { status: EdcsStatus::StreamNotStarted, payload: None }));
    assert_eq!(h.phase(), Phase::Fresh);
    assert!(b.keyboard_events.is_empty());
}

/// The same SetupEdcs twice: Ok once, EdcsAlreadySetup every further time.
#[test]
fn repeated_setup_edcs_is_refused() {
    let c = cfg();
    let mut h = EdcsHandler::default();
    let mut b = MockBackend::default();
    let first = drive(&mut h, &c, &mut b, setup_edcs_msg()).unwrap();
    assert_eq!(first.status, EdcsStatus::EdcsOk);
    for _ in 0..3 {
        let again = drive(&mut h, &c, &mut b, setup_edcs_msg());
        assert_eq!(
            again,
            Some(EdcsResponse { status: EdcsStatus::EdcsAlreadySetup, payload: None })
        );
    }
    assert_eq!(b.opens, 1);
}

/// A request that is not SetupEdcs on a fresh session answers
/// UninitialisedEdss and the session stays fresh.
#[test]
fn fresh_session_requires_setup_edcs_first() {
    let c = cfg();
    for mt in [
        EdcsMessageType::SetupStream,
        EdcsMessageType::StartStream,
        EdcsMessageType::CloseStream,
        EdcsMessageType::UpdateStream,
    ] {
        let mut h = EdcsHandler::default();
        let mut b = MockBackend::default();
        let resp = drive(&mut h, &c, &mut b, bare(mt));
        assert_eq!(
            resp,
            Some(EdcsResponse { status: EdcsStatus::UninitialisedEdss, payload: None })
        );
        assert_eq!(h.phase(), Phase::Fresh);
    }
}

/// A session dropped after reaching Streaming sees exactly one backend stop.
#[test]
fn disconnect_stops_the_backend_exactly_once() {
    let c = cfg();
    let mut h = EdcsHandler::default();
    let mut b = MockBackend::default();
    drive(&mut h, &c, &mut b, setup_edcs_msg());
    drive(&mut h, &c, &mut b, setup_stream_msg());
    drive(&mut h, &c, &mut b, bare(EdcsMessageType::StartStream));
    assert!(h.adapter_streaming());
    if let Some(a) = h.on_disconnect() {
        assert!(matches!(a, BackendAction::CloseStream));
        b.perform(&a);
    } else {
        panic!("a streaming session must issue the synthetic close");
    }
    assert_eq!(b.closes, 1);
    assert!(h.on_disconnect().is_none());
    assert_eq!(b.closes, 1);
}

/// A disconnect before streaming issues no backend stop.
#[test]
fn disconnect_before_streaming_issues_no_stop() {
    let c = cfg();
    let mut h = EdcsHandler::default();
    let mut b = MockBackend::default();
    drive(&mut h, &c, &mut b, setup_edcs_msg());
    drive(&mut h, &c, &mut b, setup_stream_msg());
    assert!(h.on_disconnect().is_none());
    assert_eq!(h.phase(), Phase::Closed);
    assert_eq!(b.closes, 0);
}

/// Illegal transitions answer their status codes and change nothing.
#[test]
fn illegal_transitions_answer_their_status() {
    let c = cfg();
    let mut h = EdcsHandler::default();
    let mut b = MockBackend::default();
    drive(&mut h, &c, &mut b, setup_edcs_msg());

    // starting before the stream is set up
    let resp = drive(&mut h, &c, &mut b, bare(EdcsMessageType::StartStream));
    assert_eq!(resp.unwrap().status, EdcsStatus::StreamNotStarted);

    // closing before streaming
    let resp = drive(&mut h, &c, &mut b, bare(EdcsMessageType::CloseStream));
    assert_eq!(resp.unwrap().status, EdcsStatus::StreamNotStarted);

    drive(&mut h, &c, &mut b, setup_stream_msg());

    // setting up the stream twice
    let resp = drive(&mut h, &c, &mut b, setup_stream_msg());
    assert_eq!(resp.unwrap().status, EdcsStatus::StreamAlreadySetup);

    drive(&mut h, &c, &mut b, bare(EdcsMessageType::StartStream));

    // starting twice
    let resp = drive(&mut h, &c, &mut b, bare(EdcsMessageType::StartStream));
    assert_eq!(resp.unwrap().status, EdcsStatus::StreamAlreadyStarted);
    assert_eq!(h.phase(), Phase::Streaming);
}

/// A missing or wrong payload answers InvalidRequest.
#[test]
fn wrong_payload_answers_invalid_request() {
    let c = cfg();
    let mut h = EdcsHandler::default();
    let mut b = MockBackend::default();
    let resp = drive(&mut h, &c, &mut b, bare(EdcsMessageType::SetupEdcs)).unwrap();
    assert_eq!(resp.status, EdcsStatus::InvalidRequest);
    assert!(matches!(resp.payload, Some(EdcsResponsePayload::InvalidRequestData(_))));
    assert_eq!(h.phase(), Phase::Fresh);
}

/// A backend failure surfaces as EdssErr with the backend's code.
#[test]
fn backend_failure_answers_edss_err() {
    let c = cfg();
    let mut h = EdcsHandler::default();
    let mut b = MockBackend::default();
    b.fail_with = Some(9);
    let resp = drive(&mut h, &c, &mut b, setup_edcs_msg());
    assert_eq!(
        resp,
        Some(EdcsResponse {
            status: EdcsStatus::EdssErr,
            payload: Some(EdcsResponsePayload::EdssErrData(9)),
        })
    );
    assert_eq!(h.phase(), Phase::Fresh);
}

/// A mouse button the protocol knows reaches the backend as its Linux event
/// code; an unknown ordinal is silently dropped.
#[test]
fn mouse_buttons_map_to_linux_codes() {
    let c = cfg();
    let mut h = EdcsHandler::default();
    let mut b = MockBackend::default();
    drive(&mut h, &c, &mut b, setup_edcs_msg());
    drive(&mut h, &c, &mut b, setup_stream_msg());
    drive(&mut h, &c, &mut b, bare(EdcsMessageType::StartStream));
    let button = |ordinal: u32| EdcsMessage {
        message_type: EdcsMessageType::WriteMouseEvent,
        payload: Some(EdcsMessagePayload::MouseEvent(EdcsMouseEvent::Button(EdcsKeyData {
            btn_typ: ordinal,
            pressed: true,
        }))),
    };
    assert_eq!(drive(&mut h, &c, &mut b, button(0)), None);
    assert_eq!(drive(&mut h, &c, &mut b, button(7)), None);
    assert_eq!(b.mouse_events, vec![EdssMouseEvent::Click { button: BTN_LEFT, pressed: true }]);
    assert_eq!(input_linux_sys::BTN_LEFT as u32, BTN_LEFT);
}

/// A session can be set up again after a close, on the same connection.
#[test]
fn setup_after_close_opens_again() {
    let c = cfg();
    let mut h = EdcsHandler::default();
    let mut b = MockBackend::default();
    drive(&mut h, &c, &mut b, setup_edcs_msg());
    drive(&mut h, &c, &mut b, setup_stream_msg());
    drive(&mut h, &c, &mut b, bare(EdcsMessageType::StartStream));
    drive(&mut h, &c, &mut b, bare(EdcsMessageType::CloseStream));
    let resp = drive(&mut h, &c, &mut b, setup_edcs_msg()).unwrap();
    assert_eq!(resp.status, EdcsStatus::EdcsOk);
    assert_eq!(b.opens, 2);
}
