//! The client side: broker decisions, the session mirror, window input
//! mapping, the key code table and the debug area.

use edcs::broker::{broker_step, is_input_event, request_message, BrokerStep, ChannelEdcsRequest,
    ChannelEdcsResponse};
use edcs::config::{ClientConfig, ConnectionConfig, StreamConfig, UIConfig};
use edcs::debug_area::DebugArea;
use edcs::input::{window_event_to_request, WindowInputEvent, WindowMouseButton};
use edcs::keymap::{virtual_key_code_to_linux_input, VirtualKeyCode};
use edcs::mirror::{ClientMirror, ControlBarState, MirrorPhase};
use edcs::schema::{EdcsMessageType, EdcsMouseButton, EdcsResponse, EdcsResponsePayload,
    EdcsSetupEdcsData, EdcsSetupStreamData, EdcsStatus, EdcsMessagePayload, EdcsKeyData};

fn dict(entries: &[(&str, &str)]) -> Vec<(String, String)> {
    entries.iter().map(|(k, v)| (k.to_string(), v.to_string())).collect()
}

fn client_config() -> ClientConfig {
    ClientConfig {
        host: "192.168.1.20".to_string(),
        domain: "edcs.local".to_string(),
        port: 47000,
        cert: "certs/ca.pem".to_string(),
        disable_tls_verification: false,
    }
}

fn connection_config() -> ConnectionConfig {
    ConnectionConfig {
        stream_config: StreamConfig {
            bitrate: 10_000_000,
            framerate: 60,
            cal_plugin_params: Vec::new(),
        },
        client_config: client_config(),
        ui_config: UIConfig { host_cursor: false },
    }
}

/// A high-rate burst of input events interleaved with state-changing
/// requests: the input events never lead to a `recv` entry, and every
/// state-changing request awaits its response, so none is lost.
#[test]
fn input_events_produce_no_recv_entries() {
    let mut recv_entries = 0u32;
    let mut awaited = 0u32;
    for i in 0..3000u32 {
        let req: ChannelEdcsRequest = if i % 1000 == 999 {
            ChannelEdcsRequest::StartStream
        } else if i % 3 == 0 {
            ChannelEdcsRequest::WriteMouseMove { x: i, y: i + 1 }
        } else if i % 3 == 1 {
            ChannelEdcsRequest::WriteMouseButton {
                button_typ: EdcsMouseButton::MouseButtonLeft,
                pressed: i % 2 == 0,
            }
        } else {
            ChannelEdcsRequest::WriteKeyboardEvent { key_typ: 30, pressed: i % 2 == 0 }
        };
        let input = is_input_event(&req);
        match broker_step(req, true) {
            BrokerStep::SendAwait(_) => {
                assert!(!input);
                recv_entries += 1;
                awaited += 1;
            }
            BrokerStep::SendOnly(_) => assert!(input),
            BrokerStep::Connect(_) | BrokerStep::ReplyInvalidClient => {
                panic!("unexpected step for this sequence")
            }
            BrokerStep::DropSilently => panic!("a live client drops nothing"),
        }
    }
    // all three state-changing requests were awaited; nothing else reached recv
    assert_eq!(recv_entries, 3);
    assert_eq!(awaited, 3);
}

#[test]
fn requests_without_a_client_are_answered_invalid() {
    let step = broker_step(ChannelEdcsRequest::StartStream, false);
    assert!(matches!(step, BrokerStep::ReplyInvalidClient));
    let step = broker_step(
        ChannelEdcsRequest::WriteMouseMove { x: 1, y: 2 },
        false,
    );
    assert!(matches!(step, BrokerStep::DropSilently));
    let step = broker_step(ChannelEdcsRequest::NewClient(client_config()), false);
    assert!(matches!(step, BrokerStep::Connect(_)));
}

#[test]
fn requests_become_their_messages() {
    let m = request_message(&ChannelEdcsRequest::SetupEdcs { bitrate: 10_000_000, framerate: 60 })
        .unwrap();
    assert_eq!(m.message_type, EdcsMessageType::SetupEdcs);
    let m = request_message(&ChannelEdcsRequest::WriteMouseButton {
        button_typ: EdcsMouseButton::MouseButtonMiddle,
        pressed: true,
    })
    .unwrap();
    match m.payload {
        Some(EdcsMessagePayload::MouseEvent(edcs::schema::EdcsMouseEvent::Button(k))) => {
            assert_eq!(k, EdcsKeyData { btn_typ: 2, pressed: true });
        }
        other => panic!("wrong payload {:?}", other),
    }
    assert!(request_message(&ChannelEdcsRequest::NewClient(client_config())).is_none());
}

/// The mirror walks Idle, Connecting, AwaitSetupEdcs, AwaitSetupStream,
/// Handoff, merging the capability dictionary and keeping one request in
/// flight at a time.
#[test]
fn mirror_walks_the_setup_phases() {
    let mut m = ClientMirror::new();
    assert_eq!(m.phase(), MirrorPhase::Idle);
    assert!(m.next_request().is_none());

    m.connect(connection_config());
    assert_eq!(m.phase(), MirrorPhase::Connecting);

    let req = m.next_request().unwrap();
    assert!(matches!(req, ChannelEdcsRequest::NewClient(_)));
    // in flight: nothing further until the response arrives
    assert!(m.pending_recv());
    assert!(m.next_request().is_none());

    m.handle_response(&ChannelEdcsResponse::EdcsClientInitialised);
    assert_eq!(m.phase(), MirrorPhase::AwaitSetupEdcs);
    assert!(!m.pending_recv());

    match m.next_request().unwrap() {
        ChannelEdcsRequest::SetupEdcs { bitrate, framerate } => {
            assert_eq!((bitrate, framerate), (10_000_000, 60));
        }
        other => panic!("wrong request {:?}", other),
    }

    m.handle_response(&ChannelEdcsResponse::EdcsResponse(Ok(EdcsResponse {
        status: EdcsStatus::EdcsOk,
        payload: Some(EdcsResponsePayload::SetupEdcsData(EdcsSetupEdcsData {
            cal_option_dict: dict(&[("vgpuId", "")]),
        })),
    })));
    assert_eq!(m.phase(), MirrorPhase::AwaitSetupStream);

    // the dictionary was merged into the stream configuration
    match m.next_request().unwrap() {
        ChannelEdcsRequest::SetupStream(d) => assert_eq!(d, dict(&[("vgpuId", "")])),
        other => panic!("wrong request {:?}", other),
    }

    m.handle_response(&ChannelEdcsResponse::EdcsResponse(Ok(EdcsResponse {
        status: EdcsStatus::EdcsOk,
        payload: Some(EdcsResponsePayload::SetupStreamData(EdcsSetupStreamData {
            out_stream_params: None,
            sdp: "v=0...".to_string(),
        })),
    })));
    assert_eq!(m.phase(), MirrorPhase::Handoff);
    assert_eq!(m.sdp().unwrap(), "v=0...");
    assert!(m.next_request().is_none());
}

#[test]
fn mirror_reverts_to_idle_on_failure() {
    let mut m = ClientMirror::new();
    m.connect(connection_config());
    m.next_request().unwrap();
    m.handle_response(&ChannelEdcsResponse::EdcsClientInitError("refused".to_string()));
    assert_eq!(m.phase(), MirrorPhase::Idle);

    let mut m = ClientMirror::new();
    m.connect(connection_config());
    m.next_request().unwrap();
    m.handle_response(&ChannelEdcsResponse::EdcsClientInitialised);
    m.next_request().unwrap();
    m.handle_response(&ChannelEdcsResponse::EdcsResponse(Ok(EdcsResponse {
        status: EdcsStatus::EdssErr,
        payload: Some(EdcsResponsePayload::EdssErrData(2)),
    })));
    assert_eq!(m.phase(), MirrorPhase::Idle);
}

#[test]
fn window_events_become_requests() {
    match window_event_to_request(WindowInputEvent::CursorMoved { x: 100, y: 200 }) {
        Some(ChannelEdcsRequest::WriteMouseMove { x, y }) => assert_eq!((x, y), (100, 200)),
        other => panic!("wrong request {:?}", other),
    }
    match window_event_to_request(WindowInputEvent::MouseInput {
        button: WindowMouseButton::Right,
        pressed: true,
    }) {
        Some(ChannelEdcsRequest::WriteMouseButton { button_typ, pressed }) => {
            assert_eq!(button_typ, EdcsMouseButton::MouseButtonRight);
            assert!(pressed);
        }
        other => panic!("wrong request {:?}", other),
    }
    assert!(window_event_to_request(WindowInputEvent::MouseInput {
        button: WindowMouseButton::Other,
        pressed: true,
    })
    .is_none());
    match window_event_to_request(WindowInputEvent::KeyboardInput {
        key: Some(VirtualKeyCode::A),
        pressed: true,
    }) {
        Some(ChannelEdcsRequest::WriteKeyboardEvent { key_typ, pressed }) => {
            assert_eq!(key_typ, input_linux_sys::KEY_A as u32);
            assert!(pressed);
        }
        other => panic!("wrong request {:?}", other),
    }
    // a key without a Linux counterpart is dropped
    assert!(window_event_to_request(WindowInputEvent::KeyboardInput {
        key: Some(VirtualKeyCode::Caret),
        pressed: true,
    })
    .is_none());
    match window_event_to_request(WindowInputEvent::ModifiersChanged { logo: true }) {
        Some(ChannelEdcsRequest::WriteKeyboardEvent { key_typ, pressed }) => {
            assert_eq!(key_typ, input_linux_sys::KEY_LEFTMETA as u32);
            assert!(pressed);
        }
        other => panic!("wrong request {:?}", other),
    }
}

#[test]
fn key_codes_match_the_linux_event_codes() {
    let cases: &[(VirtualKeyCode, i32)] = &[
        (VirtualKeyCode::Key1, input_linux_sys::KEY_1),
        (VirtualKeyCode::Key0, input_linux_sys::KEY_0),
        (VirtualKeyCode::A, input_linux_sys::KEY_A),
        (VirtualKeyCode::Z, input_linux_sys::KEY_Z),
        (VirtualKeyCode::Escape, input_linux_sys::KEY_ESC),
        (VirtualKeyCode::F1, input_linux_sys::KEY_F1),
        (VirtualKeyCode::F24, input_linux_sys::KEY_F24),
        (VirtualKeyCode::Snapshot, input_linux_sys::KEY_PRINT),
        (VirtualKeyCode::Back, input_linux_sys::KEY_BACKSPACE),
        (VirtualKeyCode::Return, input_linux_sys::KEY_ENTER),
        (VirtualKeyCode::Space, input_linux_sys::KEY_SPACE),
        (VirtualKeyCode::Numpad0, input_linux_sys::KEY_NUMERIC_0),
        (VirtualKeyCode::NumpadEnter, input_linux_sys::KEY_KPENTER),
        (VirtualKeyCode::LAlt, input_linux_sys::KEY_LEFTALT),
        (VirtualKeyCode::LWin, input_linux_sys::KEY_LEFTMETA),
        (VirtualKeyCode::RShift, input_linux_sys::KEY_RIGHTSHIFT),
        (VirtualKeyCode::Semicolon, input_linux_sys::KEY_SEMICOLON),
        (VirtualKeyCode::Tab, input_linux_sys::KEY_TAB),
        (VirtualKeyCode::VolumeUp, input_linux_sys::KEY_VOLUMEUP),
        (VirtualKeyCode::WebSearch, input_linux_sys::KEY_SEARCH),
        (VirtualKeyCode::Cut, input_linux_sys::KEY_CUT),
    ];
    for (vkc, expected) in cases {
        assert!(vkc.has_linux_mapping());
        assert_eq!(virtual_key_code_to_linux_input(*vkc), *expected as u32, "{:?}", vkc);
    }
    for vkc in [VirtualKeyCode::Caret, VirtualKeyCode::Colon, VirtualKeyCode::OEM102] {
        assert!(!vkc.has_linux_mapping());
    }
}

#[test]
fn debug_area_keeps_the_oldest_messages() {
    let mut d = DebugArea::new(2);
    d.push("first");
    d.push("second");
    d.push("third");
    assert_eq!(d.len(), 2);
    assert_eq!(d.message_at(0).as_str(), "first");
    assert_eq!(d.message_at(1).as_str(), "third");
}

#[test]
fn debug_area_chord_hides_and_reveals() {
    let mut d = DebugArea::new(4);
    assert!(!d.hidden());
    d.handle_window_event(Some(VirtualKeyCode::LControl), true);
    d.handle_window_event(Some(VirtualKeyCode::LAlt), true);
    d.handle_window_event(Some(VirtualKeyCode::Semicolon), true);
    assert!(d.hidden());
    // another unrelated key leaves the finished chord in place
    d.handle_window_event(Some(VirtualKeyCode::B), true);
    assert!(d.hidden());
    // the chord again clears its first flag
    d.handle_window_event(Some(VirtualKeyCode::RControl), true);
    assert!(!d.hidden());
    // a partially cleared chord resets on any other key
    d.handle_window_event(Some(VirtualKeyCode::C), true);
    d.handle_window_event(Some(VirtualKeyCode::LAlt), true);
    assert!(!d.hidden());
}

/// The native decoder is created from the SDP string the mirror hands off;
/// the C++ bridge itself lives outside this library, so what is checked here
/// is the handoff the decoder is initialised from.
#[test]
fn init_decoder_bridge() {
    let mut m = ClientMirror::new();
    m.connect(connection_config());
    m.next_request().unwrap();
    m.handle_response(&ChannelEdcsResponse::EdcsClientInitialised);
    m.next_request().unwrap();
    m.handle_response(&ChannelEdcsResponse::EdcsResponse(Ok(EdcsResponse {
        status: EdcsStatus::EdcsOk,
        payload: Some(EdcsResponsePayload::SetupStreamData(EdcsSetupStreamData {
            out_stream_params: None,
            sdp: "bla".to_string(),
        })),
    })));
    let decoder_input = m.sdp();
    assert_eq!(decoder_input.is_none(), false);
    assert_eq!(decoder_input.unwrap(), "bla");
}

/// With a limit of zero every older entry is evicted and only the newest
/// message survives.
#[test]
fn debug_area_with_zero_limit_keeps_the_newest_message() {
    let mut d = DebugArea::new(0);
    d.push("first");
    d.push("second");
    assert_eq!(d.len(), 1);
    assert_eq!(d.message_at(0).as_str(), "second");
}

/// The control bar asks for the stream start only while the decoder is
/// ready and the stream has not started, and marks it started on the bare
/// success response.
#[test]
fn control_bar_gates_the_stream_start() {
    let mut gate = ControlBarState::new();
    assert!(!gate.stream_started());
    assert!(!gate.should_request_start(false));
    assert!(gate.should_request_start(true));

    // a response with a payload does not start the stream
    gate.handle_response(&ChannelEdcsResponse::EdcsResponse(Ok(EdcsResponse {
        status: EdcsStatus::EdcsOk,
        payload: Some(EdcsResponsePayload::EdssErrData(1)),
    })));
    assert!(!gate.stream_started());

    // the bare success response does
    gate.handle_response(&ChannelEdcsResponse::EdcsResponse(Ok(EdcsResponse {
        status: EdcsStatus::EdcsOk,
        payload: None,
    })));
    assert!(gate.stream_started());
    assert!(!gate.should_request_start(true));
}
