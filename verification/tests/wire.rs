//! The schema codec: every request and response decodes back to itself, and
//! malformed bytes are refused.

use edcs::schema::{EdcsCalParams, EdcsKeyData, EdcsMessage, EdcsMessagePayload, EdcsMessageType,
    EdcsMouseEvent, EdcsMouseMove, EdcsResponse, EdcsResponsePayload, EdcsSetupEdcsData,
    EdcsSetupStreamData, EdcsStatus, EdcsStreamParams};
use edcs::codec::{encode_frame, FrameError};
use edcs::wire::{decode_message, decode_message_frame, decode_response, decode_response_frame,
    encode_message, encode_response};

fn dict(entries: &[(&str, &str)]) -> Vec<(String, String)> {
    entries.iter().map(|(k, v)| (k.to_string(), v.to_string())).collect()
}

fn message_round_trip(m: EdcsMessage) {
    let bytes = encode_message(&m);
    let back = decode_message(&bytes).expect("a message the library encoded must decode");
    assert_eq!(back, m);
}

fn response_round_trip(r: EdcsResponse) {
    let bytes = encode_response(&r);
    let back = decode_response(&bytes).expect("a response the library encoded must decode");
    assert_eq!(back, r);
}

#[test]
fn keyboard_event_has_expected_bytes() {
    let m = EdcsMessage {
        message_type: EdcsMessageType::WriteKeyboardEvent,
        payload: Some(EdcsMessagePayload::KeyboardEvent(EdcsKeyData {
            btn_typ: 30,
            pressed: true,
        })),
    };
    assert_eq!(encode_message(&m), vec![6, 1, 3, 30, 1]);
}

#[test]
fn bare_start_stream_has_expected_bytes() {
    let m = EdcsMessage { message_type: EdcsMessageType::StartStream, payload: None };
    assert_eq!(encode_message(&m), vec![2, 0]);
}

#[test]
fn status_only_response_has_expected_bytes() {
    let r = EdcsResponse { status: EdcsStatus::EdcsOk, payload: None };
    assert_eq!(encode_response(&r), vec![0, 0]);
}

#[test]
fn setup_stream_request_has_expected_bytes() {
    let m = EdcsMessage {
        message_type: EdcsMessageType::SetupStream,
        payload: Some(EdcsMessagePayload::SetupStreamParams(EdcsCalParams {
            cal_option_dict: dict(&[("a", "b")]),
        })),
    };
    assert_eq!(encode_message(&m), vec![1, 1, 1, 1, 1, 97, 1, 98]);
}

#[test]
fn every_request_variant_round_trips() {
    message_round_trip(EdcsMessage {
        message_type: EdcsMessageType::SetupEdcs,
        payload: Some(EdcsMessagePayload::SetupEdcsParams(EdcsStreamParams {
            bitrate: 10_000_000,
            framerate: 60,
        })),
    });
    message_round_trip(EdcsMessage {
        message_type: EdcsMessageType::SetupStream,
        payload: Some(EdcsMessagePayload::SetupStreamParams(EdcsCalParams {
            cal_option_dict: dict(&[("vgpuId", "2"), ("unicode", "ün🎥")]),
        })),
    });
    message_round_trip(EdcsMessage {
        message_type: EdcsMessageType::StartStream,
        payload: None,
    });
    message_round_trip(EdcsMessage {
        message_type: EdcsMessageType::CloseStream,
        payload: None,
    });
    message_round_trip(EdcsMessage {
        message_type: EdcsMessageType::UpdateStream,
        payload: None,
    });
    message_round_trip(EdcsMessage {
        message_type: EdcsMessageType::WriteMouseEvent,
        payload: Some(EdcsMessagePayload::MouseEvent(EdcsMouseEvent::Move(EdcsMouseMove {
            x: 100,
            y: 200,
        }))),
    });
    message_round_trip(EdcsMessage {
        message_type: EdcsMessageType::WriteMouseEvent,
        payload: Some(EdcsMessagePayload::MouseEvent(EdcsMouseEvent::Button(EdcsKeyData {
            btn_typ: 1,
            pressed: false,
        }))),
    });
    message_round_trip(EdcsMessage {
        message_type: EdcsMessageType::WriteKeyboardEvent,
        payload: Some(EdcsMessagePayload::KeyboardEvent(EdcsKeyData {
            btn_typ: 0,
            pressed: false,
        })),
    });
}

#[test]
fn every_response_variant_round_trips() {
    response_round_trip(EdcsResponse { status: EdcsStatus::EdcsOk, payload: None });
    response_round_trip(EdcsResponse {
        status: EdcsStatus::EdcsOk,
        payload: Some(EdcsResponsePayload::SetupEdcsData(EdcsSetupEdcsData {
            cal_option_dict: dict(&[("vgpuId", "")]),
        })),
    });
    response_round_trip(EdcsResponse {
        status: EdcsStatus::EdcsOk,
        payload: Some(EdcsResponsePayload::SetupStreamData(EdcsSetupStreamData {
            out_stream_params: Some(EdcsStreamParams { bitrate: 10_000_000, framerate: 60 }),
            sdp: "v=0\r\no=- 0 0 IN IP4 127.0.0.1".to_string(),
        })),
    });
    response_round_trip(EdcsResponse {
        status: EdcsStatus::EdcsOk,
        payload: Some(EdcsResponsePayload::SetupStreamData(EdcsSetupStreamData {
            out_stream_params: None,
            sdp: String::new(),
        })),
    });
    response_round_trip(EdcsResponse {
        status: EdcsStatus::InvalidRequest,
        payload: Some(EdcsResponsePayload::InvalidRequestData("bad payload".to_string())),
    });
    response_round_trip(EdcsResponse {
        status: EdcsStatus::EdssErr,
        payload: Some(EdcsResponsePayload::EdssErrData(3)),
    });
    for status in [
        EdcsStatus::EdcsOk,
        EdcsStatus::InvalidRequest,
        EdcsStatus::UninitialisedEdss,
        EdcsStatus::EdcsAlreadySetup,
        EdcsStatus::StreamAlreadySetup,
        EdcsStatus::StreamAlreadyStarted,
        EdcsStatus::StreamNotStarted,
        EdcsStatus::EdssErr,
    ] {
        response_round_trip(EdcsResponse { status, payload: None });
    }
}

#[test]
fn unknown_message_type_is_refused() {
    assert!(decode_message(&[7, 0]).is_none());
}

#[test]
fn unknown_status_is_refused() {
    assert!(decode_response(&[8, 0]).is_none());
}

#[test]
fn trailing_bytes_are_refused() {
    assert!(decode_message(&[2, 0, 0]).is_none());
}

#[test]
fn short_message_is_refused() {
    assert!(decode_message(&[2]).is_none());
    assert!(decode_message(&[]).is_none());
}

#[test]
fn invalid_utf8_in_a_string_is_refused() {
    // SetupStream, payload present, dict variant, one entry whose key is one
    // byte 0xFF: not UTF-8
    let bytes = vec![1, 1, 1, 1, 1, 0xFF, 1, 98];
    assert!(decode_message(&bytes).is_none());
}

#[test]
fn bad_payload_variant_tag_is_refused() {
    assert!(decode_message(&[0, 1, 9]).is_none());
}

#[test]
fn framed_message_round_trips() {
    let m = EdcsMessage {
        message_type: EdcsMessageType::SetupEdcs,
        payload: Some(EdcsMessagePayload::SetupEdcsParams(EdcsStreamParams {
            bitrate: 10_000_000,
            framerate: 60,
        })),
    };
    let frame = encode_frame(&encode_message(&m));
    let (back, used) = decode_message_frame(&frame, 1 << 20).unwrap();
    assert_eq!(back, m);
    assert_eq!(used, frame.len());
}

#[test]
fn framed_response_round_trips() {
    let r = EdcsResponse {
        status: EdcsStatus::EdssErr,
        payload: Some(EdcsResponsePayload::EdssErrData(4)),
    };
    let frame = encode_frame(&encode_response(&r));
    let (back, used) = decode_response_frame(&frame, 1 << 20).unwrap();
    assert_eq!(back, r);
    assert_eq!(used, frame.len());
}

#[test]
fn sound_frame_with_undecodable_payload_is_malformed_payload() {
    let frame = encode_frame(&[99]);
    assert_eq!(decode_message_frame(&frame, 1 << 20), Err(FrameError::MalformedPayload));
}
