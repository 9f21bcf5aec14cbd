//! Protocol schema: message types, payload variants and status codes carried
//! on the control channel, together with their mathematical views.

use vstd::prelude::*;

verus! {

/// Discriminator of a control-channel request.
#[derive(Clone, Copy, Debug, PartialEq, Eq, Structural)]
pub enum EdcsMessageType {
    SetupEdcs,
    SetupStream,
    StartStream,
    CloseStream,
    UpdateStream,
    WriteMouseEvent,
    WriteKeyboardEvent,
}

impl EdcsMessageType {
    /// Wire code of this message type.
    pub open spec fn spec_code(self) -> u8 {
        match self {
            EdcsMessageType::SetupEdcs => 0,
            EdcsMessageType::SetupStream => 1,
            EdcsMessageType::StartStream => 2,
            EdcsMessageType::CloseStream => 3,
            EdcsMessageType::UpdateStream => 4,
            EdcsMessageType::WriteMouseEvent => 5,
            EdcsMessageType::WriteKeyboardEvent => 6,
        }
    }

    /// The message type a wire code stands for, if any.
    pub open spec fn spec_from_code(c: u8) -> Option<EdcsMessageType> {
        if c == 0 {
            Some(EdcsMessageType::SetupEdcs)
        } else if c == 1 {
            Some(EdcsMessageType::SetupStream)
        } else if c == 2 {
            Some(EdcsMessageType::StartStream)
        } else if c == 3 {
            Some(EdcsMessageType::CloseStream)
        } else if c == 4 {
            Some(EdcsMessageType::UpdateStream)
        } else if c == 5 {
            Some(EdcsMessageType::WriteMouseEvent)
        } else if c == 6 {
            Some(EdcsMessageType::WriteKeyboardEvent)
        } else {
            None
        }
    }

    pub fn code(self) -> (r: u8)
        ensures
            r == self.spec_code(),
    {
        match self {
            EdcsMessageType::SetupEdcs => 0,
            EdcsMessageType::SetupStream => 1,
            EdcsMessageType::StartStream => 2,
            EdcsMessageType::CloseStream => 3,
            EdcsMessageType::UpdateStream => 4,
            EdcsMessageType::WriteMouseEvent => 5,
            EdcsMessageType::WriteKeyboardEvent => 6,
        }
    }

    pub fn from_code(c: u8) -> (r: Option<EdcsMessageType>)
        ensures
            r == Self::spec_from_code(c),
    {
        match c {
            0 => Some(EdcsMessageType::SetupEdcs),
            1 => Some(EdcsMessageType::SetupStream),
            2 => Some(EdcsMessageType::StartStream),
            3 => Some(EdcsMessageType::CloseStream),
            4 => Some(EdcsMessageType::UpdateStream),
            5 => Some(EdcsMessageType::WriteMouseEvent),
            6 => Some(EdcsMessageType::WriteKeyboardEvent),
            _ => None,
        }
    }

    /// The two out-of-band input events: fire-and-forget, no response owed.
    pub open spec fn spec_is_input_event(self) -> bool {
        self == EdcsMessageType::WriteMouseEvent || self == EdcsMessageType::WriteKeyboardEvent
    }

    pub fn is_input_event(self) -> (r: bool)
        ensures
            r == self.spec_is_input_event(),
    {
        match self {
            EdcsMessageType::WriteMouseEvent => true,
            EdcsMessageType::WriteKeyboardEvent => true,
            _ => false,
        }
    }
}

/// Status of a control-channel response.
#[derive(Clone, Copy, Debug, PartialEq, Eq, Structural)]
pub enum EdcsStatus {
    EdcsOk,
    InvalidRequest,
    UninitialisedEdss,
    EdcsAlreadySetup,
    StreamAlreadySetup,
    StreamAlreadyStarted,
    StreamNotStarted,
    EdssErr,
}

impl EdcsStatus {
    /// Wire code of this status.
    pub open spec fn spec_code(self) -> u8 {
        match self {
            EdcsStatus::EdcsOk => 0,
            EdcsStatus::InvalidRequest => 1,
            EdcsStatus::UninitialisedEdss => 2,
            EdcsStatus::EdcsAlreadySetup => 3,
            EdcsStatus::StreamAlreadySetup => 4,
            EdcsStatus::StreamAlreadyStarted => 5,
            EdcsStatus::StreamNotStarted => 6,
            EdcsStatus::EdssErr => 7,
        }
    }

    /// The status a wire code stands for, if any.
    pub open spec fn spec_from_code(c: u8) -> Option<EdcsStatus> {
        if c == 0 {
            Some(EdcsStatus::EdcsOk)
        } else if c == 1 {
            Some(EdcsStatus::InvalidRequest)
        } else if c == 2 {
            Some(EdcsStatus::UninitialisedEdss)
        } else if c == 3 {
            Some(EdcsStatus::EdcsAlreadySetup)
        } else if c == 4 {
            Some(EdcsStatus::StreamAlreadySetup)
        } else if c == 5 {
            Some(EdcsStatus::StreamAlreadyStarted)
        } else if c == 6 {
            Some(EdcsStatus::StreamNotStarted)
        } else if c == 7 {
            Some(EdcsStatus::EdssErr)
        } else {
            None
        }
    }

    pub fn code(self) -> (r: u8)
        ensures
            r == self.spec_code(),
    {
        match self {
            EdcsStatus::EdcsOk => 0,
            EdcsStatus::InvalidRequest => 1,
            EdcsStatus::UninitialisedEdss => 2,
            EdcsStatus::EdcsAlreadySetup => 3,
            EdcsStatus::StreamAlreadySetup => 4,
            EdcsStatus::StreamAlreadyStarted => 5,
            EdcsStatus::StreamNotStarted => 6,
            EdcsStatus::EdssErr => 7,
        }
    }

    pub fn from_code(c: u8) -> (r: Option<EdcsStatus>)
        ensures
            r == Self::spec_from_code(c),
    {
        match c {
            0 => Some(EdcsStatus::EdcsOk),
            1 => Some(EdcsStatus::InvalidRequest),
            2 => Some(EdcsStatus::UninitialisedEdss),
            3 => Some(EdcsStatus::EdcsAlreadySetup),
            4 => Some(EdcsStatus::StreamAlreadySetup),
            5 => Some(EdcsStatus::StreamAlreadyStarted),
            6 => Some(EdcsStatus::StreamNotStarted),
            7 => Some(EdcsStatus::EdssErr),
            _ => None,
        }
    }
}

/// A mouse button the protocol can carry.
#[derive(Clone, Copy, Debug, PartialEq, Eq, Structural)]
pub enum EdcsMouseButton {
    MouseButtonLeft,
    MouseButtonRight,
    MouseButtonMiddle,
}

impl EdcsMouseButton {
    /// Ordinal of this button on the wire.
    pub open spec fn spec_ordinal(self) -> u32 {
        match self {
            EdcsMouseButton::MouseButtonLeft => 0,
            EdcsMouseButton::MouseButtonRight => 1,
            EdcsMouseButton::MouseButtonMiddle => 2,
        }
    }

    pub fn ordinal(self) -> (r: u32)
        ensures
            r == self.spec_ordinal(),
    {
        match self {
            EdcsMouseButton::MouseButtonLeft => 0,
            EdcsMouseButton::MouseButtonRight => 1,
            EdcsMouseButton::MouseButtonMiddle => 2,
        }
    }
}

/// A key or button action: an ordinal (mouse) or a Linux event code
/// (keyboard), and whether it was pressed or released.
#[derive(Clone, Copy, Debug, PartialEq, Eq, Structural)]
pub struct EdcsKeyData {
    pub btn_typ: u32,
    pub pressed: bool,
}

/// An absolute mouse position.
#[derive(Clone, Copy, Debug, PartialEq, Eq, Structural)]
pub struct EdcsMouseMove {
    pub x: u32,
    pub y: u32,
}

/// A mouse input event: a button action or a move.
#[derive(Clone, Copy, Debug, PartialEq, Eq, Structural)]
pub enum EdcsMouseEvent {
    Button(EdcsKeyData),
    Move(EdcsMouseMove),
}

/// Bitrate and framerate of the stream being set up.
#[derive(Clone, Copy, Debug, PartialEq, Eq, Structural)]
pub struct EdcsStreamParams {
    pub bitrate: u32,
    pub framerate: u32,
}

/// The capability dictionary: backend options as key/value pairs.
#[derive(Clone, Debug, PartialEq, Eq)]
pub struct EdcsCalParams {
    pub cal_option_dict: Vec<(String, String)>,
}

impl View for EdcsCalParams {
    type V = Seq<(Seq<char>, Seq<char>)>;

    open spec fn view(&self) -> Seq<(Seq<char>, Seq<char>)> {
        self.cal_option_dict.deep_view()
    }
}

/// Payload of a request, one variant per carrying message type.
#[derive(Clone, Debug, PartialEq, Eq)]
pub enum EdcsMessagePayload {
    SetupEdcsParams(EdcsStreamParams),
    SetupStreamParams(EdcsCalParams),
    MouseEvent(EdcsMouseEvent),
    KeyboardEvent(EdcsKeyData),
}

/// Mathematical view of a request payload.
pub enum MessagePayloadView {
    SetupEdcsParams(EdcsStreamParams),
    SetupStreamParams(Seq<(Seq<char>, Seq<char>)>),
    MouseEvent(EdcsMouseEvent),
    KeyboardEvent(EdcsKeyData),
}

impl View for EdcsMessagePayload {
    type V = MessagePayloadView;

    open spec fn view(&self) -> MessagePayloadView {
        match self {
            EdcsMessagePayload::SetupEdcsParams(p) => MessagePayloadView::SetupEdcsParams(*p),
            EdcsMessagePayload::SetupStreamParams(p) => MessagePayloadView::SetupStreamParams(p@),
            EdcsMessagePayload::MouseEvent(e) => MessagePayloadView::MouseEvent(*e),
            EdcsMessagePayload::KeyboardEvent(k) => MessagePayloadView::KeyboardEvent(*k),
        }
    }
}

/// A control-channel request: a message type and an optional payload.
#[derive(Clone, Debug, PartialEq, Eq)]
pub struct EdcsMessage {
    pub message_type: EdcsMessageType,
    pub payload: Option<EdcsMessagePayload>,
}

/// Mathematical view of a request.
pub struct MessageView {
    pub message_type: EdcsMessageType,
    pub payload: Option<MessagePayloadView>,
}

impl View for EdcsMessage {
    type V = MessageView;

    open spec fn view(&self) -> MessageView {
        MessageView {
            message_type: self.message_type,
            payload: match self.payload {
                Some(p) => Some(p@),
                None => None,
            },
        }
    }
}

/// Response payload to a successful `SetupEdcs`: the capability dictionary
/// retrieved from the backend.
#[derive(Clone, Debug, PartialEq, Eq)]
pub struct EdcsSetupEdcsData {
    pub cal_option_dict: Vec<(String, String)>,
}

/// Response payload to a successful `SetupStream`: the agreed stream
/// parameters and the SDP description of the media stream.
#[derive(Clone, Debug, PartialEq, Eq)]
pub struct EdcsSetupStreamData {
    pub out_stream_params: Option<EdcsStreamParams>,
    pub sdp: String,
}

/// Payload of a response.
#[derive(Clone, Debug, PartialEq, Eq)]
pub enum EdcsResponsePayload {
    SetupEdcsData(EdcsSetupEdcsData),
    SetupStreamData(EdcsSetupStreamData),
    InvalidRequestData(String),
    EdssErrData(u32),
}

/// Mathematical view of a response payload.
pub enum ResponsePayloadView {
    SetupEdcsData(Seq<(Seq<char>, Seq<char>)>),
    SetupStreamData(Option<EdcsStreamParams>, Seq<char>),
    InvalidRequestData(Seq<char>),
    EdssErrData(u32),
}

impl View for EdcsResponsePayload {
    type V = ResponsePayloadView;

    open spec fn view(&self) -> ResponsePayloadView {
        match self {
            EdcsResponsePayload::SetupEdcsData(d) => ResponsePayloadView::SetupEdcsData(
                d.cal_option_dict.deep_view(),
            ),
            EdcsResponsePayload::SetupStreamData(d) => ResponsePayloadView::SetupStreamData(
                d.out_stream_params,
                d.sdp@,
            ),
            EdcsResponsePayload::InvalidRequestData(s) => ResponsePayloadView::InvalidRequestData(
                s@,
            ),
            EdcsResponsePayload::EdssErrData(c) => ResponsePayloadView::EdssErrData(*c),
        }
    }
}

/// A control-channel response: a status and an optional payload.
#[derive(Clone, Debug, PartialEq, Eq)]
pub struct EdcsResponse {
    pub status: EdcsStatus,
    pub payload: Option<EdcsResponsePayload>,
}

/// Mathematical view of a response.
pub struct ResponseView {
    pub status: EdcsStatus,
    pub payload: Option<ResponsePayloadView>,
}

impl View for EdcsResponse {
    type V = ResponseView;

    open spec fn view(&self) -> ResponseView {
        ResponseView {
            status: self.status,
            payload: match self.payload {
                Some(p) => Some(p@),
                None => None,
            },
        }
    }
}

} // verus!
